//! Symbology and configuration enumerations, and the enabled-set model that
//! scanners, processors and decoders share.

use vstd::prelude::*;

verus! {

/// A barcode symbology (encoding standard). `ZBAR_NONE` acts as a wildcard
/// in configuration calls: it addresses every symbology at once.
#[allow(non_camel_case_types)]
#[derive(Clone, Copy, Debug, PartialEq, Eq, Structural, Hash)]
pub enum ZBarSymbolType {
    ZBAR_NONE,
    ZBAR_PARTIAL,
    ZBAR_EAN2,
    ZBAR_EAN5,
    ZBAR_EAN8,
    ZBAR_UPCE,
    ZBAR_ISBN10,
    ZBAR_UPCA,
    ZBAR_EAN13,
    ZBAR_ISBN13,
    ZBAR_COMPOSITE,
    ZBAR_I25,
    ZBAR_DATABAR,
    ZBAR_DATABAR_EXP,
    ZBAR_CODABAR,
    ZBAR_CODE39,
    ZBAR_PDF417,
    ZBAR_QRCODE,
    ZBAR_SQCODE,
    ZBAR_CODE93,
    ZBAR_CODE128,
}

/// A per-symbology configuration option.
#[allow(non_camel_case_types)]
#[derive(Clone, Copy, Debug, PartialEq, Eq, Structural, Hash)]
pub enum ZBarConfig {
    ZBAR_CFG_ENABLE,
    ZBAR_CFG_ADD_CHECK,
    ZBAR_CFG_EMIT_CHECK,
    ZBAR_CFG_ASCII,
    ZBAR_CFG_NUM,
    ZBAR_CFG_MIN_LEN,
    ZBAR_CFG_MAX_LEN,
    ZBAR_CFG_UNCERTAINTY,
    ZBAR_CFG_POSITION,
    ZBAR_CFG_X_DENSITY,
    ZBAR_CFG_Y_DENSITY,
}

/// The two pixel colors a decoder distinguishes.
#[allow(non_camel_case_types)]
#[derive(Clone, Copy, Debug, PartialEq, Eq, Structural, Hash)]
pub enum ZBarColor {
    ZBAR_SPACE,
    ZBAR_BAR,
}

/// The coarse orientation of a decoded symbol.
#[allow(non_camel_case_types)]
#[derive(Clone, Copy, Debug, PartialEq, Eq, Structural, Hash)]
pub enum ZBarOrientation {
    ZBAR_ORIENT_UNKNOWN,
    ZBAR_ORIENT_UP,
    ZBAR_ORIENT_RIGHT,
    ZBAR_ORIENT_DOWN,
    ZBAR_ORIENT_LEFT,
}

/// Decode modifiers a symbol can carry.
#[allow(non_camel_case_types)]
#[derive(Clone, Copy, Debug, PartialEq, Eq, Structural, Hash)]
pub enum ZBarModifier {
    ZBAR_MOD_GS1,
    ZBAR_MOD_AIM,
}

/// The engine's display name of a symbology, as a spec-level map.
pub open spec fn symbol_name_view(symbol_type: ZBarSymbolType) -> Seq<char> {
    match symbol_type {
        ZBarSymbolType::ZBAR_NONE => "None"@,
        ZBarSymbolType::ZBAR_PARTIAL => "Partial"@,
        ZBarSymbolType::ZBAR_EAN2 => "EAN-2"@,
        ZBarSymbolType::ZBAR_EAN5 => "EAN-5"@,
        ZBarSymbolType::ZBAR_EAN8 => "EAN-8"@,
        ZBarSymbolType::ZBAR_UPCE => "UPC-E"@,
        ZBarSymbolType::ZBAR_ISBN10 => "ISBN-10"@,
        ZBarSymbolType::ZBAR_UPCA => "UPC-A"@,
        ZBarSymbolType::ZBAR_EAN13 => "EAN-13"@,
        ZBarSymbolType::ZBAR_ISBN13 => "ISBN-13"@,
        ZBarSymbolType::ZBAR_COMPOSITE => "COMPOSITE"@,
        ZBarSymbolType::ZBAR_I25 => "I2/5"@,
        ZBarSymbolType::ZBAR_DATABAR => "DataBar"@,
        ZBarSymbolType::ZBAR_DATABAR_EXP => "DataBar-Exp"@,
        ZBarSymbolType::ZBAR_CODABAR => "Codabar"@,
        ZBarSymbolType::ZBAR_CODE39 => "CODE-39"@,
        ZBarSymbolType::ZBAR_PDF417 => "PDF417"@,
        ZBarSymbolType::ZBAR_QRCODE => "QR-Code"@,
        ZBarSymbolType::ZBAR_SQCODE => "SQ-Code"@,
        ZBarSymbolType::ZBAR_CODE93 => "CODE-93"@,
        ZBarSymbolType::ZBAR_CODE128 => "CODE-128"@,
    }
}

/// Returns the engine's display name of a symbology.
pub fn symbol_name(symbol_type: ZBarSymbolType) -> (r: &'static str)
    ensures
        r@ == symbol_name_view(symbol_type),
{
    match symbol_type {
        ZBarSymbolType::ZBAR_NONE => "None",
        ZBarSymbolType::ZBAR_PARTIAL => "Partial",
        ZBarSymbolType::ZBAR_EAN2 => "EAN-2",
        ZBarSymbolType::ZBAR_EAN5 => "EAN-5",
        ZBarSymbolType::ZBAR_EAN8 => "EAN-8",
        ZBarSymbolType::ZBAR_UPCE => "UPC-E",
        ZBarSymbolType::ZBAR_ISBN10 => "ISBN-10",
        ZBarSymbolType::ZBAR_UPCA => "UPC-A",
        ZBarSymbolType::ZBAR_EAN13 => "EAN-13",
        ZBarSymbolType::ZBAR_ISBN13 => "ISBN-13",
        ZBarSymbolType::ZBAR_COMPOSITE => "COMPOSITE",
        ZBarSymbolType::ZBAR_I25 => "I2/5",
        ZBarSymbolType::ZBAR_DATABAR => "DataBar",
        ZBarSymbolType::ZBAR_DATABAR_EXP => "DataBar-Exp",
        ZBarSymbolType::ZBAR_CODABAR => "Codabar",
        ZBarSymbolType::ZBAR_CODE39 => "CODE-39",
        ZBarSymbolType::ZBAR_PDF417 => "PDF417",
        ZBarSymbolType::ZBAR_QRCODE => "QR-Code",
        ZBarSymbolType::ZBAR_SQCODE => "SQ-Code",
        ZBarSymbolType::ZBAR_CODE93 => "CODE-93",
        ZBarSymbolType::ZBAR_CODE128 => "CODE-128",
    }
}

/// The engine's name of a configuration option, as a spec-level map.
pub open spec fn config_name_view(config: ZBarConfig) -> Seq<char> {
    match config {
        ZBarConfig::ZBAR_CFG_ENABLE => "ENABLE"@,
        ZBarConfig::ZBAR_CFG_ADD_CHECK => "ADD_CHECK"@,
        ZBarConfig::ZBAR_CFG_EMIT_CHECK => "EMIT_CHECK"@,
        ZBarConfig::ZBAR_CFG_ASCII => "ASCII"@,
        ZBarConfig::ZBAR_CFG_NUM => "NUM"@,
        ZBarConfig::ZBAR_CFG_MIN_LEN => "MIN_LEN"@,
        ZBarConfig::ZBAR_CFG_MAX_LEN => "MAX_LEN"@,
        ZBarConfig::ZBAR_CFG_UNCERTAINTY => "UNCERTAINTY"@,
        ZBarConfig::ZBAR_CFG_POSITION => "POSITION"@,
        ZBarConfig::ZBAR_CFG_X_DENSITY => "X_DENSITY"@,
        ZBarConfig::ZBAR_CFG_Y_DENSITY => "Y_DENSITY"@,
    }
}

/// Returns the engine's name of a configuration option.
pub fn config_name(config: ZBarConfig) -> (r: &'static str)
    ensures
        r@ == config_name_view(config),
{
    match config {
        ZBarConfig::ZBAR_CFG_ENABLE => "ENABLE",
        ZBarConfig::ZBAR_CFG_ADD_CHECK => "ADD_CHECK",
        ZBarConfig::ZBAR_CFG_EMIT_CHECK => "EMIT_CHECK",
        ZBarConfig::ZBAR_CFG_ASCII => "ASCII",
        ZBarConfig::ZBAR_CFG_NUM => "NUM",
        ZBarConfig::ZBAR_CFG_MIN_LEN => "MIN_LEN",
        ZBarConfig::ZBAR_CFG_MAX_LEN => "MAX_LEN",
        ZBarConfig::ZBAR_CFG_UNCERTAINTY => "UNCERTAINTY",
        ZBarConfig::ZBAR_CFG_POSITION => "POSITION",
        ZBarConfig::ZBAR_CFG_X_DENSITY => "X_DENSITY",
        ZBarConfig::ZBAR_CFG_Y_DENSITY => "Y_DENSITY",
    }
}

/// The engine's name of an orientation, as a spec-level map.
pub open spec fn orientation_name_view(orientation: ZBarOrientation) -> Seq<char> {
    match orientation {
        ZBarOrientation::ZBAR_ORIENT_UNKNOWN => "UNKNOWN"@,
        ZBarOrientation::ZBAR_ORIENT_UP => "UP"@,
        ZBarOrientation::ZBAR_ORIENT_RIGHT => "RIGHT"@,
        ZBarOrientation::ZBAR_ORIENT_DOWN => "DOWN"@,
        ZBarOrientation::ZBAR_ORIENT_LEFT => "LEFT"@,
    }
}

/// Returns the engine's name of an orientation.
pub fn orientation_name(orientation: ZBarOrientation) -> (r: &'static str)
    ensures
        r@ == orientation_name_view(orientation),
{
    match orientation {
        ZBarOrientation::ZBAR_ORIENT_UNKNOWN => "UNKNOWN",
        ZBarOrientation::ZBAR_ORIENT_UP => "UP",
        ZBarOrientation::ZBAR_ORIENT_RIGHT => "RIGHT",
        ZBarOrientation::ZBAR_ORIENT_DOWN => "DOWN",
        ZBarOrientation::ZBAR_ORIENT_LEFT => "LEFT",
    }
}

/// The engine's name of a decode modifier, as a spec-level map.
pub open spec fn modifier_name_view(modifier: ZBarModifier) -> Seq<char> {
    match modifier {
        ZBarModifier::ZBAR_MOD_GS1 => "GS1"@,
        ZBarModifier::ZBAR_MOD_AIM => "AIM"@,
    }
}

/// Returns the engine's name of a decode modifier.
pub fn modifier_name(modifier: ZBarModifier) -> (r: &'static str)
    ensures
        r@ == modifier_name_view(modifier),
{
    match modifier {
        ZBarModifier::ZBAR_MOD_GS1 => "GS1",
        ZBarModifier::ZBAR_MOD_AIM => "AIM",
    }
}

/// Which symbologies a scanning context decodes, together with the tuning
/// options it was handed.
///
/// Enable and disable requests are kept as a base state plus an override
/// log: a wildcard (`ZBAR_NONE`) request resets the base for every
/// symbology and clears the log, a specific request appends an override.
/// The last override of a symbology wins.
pub struct SymbologyConfig {
    /// Whether a symbology without an override entry is enabled.
    pub(crate) base: bool,
    /// Per-symbology enable overrides, applied in order.
    pub(crate) overrides: Vec<(ZBarSymbolType, bool)>,
    /// Tuning options (anything but enable/disable), kept as handed in.
    pub(crate) tuning: Vec<(ZBarSymbolType, ZBarConfig, i32)>,
}

/// The spec-level state of a [`SymbologyConfig`].
pub ghost struct SymbologyConfigModel {
    pub base: bool,
    pub overrides: Seq<(ZBarSymbolType, bool)>,
    pub tuning: Seq<(ZBarSymbolType, ZBarConfig, i32)>,
}

impl SymbologyConfigModel {
    /// Whether `symbol_type` is enabled: the last override of it wins,
    /// otherwise the base state applies.
    pub open spec fn enabled(self, symbol_type: ZBarSymbolType) -> bool
        decreases self.overrides.len(),
    {
        if self.overrides.len() == 0 {
            self.base
        } else if self.overrides.last().0 == symbol_type {
            self.overrides.last().1
        } else {
            SymbologyConfigModel {
                overrides: self.overrides.drop_last(),
                ..self
            }.enabled(symbol_type)
        }
    }

    /// The state after one configuration request.
    pub open spec fn with_config(
        self,
        symbol_type: ZBarSymbolType,
        config: ZBarConfig,
        value: i32,
    ) -> SymbologyConfigModel {
        if config == ZBarConfig::ZBAR_CFG_ENABLE {
            if symbol_type == ZBarSymbolType::ZBAR_NONE {
                SymbologyConfigModel { base: value != 0, overrides: Seq::empty(), ..self }
            } else {
                SymbologyConfigModel {
                    overrides: self.overrides.push((symbol_type, value != 0)),
                    ..self
                }
            }
        } else {
            SymbologyConfigModel { tuning: self.tuning.push((symbol_type, config, value)), ..self }
        }
    }

    /// The state after a sequence of configuration requests, applied in order.
    pub open spec fn with_config_seq(
        self,
        requests: Seq<(ZBarSymbolType, ZBarConfig, i32)>,
    ) -> SymbologyConfigModel
        decreases requests.len(),
    {
        if requests.len() == 0 {
            self
        } else {
            self.with_config_seq(requests.drop_last()).with_config(
                requests.last().0,
                requests.last().1,
                requests.last().2,
            )
        }
    }
}

impl SymbologyConfig {
    /// The spec-level state of this configuration.
    pub closed spec fn view(&self) -> SymbologyConfigModel {
        SymbologyConfigModel {
            base: self.base,
            overrides: self.overrides@,
            tuning: self.tuning@,
        }
    }

    /// A configuration with every symbology in the given base state and no
    /// overrides or tuning recorded.
    pub(crate) fn with_base(base: bool) -> (r: SymbologyConfig)
        ensures
            r@ == (SymbologyConfigModel {
                base: base,
                overrides: Seq::<(ZBarSymbolType, bool)>::empty(),
                tuning: Seq::<(ZBarSymbolType, ZBarConfig, i32)>::empty(),
            }),
    {
        let r = SymbologyConfig { base, overrides: Vec::new(), tuning: Vec::new() };
        proof {
            assert(r@.overrides =~= Seq::<(ZBarSymbolType, bool)>::empty());
            assert(r@.tuning =~= Seq::<(ZBarSymbolType, ZBarConfig, i32)>::empty());
        }
        r
    }

    /// Records one configuration request.
    pub(crate) fn apply(&mut self, symbol_type: ZBarSymbolType, config: ZBarConfig, value: i32)
        ensures
            final(self)@ == old(self)@.with_config(symbol_type, config, value),
    {
        if config == ZBarConfig::ZBAR_CFG_ENABLE {
            if symbol_type == ZBarSymbolType::ZBAR_NONE {
                self.base = value != 0;
                self.overrides = Vec::new();
                proof {
                    assert(self@.overrides =~= Seq::<(ZBarSymbolType, bool)>::empty());
                }
            } else {
                self.overrides.push((symbol_type, value != 0));
            }
        } else {
            self.tuning.push((symbol_type, config, value));
        }
    }

    /// Whether `symbol_type` is currently enabled.
    pub(crate) fn is_enabled(&self, symbol_type: ZBarSymbolType) -> (r: bool)
        ensures
            r == self@.enabled(symbol_type),
    {
        let mut i: usize = self.overrides.len();
        proof {
            assert(self.overrides@.take(i as int) =~= self.overrides@);
        }
        while i > 0
            invariant
                i <= self.overrides.len(),
                self@.enabled(symbol_type) == (SymbologyConfigModel {
                    overrides: self.overrides@.take(i as int),
                    ..self@
                }).enabled(symbol_type),
            decreases i,
        {
            i = i - 1;
            let entry = self.overrides[i];
            if entry.0 == symbol_type {
                proof {
                    assert(self.overrides@.take(i as int + 1).last() == self.overrides@[i as int]);
                }
                return entry.1;
            }
            proof {
                assert(self.overrides@.take(i as int + 1).drop_last() =~= self.overrides@.take(
                    i as int,
                ));
            }
        }
        proof {
            assert(self.overrides@.take(0) =~= Seq::<(ZBarSymbolType, bool)>::empty());
        }
        self.base
    }
}

} // verus!
