//! A bare decoding context.
//!
//! A `Decoder` owns one decoding context and its per-symbology
//! configuration. Unlike a scanner it applies no disable-all baseline:
//! a fresh decoder has every symbology enabled.

use vstd::prelude::*;
use crate::config::{SymbologyConfig, SymbologyConfigModel, ZBarConfig, ZBarSymbolType};
use crate::ZBarResult;

verus! {

/// A decoding context: its per-symbology configuration.
pub struct Decoder {
    config: SymbologyConfig,
}

impl View for Decoder {
    type V = SymbologyConfigModel;

    closed spec fn view(&self) -> SymbologyConfigModel {
        self.config@
    }
}

/// The configuration a fresh decoder starts from: every symbology
/// enabled.
pub open spec fn default_decoder_config() -> SymbologyConfigModel {
    SymbologyConfigModel {
        base: true,
        overrides: Seq::empty(),
        tuning: Seq::empty(),
    }
}

impl Decoder {
    /// Creates a decoder with every symbology enabled.
    pub fn new() -> (r: Decoder)
        ensures
            r@ == default_decoder_config(),
    {
        Decoder { config: SymbologyConfig::with_base(true) }
    }

    /// Records one configuration request. Every request the enumerations
    /// can express is understood, so this always succeeds.
    pub fn set_config(
        &mut self,
        symbol_type: ZBarSymbolType,
        config: ZBarConfig,
        value: i32,
    ) -> (r: ZBarResult<()>)
        ensures
            r is Ok,
            final(self)@ == old(self)@.with_config(symbol_type, config, value),
    {
        self.config.apply(symbol_type, config, value);
        Ok(())
    }
}

impl Default for Decoder {
    /// The same state `new` creates: every symbology enabled.
    fn default() -> (r: Decoder)
        ensures
            r@ == default_decoder_config(),
    {
        Decoder::new()
    }
}

} // verus!
