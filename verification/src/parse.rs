//! The textual configuration grammar `<symbology>.<option>=<value>`.
//!
//! A request string is tokenized on the first `.` and the first `=` after
//! it; the three parts must name a known symbology, a known option and a
//! non-negative decimal value. Anything else is rejected with a nonzero
//! status, surfaced as a `Simple` error.

use vstd::prelude::*;
use crate::config::{ZBarConfig, ZBarSymbolType};
use crate::text::{all_digits, digits_value, parse_u31, str_eq};
use crate::{ZBarErrorType, ZBarResult};

verus! {

/// The first position at or after `from` where `c` stands, or the
/// sequence's length when there is none.
pub open spec fn find_from(s: Seq<char>, c: char, from: int) -> int
    decreases s.len() - from,
{
    if from < 0 || from >= s.len() {
        s.len() as int
    } else if s[from] == c {
        from
    } else {
        find_from(s, c, from + 1)
    }
}

/// The symbology a name denotes, if any.
pub open spec fn symbology_of_name(name: Seq<char>) -> Option<ZBarSymbolType> {
    if name == "qrcode"@ {
        Some(ZBarSymbolType::ZBAR_QRCODE)
    } else if name == "code128"@ {
        Some(ZBarSymbolType::ZBAR_CODE128)
    } else if name == "code93"@ {
        Some(ZBarSymbolType::ZBAR_CODE93)
    } else if name == "code39"@ {
        Some(ZBarSymbolType::ZBAR_CODE39)
    } else if name == "codabar"@ {
        Some(ZBarSymbolType::ZBAR_CODABAR)
    } else if name == "composite"@ {
        Some(ZBarSymbolType::ZBAR_COMPOSITE)
    } else if name == "databar"@ {
        Some(ZBarSymbolType::ZBAR_DATABAR)
    } else if name == "databar-exp"@ {
        Some(ZBarSymbolType::ZBAR_DATABAR_EXP)
    } else if name == "ean2"@ {
        Some(ZBarSymbolType::ZBAR_EAN2)
    } else if name == "ean5"@ {
        Some(ZBarSymbolType::ZBAR_EAN5)
    } else if name == "ean8"@ {
        Some(ZBarSymbolType::ZBAR_EAN8)
    } else if name == "ean13"@ {
        Some(ZBarSymbolType::ZBAR_EAN13)
    } else if name == "isbn10"@ {
        Some(ZBarSymbolType::ZBAR_ISBN10)
    } else if name == "isbn13"@ {
        Some(ZBarSymbolType::ZBAR_ISBN13)
    } else if name == "upca"@ {
        Some(ZBarSymbolType::ZBAR_UPCA)
    } else if name == "upce"@ {
        Some(ZBarSymbolType::ZBAR_UPCE)
    } else if name == "i25"@ {
        Some(ZBarSymbolType::ZBAR_I25)
    } else if name == "pdf417"@ {
        Some(ZBarSymbolType::ZBAR_PDF417)
    } else if name == "sqcode"@ {
        Some(ZBarSymbolType::ZBAR_SQCODE)
    } else {
        None
    }
}

/// The configuration option a name denotes, if any.
pub open spec fn option_of_name(name: Seq<char>) -> Option<ZBarConfig> {
    if name == "enable"@ {
        Some(ZBarConfig::ZBAR_CFG_ENABLE)
    } else if name == "add-check"@ {
        Some(ZBarConfig::ZBAR_CFG_ADD_CHECK)
    } else if name == "emit-check"@ {
        Some(ZBarConfig::ZBAR_CFG_EMIT_CHECK)
    } else if name == "ascii"@ {
        Some(ZBarConfig::ZBAR_CFG_ASCII)
    } else if name == "min-len"@ {
        Some(ZBarConfig::ZBAR_CFG_MIN_LEN)
    } else if name == "max-len"@ {
        Some(ZBarConfig::ZBAR_CFG_MAX_LEN)
    } else if name == "uncertainty"@ {
        Some(ZBarConfig::ZBAR_CFG_UNCERTAINTY)
    } else if name == "position"@ {
        Some(ZBarConfig::ZBAR_CFG_POSITION)
    } else if name == "x-density"@ {
        Some(ZBarConfig::ZBAR_CFG_X_DENSITY)
    } else if name == "y-density"@ {
        Some(ZBarConfig::ZBAR_CFG_Y_DENSITY)
    } else {
        None
    }
}

/// What `parse_config` yields for a request string, if anything: the
/// string splits at its first `.` and the first `=` after it into a known
/// symbology name, a known option name and an in-range decimal value.
pub open spec fn parse_config_view(s: Seq<char>) -> Option<(ZBarSymbolType, ZBarConfig, i32)> {
    let dot = find_from(s, '.', 0);
    let eq = find_from(s, '=', dot + 1);
    if dot == s.len() || eq == s.len() {
        None
    } else {
        let sym = symbology_of_name(s.take(dot));
        let opt = option_of_name(s.subrange(dot + 1, eq));
        let val = s.subrange(eq + 1, s.len() as int);
        if sym is Some && opt is Some && all_digits(val) && digits_value(val) <= i32::MAX {
            Some((sym->0, opt->0, digits_value(val) as i32))
        } else {
            None
        }
    }
}

/// Parses a `<symbology>.<option>=<value>` request.
///
/// Returns the decoded triple exactly when the string is well-formed, and
/// the engine's nonzero parse status otherwise.
pub fn parse_config(config_string: &str) -> (r: ZBarResult<(ZBarSymbolType, ZBarConfig, i32)>)
    ensures
        match r {
            Ok(triple) => parse_config_view(config_string@) == Some(triple),
            Err(e) => parse_config_view(config_string@) is None && e == ZBarErrorType::Simple(1),
        },
{
    let len = config_string.unicode_len();
    let dot = find_char(config_string, len, 0, '.');
    if dot == len {
        return Err(ZBarErrorType::Simple(1));
    }
    let eq = find_char(config_string, len, dot + 1, '=');
    if eq == len {
        return Err(ZBarErrorType::Simple(1));
    }
    let sym_name = config_string.substring_char(0, dot);
    let opt_name = config_string.substring_char(dot + 1, eq);
    let val_text = config_string.substring_char(eq + 1, len);
    proof {
        assert(config_string@.take(dot as int) =~= config_string@.subrange(0, dot as int));
    }
    let sym = match symbology_from_name(sym_name) {
        Some(t) => t,
        None => {
            return Err(ZBarErrorType::Simple(1));
        },
    };
    let opt = match option_from_name(opt_name) {
        Some(c) => c,
        None => {
            return Err(ZBarErrorType::Simple(1));
        },
    };
    match parse_u31(val_text) {
        Some(v) => Ok((sym, opt, v)),
        None => Err(ZBarErrorType::Simple(1)),
    }
}

/// The first position at or after `start` where `c` stands, or `len`.
fn find_char(s: &str, len: usize, start: usize, c: char) -> (r: usize)
    requires
        len == s@.len(),
        start <= len,
    ensures
        r == find_from(s@, c, start as int),
        start <= r <= len,
        r < len ==> s@[r as int] == c,
{
    let mut i: usize = start;
    while i < len
        invariant
            start <= i <= len,
            len == s@.len(),
            find_from(s@, c, start as int) == find_from(s@, c, i as int),
        decreases len - i,
    {
        if s.get_char(i) == c {
            return i;
        }
        i = i + 1;
    }
    i
}

/// Maps a symbology name to its symbology.
fn symbology_from_name(name: &str) -> (r: Option<ZBarSymbolType>)
    ensures
        r == symbology_of_name(name@),
{
    if str_eq(name, "qrcode") {
        Some(ZBarSymbolType::ZBAR_QRCODE)
    } else if str_eq(name, "code128") {
        Some(ZBarSymbolType::ZBAR_CODE128)
    } else if str_eq(name, "code93") {
        Some(ZBarSymbolType::ZBAR_CODE93)
    } else if str_eq(name, "code39") {
        Some(ZBarSymbolType::ZBAR_CODE39)
    } else if str_eq(name, "codabar") {
        Some(ZBarSymbolType::ZBAR_CODABAR)
    } else if str_eq(name, "composite") {
        Some(ZBarSymbolType::ZBAR_COMPOSITE)
    } else if str_eq(name, "databar") {
        Some(ZBarSymbolType::ZBAR_DATABAR)
    } else if str_eq(name, "databar-exp") {
        Some(ZBarSymbolType::ZBAR_DATABAR_EXP)
    } else if str_eq(name, "ean2") {
        Some(ZBarSymbolType::ZBAR_EAN2)
    } else if str_eq(name, "ean5") {
        Some(ZBarSymbolType::ZBAR_EAN5)
    } else if str_eq(name, "ean8") {
        Some(ZBarSymbolType::ZBAR_EAN8)
    } else if str_eq(name, "ean13") {
        Some(ZBarSymbolType::ZBAR_EAN13)
    } else if str_eq(name, "isbn10") {
        Some(ZBarSymbolType::ZBAR_ISBN10)
    } else if str_eq(name, "isbn13") {
        Some(ZBarSymbolType::ZBAR_ISBN13)
    } else if str_eq(name, "upca") {
        Some(ZBarSymbolType::ZBAR_UPCA)
    } else if str_eq(name, "upce") {
        Some(ZBarSymbolType::ZBAR_UPCE)
    } else if str_eq(name, "i25") {
        Some(ZBarSymbolType::ZBAR_I25)
    } else if str_eq(name, "pdf417") {
        Some(ZBarSymbolType::ZBAR_PDF417)
    } else if str_eq(name, "sqcode") {
        Some(ZBarSymbolType::ZBAR_SQCODE)
    } else {
        None
    }
}

/// Maps an option name to its configuration option.
fn option_from_name(name: &str) -> (r: Option<ZBarConfig>)
    ensures
        r == option_of_name(name@),
{
    if str_eq(name, "enable") {
        Some(ZBarConfig::ZBAR_CFG_ENABLE)
    } else if str_eq(name, "add-check") {
        Some(ZBarConfig::ZBAR_CFG_ADD_CHECK)
    } else if str_eq(name, "emit-check") {
        Some(ZBarConfig::ZBAR_CFG_EMIT_CHECK)
    } else if str_eq(name, "ascii") {
        Some(ZBarConfig::ZBAR_CFG_ASCII)
    } else if str_eq(name, "min-len") {
        Some(ZBarConfig::ZBAR_CFG_MIN_LEN)
    } else if str_eq(name, "max-len") {
        Some(ZBarConfig::ZBAR_CFG_MAX_LEN)
    } else if str_eq(name, "uncertainty") {
        Some(ZBarConfig::ZBAR_CFG_UNCERTAINTY)
    } else if str_eq(name, "position") {
        Some(ZBarConfig::ZBAR_CFG_POSITION)
    } else if str_eq(name, "x-density") {
        Some(ZBarConfig::ZBAR_CFG_X_DENSITY)
    } else if str_eq(name, "y-density") {
        Some(ZBarConfig::ZBAR_CFG_Y_DENSITY)
    } else {
        None
    }
}

} // verus!
