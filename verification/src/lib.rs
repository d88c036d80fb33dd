//! A safe, verified model of a barcode-reader handle library.
//!
//! The crate wraps a modeled scanning engine behind safe ownership and
//! reference-counted handle types: pixel-format codes ([`format::Format`]),
//! image buffers ([`img::ZBarImage`]), decoded results
//! ([`symbol::ZBarSymbol`], [`symbol_set::ZBarSymbolSet`]), a configurable
//! scanner ([`image_scanner::ZBarImageScanner`]) and a capture-driving
//! processor ([`processor::Processor`]).

use vstd::prelude::*;

pub mod config;
pub mod decoder;
pub mod format;
pub mod img;
pub mod image_scanner;
pub mod parse;
pub mod prelude;
pub mod processor;
pub mod symbol;
pub mod symbol_set;
pub mod text;

pub use config::{ZBarColor, ZBarConfig, ZBarModifier, ZBarOrientation, ZBarSymbolType};
pub use config::{config_name, modifier_name, orientation_name, symbol_name};
pub use parse::parse_config;

verus! {

/// Version of the modeled scanning engine: major component.
pub const VERSION_MAJOR: u32 = 0;

/// Version of the modeled scanning engine: minor component.
pub const VERSION_MINOR: u32 = 10;

/// Version of the modeled scanning engine: patch component.
pub const VERSION_PATCH: u32 = 0;

/// Returns the engine version as `(major, minor, patch)`; never all zero.
pub fn version() -> (r: (u32, u32, u32))
    ensures
        r == (VERSION_MAJOR, VERSION_MINOR, VERSION_PATCH),
        r.0 + r.1 + r.2 > 0,
{
    (VERSION_MAJOR, VERSION_MINOR, VERSION_PATCH)
}

/// The error codes an engine operation can report.
#[allow(non_camel_case_types)]
#[derive(Clone, Copy, Debug, PartialEq, Eq, Structural, Hash)]
pub enum ZBarError {
    ZBAR_OK,
    ZBAR_ERR_NOMEM,
    ZBAR_ERR_INTERNAL,
    ZBAR_ERR_UNSUPPORTED,
    ZBAR_ERR_INVALID,
    ZBAR_ERR_SYSTEM,
    ZBAR_ERR_LOCKING,
    ZBAR_ERR_BUSY,
    ZBAR_ERR_XDISPLAY,
    ZBAR_ERR_XPROTO,
    ZBAR_ERR_CLOSED,
    ZBAR_ERR_WINAPI,
    ZBAR_ERR_NUM,
}

/// An error surfaced to callers: either a bare status code as some call
/// sites report it, or a fully decoded error kind.
#[derive(Clone, Copy, Debug, PartialEq, Eq, Structural, Hash)]
pub enum ZBarErrorType {
    Simple(i32),
    Complex(ZBarError),
}

pub type ZBarResult<T> = Result<T, ZBarErrorType>;

impl ZBarErrorType {
    /// Decodes a raw status code: the codes `1` to `12` map onto the error
    /// enumeration, every other code is kept as a bare `Simple` value.
    pub fn from_code(code: i32) -> (r: ZBarErrorType)
        ensures
            r == ZBarErrorType::spec_from_code(code),
    {
        match code {
            1 => ZBarErrorType::Complex(ZBarError::ZBAR_ERR_NOMEM),
            2 => ZBarErrorType::Complex(ZBarError::ZBAR_ERR_INTERNAL),
            3 => ZBarErrorType::Complex(ZBarError::ZBAR_ERR_UNSUPPORTED),
            4 => ZBarErrorType::Complex(ZBarError::ZBAR_ERR_INVALID),
            5 => ZBarErrorType::Complex(ZBarError::ZBAR_ERR_SYSTEM),
            6 => ZBarErrorType::Complex(ZBarError::ZBAR_ERR_LOCKING),
            7 => ZBarErrorType::Complex(ZBarError::ZBAR_ERR_BUSY),
            8 => ZBarErrorType::Complex(ZBarError::ZBAR_ERR_XDISPLAY),
            9 => ZBarErrorType::Complex(ZBarError::ZBAR_ERR_XPROTO),
            10 => ZBarErrorType::Complex(ZBarError::ZBAR_ERR_CLOSED),
            11 => ZBarErrorType::Complex(ZBarError::ZBAR_ERR_WINAPI),
            12 => ZBarErrorType::Complex(ZBarError::ZBAR_ERR_NUM),
            _ => ZBarErrorType::Simple(code),
        }
    }

    /// What `from_code` returns, as a spec-level map.
    pub open spec fn spec_from_code(code: i32) -> ZBarErrorType {
        if code == 1 {
            ZBarErrorType::Complex(ZBarError::ZBAR_ERR_NOMEM)
        } else if code == 2 {
            ZBarErrorType::Complex(ZBarError::ZBAR_ERR_INTERNAL)
        } else if code == 3 {
            ZBarErrorType::Complex(ZBarError::ZBAR_ERR_UNSUPPORTED)
        } else if code == 4 {
            ZBarErrorType::Complex(ZBarError::ZBAR_ERR_INVALID)
        } else if code == 5 {
            ZBarErrorType::Complex(ZBarError::ZBAR_ERR_SYSTEM)
        } else if code == 6 {
            ZBarErrorType::Complex(ZBarError::ZBAR_ERR_LOCKING)
        } else if code == 7 {
            ZBarErrorType::Complex(ZBarError::ZBAR_ERR_BUSY)
        } else if code == 8 {
            ZBarErrorType::Complex(ZBarError::ZBAR_ERR_XDISPLAY)
        } else if code == 9 {
            ZBarErrorType::Complex(ZBarError::ZBAR_ERR_XPROTO)
        } else if code == 10 {
            ZBarErrorType::Complex(ZBarError::ZBAR_ERR_CLOSED)
        } else if code == 11 {
            ZBarErrorType::Complex(ZBarError::ZBAR_ERR_WINAPI)
        } else if code == 12 {
            ZBarErrorType::Complex(ZBarError::ZBAR_ERR_NUM)
        } else {
            ZBarErrorType::Simple(code)
        }
    }

    /// The text `description` returns for each error, as a spec-level map.
    pub open spec fn description_view(&self) -> Seq<char> {
        match self {
            ZBarErrorType::Simple(_) => "simple engine error"@,
            ZBarErrorType::Complex(e) => match e {
                ZBarError::ZBAR_OK => "success"@,
                ZBarError::ZBAR_ERR_NOMEM => "out of memory"@,
                ZBarError::ZBAR_ERR_INTERNAL => "internal library error"@,
                ZBarError::ZBAR_ERR_UNSUPPORTED => "unsupported request"@,
                ZBarError::ZBAR_ERR_INVALID => "invalid request"@,
                ZBarError::ZBAR_ERR_SYSTEM => "system error"@,
                ZBarError::ZBAR_ERR_LOCKING => "locking error"@,
                ZBarError::ZBAR_ERR_BUSY => "all resources busy"@,
                ZBarError::ZBAR_ERR_XDISPLAY => "X11 display error"@,
                ZBarError::ZBAR_ERR_XPROTO => "X11 protocol error"@,
                ZBarError::ZBAR_ERR_CLOSED => "output window is closed"@,
                ZBarError::ZBAR_ERR_WINAPI => "windows system error"@,
                ZBarError::ZBAR_ERR_NUM => "number of error codes"@,
            },
        }
    }

    /// A human-readable description of the error.
    pub fn description(&self) -> (r: String)
        ensures
            r@ == self.description_view(),
    {
        match self {
            ZBarErrorType::Simple(_) => String::from_str("simple engine error"),
            ZBarErrorType::Complex(e) => match e {
                ZBarError::ZBAR_OK => String::from_str("success"),
                ZBarError::ZBAR_ERR_NOMEM => String::from_str("out of memory"),
                ZBarError::ZBAR_ERR_INTERNAL => String::from_str("internal library error"),
                ZBarError::ZBAR_ERR_UNSUPPORTED => String::from_str("unsupported request"),
                ZBarError::ZBAR_ERR_INVALID => String::from_str("invalid request"),
                ZBarError::ZBAR_ERR_SYSTEM => String::from_str("system error"),
                ZBarError::ZBAR_ERR_LOCKING => String::from_str("locking error"),
                ZBarError::ZBAR_ERR_BUSY => String::from_str("all resources busy"),
                ZBarError::ZBAR_ERR_XDISPLAY => String::from_str("X11 display error"),
                ZBarError::ZBAR_ERR_XPROTO => String::from_str("X11 protocol error"),
                ZBarError::ZBAR_ERR_CLOSED => String::from_str("output window is closed"),
                ZBarError::ZBAR_ERR_WINAPI => String::from_str("windows system error"),
                ZBarError::ZBAR_ERR_NUM => String::from_str("number of error codes"),
            },
        }
    }
}

} // verus!
