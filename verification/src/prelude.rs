//! Convenience re-exports of the types most callers need.

pub use crate::config::{ZBarConfig, ZBarSymbolType};
pub use crate::format::Format;
pub use crate::img::{ZBarImage, ZBarImageError};
pub use crate::image_scanner::{ImageScannerBuilder, ZBarImageScanner};
pub use crate::processor::{Processor, ProcessorBuilder};
pub use crate::symbol::{SymbolData, ZBarSymbol};
pub use crate::symbol_set::ZBarSymbolSet;
