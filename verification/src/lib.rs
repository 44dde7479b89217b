//! Reader for directional audio data files (DAFF): acoustic content sampled
//! over directions on a sphere.
//!
//! The crate works on a complete file image held in memory. Every value that
//! a file stores as a floating-point number is carried as its IEEE 754 bit
//! pattern, so that all of the container logic is exact integer logic.

pub mod codes;
pub mod content;
pub mod error;
pub mod format;
pub mod grid;
pub mod header;
pub mod metadata;
pub mod quantizer;
pub mod reader;
pub mod wire;

pub use codes::{ContentType, Quantization};
pub use content::{ContentDFT, ContentIR, ContentMPS, ContentMS, ContentPS};
pub use error::{Error, ErrorKind};
pub use format::DaffFile;
pub use header::{Header, Orientation};
pub use metadata::{MetaEntry, MetaValue};
pub use quantizer::Sample;
pub use reader::Reader;
