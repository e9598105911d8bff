//! A chunk codec for game-asset archives: one unit of payload that can rest in
//! either a compressed or a decompressed state, with single-shot conversions
//! between the two and strict validation of the recorded decompressed length.

pub mod chunk;
pub mod codec;
pub mod error;
pub mod extra;
pub mod options;

pub use crate::chunk::Chunk;
pub use crate::error::Error;
pub use crate::extra::Extra;
pub use crate::extra::DX10;
pub use crate::options::CompressionFormat;
pub use crate::options::CompressionLevel;
pub use crate::options::Options;
pub use crate::options::OptionsBuilder;
