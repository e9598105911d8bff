//! The error taxonomy of the codec: every failure a compression or
//! decompression request can end in is one of these variants.

use vstd::prelude::*;

verus! {

/// An error returned by a chunk operation.
///
/// `DecompressionSizeMismatch` is the integrity gate: a compressed chunk's
/// recorded decompressed length is a contract, and a decode that produces any
/// other number of bytes is reported with both the expected and the actual
/// count rather than handing truncated or padded data to the caller.
#[derive(Clone, Copy, Debug, PartialEq, Eq)]
pub enum Error {
    /// Compression was requested on a chunk already holding compressed bytes.
    AlreadyCompressed,
    /// Decompression was requested on a chunk with no recorded decompressed
    /// length, i.e. one already holding decompressed bytes.
    AlreadyDecompressed,
    /// The decode produced `actual` bytes where the chunk recorded `expected`.
    DecompressionSizeMismatch { expected: usize, actual: usize },
    /// The underlying compression or decompression primitive reported failure.
    CodecFailure,
}

impl Error {
    /// The short human-readable description of each error variant.
    pub open spec fn spec_describe(&self) -> Seq<char> {
        match self {
            Error::AlreadyCompressed => "chunk is already compressed"@,
            Error::AlreadyDecompressed => "chunk is already decompressed"@,
            Error::DecompressionSizeMismatch { .. } => {
                "decompressed size does not match the recorded length"@
            },
            Error::CodecFailure => "the underlying codec reported an error"@,
        }
    }

    /// A short human-readable description of the error.
    pub fn describe(&self) -> (r: &'static str)
        ensures
            r@ == self.spec_describe(),
    {
        match self {
            Error::AlreadyCompressed => "chunk is already compressed",
            Error::AlreadyDecompressed => "chunk is already decompressed",
            Error::DecompressionSizeMismatch { .. } => {
                "decompressed size does not match the recorded length"
            },
            Error::CodecFailure => "the underlying codec reported an error",
        }
    }
}

} // verus!
