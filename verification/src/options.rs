//! Compression options: which wire format a chunk operation uses and which
//! tuning profile, built once through a small fluent builder and then shared
//! freely as an immutable value.

use vstd::prelude::*;

verus! {

/// The wire algorithm family applied to a chunk's payload.
#[derive(Clone, Copy, Debug, PartialEq, Eq)]
pub enum CompressionFormat {
    /// A zlib-framed deflate stream (2-byte header, deflate blocks, checksum
    /// trailer).
    Zip,
    /// A raw LZ4 block with no frame header; the decoder must be told the
    /// decompressed size out of band.
    LZ4,
}

/// A named tuning profile for the deflate family, tied to a target
/// platform/version. The LZ4 family ignores the level entirely and always
/// compresses at the codec's maximal-ratio mode.
#[derive(Clone, Copy, Debug, PartialEq, Eq)]
pub enum CompressionLevel {
    /// Baseline profile: default deflate strength, 15-bit window.
    FO4,
    /// Alternate console profile: best deflate strength, 12-bit window.
    FO4Xbox,
    /// Later-title profile: best deflate strength, 15-bit window.
    SF,
}

impl Default for CompressionFormat {
    fn default() -> (r: Self)
        ensures
            r == CompressionFormat::Zip,
    {
        CompressionFormat::Zip
    }
}

impl Default for CompressionLevel {
    fn default() -> (r: Self)
        ensures
            r == CompressionLevel::FO4,
    {
        CompressionLevel::FO4
    }
}

/// An immutable pair of format and level. Every enum combination is legal:
/// the level simply has no effect under the LZ4 family.
#[derive(Clone, Copy, Debug, PartialEq, Eq)]
pub struct Options {
    compression_format: CompressionFormat,
    compression_level: CompressionLevel,
}

impl Options {
    /// The format this options value selects.
    pub closed spec fn spec_compression_format(&self) -> CompressionFormat {
        self.compression_format
    }

    /// The level this options value selects.
    pub closed spec fn spec_compression_level(&self) -> CompressionLevel {
        self.compression_level
    }

    /// Starts a builder with the default format and level.
    pub fn builder() -> (r: OptionsBuilder)
        ensures
            r.spec_options().spec_compression_format() == CompressionFormat::Zip,
            r.spec_options().spec_compression_level() == CompressionLevel::FO4,
    {
        OptionsBuilder::new()
    }

    pub fn compression_format(&self) -> (r: CompressionFormat)
        ensures
            r == self.spec_compression_format(),
    {
        self.compression_format
    }

    pub fn compression_level(&self) -> (r: CompressionLevel)
        ensures
            r == self.spec_compression_level(),
    {
        self.compression_level
    }
}

/// A fluent builder for [`Options`]; defaults to the deflate family at the
/// baseline profile.
#[must_use]
pub struct OptionsBuilder(Options);

impl OptionsBuilder {
    /// The options value this builder currently holds.
    pub closed spec fn spec_options(&self) -> Options {
        self.0
    }

    /// Finalizes the builder into an immutable options value.
    pub fn build(self) -> (r: Options)
        ensures
            r == self.spec_options(),
    {
        self.0
    }

    /// Replaces the format, keeping the level.
    pub fn compression_format(self, compression_format: CompressionFormat) -> (r: Self)
        ensures
            r.spec_options().spec_compression_format() == compression_format,
            r.spec_options().spec_compression_level()
                == self.spec_options().spec_compression_level(),
    {
        OptionsBuilder(
            Options {
                compression_format,
                compression_level: self.0.compression_level,
            },
        )
    }

    /// Replaces the level, keeping the format.
    pub fn compression_level(self, compression_level: CompressionLevel) -> (r: Self)
        ensures
            r.spec_options().spec_compression_level() == compression_level,
            r.spec_options().spec_compression_format()
                == self.spec_options().spec_compression_format(),
    {
        OptionsBuilder(
            Options {
                compression_format: self.0.compression_format,
                compression_level,
            },
        )
    }

    /// A builder holding the default format and level.
    pub fn new() -> (r: Self)
        ensures
            r.spec_options().spec_compression_format() == CompressionFormat::Zip,
            r.spec_options().spec_compression_level() == CompressionLevel::FO4,
    {
        Self::default()
    }
}

impl Default for OptionsBuilder {
    fn default() -> (r: Self)
        ensures
            r.spec_options().spec_compression_format() == CompressionFormat::Zip,
            r.spec_options().spec_compression_level() == CompressionLevel::FO4,
    {
        OptionsBuilder(
            Options {
                compression_format: CompressionFormat::Zip,
                compression_level: CompressionLevel::FO4,
            },
        )
    }
}

} // verus!
