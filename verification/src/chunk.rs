//! The chunk entity: a byte buffer that rests in exactly one of two states —
//! decompressed (the raw payload) or compressed (a wire-format encoding of it
//! together with the recorded length it must expand back to) — plus a
//! pass-through metadata slot. Compressing or decompressing never mutates the
//! chunk itself: the result is appended to a caller-supplied buffer.

use crate::codec;
use crate::codec::{compressed_form, lz4_encoded, zlib_encoded, LZ4_MAX_INPUT_SIZE};
use crate::error::Error;
use crate::extra::Extra;
use crate::options::{CompressionFormat, CompressionLevel, Options};
use vstd::prelude::*;

verus! {

/// One compressible unit of payload within a larger archive entry.
///
/// The buffer and the recorded decompressed length move together: the length
/// is `Some` exactly when the buffer holds compressed bytes, so the two
/// states are mutually exclusive by construction.
pub struct Chunk {
    bytes: Vec<u8>,
    decompressed_len: Option<usize>,
    /// Format-specific extra metadata; never consulted by the codec.
    pub extra: Extra,
}

impl Chunk {
    /// The bytes the chunk currently holds.
    pub closed spec fn spec_bytes(&self) -> Seq<u8> {
        self.bytes@
    }

    /// The recorded decompressed length: `Some` exactly in the compressed
    /// state.
    pub closed spec fn spec_decompressed_len(&self) -> Option<usize> {
        self.decompressed_len
    }

    /// The metadata slot.
    pub closed spec fn spec_extra(&self) -> Extra {
        self.extra
    }

    /// Whether the chunk currently holds compressed bytes.
    pub open spec fn spec_is_compressed(&self) -> bool {
        self.spec_decompressed_len() is Some
    }

    /// Materializes a chunk from bytes read out of an archive container,
    /// without transforming them: the state is decided by whether a
    /// decompressed length is recorded alongside. The metadata slot defaults
    /// to general.
    pub fn from_bytes(bytes: Vec<u8>, decompressed_len: Option<usize>) -> (r: Chunk)
        ensures
            r.spec_bytes() == bytes@,
            r.spec_decompressed_len() == decompressed_len,
            r.spec_extra() == Extra::GNRL,
    {
        Chunk { bytes, decompressed_len, extra: Extra::default() }
    }

    /// The bytes the chunk currently holds, compressed or not.
    pub fn as_bytes(&self) -> (r: &[u8])
        ensures
            r@ == self.spec_bytes(),
    {
        self.bytes.as_slice()
    }

    /// The length of the currently held buffer.
    pub fn len(&self) -> (r: usize)
        ensures
            r == self.spec_bytes().len(),
    {
        self.bytes.len()
    }

    /// Whether the currently held buffer is empty.
    pub fn is_empty(&self) -> (r: bool)
        ensures
            r == (self.spec_bytes().len() == 0),
    {
        self.bytes.is_empty()
    }

    /// Whether the chunk holds compressed bytes.
    pub fn is_compressed(&self) -> (r: bool)
        ensures
            r == self.spec_is_compressed(),
    {
        self.decompressed_len.is_some()
    }

    /// Whether the chunk holds decompressed bytes; always the negation of
    /// [`Self::is_compressed`].
    pub fn is_decompressed(&self) -> (r: bool)
        ensures
            r == !self.spec_is_compressed(),
    {
        self.decompressed_len.is_none()
    }

    /// The recorded decompressed length, or `None` when the chunk already
    /// holds decompressed bytes.
    pub fn decompressed_len(&self) -> (r: Option<usize>)
        ensures
            r == self.spec_decompressed_len(),
    {
        self.decompressed_len
    }

    /// Compresses the chunk's payload with the format and level `options`
    /// selects, appending the compressed stream to `out`. The chunk itself is
    /// not mutated, and `out`'s prior contents are preserved whatever
    /// happens. Compression is only legal on a decompressed chunk; a
    /// compressed one is rejected with `AlreadyCompressed` for any options.
    /// Success is owed on every legal request, except an LZ4 payload over
    /// the block format's size cap, which is rejected with `CodecFailure`.
    pub fn compress_into(&self, out: &mut Vec<u8>, options: &Options) -> (r: Result<(), Error>)
        ensures
            self.spec_is_compressed() ==> r == Err::<(), Error>(Error::AlreadyCompressed)
                && final(out)@ == old(out)@,
            old(out)@.is_prefix_of(final(out)@),
            !self.spec_is_compressed() && r is Ok ==> final(out)@ == old(out)@ + compressed_form(
                self.spec_bytes(),
                *options,
            ),
            !self.spec_is_compressed() && r is Err ==> r == Err::<(), Error>(Error::CodecFailure)
                && final(out)@ == old(out)@,
            !self.spec_is_compressed() && options.spec_compression_format()
                == CompressionFormat::Zip ==> r == Ok::<(), Error>(()),
            !self.spec_is_compressed() && options.spec_compression_format()
                == CompressionFormat::LZ4 ==> (r is Ok <==> self.spec_bytes().len()
                <= LZ4_MAX_INPUT_SIZE),
            !self.spec_is_compressed() && options.spec_compression_format()
                == CompressionFormat::LZ4 && self.spec_bytes().len() == 0 ==> r == Ok::<(), Error>(
                (),
            ) && final(out)@ == old(out)@,
    {
        if self.is_compressed() {
            Err(Error::AlreadyCompressed)
        } else {
            match options.compression_format() {
                CompressionFormat::Zip => {
                    let params: (u32, u8) = match options.compression_level() {
                        CompressionLevel::FO4 => (6, 15),
                        CompressionLevel::FO4Xbox => (9, 12),
                        CompressionLevel::SF => (9, 15),
                    };
                    match codec::deflate_zlib_into(&self.bytes, out, params.0, params.1) {
                        Ok(u) => Ok(u),
                        Err(_) => Err(Error::CodecFailure),
                    }
                },
                CompressionFormat::LZ4 => match codec::lz4_compress_into(&self.bytes, out) {
                    Ok(u) => Ok(u),
                    Err(_) => Err(Error::CodecFailure),
                },
            }
        }
    }

    /// Decompresses the chunk's bytes with the format `options` selects,
    /// writing the payload into `out` and checking the produced byte count
    /// against the recorded decompressed length. The chunk itself is not
    /// mutated. A chunk with no recorded length is rejected with
    /// `AlreadyDecompressed`; a byte count that disagrees with the recorded
    /// length is rejected with `DecompressionSizeMismatch` carrying both.
    ///
    /// The deflate family appends the payload to `out`; the LZ4 family
    /// decodes into the slice `out` already spans (a raw LZ4 block carries no
    /// size field, so the caller supplies the expected size as `out`'s
    /// length) and leaves `out`'s length unchanged.
    pub fn decompress_into(&self, out: &mut Vec<u8>, options: &Options) -> (r: Result<(), Error>)
        ensures
            self.spec_decompressed_len() is None ==> r == Err::<(), Error>(
                Error::AlreadyDecompressed,
            ) && final(out)@ == old(out)@,
            r is Ok ==> self.spec_decompressed_len() is Some,
            self.spec_decompressed_len() is Some ==> r != Err::<(), Error>(
                Error::AlreadyCompressed,
            ) && r != Err::<(), Error>(Error::AlreadyDecompressed),
            forall|ex: usize, ac: usize|
                r == Err::<(), Error>(
                    (Error::DecompressionSizeMismatch { expected: ex, actual: ac }),
                ) ==> self.spec_decompressed_len() == Some(ex) && ac != ex,
            // Deflate family: decoding what the encoder produced, at any
            // level and window size, appends exactly the original payload
            // when its length is the recorded one...
            forall|p: Seq<u8>, level: u32, wb: u8|
                options.spec_compression_format() == CompressionFormat::Zip && p.len()
                    <= usize::MAX && self.spec_decompressed_len() == Some(p.len() as usize)
                    && self.spec_bytes() == zlib_encoded(p, level, wb) ==> r == Ok::<(), Error>(
                    (),
                ) && final(out)@ == old(out)@ + p,
            // ...and a payload of any other length is reported as a size
            // mismatch.
            forall|p: Seq<u8>, level: u32, wb: u8|
                self.spec_decompressed_len() is Some
                    && options.spec_compression_format() == CompressionFormat::Zip
                    && self.spec_bytes() == zlib_encoded(p, level, wb)
                    && p.len() <= usize::MAX && p.len() != self.spec_decompressed_len()->0
                    ==> r == Err::<(), Error>(
                    (Error::DecompressionSizeMismatch {
                        expected: self.spec_decompressed_len()->0,
                        actual: p.len() as usize,
                    }),
                ),
            // The deflate family only ever appends, whatever the outcome...
            options.spec_compression_format() == CompressionFormat::Zip ==> old(
                out,
            )@.is_prefix_of(final(out)@),
            // ...and on success exactly the recorded number of bytes arrives.
            self.spec_decompressed_len() is Some && options.spec_compression_format()
                == CompressionFormat::Zip && r is Ok ==> final(out)@.len() == old(out)@.len()
                + self.spec_decompressed_len()->0,
            // The LZ4 family never changes `out`'s length.
            options.spec_compression_format() == CompressionFormat::LZ4
                && self.spec_decompressed_len() is Some ==> final(out)@.len() == old(out)@.len(),
            // LZ4: decoding what the encoder produced into a slice at least
            // as long as the payload succeeds exactly when the payload's
            // length is the recorded one, and reproduces the payload as the
            // slice's prefix (the decoder may scribble inside the slice past
            // the decoded end, so nothing more is said of it).
            forall|p: Seq<u8>|
                options.spec_compression_format() == CompressionFormat::LZ4 && p.len()
                    <= usize::MAX && self.spec_decompressed_len() == Some(p.len() as usize)
                    && self.spec_bytes() == lz4_encoded(p) && p.len() <= old(out)@.len()
                    && p.len() > 0 ==> r == Ok::<(), Error>(()) && final(out)@.subrange(
                    0,
                    p.len() as int,
                ) == p,
            forall|p: Seq<u8>|
                self.spec_decompressed_len() is Some
                    && options.spec_compression_format() == CompressionFormat::LZ4
                    && self.spec_bytes() == lz4_encoded(p) && p.len() <= old(out)@.len()
                    && p.len() <= usize::MAX && p.len() > 0 && p.len()
                    != self.spec_decompressed_len()->0 ==> r == Err::<(), Error>(
                    (Error::DecompressionSizeMismatch {
                        expected: self.spec_decompressed_len()->0,
                        actual: p.len() as usize,
                    }),
                ),
    {
        let decompressed_len: usize = match self.decompressed_len() {
            Some(n) => n,
            None => {
                return Err(Error::AlreadyDecompressed);
            },
        };
        codec::vec_reserve_exact(out, decompressed_len);
        let decode = match options.compression_format() {
            CompressionFormat::Zip => codec::inflate_zlib_into(&self.bytes, out),
            CompressionFormat::LZ4 => codec::lz4_decompress_into(&self.bytes, out),
        };
        let out_len: usize = match decode {
            Ok(n) => n,
            Err(_) => {
                return Err(Error::CodecFailure);
            },
        };
        if out_len == decompressed_len {
            Ok(())
        } else {
            Err(Error::DecompressionSizeMismatch {
                expected: decompressed_len,
                actual: out_len,
            })
        }
    }
}

impl Default for Chunk {
    /// A fresh chunk: empty, decompressed, general metadata.
    fn default() -> (r: Self)
        ensures
            r.spec_bytes() == Seq::<u8>::empty(),
            !r.spec_is_compressed(),
            r.spec_extra() == Extra::GNRL,
    {
        Chunk { bytes: Vec::new(), decompressed_len: None, extra: Extra::default() }
    }
}

} // verus!
