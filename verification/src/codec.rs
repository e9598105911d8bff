//! The boundary to the outside codec primitives. Each wrapper makes exactly
//! one call into `flate2`, `lzzzz` or std and states what that call does;
//! everything around these wrappers is verified.
//!
//! Both encoders are pure functions of their input bytes and parameters, so
//! their outputs are given names (`zlib_encoded`, `lz4_encoded`) instead of
//! being written out, and the decoder contracts promise the round trip: fed
//! an encoder's output, they reproduce the payload it came from.

use crate::options::{CompressionFormat, CompressionLevel, Options};
use std::io::Write;
use vstd::prelude::*;

verus! {

/// The zlib-framed deflate stream that `flate2` produces for `payload` at
/// the given compression level and window size.
pub uninterp spec fn zlib_encoded(payload: Seq<u8>, level: u32, window_bits: u8) -> Seq<u8>;

/// The raw LZ4 block that `lzzzz` produces for `payload` at the codec's
/// maximal compression level.
pub uninterp spec fn lz4_encoded(payload: Seq<u8>) -> Seq<u8>;

/// The largest input the LZ4 block format accepts (liblz4's
/// `LZ4_MAX_INPUT_SIZE`); the encoder rejects anything longer.
pub const LZ4_MAX_INPUT_SIZE: usize = 0x7E00_0000;

/// The compressed representation an options value selects for `payload`:
/// the deflate family maps each level to a (strength, window-bits) pair,
/// while the LZ4 family ignores the level.
pub open spec fn compressed_form(payload: Seq<u8>, opts: Options) -> Seq<u8> {
    match opts.spec_compression_format() {
        CompressionFormat::Zip => match opts.spec_compression_level() {
            CompressionLevel::FO4 => zlib_encoded(payload, 6, 15),
            CompressionLevel::FO4Xbox => zlib_encoded(payload, 9, 12),
            CompressionLevel::SF => zlib_encoded(payload, 9, 15),
        },
        CompressionFormat::LZ4 => lz4_encoded(payload),
    }
}

/// Relies on `flate2::write::ZlibEncoder` with
/// `Compress::new_with_window_bits`: a one-shot zlib-framed deflate encode of
/// `input`, appended to `out`. The output is a function of the input bytes,
/// the level and the window size alone. `new_with_window_bits` panics outside
/// the 9..=15 window range, so that range is required here. Under those
/// parameters the encode cannot fail: the deflate stream reports no error on
/// any input and the `Vec`-backed writer is infallible, so success is owed.
#[verifier::external_body]
pub(crate) fn deflate_zlib_into(
    input: &Vec<u8>,
    out: &mut Vec<u8>,
    level: u32,
    window_bits: u8,
) -> (r: Result<(), ()>)
    requires
        level <= 9,
        9 <= window_bits <= 15,
    ensures
        r is Ok,
        final(out)@ == old(out)@ + zlib_encoded(input@, level, window_bits),
{
    let compress = flate2::Compress::new_with_window_bits(
        flate2::Compression::new(level),
        true,
        window_bits,
    );
    let mut e = flate2::write::ZlibEncoder::new_with_compress(&mut *out, compress);
    if e.write_all(input.as_slice()).is_err() {
        return Err(());
    }
    match e.finish() {
        Ok(_) => Ok(()),
        Err(_) => Err(()),
    }
}

/// What a zlib inflate of `input` that turned `old_out` into `new_out` and
/// returned `r` guarantees: fed an encoder's output for any level and window
/// size, it succeeds, appends exactly the payload the stream was encoded
/// from, and reports that payload's length.
pub open spec fn zlib_decode_inverts(
    input: Seq<u8>,
    r: Result<usize, ()>,
    old_out: Seq<u8>,
    new_out: Seq<u8>,
) -> bool {
    forall|p: Seq<u8>, level: u32, wb: u8|
        input == zlib_encoded(p, level, wb) && p.len() <= usize::MAX ==> r == Ok::<usize, ()>(
            p.len() as usize,
        ) && new_out == old_out + p
}

/// Relies on `flate2::write::ZlibDecoder`: a one-shot inflate of `input`,
/// appended to `out`, returning the total number of decompressed bytes.
#[verifier::external_body]
pub(crate) fn inflate_zlib_into(input: &Vec<u8>, out: &mut Vec<u8>) -> (r: Result<usize, ()>)
    ensures
        old(out)@.is_prefix_of(final(out)@),
        r is Ok ==> final(out)@.len() == old(out)@.len() + r->Ok_0,
        zlib_decode_inverts(input@, r, old(out)@, final(out)@),
{
    let mut d = flate2::write::ZlibDecoder::new(&mut *out);
    if d.write_all(input.as_slice()).is_err() {
        return Err(());
    }
    if d.try_finish().is_err() {
        return Err(());
    }
    usize::try_from(d.total_out()).map_err(|_| ())
}

/// Relies on `lzzzz::lz4_hc::compress_to_vec` at `CLEVEL_MAX`: a one-shot
/// LZ4 high-compression block encode of `input`, appended to `out`. The
/// output is a function of the input bytes alone. The call reserves the
/// encoder's own worst-case bound, under which liblz4 guarantees success, so
/// it succeeds exactly when the input is within the block format's size cap;
/// an empty input appends nothing, and on failure the buffer's length is
/// restored, leaving it unchanged.
#[verifier::external_body]
pub(crate) fn lz4_compress_into(input: &Vec<u8>, out: &mut Vec<u8>) -> (r: Result<(), ()>)
    ensures
        r is Ok <==> input@.len() <= LZ4_MAX_INPUT_SIZE,
        r is Ok ==> final(out)@ == old(out)@ + lz4_encoded(input@),
        r is Err ==> final(out)@ == old(out)@,
        input@.len() == 0 ==> final(out)@ == old(out)@,
        r is Ok && input@.len() > 0 ==> final(out)@.len() > old(out)@.len(),
{
    match lzzzz::lz4_hc::compress_to_vec(input.as_slice(), out, lzzzz::lz4_hc::CLEVEL_MAX) {
        Ok(_) => Ok(()),
        Err(_) => Err(()),
    }
}

/// What an LZ4 block decode of `input` into a slice holding `old_out`, which
/// left `new_out` behind and returned `r`, guarantees: a raw block carries no
/// size field, but whenever the slice is at least as long as the payload the
/// decode succeeds, reports the payload's length, and reproduces the payload
/// as the slice's prefix. Nothing is said of the slice beyond that prefix:
/// the decoder's wild copies may scribble inside the slice past the decoded
/// end. An empty slice-and-block pair is rejected by the decoder, hence the
/// `p.len() > 0` guard.
pub open spec fn lz4_decode_inverts(
    input: Seq<u8>,
    r: Result<usize, ()>,
    old_out: Seq<u8>,
    new_out: Seq<u8>,
) -> bool {
    forall|p: Seq<u8>|
        input == lz4_encoded(p) && p.len() <= old_out.len() && p.len() > 0 ==> r == Ok::<usize, ()>(
            p.len() as usize,
        ) && new_out.subrange(0, p.len() as int) == p
}

/// Relies on `lzzzz::lz4::decompress`: a one-shot decode of a raw LZ4 block
/// into the slice `out` currently spans, returning the number of bytes
/// written.
#[verifier::external_body]
pub(crate) fn lz4_decompress_into(input: &Vec<u8>, out: &mut Vec<u8>) -> (r: Result<usize, ()>)
    ensures
        final(out)@.len() == old(out)@.len(),
        r is Ok ==> r->Ok_0 <= final(out)@.len(),
        lz4_decode_inverts(input@, r, old(out)@, final(out)@),
{
    match lzzzz::lz4::decompress(input.as_slice(), out.as_mut_slice()) {
        Ok(n) => Ok(n),
        Err(_) => Err(()),
    }
}

/// The round-trip identity, for every payload and every options value: a
/// decode that meets its decoder's guarantee, fed exactly the compressed
/// form that `options` selects for `payload`, succeeds, reports the
/// payload's length, and reproduces the payload — appended after the
/// buffer's prior contents for the deflate family, as the whole
/// length-preserved buffer for the LZ4 family (whose raw blocks carry no
/// size field, so the buffer must already span exactly the payload's length,
/// and whose decoder rejects an empty block, excluding the empty payload).
pub proof fn lemma_round_trip(
    payload: Seq<u8>,
    opts: Options,
    r: Result<usize, ()>,
    old_out: Seq<u8>,
    new_out: Seq<u8>,
)
    requires
        payload.len() <= usize::MAX,
        opts.spec_compression_format() == CompressionFormat::Zip ==> zlib_decode_inverts(
            compressed_form(payload, opts),
            r,
            old_out,
            new_out,
        ),
        opts.spec_compression_format() == CompressionFormat::LZ4 ==> lz4_decode_inverts(
            compressed_form(payload, opts),
            r,
            old_out,
            new_out,
        ) && old_out.len() == payload.len() && new_out.len() == old_out.len() && payload.len()
            > 0,
    ensures
        r == Ok::<usize, ()>(payload.len() as usize),
        opts.spec_compression_format() == CompressionFormat::Zip ==> new_out == old_out + payload,
        opts.spec_compression_format() == CompressionFormat::LZ4 ==> new_out == payload,
{
    match opts.spec_compression_format() {
        CompressionFormat::Zip => {
            match opts.spec_compression_level() {
                CompressionLevel::FO4 => {
                    assert(compressed_form(payload, opts) == zlib_encoded(payload, 6, 15));
                },
                CompressionLevel::FO4Xbox => {
                    assert(compressed_form(payload, opts) == zlib_encoded(payload, 9, 12));
                },
                CompressionLevel::SF => {
                    assert(compressed_form(payload, opts) == zlib_encoded(payload, 9, 15));
                },
            }
        },
        CompressionFormat::LZ4 => {
            assert(compressed_form(payload, opts) == lz4_encoded(payload));
            assert(new_out =~= payload);
        },
    }
}

/// Relies on `Vec::reserve_exact`: reserves capacity for at least
/// `additional` more bytes without changing the contents.
#[verifier::external_body]
pub(crate) fn vec_reserve_exact(out: &mut Vec<u8>, additional: usize)
    ensures
        final(out)@ == old(out)@,
{
    out.reserve_exact(additional);
}

} // verus!
