use chunk_codec::{Chunk, CompressionFormat, CompressionLevel, Error, Extra, Options, DX10};

fn zip_options() -> Options {
    Options::builder().build()
}

fn lz4_options() -> Options {
    Options::builder()
        .compression_format(CompressionFormat::LZ4)
        .build()
}

/// Deterministic noisy bytes, so LZ4 sees an incompressible-ish payload.
fn pseudo_random_bytes(n: usize) -> Vec<u8> {
    let mut state: u32 = 0x2545_f491;
    let mut out = Vec::new();
    for _ in 0..n {
        state = state.wrapping_mul(1_664_525).wrapping_add(1_013_904_223);
        out.push((state >> 24) as u8);
    }
    out
}

#[test]
fn default_state() {
    let c = Chunk::default();
    assert!(c.is_empty());
    assert!(!c.is_compressed());
    assert!(c.is_decompressed());
    assert_eq!(c.len(), 0);
    assert_eq!(c.extra, Extra::GNRL);
}

#[test]
fn from_bytes_records_state() {
    let c = Chunk::from_bytes(vec![1, 2, 3], None);
    assert!(c.is_decompressed());
    assert!(!c.is_compressed());
    assert_eq!(c.len(), 3);
    assert_eq!(c.as_bytes(), &[1, 2, 3]);
    assert_eq!(c.decompressed_len(), None);

    let c = Chunk::from_bytes(vec![9, 9], Some(40));
    assert!(c.is_compressed());
    assert!(!c.is_decompressed());
    assert_eq!(c.decompressed_len(), Some(40));
    assert_eq!(c.extra, Extra::GNRL);
}

#[test]
fn builder_sets_format_and_level() {
    let o = Options::builder().build();
    assert_eq!(o.compression_format(), CompressionFormat::Zip);
    assert_eq!(o.compression_level(), CompressionLevel::FO4);

    let o = Options::builder()
        .compression_format(CompressionFormat::LZ4)
        .compression_level(CompressionLevel::SF)
        .build();
    assert_eq!(o.compression_format(), CompressionFormat::LZ4);
    assert_eq!(o.compression_level(), CompressionLevel::SF);
}

#[test]
fn extra_from_dx10() {
    let dx = DX10 { mips: 1..5 };
    let e = Extra::from(dx.clone());
    assert_eq!(e, Extra::DX10(dx));
    assert_eq!(Extra::default(), Extra::GNRL);
}

#[test]
fn zlib_round_trip_large_pattern() {
    let payload: Vec<u8> = (0..100_000u32).map(|i| (i % 251) as u8).collect();
    let chunk = Chunk::from_bytes(payload.clone(), None);
    let mut compressed = Vec::new();
    chunk.compress_into(&mut compressed, &zip_options()).unwrap();
    assert!(compressed.len() < 100_000);
    assert!(!compressed.is_empty());

    let packed = Chunk::from_bytes(compressed, Some(payload.len()));
    let mut restored = Vec::new();
    packed.decompress_into(&mut restored, &zip_options()).unwrap();
    assert_eq!(restored, payload);
}

#[test]
fn zlib_round_trip_all_levels() {
    let payload = pseudo_random_bytes(2_000);
    for level in [
        CompressionLevel::FO4,
        CompressionLevel::FO4Xbox,
        CompressionLevel::SF,
    ] {
        let options = Options::builder().compression_level(level).build();
        let chunk = Chunk::from_bytes(payload.clone(), None);
        let mut compressed = Vec::new();
        chunk.compress_into(&mut compressed, &options).unwrap();

        let packed = Chunk::from_bytes(compressed, Some(payload.len()));
        let mut restored = Vec::new();
        packed.decompress_into(&mut restored, &options).unwrap();
        assert_eq!(restored, payload);
    }
}

#[test]
fn lz4_round_trip_random_bytes() {
    let payload = pseudo_random_bytes(50);
    let chunk = Chunk::from_bytes(payload.clone(), None);
    let mut compressed = Vec::new();
    chunk.compress_into(&mut compressed, &lz4_options()).unwrap();

    let packed = Chunk::from_bytes(compressed, Some(50));
    // A raw LZ4 block carries no size field: the caller supplies the exact
    // original length as the output buffer's length.
    let mut restored = vec![0u8; 50];
    packed.decompress_into(&mut restored, &lz4_options()).unwrap();
    assert_eq!(restored, payload);
}

#[test]
fn lz4_compresses_repetitive_payload() {
    let payload = vec![7u8; 400];
    let chunk = Chunk::from_bytes(payload.clone(), None);
    let mut compressed = Vec::new();
    chunk.compress_into(&mut compressed, &lz4_options()).unwrap();
    assert!(compressed.len() < payload.len());
    assert!(!compressed.is_empty());

    let packed = Chunk::from_bytes(compressed, Some(400));
    let mut restored = vec![0u8; 400];
    packed.decompress_into(&mut restored, &lz4_options()).unwrap();
    assert_eq!(restored, payload);
}

#[test]
fn empty_payload_zlib_round_trip() {
    let chunk = Chunk::from_bytes(Vec::new(), None);
    let mut compressed = Vec::new();
    chunk.compress_into(&mut compressed, &zip_options()).unwrap();
    // The zlib framing (header and checksum trailer) is still present.
    assert!(!compressed.is_empty());

    let packed = Chunk::from_bytes(compressed, Some(0));
    let mut restored = Vec::new();
    packed.decompress_into(&mut restored, &zip_options()).unwrap();
    assert_eq!(restored.len(), 0);
}

#[test]
fn empty_payload_lz4_compresses_to_nothing() {
    let chunk = Chunk::from_bytes(Vec::new(), None);
    let mut compressed = Vec::new();
    chunk.compress_into(&mut compressed, &lz4_options()).unwrap();
    // LZ4 has no framing: an empty payload encodes to an empty block...
    assert!(compressed.is_empty());

    // ...which the raw-block decoder then rejects, so the empty payload
    // does not round-trip under the LZ4 family.
    let packed = Chunk::from_bytes(compressed, Some(0));
    let mut restored = Vec::new();
    let err = packed
        .decompress_into(&mut restored, &lz4_options())
        .unwrap_err();
    assert_eq!(err, Error::CodecFailure);
}

#[test]
fn compress_already_compressed_fails() {
    let packed = Chunk::from_bytes(vec![1, 2, 3], Some(10));
    for options in [zip_options(), lz4_options()] {
        let mut out = Vec::new();
        let err = packed.compress_into(&mut out, &options).unwrap_err();
        assert_eq!(err, Error::AlreadyCompressed);
        assert!(out.is_empty());
    }
}

#[test]
fn decompress_already_decompressed_fails() {
    let plain = Chunk::from_bytes(vec![1, 2, 3], None);
    for options in [zip_options(), lz4_options()] {
        let mut out = Vec::new();
        let err = plain.decompress_into(&mut out, &options).unwrap_err();
        assert_eq!(err, Error::AlreadyDecompressed);
        assert!(out.is_empty());
    }

    let mut out = Vec::new();
    let err = Chunk::default()
        .decompress_into(&mut out, &zip_options())
        .unwrap_err();
    assert_eq!(err, Error::AlreadyDecompressed);
}

#[test]
fn zlib_size_mismatch_reports_both_counts() {
    let payload = pseudo_random_bytes(300);
    let chunk = Chunk::from_bytes(payload, None);
    let mut compressed = Vec::new();
    chunk.compress_into(&mut compressed, &zip_options()).unwrap();

    // Record a wrong decompressed length: the decode itself succeeds but
    // produces 300 bytes, and the mismatch is reported with both counts.
    let packed = Chunk::from_bytes(compressed, Some(299));
    let mut restored = Vec::new();
    let err = packed
        .decompress_into(&mut restored, &zip_options())
        .unwrap_err();
    assert_eq!(
        err,
        Error::DecompressionSizeMismatch {
            expected: 299,
            actual: 300,
        }
    );
}

#[test]
fn zlib_garbage_input_is_codec_failure() {
    let packed = Chunk::from_bytes(vec![0xFF; 16], Some(8));
    let mut restored = Vec::new();
    let err = packed
        .decompress_into(&mut restored, &zip_options())
        .unwrap_err();
    assert_eq!(err, Error::CodecFailure);
}

#[test]
fn lz4_truncated_block_is_codec_failure() {
    let payload = pseudo_random_bytes(100);
    let chunk = Chunk::from_bytes(payload, None);
    let mut compressed = Vec::new();
    chunk.compress_into(&mut compressed, &lz4_options()).unwrap();
    compressed.truncate(compressed.len() / 2);

    let packed = Chunk::from_bytes(compressed, Some(100));
    let mut restored = vec![0u8; 100];
    let err = packed
        .decompress_into(&mut restored, &lz4_options())
        .unwrap_err();
    assert_eq!(err, Error::CodecFailure);
}

#[test]
fn compress_appends_after_existing_bytes() {
    let payload = vec![42u8; 64];
    let chunk = Chunk::from_bytes(payload.clone(), None);
    let mut out = vec![0xAA, 0xBB];
    chunk.compress_into(&mut out, &zip_options()).unwrap();
    assert_eq!(&out[..2], &[0xAA, 0xBB]);

    let packed = Chunk::from_bytes(out[2..].to_vec(), Some(64));
    let mut restored = Vec::new();
    packed.decompress_into(&mut restored, &zip_options()).unwrap();
    assert_eq!(restored, payload);
}

#[test]
fn lz4_decompress_into_larger_buffer() {
    let payload = pseudo_random_bytes(50);
    let chunk = Chunk::from_bytes(payload.clone(), None);
    let mut compressed = Vec::new();
    chunk.compress_into(&mut compressed, &lz4_options()).unwrap();

    // A buffer longer than the payload still decodes: the payload arrives as
    // the prefix and the buffer's length is unchanged.
    let packed = Chunk::from_bytes(compressed, Some(50));
    let mut restored = vec![0u8; 64];
    packed.decompress_into(&mut restored, &lz4_options()).unwrap();
    assert_eq!(restored.len(), 64);
    assert_eq!(&restored[..50], payload.as_slice());
}

#[test]
fn compression_is_deterministic() {
    let payload = pseudo_random_bytes(1_000);
    for options in [zip_options(), lz4_options()] {
        let a_chunk = Chunk::from_bytes(payload.clone(), None);
        let b_chunk = Chunk::from_bytes(payload.clone(), None);
        let mut a = Vec::new();
        let mut b = Vec::new();
        a_chunk.compress_into(&mut a, &options).unwrap();
        b_chunk.compress_into(&mut b, &options).unwrap();
        assert_eq!(a, b);
    }
}

#[test]
fn lz4_ignores_the_level() {
    let payload = pseudo_random_bytes(1_000);
    let chunk = Chunk::from_bytes(payload, None);
    let mut outs: Vec<Vec<u8>> = Vec::new();
    for level in [
        CompressionLevel::FO4,
        CompressionLevel::FO4Xbox,
        CompressionLevel::SF,
    ] {
        let options = Options::builder()
            .compression_format(CompressionFormat::LZ4)
            .compression_level(level)
            .build();
        let mut out = Vec::new();
        chunk.compress_into(&mut out, &options).unwrap();
        outs.push(out);
    }
    assert_eq!(outs[0], outs[1]);
    assert_eq!(outs[1], outs[2]);
}

#[test]
fn error_descriptions_are_distinct() {
    let kinds = [
        Error::AlreadyCompressed,
        Error::AlreadyDecompressed,
        Error::DecompressionSizeMismatch {
            expected: 1,
            actual: 2,
        },
        Error::CodecFailure,
    ];
    for (i, a) in kinds.iter().enumerate() {
        assert!(!a.describe().is_empty());
        for (j, b) in kinds.iter().enumerate() {
            if i != j {
                assert_ne!(a.describe(), b.describe());
            }
        }
    }
}
