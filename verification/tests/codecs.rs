use compress_bench::schemes::lz4::Lz4;
use compress_bench::schemes::xz::{Lzma, EXTREME_PRESET};
use compress_bench::schemes::zstandard::Zstd;
use compress_bench::{
    benchmark_scheme, Compressor, Corpus, Decompressor, DescribeScheme, SchemeError, SAMPLES,
};

fn sample() -> Vec<u8> {
    let mut data = Vec::new();
    for i in 0..3000u32 {
        data.extend_from_slice(format!("record {} of the sample;", i % 89).as_bytes());
    }
    data
}

fn assert_round_trip<S: Compressor + Decompressor>(scheme: &S, data: &[u8]) -> Vec<u8> {
    let packed = scheme.compress(data).unwrap();
    assert_eq!(packed, scheme.compress(data).unwrap());
    let mut restored = vec![0u8; data.len()];
    assert_eq!(scheme.decompress_to(&packed, &mut restored), Ok(()));
    assert_eq!(restored, data);
    packed
}

fn assert_codec_failure(failure: Result<(), SchemeError>, label: &str) {
    match failure {
        Err(SchemeError::Codec { operation, .. }) => assert_eq!(operation, label),
        other => panic!("unexpected outcome: {:?}", other),
    }
}

#[test]
fn xz_describes_its_preset() {
    assert_eq!(Lzma { preset: 0 }.name(), "rust-lzma");
    assert_eq!(Lzma { preset: 0 }.settings(), Some("preset 0".to_string()));
    assert_eq!(Lzma { preset: 9 }.settings(), Some("preset 9".to_string()));
    assert_eq!(Lzma { preset: 6 | EXTREME_PRESET }.settings(), Some("extreme 6".to_string()));
    assert_eq!(Lzma { preset: EXTREME_PRESET }.settings(), Some("extreme 0".to_string()));
    assert_eq!(EXTREME_PRESET, 1 << 31);
    assert!(Lzma { preset: 3 | EXTREME_PRESET }.is_extreme());
    assert!(!Lzma { preset: 3 }.is_extreme());
    assert_eq!(Lzma { preset: 3 | EXTREME_PRESET }.level(), 3);
    assert_eq!(Lzma { preset: u32::MAX }.level(), 0x7fff_ffff);
}

#[test]
fn xz_round_trips_at_every_preset() {
    let data = sample();
    for level in 0..=9 {
        let packed = assert_round_trip(&Lzma { preset: level }, &data);
        assert_eq!(&packed[..6], &[0xfd, b'7', b'z', b'X', b'Z', 0]);
        assert!(packed.len() < data.len() / 4);
    }
    assert_round_trip(&Lzma { preset: 1 | EXTREME_PRESET }, &data);
    assert_round_trip(&Lzma { preset: 0 }, b"");
}

#[test]
fn xz_reports_an_unknown_preset() {
    let failure = Lzma { preset: 77 }.compress(b"data").map(|_| ());
    assert_codec_failure(failure, "lzma compression failed");
}

#[test]
fn xz_reports_a_destination_of_the_wrong_length() {
    let data = sample();
    let scheme = Lzma { preset: 1 };
    let packed = scheme.compress(&data).unwrap();
    let mut short = vec![0u8; data.len() - 1];
    assert_eq!(scheme.decompress_to(&packed, &mut short), Err(SchemeError::DestinationTooShort));
    let mut long = vec![0u8; data.len() + 1];
    assert_codec_failure(scheme.decompress_to(&packed, &mut long), "lzma decompression error");
    let mut restored = vec![0u8; 8];
    assert_codec_failure(
        scheme.decompress_to(b"not an xz stream at all", &mut restored),
        "lzma decompression error",
    );
}

#[test]
fn zstd_describes_its_level() {
    assert_eq!(Zstd { level: 3 }.name(), "zstd");
    assert_eq!(Zstd { level: 3 }.settings(), Some("level 3".to_string()));
    assert_eq!(Zstd { level: 22 }.settings(), Some("level 22".to_string()));
    assert_eq!(Zstd { level: 0 }.settings(), Some("level 0".to_string()));
    assert_eq!(Zstd { level: -50 }.settings(), Some("level -50".to_string()));
}

#[test]
fn zstd_round_trips_at_every_level() {
    let data = sample();
    for level in [-50, -20, -15, -10, -5, -2, -1] {
        assert_round_trip(&Zstd { level }, &data);
    }
    for level in 0..=22 {
        let packed = assert_round_trip(&Zstd { level }, &data);
        assert_eq!(&packed[..4], &[0x28, 0xb5, 0x2f, 0xfd]);
        assert!(packed.len() < data.len() / 4);
    }
    assert_round_trip(&Zstd { level: 3 }, b"");
}

#[test]
fn zstd_reports_a_destination_of_the_wrong_length() {
    let data = sample();
    let scheme = Zstd { level: 3 };
    let packed = scheme.compress(&data).unwrap();
    let mut short = vec![0u8; data.len() - 1];
    assert_codec_failure(scheme.decompress_to(&packed, &mut short), "zstd decompression failed");
    let mut long = vec![0u8; data.len() + 5];
    assert_eq!(
        scheme.decompress_to(&packed, &mut long),
        Err(SchemeError::LengthMismatch { expected: data.len() + 5, produced: data.len() })
    );
    assert_eq!(&long[..data.len()], &data[..]);
    let mut restored = vec![0u8; 8];
    assert_codec_failure(
        scheme.decompress_to(b"not a frame", &mut restored),
        "zstd decompression failed",
    );
}

#[test]
fn lz4_describes_its_form() {
    assert_eq!(Lz4::Block.name(), "lz4_flex");
    assert_eq!(Lz4::Frame.name(), "lz4_flex");
    assert_eq!(Lz4::Block.settings(), Some("safe / Block".to_string()));
    assert_eq!(Lz4::Frame.settings(), Some("safe / Frame".to_string()));
}

#[test]
fn lz4_round_trips_in_both_forms() {
    let data = sample();
    let block = assert_round_trip(&Lz4::Block, &data);
    let frame = assert_round_trip(&Lz4::Frame, &data);
    assert!(block.len() < data.len() / 4);
    assert!(frame.len() > block.len());
    assert_eq!(&frame[..4], &[0x04, 0x22, 0x4d, 0x18]);
    assert_round_trip(&Lz4::Frame, b"");
}

#[test]
fn lz4_blocks_report_a_destination_of_the_wrong_length() {
    let data = sample();
    let packed = Lz4::Block.compress(&data).unwrap();
    let mut short = vec![0u8; data.len() - 1];
    assert_codec_failure(
        Lz4::Block.decompress_to(&packed, &mut short),
        "lz4_flex decompression error",
    );
    let mut long = vec![0u8; data.len() + 1];
    assert_eq!(
        Lz4::Block.decompress_to(&packed, &mut long),
        Err(SchemeError::LengthMismatch { expected: data.len() + 1, produced: data.len() })
    );
}

#[test]
fn lz4_frames_report_a_destination_of_the_wrong_length() {
    let data = sample();
    let packed = Lz4::Frame.compress(&data).unwrap();
    let mut short = vec![0u8; data.len() - 1];
    assert_eq!(
        Lz4::Frame.decompress_to(&packed, &mut short),
        Err(SchemeError::DestinationTooShort)
    );
    let mut long = vec![0u8; data.len() + 1];
    assert_codec_failure(
        Lz4::Frame.decompress_to(&packed, &mut long),
        "lz4_flex decompression error",
    );
}

#[test]
fn codecs_are_measured_like_any_scheme() {
    let corpus = Corpus { name: "sample", data: sample() };
    let zstd = benchmark_scheme(&Zstd { level: -5 }, &corpus, SAMPLES).unwrap();
    assert_eq!(zstd.scheme, "zstd");
    assert_eq!(zstd.settings, Some("level -5".to_string()));
    assert_eq!(zstd.compressed_len, Zstd { level: -5 }.compress(&corpus.data).unwrap().len());
    let xz = benchmark_scheme(&Lzma { preset: 2 }, &corpus, SAMPLES).unwrap();
    assert_eq!(xz.scheme, "rust-lzma");
    assert_eq!(xz.original_len, corpus.data.len());
    let lz4 = benchmark_scheme(&Lz4::Frame, &corpus, SAMPLES).unwrap();
    assert_eq!(lz4.settings, Some("safe / Frame".to_string()));
    assert_eq!(lz4.decompression_nanos.unwrap().len(), 10);
}
