use compress_bench::schemes::flate::{Deflate as Flate, Format};
use compress_bench::schemes::lz4::Lz4 as Lz4Flex;
use compress_bench::schemes::lz4_reference::{FrameLevel, Lz4};
use compress_bench::schemes::lzss_codec::{LzssDyn, LzssStatic};
use compress_bench::schemes::zopfli_deflate::Zopfli;
use compress_bench::{
    benchmark_compression_scheme, Compressor, Corpus, Decompressor, DescribeScheme, SchemeError,
};

fn sample() -> Vec<u8> {
    let mut data = Vec::new();
    for i in 0..3000u32 {
        data.extend_from_slice(format!("item {} of the sample.", i % 73).as_bytes());
    }
    data
}

fn assert_round_trip<S: Compressor + Decompressor>(scheme: &S, data: &[u8]) -> Vec<u8> {
    let packed = scheme.compress(data).unwrap();
    assert_eq!(packed, scheme.compress(data).unwrap());
    let mut restored = vec![0u8; data.len()];
    assert_eq!(scheme.decompress_to(&packed, &mut restored), Ok(()));
    assert_eq!(restored, data);
    packed
}

fn assert_codec_failure(failure: Result<(), SchemeError>, label: &str) {
    match failure {
        Err(SchemeError::Codec { operation, .. }) => assert_eq!(operation, label),
        other => panic!("unexpected outcome: {:?}", other),
    }
}

#[test]
fn lzss_takes_the_parameters_that_the_codec_takes() {
    assert!(LzssDyn::new(10, 4, 0x20).is_some());
    assert!(LzssDyn::new(13, 5, 0x20).is_some());
    assert!(LzssDyn::new(20, 4, 0).is_some());
    assert!(LzssDyn::new(7, 1, 0).is_some());
    assert!(LzssDyn::new(10, 0, 0x20).is_none());
    assert!(LzssDyn::new(4, 4, 0x20).is_none());
    assert!(LzssDyn::new(4, 5, 0x20).is_none());
    assert!(LzssDyn::new(6, 1, 0x20).is_none());
    assert!(LzssDyn::new(21, 4, 0x20).is_none());
    assert!(LzssDyn::new(usize::MAX, 1, 0x20).is_none());
    let scheme = LzssDyn::new(12, 5, 0x20).unwrap();
    assert_eq!((scheme.ei(), scheme.ej(), scheme.c()), (12, 5, 0x20));
}

#[test]
fn lzss_describes_its_parameters() {
    let dynamic = LzssDyn::new(11, 4, 0x20).unwrap();
    assert_eq!(dynamic.name(), "lzss (dyn)");
    assert_eq!(dynamic.settings(), Some("ei=11/ej=4".to_string()));
    let fixed = LzssStatic::<13, 5, 0x20, { 1 << 13 }, { 2 << 13 }> {};
    assert_eq!(fixed.name(), "lzss (static)");
    assert_eq!(fixed.settings(), Some("ei=13/ej=5".to_string()));
}

#[test]
fn lzss_round_trips_with_every_parameter_set() {
    let data = sample();
    for ei in 10..=13 {
        for ej in 4..=5 {
            let packed = assert_round_trip(&LzssDyn::new(ei, ej, 0x20).unwrap(), &data);
            assert!(packed.len() < data.len() / 2);
        }
    }
    let a = assert_round_trip(&LzssStatic::<10, 4, 0x20, { 1 << 10 }, { 2 << 10 }> {}, &data);
    let b = assert_round_trip(&LzssStatic::<13, 5, 0x20, { 1 << 13 }, { 2 << 13 }> {}, &data);
    assert_eq!(a, LzssDyn::new(10, 4, 0x20).unwrap().compress(&data).unwrap());
    assert_eq!(b, LzssDyn::new(13, 5, 0x20).unwrap().compress(&data).unwrap());
}

#[test]
fn lzss_reports_a_destination_of_the_wrong_length() {
    let data = sample();
    let scheme = LzssDyn::new(12, 4, 0x20).unwrap();
    let packed = scheme.compress(&data).unwrap();
    for len in [data.len() - 1, data.len() + 1, 0] {
        let mut wrong = vec![0u8; len];
        assert_eq!(
            scheme.decompress_to(&packed, &mut wrong),
            Err(SchemeError::Codec {
                operation: "lzss decompression error",
                detail: "Write error: Over- or underflow happened".to_string(),
            })
        );
    }
    let fixed = LzssStatic::<12, 4, 0x20, { 1 << 12 }, { 2 << 12 }> {};
    let mut short = vec![0u8; data.len() - 1];
    assert_codec_failure(fixed.decompress_to(&packed, &mut short), "lzss decompression error");
}

#[test]
fn lzzzz_describes_its_form() {
    assert_eq!(Lz4::NormalBlock(1).name(), "lzzzz");
    assert_eq!(
        Lz4::NormalBlock(65535).settings(),
        Some("block / normal / acceleration 65535".to_string())
    );
    assert_eq!(Lz4::HcBlock(0).settings(), Some("block / hc / acceleration 0".to_string()));
    assert_eq!(Lz4::HcBlock(-3).settings(), Some("block / hc / acceleration -3".to_string()));
    assert_eq!(Lz4::Frame(FrameLevel::Default).settings(), Some("frame / Default".to_string()));
    assert_eq!(Lz4::Frame(FrameLevel::High).settings(), Some("frame / High".to_string()));
    assert_eq!(Lz4::Frame(FrameLevel::Max).settings(), Some("frame / Max".to_string()));
}

#[test]
fn lzzzz_round_trips_in_every_form() {
    let data = sample();
    for level in [FrameLevel::Default, FrameLevel::High, FrameLevel::Max] {
        let packed = assert_round_trip(&Lz4::Frame(level), &data);
        assert_eq!(&packed[..4], &[0x04, 0x22, 0x4d, 0x18]);
    }
    for number in [0, 1, 2, 4, 8, 16, 128, 1024, 8192, 65535] {
        let fast = assert_round_trip(&Lz4::NormalBlock(number), &data);
        let dense = assert_round_trip(&Lz4::HcBlock(number), &data);
        assert!(fast.len() <= data.len() + data.len() / 255 + 16);
        assert!(dense.len() < data.len() / 4);
        if number <= 16 {
            assert!(fast.len() < data.len());
        }
    }
}

#[test]
fn lzzzz_blocks_are_blocks_that_other_decoders_read() {
    let data = sample();
    let packed = Lz4::HcBlock(9).compress(&data).unwrap();
    let mut restored = vec![0u8; data.len()];
    assert_eq!(Lz4Flex::Block.decompress_to(&packed, &mut restored), Ok(()));
    assert_eq!(restored, data);
    let frame = Lz4::Frame(FrameLevel::High).compress(&data).unwrap();
    let mut restored = vec![0u8; data.len()];
    assert_eq!(Lz4Flex::Frame.decompress_to(&frame, &mut restored), Ok(()));
    assert_eq!(restored, data);
}

#[test]
fn lzzzz_blocks_report_a_destination_of_the_wrong_length() {
    let data = sample();
    let packed = Lz4::NormalBlock(1).compress(&data).unwrap();
    let mut short = vec![0u8; data.len() - 1];
    assert_codec_failure(Lz4::NormalBlock(1).decompress_to(&packed, &mut short), "lzzzz error");
    let mut long = vec![0u8; data.len() + 1];
    assert_eq!(
        Lz4::HcBlock(1).decompress_to(&packed, &mut long),
        Err(SchemeError::LengthMismatch { expected: data.len() + 1, produced: data.len() })
    );
}

#[test]
fn lzzzz_frames_report_a_destination_that_is_too_long() {
    let data = sample();
    let scheme = Lz4::Frame(FrameLevel::Default);
    let packed = scheme.compress(&data).unwrap();
    let mut long = vec![0u8; data.len() + 1];
    assert_codec_failure(scheme.decompress_to(&packed, &mut long), "lzzzz decompression error");
}

#[test]
fn lzzzz_frames_report_a_destination_that_is_too_short() {
    let mut data = Vec::new();
    for i in 0..200_000u32 {
        data.extend_from_slice(&i.wrapping_mul(2_654_435_761).to_le_bytes());
    }
    let scheme = Lz4::Frame(FrameLevel::Default);
    let packed = scheme.compress(&data).unwrap();
    let mut short = vec![0u8; 16];
    assert_eq!(scheme.decompress_to(&packed, &mut short), Err(SchemeError::DestinationTooShort));
    assert_eq!(&short[..], &data[..16]);
    let mut short = vec![0u8; data.len() - 1];
    assert_eq!(scheme.decompress_to(&packed, &mut short), Err(SchemeError::DestinationTooShort));
    assert_round_trip(&scheme, &data);
}

#[test]
fn zopfli_describes_itself() {
    assert_eq!(Zopfli {}.name(), "zopfli");
    assert_eq!(Zopfli {}.settings(), None);
}

#[test]
fn zopfli_gives_streams_that_inflate_to_the_data() {
    let data = &sample()[..6000];
    let packed = Zopfli {}.compress(data).unwrap();
    assert_eq!(packed, Zopfli {}.compress(data).unwrap());
    let reference = Flate::new(Format::Deflate, 9).unwrap().compress(data).unwrap();
    assert!(packed.len() <= reference.len());
    let mut restored = vec![0u8; data.len()];
    let inflater = Flate::new(Format::Deflate, 1).unwrap();
    assert_eq!(inflater.decompress_to(&packed, &mut restored), Ok(()));
    assert_eq!(restored, data);
}

#[test]
fn zopfli_is_measured_for_compression_alone() {
    let corpus = Corpus { name: "sample", data: sample()[..2000].to_vec() };
    let measurement = benchmark_compression_scheme(&Zopfli {}, &corpus, 2).unwrap();
    assert_eq!(measurement.scheme, "zopfli");
    assert_eq!(measurement.settings, None);
    assert_eq!(measurement.decompression_nanos, None);
    assert_eq!(measurement.compression_nanos.len(), 2);
}
