use compress_bench::schemes::flate::{Deflate, Format};
use compress_bench::{
    benchmark_scheme, Compressor, Corpus, Decompressor, DescribeScheme, SchemeError, SAMPLES,
};

fn sample() -> Vec<u8> {
    let mut data = Vec::new();
    for i in 0..4000u32 {
        data.extend_from_slice(format!("line {} of the sample\n", i % 97).as_bytes());
    }
    data
}

fn all_schemes() -> Vec<Deflate> {
    let mut schemes = Vec::new();
    for level in 0..=10 {
        for format in [Format::Deflate, Format::Zlib, Format::GZip] {
            schemes.push(Deflate::new(format, level).unwrap());
        }
    }
    schemes
}

#[test]
fn flate_levels_go_up_to_ten() {
    assert!(Deflate::new(Format::Deflate, 0).is_some());
    assert!(Deflate::new(Format::GZip, 10).is_some());
    assert!(Deflate::new(Format::Zlib, 11).is_none());
    assert!(Deflate::new(Format::Deflate, u32::MAX).is_none());
    let scheme = Deflate::new(Format::Zlib, 7).unwrap();
    assert_eq!(scheme.format(), Format::Zlib);
    assert_eq!(scheme.level(), 7);
}

#[test]
fn flate_describes_its_wrapping_and_level() {
    let deflate = Deflate::new(Format::Deflate, 0).unwrap();
    assert_eq!(deflate.name(), "flate2 (rust)");
    assert_eq!(deflate.settings(), Some("deflate / level 0".to_string()));
    let zlib = Deflate::new(Format::Zlib, 6).unwrap();
    assert_eq!(zlib.settings(), Some("zlib / level 6".to_string()));
    let gzip = Deflate::new(Format::GZip, 10).unwrap();
    assert_eq!(gzip.settings(), Some("gzip / level 10".to_string()));
}

#[test]
fn flate_round_trips_in_every_wrapping_and_level() {
    let data = sample();
    for scheme in all_schemes() {
        let packed = scheme.compress(&data).unwrap();
        assert_ne!(packed, data);
        let mut restored = vec![0u8; data.len()];
        assert_eq!(scheme.decompress_to(&packed, &mut restored), Ok(()));
        assert_eq!(restored, data);
    }
}

#[test]
fn flate_compresses_compressible_data() {
    let data = sample();
    for format in [Format::Deflate, Format::Zlib, Format::GZip] {
        let stored = Deflate::new(format, 0).unwrap().compress(&data).unwrap();
        let packed = Deflate::new(format, 6).unwrap().compress(&data).unwrap();
        assert!(stored.len() > data.len());
        assert!(packed.len() < data.len() / 4);
    }
}

#[test]
fn flate_wrappings_differ_by_their_framing() {
    let data = sample();
    let raw = Deflate::new(Format::Deflate, 6).unwrap().compress(&data).unwrap();
    let zlib = Deflate::new(Format::Zlib, 6).unwrap().compress(&data).unwrap();
    let gzip = Deflate::new(Format::GZip, 6).unwrap().compress(&data).unwrap();
    assert_eq!(zlib.len(), raw.len() + 6);
    assert_eq!(gzip.len(), raw.len() + 18);
    assert_eq!(zlib[0], 0x78);
    assert_eq!(&gzip[..2], &[0x1f, 0x8b]);
    assert_eq!(&zlib[2..zlib.len() - 4], &raw[..]);
}

#[test]
fn flate_compression_is_repeatable() {
    let data = sample();
    for scheme in all_schemes() {
        assert_eq!(scheme.compress(&data).unwrap(), scheme.compress(&data).unwrap());
    }
}

#[test]
fn flate_reports_a_destination_that_is_too_short() {
    let data = sample();
    for format in [Format::Deflate, Format::Zlib, Format::GZip] {
        let scheme = Deflate::new(format, 6).unwrap();
        let packed = scheme.compress(&data).unwrap();
        let mut short = vec![0u8; data.len() - 1];
        assert_eq!(
            scheme.decompress_to(&packed, &mut short),
            Err(SchemeError::DestinationTooShort)
        );
        let mut empty: Vec<u8> = Vec::new();
        assert_eq!(
            scheme.decompress_to(&packed, &mut empty),
            Err(SchemeError::DestinationTooShort)
        );
    }
}

#[test]
fn flate_reports_a_destination_that_is_too_long() {
    let data = sample();
    for format in [Format::Deflate, Format::Zlib, Format::GZip] {
        let scheme = Deflate::new(format, 6).unwrap();
        let packed = scheme.compress(&data).unwrap();
        let mut long = vec![0u8; data.len() + 1];
        let error = scheme.decompress_to(&packed, &mut long).unwrap_err();
        match error {
            SchemeError::Codec { operation, .. } => {
                assert_eq!(operation, "deflate decompression failed")
            },
            other => panic!("unexpected failure: {:?}", other),
        }
    }
}

#[test]
fn flate_reports_a_corrupt_stream() {
    let scheme = Deflate::new(Format::Zlib, 6).unwrap();
    let mut restored = vec![0u8; 16];
    let error = scheme.decompress_to(&[0xff; 32], &mut restored).unwrap_err();
    assert_eq!(
        error,
        SchemeError::Codec {
            operation: "deflate decompression failed",
            detail: "corrupt deflate stream".to_string(),
        }
    );
}

#[test]
fn flate_is_measured_like_any_scheme() {
    let data = sample();
    let corpus = Corpus { name: "sample", data };
    let scheme = Deflate::new(Format::GZip, 9).unwrap();
    let measurement = benchmark_scheme(&scheme, &corpus, SAMPLES).unwrap();
    assert_eq!(measurement.scheme, "flate2 (rust)");
    assert_eq!(measurement.settings, Some("gzip / level 9".to_string()));
    assert_eq!(measurement.original_len, corpus.data.len());
    assert_eq!(measurement.compressed_len, scheme.compress(&corpus.data).unwrap().len());
    assert!(measurement.compressed_len < measurement.original_len);
}
