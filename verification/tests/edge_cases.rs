use compress_bench::schemes::brotli_stream::Brotli;
use compress_bench::schemes::brotlic_stream::{BlockSize, Brotli as Brotlic, WindowSize};
use compress_bench::schemes::bzip::Bzip2;
use compress_bench::schemes::flate::{Deflate, Format};
use compress_bench::schemes::lz4::Lz4 as Lz4Flex;
use compress_bench::schemes::lz4_reference::{FrameLevel, Lz4};
use compress_bench::schemes::lzma_formats::Lzma as LzmaFormat;
use compress_bench::schemes::lzss_codec::{LzssDyn, LzssStatic};
use compress_bench::schemes::snappy::Snap;
use compress_bench::schemes::xsnap::Snappy;
use compress_bench::schemes::xz::Lzma;
use compress_bench::schemes::yazi_deflate::{Level, Yazi};
use compress_bench::schemes::zstandard::Zstd;
use compress_bench::{
    benchmark_scheme, Compressor, Corpus, Decompressor, DescribeScheme, Uncompressed, SAMPLES,
};

fn assert_round_trip<S: Compressor + Decompressor + DescribeScheme>(scheme: &S, data: &[u8]) {
    let packed = scheme.compress(data).unwrap();
    let mut restored = vec![0u8; data.len()];
    let outcome = scheme.decompress_to(&packed, &mut restored);
    assert_eq!(outcome, Ok(()), "{} {:?}", scheme.name(), scheme.settings());
    assert_eq!(restored, data);
}

fn assert_measured<S: Compressor + Decompressor + DescribeScheme>(scheme: &S, corpus: &Corpus) {
    let measurement = benchmark_scheme(scheme, corpus, SAMPLES).unwrap();
    assert_eq!(measurement.scheme, scheme.name());
    assert_eq!(measurement.settings, scheme.settings());
    assert_eq!(measurement.corpus, corpus.name);
    assert_eq!(measurement.original_len, corpus.data.len());
    assert_eq!(measurement.compressed_len, scheme.compress(&corpus.data).unwrap().len());
    assert_eq!(measurement.compression_nanos.len(), 10);
    assert_eq!(measurement.decompression_nanos.unwrap().len(), 10);
}

fn incompressible() -> Vec<u8> {
    let mut state = 0x2545_f491_4f6c_dd1du64;
    let mut data = Vec::new();
    for _ in 0..5000 {
        state ^= state << 13;
        state ^= state >> 7;
        state ^= state << 17;
        data.extend_from_slice(&state.to_le_bytes());
    }
    data
}

#[test]
fn every_stream_scheme_round_trips_the_empty_input() {
    for format in [Format::Deflate, Format::Zlib, Format::GZip] {
        assert_round_trip(&Deflate::new(format, 6).unwrap(), b"");
    }
    assert_round_trip(&Bzip2::new(9).unwrap(), b"");
    assert_round_trip(&Brotli::new(11, 22, 4096).unwrap(), b"");
    assert_round_trip(&Brotlic::new(11, WindowSize::Best, BlockSize::Best).unwrap(), b"");
    assert_round_trip(&Lzma { preset: 6 }, b"");
    assert_round_trip(&Lz4Flex::Frame, b"");
    assert_round_trip(&Lz4::Frame(FrameLevel::Default), b"");
    assert_round_trip(&Snap::Frame, b"");
}

#[test]
fn every_block_scheme_round_trips_the_empty_input() {
    assert_round_trip(&Uncompressed {}, b"");
    assert_round_trip(&Zstd { level: 3 }, b"");
    assert_round_trip(&Lz4Flex::Block, b"");
    assert_round_trip(&Snap::Raw, b"");
    assert_round_trip(&Snappy {}, b"");
    assert_round_trip(&Yazi { level: Level::Default }, b"");
    assert_round_trip(&LzssDyn::new(10, 4, 0x20).unwrap(), b"");
    assert_round_trip(&LzssStatic::<10, 4, 0x20, { 1 << 10 }, { 2 << 10 }> {}, b"");
    for format in [LzmaFormat::Lzma, LzmaFormat::Lzma2, LzmaFormat::Xz] {
        assert_round_trip(&format, b"");
    }
}

#[test]
fn every_scheme_round_trips_data_that_does_not_compress() {
    let data = incompressible();
    assert_round_trip(&Deflate::new(Format::GZip, 9).unwrap(), &data);
    assert_round_trip(&Bzip2::new(1).unwrap(), &data);
    assert_round_trip(&Brotli::new(5, 20, 4096).unwrap(), &data);
    assert_round_trip(&Brotlic::new(5, WindowSize::Worst, BlockSize::Worst).unwrap(), &data);
    assert_round_trip(&Lzma { preset: 0 }, &data);
    assert_round_trip(&Lz4Flex::Block, &data);
    assert_round_trip(&Lz4Flex::Frame, &data);
    assert_round_trip(&Lz4::NormalBlock(1), &data);
    assert_round_trip(&Lz4::HcBlock(12), &data);
    assert_round_trip(&Lz4::Frame(FrameLevel::Max), &data);
    assert_round_trip(&Snap::Raw, &data);
    assert_round_trip(&Snap::Frame, &data);
    assert_round_trip(&Snappy {}, &data);
    assert_round_trip(&Yazi { level: Level::BestSize }, &data);
    assert_round_trip(&Zstd { level: 19 }, &data);
    assert_round_trip(&LzssDyn::new(13, 5, 0x20).unwrap(), &data);
    for format in [LzmaFormat::Lzma, LzmaFormat::Lzma2, LzmaFormat::Xz] {
        assert_round_trip(&format, &data);
    }
}

#[test]
fn every_scheme_is_measured_on_a_small_corpus() {
    let mut data = Vec::new();
    for i in 0..500u32 {
        data.extend_from_slice(format!("word {} ", i % 31).as_bytes());
    }
    let corpus = Corpus { name: "words", data };
    assert_measured(&Uncompressed {}, &corpus);
    assert_measured(&Deflate::new(Format::Zlib, 1).unwrap(), &corpus);
    assert_measured(&Bzip2::new(5).unwrap(), &corpus);
    assert_measured(&Brotli::new(3, 21, 4096).unwrap(), &corpus);
    assert_measured(&Brotlic::new(3, WindowSize::Best, BlockSize::Worst).unwrap(), &corpus);
    assert_measured(&Lzma { preset: 1 }, &corpus);
    assert_measured(&Lz4Flex::Block, &corpus);
    assert_measured(&Lz4::Frame(FrameLevel::High), &corpus);
    assert_measured(&Lz4::NormalBlock(4), &corpus);
    assert_measured(&Snap::Raw, &corpus);
    assert_measured(&Snap::Frame, &corpus);
    assert_measured(&Snappy {}, &corpus);
    assert_measured(&Yazi { level: Level::Specific(4) }, &corpus);
    assert_measured(&Zstd { level: 1 }, &corpus);
    assert_measured(&LzssDyn::new(11, 5, 0x20).unwrap(), &corpus);
    assert_measured(&LzssStatic::<11, 5, 0x20, { 1 << 11 }, { 2 << 11 }> {}, &corpus);
    assert_measured(&LzmaFormat::Lzma2, &corpus);
}
