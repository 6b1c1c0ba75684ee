//! A benchmarking core for data-compression schemes.
//!
//! For every scheme and every reference corpus the library times a fixed
//! number of compression calls (and, for schemes that can decompress, the
//! matching decompression calls), checks on every sample that the scheme is
//! deterministic in its output size and that the round trip reproduces the
//! corpus byte for byte, and hands the raw samples on as a [`Measurement`].
//!
//! The library performs no file or console I/O and computes no floating-point
//! statistics: callers hand it what they read from disk and turn the integer
//! samples into throughput figures themselves.
//!
//! A scheme is anything that implements [`Compressor`], [`DescribeScheme`]
//! and, for the round trip, [`Decompressor`]. The module [`schemes`] holds
//! the schemes that come with the library, one module for each codec.

pub mod bench;
pub mod codec;
pub mod corpus;
pub mod error;
pub mod measure;
pub mod scheme;
pub mod schemes;
pub mod text;
pub mod timing;

pub use bench::{benchmark, benchmark_compression_only, sweep, sweep_compression_only};
pub use corpus::{
    load_corpus, read_corpora, read_corpus_data, Corpus, CorpusSources, FileRead, CANTERBURY,
    CANTERBURY_FILES, CANTERBURY_LARGE, CANTERBURY_LARGE_FILES, CANTERBURY_LARGE_LEN,
    CANTERBURY_LEN, CORPORA_BASE, SILESIA, SILESIA_FILES, SILESIA_LEN,
};
pub use error::{BenchError, FileError, LoadError, ReadFailure, RunError, SchemeError};
pub use measure::{
    benchmark_compression_scheme, benchmark_scheme, check_compressed_size, check_round_trip,
    Measurement, SAMPLES,
};
pub use codec::{
    copy_exact, done_or_failure, fill_verdict, length_verdict, packed_or_failure, probe_verdict,
    sized_verdict, ReadOutcome,
};
pub use scheme::{Compressor, Decompressor, DescribeScheme};
pub use schemes::Uncompressed;
pub use text::{render_signed, render_unsigned};
pub use timing::{sample_nanos, time};
