use compress_bench::{
    benchmark_compression_scheme, benchmark_scheme, check_compressed_size, check_round_trip,
    sample_nanos, time, Compressor, Corpus, Decompressor, DescribeScheme, Measurement, RunError,
    SchemeError, Uncompressed, SAMPLES,
};
use std::cell::Cell;
use std::time::{Duration, Instant};

fn corpus(name: &'static str, data: &[u8]) -> Corpus {
    Corpus { name, data: data.to_vec() }
}

/// A scheme for tests: it stores the data behind a one-byte header, counts
/// its calls, and misbehaves on the call that it is told to.
struct Scripted {
    compressions: Cell<u64>,
    decompressions: Cell<u64>,
    grow_at: Option<u64>,
    fail_compression_at: Option<u64>,
    fail_decompression_at: Option<u64>,
    corrupt_at: Option<u64>,
}

impl Scripted {
    fn new() -> Scripted {
        Scripted {
            compressions: Cell::new(0),
            decompressions: Cell::new(0),
            grow_at: None,
            fail_compression_at: None,
            fail_decompression_at: None,
            corrupt_at: None,
        }
    }
}

impl DescribeScheme for Scripted {
    fn name(&self) -> String {
        "scripted".to_string()
    }

    fn settings(&self) -> Option<String> {
        Some("header 1".to_string())
    }
}

impl Compressor for Scripted {
    fn compress(&self, data: &[u8]) -> Result<Vec<u8>, SchemeError> {
        let call = self.compressions.get();
        self.compressions.set(call + 1);
        if self.fail_compression_at == Some(call) {
            return Err(SchemeError::Codec {
                operation: "scripted compression failed",
                detail: "told to".to_string(),
            });
        }
        let mut packed = vec![0xA5u8];
        packed.extend_from_slice(data);
        if self.grow_at == Some(call) {
            packed.push(0);
        }
        Ok(packed)
    }
}

impl Decompressor for Scripted {
    fn decompress_to(&self, src: &[u8], dst: &mut [u8]) -> Result<(), SchemeError> {
        let call = self.decompressions.get();
        self.decompressions.set(call + 1);
        assert!(dst.iter().all(|byte| *byte == 0));
        if self.fail_decompression_at == Some(call) {
            return Err(SchemeError::DestinationTooShort);
        }
        dst.copy_from_slice(&src[1..1 + dst.len()]);
        if self.corrupt_at == Some(call) {
            dst[0] ^= 1;
        }
        Ok(())
    }
}

fn assert_samples(nanos: &[u128]) {
    assert_eq!(nanos.len(), 10);
    assert!(nanos.iter().all(|n| *n > 0));
}

#[test]
fn ten_samples_are_taken() {
    assert_eq!(SAMPLES, 10);
}

#[test]
fn timing_hands_on_the_result_and_runs_the_operation_once() {
    let calls = Cell::new(0);
    let out = time(|| {
        calls.set(calls.get() + 1);
        Ok::<u32, SchemeError>(41 + 1)
    });
    let (value, _elapsed) = out.unwrap();
    assert_eq!(value, 42);
    assert_eq!(calls.get(), 1);
}

#[test]
fn timing_hands_on_a_failure_unchanged() {
    let calls = Cell::new(0);
    let out = time(|| {
        calls.set(calls.get() + 1);
        Err::<u32, SchemeError>(SchemeError::LengthMismatch { expected: 2, produced: 1 })
    });
    assert_eq!(out.err(), Some(SchemeError::LengthMismatch { expected: 2, produced: 1 }));
    assert_eq!(calls.get(), 1);
}

#[test]
fn timing_measures_at_least_the_time_the_operation_took() {
    let out = time(|| {
        let started = Instant::now();
        while started.elapsed() < Duration::from_millis(20) {}
        Ok::<(), SchemeError>(())
    });
    let ((), elapsed) = out.unwrap();
    assert!(elapsed >= Duration::from_millis(20));
}

#[test]
fn a_sample_counts_for_at_least_one_nanosecond() {
    assert_eq!(sample_nanos(0), 1);
    assert_eq!(sample_nanos(1), 1);
    assert_eq!(sample_nanos(5), 5);
    assert_eq!(sample_nanos(Duration::ZERO.as_nanos()), 1);
    assert_eq!(sample_nanos(Duration::from_secs(3).as_nanos()), 3_000_000_000);
    assert_eq!(sample_nanos(Duration::new(2, 17).as_nanos()), 2_000_000_017);
    assert_eq!(sample_nanos(u128::MAX), u128::MAX);
}

#[test]
fn the_first_sample_sets_the_compressed_size() {
    assert_eq!(check_compressed_size(None, 0), Ok(0));
    assert_eq!(check_compressed_size(None, 1234), Ok(1234));
}

#[test]
fn later_samples_must_match_the_compressed_size() {
    assert_eq!(check_compressed_size(Some(1234), 1234), Ok(1234));
    assert_eq!(
        check_compressed_size(Some(1234), 1235),
        Err(RunError::SizeChanged { first: 1234, later: 1235 })
    );
    assert_eq!(
        check_compressed_size(Some(7), 0),
        Err(RunError::SizeChanged { first: 7, later: 0 })
    );
}

#[test]
fn the_round_trip_must_give_back_every_byte() {
    let original = b"the corpus".to_vec();
    assert_eq!(check_round_trip(&original, &b"the corpus".to_vec()), Ok(()));
    assert_eq!(check_round_trip(&original, &b"the corpuS".to_vec()), Err(RunError::RoundTrip));
    assert_eq!(check_round_trip(&original, &b"the corpu".to_vec()), Err(RunError::RoundTrip));
    assert_eq!(check_round_trip(&original, &Vec::new()), Err(RunError::RoundTrip));
    assert_eq!(check_round_trip(&Vec::new(), &Vec::new()), Ok(()));
}

#[test]
fn the_uncompressed_scheme_has_a_ratio_of_one() {
    let corpus = corpus("plain", &[7u8; 5000]);
    let measurement = benchmark_scheme(&Uncompressed {}, &corpus, SAMPLES).unwrap();
    assert_eq!(measurement.scheme, "uncompressed");
    assert_eq!(measurement.settings, None);
    assert_eq!(measurement.corpus, "plain");
    assert_eq!(measurement.original_len, 5000);
    assert_eq!(measurement.compressed_len, 5000);
    assert_eq!(measurement.size_ratio(), (5000, 5000));
    assert_eq!(
        measurement.original_len as f64 / measurement.compressed_len as f64,
        1.0
    );
    assert_samples(&measurement.compression_nanos);
    assert_samples(measurement.decompression_nanos.as_ref().unwrap());
}

#[test]
fn a_round_trip_run_calls_each_operation_once_per_sample() {
    let scheme = Scripted::new();
    let corpus = corpus("abc", b"abcabcabc");
    let measurement: Measurement = benchmark_scheme(&scheme, &corpus, SAMPLES).unwrap();
    assert_eq!(scheme.compressions.get(), 10);
    assert_eq!(scheme.decompressions.get(), 10);
    assert_eq!(measurement.scheme, "scripted");
    assert_eq!(measurement.settings, Some("header 1".to_string()));
    assert_eq!(measurement.corpus, "abc");
    assert_eq!(measurement.original_len, 9);
    assert_eq!(measurement.compressed_len, 10);
    assert_eq!(measurement.size_ratio(), (9, 10));
    assert_samples(&measurement.compression_nanos);
    assert_samples(measurement.decompression_nanos.as_ref().unwrap());
}

#[test]
fn the_sample_count_is_the_callers() {
    let scheme = Scripted::new();
    let corpus = corpus("abc", b"abc");
    let measurement = benchmark_scheme(&scheme, &corpus, 3).unwrap();
    assert_eq!(scheme.compressions.get(), 3);
    assert_eq!(measurement.compression_nanos.len(), 3);
    assert_eq!(measurement.decompression_nanos.unwrap().len(), 3);
    let once = benchmark_compression_scheme(&scheme, &corpus, 1).unwrap();
    assert_eq!(scheme.compressions.get(), 4);
    assert_eq!(once.compression_nanos.len(), 1);
}

#[test]
fn a_compression_run_has_no_decompression_times() {
    let scheme = Scripted::new();
    let corpus = corpus("abc", b"abcabcabc");
    let measurement = benchmark_compression_scheme(&scheme, &corpus, SAMPLES).unwrap();
    assert_eq!(scheme.compressions.get(), 10);
    assert_eq!(scheme.decompressions.get(), 0);
    assert_eq!(measurement.decompression_nanos, None);
    assert_eq!(measurement.original_len, 9);
    assert_eq!(measurement.compressed_len, 10);
    assert_samples(&measurement.compression_nanos);
}

#[test]
fn an_empty_corpus_is_measured_like_any_other() {
    let corpus = corpus("empty", b"");
    let measurement = benchmark_scheme(&Uncompressed {}, &corpus, SAMPLES).unwrap();
    assert_eq!(measurement.original_len, 0);
    assert_eq!(measurement.compressed_len, 0);
    assert_samples(&measurement.compression_nanos);
}

#[test]
fn a_changing_compressed_size_abandons_the_run() {
    let mut scheme = Scripted::new();
    scheme.grow_at = Some(4);
    let corpus = corpus("abc", b"abcabcabc");
    let error = benchmark_scheme(&scheme, &corpus, SAMPLES).err().unwrap();
    assert_eq!(error, RunError::SizeChanged { first: 10, later: 11 });
    assert_eq!(scheme.compressions.get(), 5);
    assert_eq!(scheme.decompressions.get(), 4);

    let mut scheme = Scripted::new();
    scheme.grow_at = Some(0);
    let error = benchmark_compression_scheme(&scheme, &corpus, SAMPLES).err().unwrap();
    assert_eq!(error, RunError::SizeChanged { first: 11, later: 10 });
    assert_eq!(scheme.compressions.get(), 2);
}

#[test]
fn a_corrupted_round_trip_abandons_the_run() {
    let mut scheme = Scripted::new();
    scheme.corrupt_at = Some(9);
    let corpus = corpus("abc", b"abcabcabc");
    let error = benchmark_scheme(&scheme, &corpus, SAMPLES).err().unwrap();
    assert_eq!(error, RunError::RoundTrip);
    assert_eq!(scheme.compressions.get(), 10);
    assert_eq!(scheme.decompressions.get(), 10);

    let mut scheme = Scripted::new();
    scheme.corrupt_at = Some(0);
    let error = benchmark_scheme(&scheme, &corpus, SAMPLES).err().unwrap();
    assert_eq!(error, RunError::RoundTrip);
    assert_eq!(scheme.compressions.get(), 1);
    assert_eq!(scheme.decompressions.get(), 1);
}

#[test]
fn a_failed_compression_abandons_the_run() {
    let mut scheme = Scripted::new();
    scheme.fail_compression_at = Some(2);
    let corpus = corpus("abc", b"abcabcabc");
    let error = benchmark_scheme(&scheme, &corpus, SAMPLES).err().unwrap();
    assert_eq!(
        error,
        RunError::Compression(SchemeError::Codec {
            operation: "scripted compression failed",
            detail: "told to".to_string(),
        })
    );
    assert_eq!(error.message(), "couldn't time compression: scripted compression failed: told to");
    assert_eq!(scheme.compressions.get(), 3);
    assert_eq!(scheme.decompressions.get(), 2);
}

#[test]
fn a_failed_decompression_abandons_the_run() {
    let mut scheme = Scripted::new();
    scheme.fail_decompression_at = Some(0);
    let corpus = corpus("abc", b"abcabcabc");
    let error = benchmark_scheme(&scheme, &corpus, SAMPLES).err().unwrap();
    assert_eq!(error, RunError::Decompression(SchemeError::DestinationTooShort));
    assert_eq!(scheme.compressions.get(), 1);
    assert_eq!(scheme.decompressions.get(), 1);
}
