//! The measurement of one scheme on one corpus: a fixed number of timed
//! samples, each of them checked before its time is taken to mean anything.

use crate::corpus::Corpus;
use crate::error::{RunError, SchemeError};
use crate::scheme::{failure_of, packed_view, Compressor, Decompressor, DescribeScheme};
use crate::text::optional_text;
use crate::timing::{sample_nanos, time};
use vstd::prelude::*;

verus! {

/// The number of samples taken of every scheme on every corpus.
pub const SAMPLES: u64 = 10;

/// The samples taken of one scheme on one corpus.
///
/// Times are in nanoseconds, one per sample and never zero. The compression
/// ratio of the run is `original_len` to `compressed_len`: the compressed
/// length is that of the first sample, which every later sample matched.
#[derive(Debug)]
pub struct Measurement {
    pub scheme: String,
    pub settings: Option<String>,
    pub corpus: &'static str,
    pub original_len: usize,
    pub compressed_len: usize,
    pub compression_nanos: Vec<u128>,
    /// The decompression times; `None` where only compression was measured.
    pub decompression_nanos: Option<Vec<u128>>,
}

/// Every time is at least one nanosecond.
pub open spec fn all_positive(nanos: Seq<u128>) -> bool {
    forall|i: int| 0 <= i < nanos.len() ==> #[trigger] nanos[i] > 0
}

/// A buffer of `n` zero bytes.
pub open spec fn zeros(n: nat) -> Seq<u8> {
    Seq::new(n, |i: int| 0u8)
}

/// The scheme may compress `data` to `packed`.
pub open spec fn may_pack<C: Compressor>(scheme: &C, data: Seq<u8>, packed: Seq<u8>) -> bool {
    scheme.compress_yields(data, Ok(packed))
}

/// The scheme may compress `data` to `packed` and then, decoding `packed`
/// into a zeroed buffer of the length of `data`, end in `failure` with
/// `restored` in the buffer.
pub open spec fn may_restore<C: Compressor + Decompressor>(
    scheme: &C,
    data: Seq<u8>,
    packed: Seq<u8>,
    restored: Seq<u8>,
    failure: Option<SchemeError>,
) -> bool {
    &&& scheme.compress_yields(data, Ok(packed))
    &&& scheme.decompress_yields(packed, zeros(data.len()), restored, failure)
}

/// Every one of `packs` is an output of length `len` that the scheme may
/// give for `data`.
pub open spec fn all_pack<C: Compressor>(
    scheme: &C,
    data: Seq<u8>,
    packs: Seq<Seq<u8>>,
    len: usize,
) -> bool {
    forall|i: int|
        0 <= i < packs.len() ==> may_pack(scheme, data, #[trigger] packs[i]) && packs[i].len()
            == len
}

/// Every one of `packs` is an output of length `len` that the scheme may
/// give for `data` and may then decode to `data` again.
pub open spec fn all_restore<C: Compressor + Decompressor>(
    scheme: &C,
    data: Seq<u8>,
    packs: Seq<Seq<u8>>,
    len: usize,
) -> bool {
    forall|i: int|
        0 <= i < packs.len() ==> may_restore(scheme, data, #[trigger] packs[i], data, None)
            && packs[i].len() == len
}

impl Measurement {
    /// What every measurement of `samples` samples of the scheme on the
    /// corpus says of the two and of its compression times.
    pub open spec fn is_of<C: DescribeScheme>(
        self,
        scheme: &C,
        name: &'static str,
        data: Seq<u8>,
        samples: u64,
    ) -> bool {
        &&& scheme.name_is(self.scheme@)
        &&& scheme.settings_are(optional_text(self.settings))
        &&& self.corpus == name
        &&& self.original_len == data.len()
        &&& self.compression_nanos@.len() == samples
        &&& all_positive(self.compression_nanos@)
    }

    /// This is a compression-only measurement of the scheme on the corpus:
    /// it has no decompression times, and its compressed length is that of
    /// every one of `samples` outputs that the scheme may give for the
    /// corpus.
    pub open spec fn measures_compression<C: Compressor + DescribeScheme>(
        self,
        scheme: &C,
        name: &'static str,
        data: Seq<u8>,
        samples: u64,
    ) -> bool {
        &&& self.is_of(scheme, name, data, samples)
        &&& self.decompression_nanos is None
        &&& exists|packs: Seq<Seq<u8>>|
            packs.len() == samples && #[trigger] all_pack(scheme, data, packs, self.compressed_len)
    }

    /// This is a round-trip measurement of the scheme on the corpus: it has
    /// as many decompression times as compression times, and its compressed
    /// length is that of every one of `samples` outputs that the scheme may
    /// give for the corpus and may decode to the corpus again.
    pub open spec fn measures_round_trip<C: Compressor + Decompressor + DescribeScheme>(
        self,
        scheme: &C,
        name: &'static str,
        data: Seq<u8>,
        samples: u64,
    ) -> bool {
        &&& self.is_of(scheme, name, data, samples)
        &&& self.decompression_nanos matches Some(nanos)
        &&& nanos@.len() == samples
        &&& all_positive(nanos@)
        &&& exists|packs: Seq<Seq<u8>>|
            packs.len() == samples && #[trigger] all_restore(
                scheme,
                data,
                packs,
                self.compressed_len,
            )
    }

    /// The compression ratio of the run as a fraction: the length of the
    /// corpus over the compressed length.
    pub open spec fn ratio(self) -> (nat, nat) {
        (self.original_len as nat, self.compressed_len as nat)
    }

    /// The numerator and the denominator of the compression ratio.
    pub fn size_ratio(&self) -> (ratio: (usize, usize))
        ensures
            (ratio.0 as nat, ratio.1 as nat) == self.ratio(),
    {
        (self.original_len, self.compressed_len)
    }
}

/// The scheme may give two outputs of the lengths `first` and `later` for
/// the same `data`.
pub open spec fn may_pack_to_both<C: Compressor>(
    scheme: &C,
    data: Seq<u8>,
    first: usize,
    later: usize,
) -> bool {
    &&& exists|packed: Seq<u8>| #[trigger] may_pack(scheme, data, packed) && packed.len() == first
    &&& exists|packed: Seq<u8>| #[trigger] may_pack(scheme, data, packed) && packed.len() == later
}

/// `error` is a way in which the compression-only measurement of the scheme
/// on `data` may be abandoned: the scheme may fail so, or may give outputs
/// of two different lengths.
pub open spec fn compression_fails_with<C: Compressor>(
    scheme: &C,
    data: Seq<u8>,
    error: RunError,
) -> bool {
    match error {
        RunError::Compression(failure) => scheme.compress_yields(data, Err(failure)),
        RunError::SizeChanged { first, later } => {
            first != later && may_pack_to_both(scheme, data, first, later)
        },
        _ => false,
    }
}

/// `error` is a way in which the round-trip measurement of the scheme on
/// `data` may be abandoned: the scheme may fail so in one of its two
/// operations, may give outputs of two different lengths, or may decode
/// an output of its own to something other than `data`.
pub open spec fn round_trip_fails_with<C: Compressor + Decompressor>(
    scheme: &C,
    data: Seq<u8>,
    error: RunError,
) -> bool {
    match error {
        RunError::Compression(failure) => scheme.compress_yields(data, Err(failure)),
        RunError::Decompression(failure) => exists|packed: Seq<u8>, left: Seq<u8>| #[trigger]
            may_restore(scheme, data, packed, left, Some(failure)),
        RunError::SizeChanged { first, later } => {
            first != later && may_pack_to_both(scheme, data, first, later)
        },
        RunError::RoundTrip => exists|packed: Seq<u8>, restored: Seq<u8>| #[trigger]
            may_restore(scheme, data, packed, restored, None) && restored != data,
    }
}

/// What a compression-only run of `samples` samples of the scheme on the
/// corpus may end in.
pub open spec fn compression_run<C: Compressor + DescribeScheme>(
    scheme: &C,
    name: &'static str,
    data: Seq<u8>,
    samples: u64,
    out: Result<Measurement, RunError>,
) -> bool {
    match out {
        Ok(measurement) => measurement.measures_compression(scheme, name, data, samples),
        Err(error) => compression_fails_with(scheme, data, error),
    }
}

/// What a round-trip run of `samples` samples of the scheme on the corpus
/// may end in.
pub open spec fn round_trip_run<C: Compressor + Decompressor + DescribeScheme>(
    scheme: &C,
    name: &'static str,
    data: Seq<u8>,
    samples: u64,
    out: Result<Measurement, RunError>,
) -> bool {
    match out {
        Ok(measurement) => measurement.measures_round_trip(scheme, name, data, samples),
        Err(error) => round_trip_fails_with(scheme, data, error),
    }
}

/// A round-trip measurement shows the round trip of the scheme on the
/// corpus: the scheme may compress the corpus to as many bytes as the
/// measurement says and may decompress them to the corpus again.
pub proof fn lemma_measurement_shows_round_trip<C: Compressor + Decompressor + DescribeScheme>(
    scheme: &C,
    name: &'static str,
    data: Seq<u8>,
    samples: u64,
    measurement: Measurement,
)
    requires
        samples > 0,
        measurement.measures_round_trip(scheme, name, data, samples),
    ensures
        exists|packed: Seq<u8>| #[trigger]
            may_restore(scheme, data, packed, data, None) && packed.len()
                == measurement.compressed_len,
{
    let packs = choose|packs: Seq<Seq<u8>>|
        packs.len() == samples && #[trigger] all_restore(
            scheme,
            data,
            packs,
            measurement.compressed_len,
        );
    assert(may_restore(scheme, data, packs[0], data, None));
}

/// A scheme that cannot give the corpus back is never measured on it: where
/// no output of the scheme for the corpus decompresses to the corpus again,
/// every round-trip run is abandoned.
pub proof fn lemma_broken_round_trip_is_never_measured<
    C: Compressor + Decompressor + DescribeScheme,
>(scheme: &C, name: &'static str, data: Seq<u8>, samples: u64, out: Result<Measurement, RunError>)
    requires
        samples > 0,
        forall|packed: Seq<u8>| !#[trigger] may_restore(scheme, data, packed, data, None),
        round_trip_run(scheme, name, data, samples, out),
    ensures
        out is Err,
{
    if let Ok(measurement) = out {
        lemma_measurement_shows_round_trip(scheme, name, data, samples, measurement);
    }
}

/// A scheme whose outputs for the corpus all have one length is never
/// reported for a changing compressed size.
pub proof fn lemma_stable_size_is_never_reported<C: Compressor + Decompressor>(
    scheme: &C,
    data: Seq<u8>,
    len: nat,
    error: RunError,
)
    requires
        forall|packed: Seq<u8>| #[trigger] may_pack(scheme, data, packed) ==> packed.len() == len,
        compression_fails_with(scheme, data, error) || round_trip_fails_with(scheme, data, error),
    ensures
        !(error is SizeChanged),
{
}

/// A compression-only measurement has no decompression times and a
/// round-trip measurement has them: no measurement is both.
pub proof fn lemma_measurement_kinds_differ<C: Compressor + Decompressor + DescribeScheme>(
    scheme: &C,
    name: &'static str,
    data: Seq<u8>,
    samples: u64,
    measurement: Measurement,
)
    ensures
        measurement.measures_compression(scheme, name, data, samples)
            ==> measurement.decompression_nanos is None,
        measurement.measures_round_trip(scheme, name, data, samples)
            ==> measurement.decompression_nanos is Some,
        !(measurement.measures_compression(scheme, name, data, samples)
            && measurement.measures_round_trip(scheme, name, data, samples)),
{
}

/// Holds the compressed size of a sample against that of the first sample
/// of the run, if there was one before it, and gives the size of the run.
pub fn check_compressed_size(first: Option<usize>, size: usize) -> (out: Result<usize, RunError>)
    ensures
        match first {
            None => out == Ok::<usize, RunError>(size),
            Some(first) => if first == size {
                out == Ok::<usize, RunError>(size)
            } else {
                out == Err::<usize, RunError>(RunError::SizeChanged { first, later: size })
            },
        },
{
    match first {
        None => Ok(size),
        Some(first) => {
            if first == size {
                Ok(size)
            } else {
                Err(RunError::SizeChanged { first, later: size })
            }
        },
    }
}

/// Holds what a decompression left in the buffer against the corpus: they
/// must be the same, byte for byte.
pub fn check_round_trip(original: &Vec<u8>, restored: &Vec<u8>) -> (out: Result<(), RunError>)
    ensures
        restored@ == original@ ==> out is Ok,
        restored@ != original@ ==> out == Err::<(), RunError>(RunError::RoundTrip),
{
    if restored == original {
        assert(restored@ =~= original@);
        Ok(())
    } else {
        Err(RunError::RoundTrip)
    }
}

/// A zeroed buffer of the given length.
fn zeroed(len: usize) -> (buffer: Vec<u8>)
    ensures
        buffer@ == zeros(len as nat),
{
    let buffer = vec![0u8; len];
    assert(buffer@ =~= zeros(len as nat));
    buffer
}

/// Measures compression alone: `samples` timed compressions of the corpus.
///
/// The run is abandoned at the first compression that fails and at the
/// first sample whose compressed size is not that of the first sample.
pub fn benchmark_compression_scheme<C: Compressor + DescribeScheme>(
    scheme: &C,
    corpus: &Corpus,
    samples: u64,
) -> (out: Result<Measurement, RunError>)
    requires
        samples > 0,
    ensures
        compression_run(scheme, corpus.name, corpus.data@, samples, out),
{
    let mut compressed_size: Option<usize> = None;
    let ghost mut packs: Seq<Seq<u8>> = Seq::empty();
    let mut compression_nanos: Vec<u128> = Vec::new();
    let mut taken: u64 = 0;
    while taken < samples
        invariant
            taken <= samples,
            compression_nanos@.len() == taken,
            all_positive(compression_nanos@),
            taken > 0 <==> compressed_size is Some,
            packs.len() == taken,
            compressed_size matches Some(size) ==> all_pack(scheme, corpus.data@, packs, size),
        decreases samples - taken,
    {
        let compress = || -> (packed: Result<Vec<u8>, SchemeError>)
            ensures
                scheme.compress_yields(corpus.data@, packed_view(packed)),
            { scheme.compress(corpus.data.as_slice()) };
        let (packed, elapsed) = match time(compress) {
            Ok(timed) => timed,
            Err(failure) => {
                return Err(RunError::Compression(failure));
            },
        };
        assert(may_pack(scheme, corpus.data@, packed@));
        let size = match check_compressed_size(compressed_size, packed.len()) {
            Ok(size) => size,
            Err(error) => {
                assert(may_pack(scheme, corpus.data@, packs[0]));
                return Err(error);
            },
        };
        proof {
            packs = packs.push(packed@);
        }
        compressed_size = Some(size);
        compression_nanos.push(sample_nanos(elapsed.as_nanos()));
        taken += 1;
    }
    let compressed_len = compressed_size.unwrap();
    let measurement = Measurement {
        scheme: scheme.name(),
        settings: scheme.settings(),
        corpus: corpus.name,
        original_len: corpus.data.len(),
        compressed_len,
        compression_nanos,
        decompression_nanos: None,
    };
    assert(all_pack(scheme, corpus.data@, packs, measurement.compressed_len));
    Ok(measurement)
}

/// Measures the round trip: `samples` times a timed compression of the
/// corpus and a timed decompression of the result into a fresh zeroed
/// buffer of the length of the corpus.
///
/// The run is abandoned at the first operation of the scheme that fails,
/// at the first sample whose compressed size is not that of the first
/// sample, and at the first decompression that does not give back the
/// corpus byte for byte.
pub fn benchmark_scheme<C: Compressor + Decompressor + DescribeScheme>(
    scheme: &C,
    corpus: &Corpus,
    samples: u64,
) -> (out: Result<Measurement, RunError>)
    requires
        samples > 0,
    ensures
        round_trip_run(scheme, corpus.name, corpus.data@, samples, out),
{
    let mut compressed_size: Option<usize> = None;
    let ghost mut packs: Seq<Seq<u8>> = Seq::empty();
    let mut compression_nanos: Vec<u128> = Vec::new();
    let mut decompression_nanos: Vec<u128> = Vec::new();
    let mut taken: u64 = 0;
    while taken < samples
        invariant
            taken <= samples,
            compression_nanos@.len() == taken,
            decompression_nanos@.len() == taken,
            all_positive(compression_nanos@),
            all_positive(decompression_nanos@),
            taken > 0 <==> compressed_size is Some,
            packs.len() == taken,
            compressed_size matches Some(size) ==> all_restore(scheme, corpus.data@, packs, size),
        decreases samples - taken,
    {
        let compress = || -> (packed: Result<Vec<u8>, SchemeError>)
            ensures
                scheme.compress_yields(corpus.data@, packed_view(packed)),
            { scheme.compress(corpus.data.as_slice()) };
        let (packed, elapsed) = match time(compress) {
            Ok(timed) => timed,
            Err(failure) => {
                return Err(RunError::Compression(failure));
            },
        };
        assert(may_pack(scheme, corpus.data@, packed@));
        let size = match check_compressed_size(compressed_size, packed.len()) {
            Ok(size) => size,
            Err(error) => {
                assert(may_restore(scheme, corpus.data@, packs[0], corpus.data@, None));
                assert(may_pack(scheme, corpus.data@, packs[0]));
                return Err(error);
            },
        };
        compression_nanos.push(sample_nanos(elapsed.as_nanos()));

        let buffer = zeroed(corpus.data.len());
        let source: &[u8] = packed.as_slice();
        let ghost blank = zeros(corpus.data@.len());
        let decompress = move || -> (restored: Result<Vec<u8>, SchemeError>)
            ensures
                match restored {
                    Ok(bytes) => scheme.decompress_yields(source@, blank, bytes@, None),
                    Err(failure) => exists|left: Seq<u8>| #[trigger]
                        scheme.decompress_yields(source@, blank, left, Some(failure)),
                },
            {
                let mut buffer = buffer;
                let outcome = scheme.decompress_to(source, buffer.as_mut_slice());
                let ghost left = buffer@;
                match outcome {
                    Ok(()) => Ok(buffer),
                    Err(failure) => {
                        let restored = Err(failure);
                        assert(restored matches Err(failure) && scheme.decompress_yields(
                            source@,
                            blank,
                            left,
                            Some(failure),
                        ));
                        restored
                    },
                }
            };
        let (restored, elapsed) = match time(decompress) {
            Ok(timed) => timed,
            Err(failure) => {
                proof {
                    let left = choose|left: Seq<u8>| #[trigger]
                        scheme.decompress_yields(packed@, blank, left, Some(failure));
                    assert(may_restore(scheme, corpus.data@, packed@, left, Some(failure)));
                }
                return Err(RunError::Decompression(failure));
            },
        };
        assert(may_restore(scheme, corpus.data@, packed@, restored@, None));
        match check_round_trip(&corpus.data, &restored) {
            Ok(()) => {},
            Err(error) => {
                return Err(error);
            },
        }
        decompression_nanos.push(sample_nanos(elapsed.as_nanos()));

        proof {
            packs = packs.push(packed@);
        }
        compressed_size = Some(size);
        taken += 1;
    }
    let compressed_len = compressed_size.unwrap();
    let measurement = Measurement {
        scheme: scheme.name(),
        settings: scheme.settings(),
        corpus: corpus.name,
        original_len: corpus.data.len(),
        compressed_len,
        compression_nanos,
        decompression_nanos: Some(decompression_nanos),
    };
    assert(all_restore(scheme, corpus.data@, packs, measurement.compressed_len));
    Ok(measurement)
}

} // verus!
