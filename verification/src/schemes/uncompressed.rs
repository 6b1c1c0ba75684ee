//! The scheme that stores data as it is: the baseline of every comparison.

use crate::codec::copy_exact;
use crate::error::{RunError, SchemeError};
use crate::measure::{round_trip_run, Measurement};
use crate::scheme::{Compressor, Decompressor, DescribeScheme};
use vstd::prelude::*;
use vstd::slice::slice_to_vec;

verus! {

/// Compression that copies its input and decompression that copies it back.
pub struct Uncompressed {}

impl DescribeScheme for Uncompressed {
    open spec fn name_is(&self, name: Seq<char>) -> bool {
        name == "uncompressed"@
    }

    open spec fn settings_are(&self, settings: Option<Seq<char>>) -> bool {
        settings is None
    }

    fn name(&self) -> (out: String) {
        String::from_str("uncompressed")
    }

    fn settings(&self) -> (out: Option<String>) {
        None
    }
}

impl Compressor for Uncompressed {
    /// Compression always succeeds and gives the data back unchanged.
    open spec fn compress_yields(&self, data: Seq<u8>, out: Result<Seq<u8>, SchemeError>) -> bool {
        out == Ok::<Seq<u8>, SchemeError>(data)
    }

    fn compress(&self, data: &[u8]) -> (out: Result<Vec<u8>, SchemeError>) {
        Ok(slice_to_vec(data))
    }
}

impl Decompressor for Uncompressed {
    /// Decompression succeeds exactly when source and destination are of
    /// the same length, and then leaves the source in the destination.
    /// Otherwise it reports the two lengths and leaves the destination alone.
    open spec fn decompress_yields(
        &self,
        src: Seq<u8>,
        before: Seq<u8>,
        after: Seq<u8>,
        failure: Option<SchemeError>,
    ) -> bool {
        if src.len() == before.len() {
            failure is None && after == src
        } else {
            &&& after == before
            &&& failure == Some(
                SchemeError::LengthMismatch {
                    expected: before.len() as usize,
                    produced: src.len() as usize,
                },
            )
        }
    }

    fn decompress_to(&self, src: &[u8], dst: &mut [u8]) -> (out: Result<(), SchemeError>) {
        copy_exact(src, dst)
    }
}

/// Measured on any corpus, the uncompressed scheme never has its run
/// abandoned, and its compressed length is the length of the corpus: its
/// compression ratio is one to one.
pub proof fn lemma_uncompressed_ratio_is_one(
    scheme: &Uncompressed,
    name: &'static str,
    data: Seq<u8>,
    samples: u64,
    out: Result<Measurement, RunError>,
)
    requires
        samples > 0,
        round_trip_run(scheme, name, data, samples, out),
    ensures
        out matches Ok(measurement) && measurement.compressed_len == data.len()
            && measurement.original_len == data.len(),
{
    match out {
        Ok(measurement) => {
            let packs = choose|packs: Seq<Seq<u8>>|
                packs.len() == samples && #[trigger] crate::measure::all_restore(
                    scheme,
                    data,
                    packs,
                    measurement.compressed_len,
                );
            assert(crate::measure::may_restore(scheme, data, packs[0], data, None));
        },
        Err(error) => {
            assert(crate::measure::zeros(data.len()).len() == data.len());
        },
    }
}

} // verus!
