//! Raw DEFLATE from the exhaustive encoder of `zopfli`. The crate has no
//! decoder, so the scheme is measured for compression alone.

use crate::codec::{codec_view, packed_or_failure, renders};
use crate::error::SchemeError;
use crate::scheme::{Compressor, DescribeScheme};
use vstd::prelude::*;

verus! {

/// Raw DEFLATE from Zopfli, at [`ITERATIONS`] iterations and at most
/// [`MAX_BLOCK_SPLITS`] block splits.
pub struct Zopfli {}

/// The number of iterations that the encoder makes over every block.
pub const ITERATIONS: u64 = 5;

/// The most splits that the encoder may make of its input into blocks.
pub const MAX_BLOCK_SPLITS: u16 = 15;

/// What compression reports when the codec fails.
pub const COMPRESSION_LABEL: &'static str = "zopfli compression error";

/// What `zopfli::compress` makes of `data` as raw DEFLATE with the given
/// number of iterations and the given limit of block splits: the stream,
/// or the wording of its error.
pub uninterp spec fn zopfli_stream(data: Seq<u8>, iterations: u64, block_splits: u16) -> Result<
    Seq<u8>,
    Seq<char>,
>;

/// `zopfli::compress` in the raw DEFLATE format from `data` into an empty
/// vector, with options that set the iteration count and the limit of block
/// splits and are the default otherwise. The result depends on `data` and
/// the two numbers alone. An iteration count of zero is left out: the
/// options do not take it.
#[verifier::external_body]
fn zopfli_compress(data: &[u8], iterations: u64, block_splits: u16) -> (out: Result<
    Vec<u8>,
    String,
>)
    requires
        iterations > 0,
    ensures
        codec_view(out) == zopfli_stream(data@, iterations, block_splits),
{
    let options = zopfli::Options {
        iteration_count: std::num::NonZeroU64::new(iterations).unwrap(),
        maximum_block_splits: block_splits,
        ..Default::default()
    };
    let mut bytes = Vec::new();
    match zopfli::compress(options, zopfli::Format::Deflate, data, &mut bytes) {
        Ok(()) => Ok(bytes),
        Err(error) => Err(error.to_string()),
    }
}

impl DescribeScheme for Zopfli {
    open spec fn name_is(&self, name: Seq<char>) -> bool {
        name == "zopfli"@
    }

    open spec fn settings_are(&self, settings: Option<Seq<char>>) -> bool {
        settings is None
    }

    fn name(&self) -> (out: String) {
        String::from_str("zopfli")
    }

    fn settings(&self) -> (out: Option<String>) {
        None
    }
}

impl Compressor for Zopfli {
    /// Compression gives what the codec makes of the data at the scheme's
    /// iterations and block splits.
    open spec fn compress_yields(&self, data: Seq<u8>, out: Result<Seq<u8>, SchemeError>) -> bool {
        renders(COMPRESSION_LABEL, zopfli_stream(data, ITERATIONS, MAX_BLOCK_SPLITS), out)
    }

    fn compress(&self, data: &[u8]) -> (out: Result<Vec<u8>, SchemeError>) {
        packed_or_failure(COMPRESSION_LABEL, zopfli_compress(data, ITERATIONS, MAX_BLOCK_SPLITS))
    }
}

} // verus!
