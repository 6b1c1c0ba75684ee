//! Snappy as a raw block, by way of `xsnappy`.

use crate::codec::{count_view, judges, sized_verdict};
use crate::error::SchemeError;
use crate::scheme::{Compressor, Decompressor, DescribeScheme};
use vstd::prelude::*;

verus! {

/// Snappy as `xsnappy` encodes it.
pub struct Snappy {}

/// What compression reports when the codec fails.
pub const COMPRESSION_LABEL: &'static str = "snappy encode error";

/// What decompression reports when the codec fails.
pub const DECOMPRESSION_LABEL: &'static str = "snappy decode error";

/// What the scheme says of an input that the codec does not take.
pub const TOO_LARGE: &'static str = "snappy: encode block is too large";

/// The longest input that the codec takes, together with its encoding.
pub const MAX_BLOCK: u64 = 0xffff_ffff;

/// The most bytes that the encoding of `len` bytes may take, or zero where
/// the codec does not take an input of that length.
pub open spec fn encode_bound(len: nat) -> nat {
    if len > MAX_BLOCK {
        0
    } else if 32 + len + len / 6 > MAX_BLOCK {
        0
    } else {
        32 + len + len / 6
    }
}

/// The block that `xsnappy::encode` gives for `data`.
pub uninterp spec fn snappy_block(data: Seq<u8>) -> Seq<u8>;

/// What `xsnappy::decode` makes of `src` and a destination that holds
/// `before`: the number of bytes that it reports or the wording of its
/// error, and what it leaves in the destination.
pub uninterp spec fn snappy_decoding(src: Seq<u8>, before: Seq<u8>) -> (
    Result<nat, Seq<char>>,
    Seq<u8>,
);

/// `xsnappy::max_encode_len`: thirty-two bytes more than seven sixths of
/// the input length, or zero where the input or that bound is beyond four
/// gibibytes. Lengths whose bound is zero are left out.
#[verifier::external_body]
fn max_encode_len(len: usize) -> (bound: usize)
    requires
        encode_bound(len as nat) != 0,
    ensures
        bound == encode_bound(len as nat),
{
    xsnappy::max_encode_len(len)
}

/// `xsnappy::encode`: writes the block for `src` to the front of `dst` and
/// returns its length. The block depends on `src` alone. The call panics
/// where the codec does not take `src` or `dst` is shorter than the bound
/// for `src`; both are left out.
#[verifier::external_body]
fn encode(dst: &mut [u8], src: &[u8]) -> (written: usize)
    requires
        encode_bound(src@.len()) != 0,
        old(dst)@.len() >= encode_bound(src@.len()),
    ensures
        final(dst)@.len() == old(dst)@.len(),
        written <= final(dst)@.len(),
        final(dst)@.take(written as int) == snappy_block(src@),
{
    xsnappy::encode(dst, src)
}

/// `xsnappy::decode`: decodes the block in `src` into the front of `dst` and
/// reports the decoded length. The outcome and the contents of `dst` depend
/// on `src` and on what `dst` held alone.
#[verifier::external_body]
fn decode(dst: &mut [u8], src: &[u8]) -> (out: Result<usize, String>)
    ensures
        final(dst)@.len() == old(dst)@.len(),
        (count_view(out), final(dst)@) == snappy_decoding(src@, old(dst)@),
{
    match xsnappy::decode(dst, src) {
        Ok(written) => Ok(written),
        Err(error) => Err(error.to_string()),
    }
}

/// Whether the codec takes an input of the given length.
pub fn takes(len: usize) -> (fits: bool)
    ensures
        fits == (encode_bound(len as nat) != 0),
{
    let len = len as u64;
    len <= MAX_BLOCK && 32 + len + len / 6 <= MAX_BLOCK
}

impl DescribeScheme for Snappy {
    open spec fn name_is(&self, name: Seq<char>) -> bool {
        name == "xsnappy"@
    }

    open spec fn settings_are(&self, settings: Option<Seq<char>>) -> bool {
        settings is None
    }

    fn name(&self) -> (out: String) {
        String::from_str("xsnappy")
    }

    fn settings(&self) -> (out: Option<String>) {
        None
    }
}

impl Compressor for Snappy {
    /// Compression gives the block for the data, and fails exactly on data
    /// that the codec does not take.
    open spec fn compress_yields(&self, data: Seq<u8>, out: Result<Seq<u8>, SchemeError>) -> bool {
        if encode_bound(data.len()) != 0 {
            out == Ok::<Seq<u8>, SchemeError>(snappy_block(data))
        } else {
            &&& out matches Err(SchemeError::Codec { operation, detail })
            &&& operation == COMPRESSION_LABEL
            &&& detail@ == TOO_LARGE@
        }
    }

    fn compress(&self, data: &[u8]) -> (out: Result<Vec<u8>, SchemeError>) {
        if !takes(data.len()) {
            return Err(
                SchemeError::Codec {
                    operation: COMPRESSION_LABEL,
                    detail: String::from_str(TOO_LARGE),
                },
            );
        }
        let mut buffer: Vec<u8> = vec![0u8; max_encode_len(data.len())];
        let written = encode(buffer.as_mut_slice(), data);
        buffer.truncate(written);
        assert(buffer@ =~= snappy_block(data@));
        Ok(buffer)
    }
}

impl Decompressor for Snappy {
    /// Decompression is judged by the decoded length that the codec
    /// reports.
    open spec fn decompress_yields(
        &self,
        src: Seq<u8>,
        before: Seq<u8>,
        after: Seq<u8>,
        failure: Option<SchemeError>,
    ) -> bool {
        &&& after == snappy_decoding(src, before).1
        &&& judges(DECOMPRESSION_LABEL, before.len(), snappy_decoding(src, before).0, failure)
    }

    fn decompress_to(&self, src: &[u8], dst: &mut [u8]) -> (out: Result<(), SchemeError>) {
        let outcome = decode(dst, src);
        sized_verdict(DECOMPRESSION_LABEL, dst.len(), outcome)
    }
}

} // verus!
