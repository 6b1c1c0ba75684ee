//! Zstandard frames at a compression level, by way of `zstd`.

use crate::codec::{count_view, is_codec_failure, judges, packed_or_failure, sized_verdict};
use crate::error::SchemeError;
use crate::scheme::{Compressor, Decompressor, DescribeScheme};
use crate::text::{render_signed, signed_decimal};
use vstd::prelude::*;

verus! {

/// Zstandard at a compression level. Levels may be negative, and level zero
/// stands for the default level of the codec.
pub struct Zstd {
    pub level: i32,
}

/// What compression reports when the codec fails.
pub const COMPRESSION_LABEL: &'static str = "zstd compression failed";

/// What decompression reports when the codec fails.
pub const DECOMPRESSION_LABEL: &'static str = "zstd decompression failed";

/// The frame that `zstd::bulk::compress` gives for `data` at `level` when
/// it succeeds.
pub uninterp spec fn zstd_frame(data: Seq<u8>, level: i32) -> Seq<u8>;

/// What `zstd::bulk::decompress_to_buffer` makes of `src` and a destination
/// that holds `before` when it succeeds: the number of bytes that it
/// reports, and what it leaves in the destination.
pub uninterp spec fn zstd_decoding(src: Seq<u8>, before: Seq<u8>) -> (nat, Seq<u8>);

/// `zstd::bulk::compress`: the whole of `data` as one frame at `level`.
/// Where the call succeeds, the frame depends on `data` and `level` alone.
/// The call may fail for more than its arguments: the codec is a C library
/// that takes its working memory from the heap as it compresses and reports
/// a want of it as an error. So nothing is claimed of when the call fails.
#[verifier::external_body]
fn zstd_compress(data: &[u8], level: i32) -> (out: Result<Vec<u8>, String>)
    ensures
        out matches Ok(bytes) ==> bytes@ == zstd_frame(data@, level),
{
    match zstd::bulk::compress(data, level) {
        Ok(bytes) => Ok(bytes),
        Err(error) => Err(error.to_string()),
    }
}

/// `zstd::bulk::decompress_to_buffer`: decodes the frames in `src` into the
/// front of `dst` and reports how many bytes it wrote. Where the call
/// succeeds, the number and the contents of `dst` depend on `src` and on
/// what `dst` held alone. The call may fail for more than its arguments: the
/// codec is a C library that reports a want of memory as an error, and it
/// takes memory from the heap for frames in its older formats. So nothing is
/// claimed of when the call fails.
#[verifier::external_body]
fn zstd_decompress(src: &[u8], dst: &mut [u8]) -> (out: Result<usize, String>)
    ensures
        final(dst)@.len() == old(dst)@.len(),
        out matches Ok(written) ==> (written as nat, final(dst)@) == zstd_decoding(
            src@,
            old(dst)@,
        ),
{
    match zstd::bulk::decompress_to_buffer(src, dst) {
        Ok(written) => Ok(written),
        Err(error) => Err(error.to_string()),
    }
}

impl DescribeScheme for Zstd {
    open spec fn name_is(&self, name: Seq<char>) -> bool {
        name == "zstd"@
    }

    /// The settings are the level in decimal.
    open spec fn settings_are(&self, settings: Option<Seq<char>>) -> bool {
        settings == Some("level "@ + signed_decimal(self.level as int))
    }

    fn name(&self) -> (out: String) {
        String::from_str("zstd")
    }

    fn settings(&self) -> (out: Option<String>) {
        let mut text = String::from_str("level ");
        text.append(render_signed(self.level as i64).as_str());
        Some(text)
    }
}

impl Compressor for Zstd {
    /// Compression gives the frame of the data at the level, or fails with
    /// a failure of the codec. The codec may fail for want of memory, so
    /// nothing says on which inputs it fails.
    open spec fn compress_yields(&self, data: Seq<u8>, out: Result<Seq<u8>, SchemeError>) -> bool {
        match out {
            Ok(bytes) => bytes == zstd_frame(data, self.level),
            Err(error) => is_codec_failure(Some(error), COMPRESSION_LABEL),
        }
    }

    fn compress(&self, data: &[u8]) -> (out: Result<Vec<u8>, SchemeError>) {
        packed_or_failure(COMPRESSION_LABEL, zstd_compress(data, self.level))
    }
}

impl Decompressor for Zstd {
    /// Decompression succeeds where the codec does and reports as many
    /// bytes as the destination holds; it fails with a length mismatch
    /// where the codec reports another number, and with a failure of the
    /// codec where the codec fails. The codec may fail for want of memory,
    /// so nothing says on which inputs it fails.
    open spec fn decompress_yields(
        &self,
        src: Seq<u8>,
        before: Seq<u8>,
        after: Seq<u8>,
        failure: Option<SchemeError>,
    ) -> bool {
        ||| is_codec_failure(failure, DECOMPRESSION_LABEL)
        ||| {
            &&& after == zstd_decoding(src, before).1
            &&& judges(
                DECOMPRESSION_LABEL,
                before.len(),
                Ok(zstd_decoding(src, before).0),
                failure,
            )
        }
    }

    fn decompress_to(&self, src: &[u8], dst: &mut [u8]) -> (out: Result<(), SchemeError>) {
        let outcome = zstd_decompress(src, dst);
        sized_verdict(DECOMPRESSION_LABEL, dst.len(), outcome)
    }
}

} // verus!
