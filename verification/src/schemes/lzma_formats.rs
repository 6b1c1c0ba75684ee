//! LZMA in three container formats, by way of `lzma-rs`.

use crate::codec::{codec_view, count_view, judges, packed_or_failure, renders, sized_verdict};
use crate::error::SchemeError;
use crate::scheme::{Compressor, Decompressor, DescribeScheme};
use vstd::prelude::*;

verus! {

/// LZMA in one of the container formats of the codec.
#[derive(Clone, Copy, Debug, PartialEq, Eq, Structural)]
pub enum Lzma {
    /// The legacy `.lzma` format.
    Lzma,
    /// Bare LZMA2 chunks.
    Lzma2,
    /// The XZ format.
    Xz,
}

/// What compression reports when the codec fails.
pub const COMPRESSION_LABEL: &'static str = "lzma compression failed";

/// What decompression reports when the codec fails.
pub const DECOMPRESSION_LABEL: &'static str = "lzma decompression failed";

/// What `lzma_rs::lzma_compress` makes of `data`: the stream, or the wording
/// of its error.
pub uninterp spec fn lzma_stream(data: Seq<u8>) -> Result<Seq<u8>, Seq<char>>;

/// What `lzma_rs::lzma_decompress`, writing through a cursor into a
/// destination that holds `before`, makes of `src`: the position that the
/// cursor reaches or the wording of the error, and what is left in the
/// destination.
pub uninterp spec fn lzma_decoding(src: Seq<u8>, before: Seq<u8>) -> (
    Result<nat, Seq<char>>,
    Seq<u8>,
);

/// What `lzma_rs::lzma2_compress` makes of `data`: the stream, or the wording
/// of its error.
pub uninterp spec fn lzma2_stream(data: Seq<u8>) -> Result<Seq<u8>, Seq<char>>;

/// What `lzma_rs::lzma2_decompress`, writing through a cursor into a
/// destination that holds `before`, makes of `src`: the position that the
/// cursor reaches or the wording of the error, and what is left in the
/// destination.
pub uninterp spec fn lzma2_decoding(src: Seq<u8>, before: Seq<u8>) -> (
    Result<nat, Seq<char>>,
    Seq<u8>,
);

/// What `lzma_rs::xz_compress` makes of `data`: the stream, or the wording
/// of its error.
pub uninterp spec fn xz_stream(data: Seq<u8>) -> Result<Seq<u8>, Seq<char>>;

/// What `lzma_rs::xz_decompress`, writing through a cursor into a
/// destination that holds `before`, makes of `src`: the position that the
/// cursor reaches or the wording of the error, and what is left in the
/// destination.
pub uninterp spec fn xz_decoding(src: Seq<u8>, before: Seq<u8>) -> (
    Result<nat, Seq<char>>,
    Seq<u8>,
);

/// `lzma_rs::lzma_compress` from a cursor over `data` into an empty vector.
/// The result depends on `data` alone.
#[verifier::external_body]
fn lzma_compress(data: &[u8]) -> (out: Result<Vec<u8>, String>)
    ensures
        codec_view(out) == lzma_stream(data@),
{
    let mut bytes = Vec::new();
    match lzma_rs::lzma_compress(&mut std::io::Cursor::new(data), &mut bytes) {
        Ok(()) => Ok(bytes),
        Err(error) => Err(error.to_string()),
    }
}

/// `lzma_rs::lzma_decompress` from a cursor over `src` to a cursor over `dst`,
/// and then the position of the second cursor: the number of bytes decoded
/// into `dst`. The outcome and the contents of `dst` depend on `src` and on
/// what `dst` held alone.
#[verifier::external_body]
fn lzma_decompress(src: &[u8], dst: &mut [u8]) -> (out: Result<usize, String>)
    ensures
        final(dst)@.len() == old(dst)@.len(),
        (count_view(out), final(dst)@) == lzma_decoding(src@, old(dst)@),
{
    let mut writer = std::io::Cursor::new(dst);
    match lzma_rs::lzma_decompress(&mut std::io::Cursor::new(src), &mut writer) {
        Ok(()) => match usize::try_from(writer.position()) {
            Ok(written) => Ok(written),
            Err(error) => Err(error.to_string()),
        },
        Err(error) => Err(error.to_string()),
    }
}

/// `lzma_rs::lzma2_compress` from a cursor over `data` into an empty vector.
/// The result depends on `data` alone.
#[verifier::external_body]
fn lzma2_compress(data: &[u8]) -> (out: Result<Vec<u8>, String>)
    ensures
        codec_view(out) == lzma2_stream(data@),
{
    let mut bytes = Vec::new();
    match lzma_rs::lzma2_compress(&mut std::io::Cursor::new(data), &mut bytes) {
        Ok(()) => Ok(bytes),
        Err(error) => Err(error.to_string()),
    }
}

/// `lzma_rs::lzma2_decompress` from a cursor over `src` to a cursor over `dst`,
/// and then the position of the second cursor: the number of bytes decoded
/// into `dst`. The outcome and the contents of `dst` depend on `src` and on
/// what `dst` held alone.
#[verifier::external_body]
fn lzma2_decompress(src: &[u8], dst: &mut [u8]) -> (out: Result<usize, String>)
    ensures
        final(dst)@.len() == old(dst)@.len(),
        (count_view(out), final(dst)@) == lzma2_decoding(src@, old(dst)@),
{
    let mut writer = std::io::Cursor::new(dst);
    match lzma_rs::lzma2_decompress(&mut std::io::Cursor::new(src), &mut writer) {
        Ok(()) => match usize::try_from(writer.position()) {
            Ok(written) => Ok(written),
            Err(error) => Err(error.to_string()),
        },
        Err(error) => Err(error.to_string()),
    }
}

/// `lzma_rs::xz_compress` from a cursor over `data` into an empty vector.
/// The result depends on `data` alone.
#[verifier::external_body]
fn xz_compress(data: &[u8]) -> (out: Result<Vec<u8>, String>)
    ensures
        codec_view(out) == xz_stream(data@),
{
    let mut bytes = Vec::new();
    match lzma_rs::xz_compress(&mut std::io::Cursor::new(data), &mut bytes) {
        Ok(()) => Ok(bytes),
        Err(error) => Err(error.to_string()),
    }
}

/// `lzma_rs::xz_decompress` from a cursor over `src` to a cursor over `dst`,
/// and then the position of the second cursor: the number of bytes decoded
/// into `dst`. The outcome and the contents of `dst` depend on `src` and on
/// what `dst` held alone.
#[verifier::external_body]
fn xz_decompress(src: &[u8], dst: &mut [u8]) -> (out: Result<usize, String>)
    ensures
        final(dst)@.len() == old(dst)@.len(),
        (count_view(out), final(dst)@) == xz_decoding(src@, old(dst)@),
{
    let mut writer = std::io::Cursor::new(dst);
    match lzma_rs::xz_decompress(&mut std::io::Cursor::new(src), &mut writer) {
        Ok(()) => match usize::try_from(writer.position()) {
            Ok(written) => Ok(written),
            Err(error) => Err(error.to_string()),
        },
        Err(error) => Err(error.to_string()),
    }
}

/// What the codec makes of `data` in the given format.
pub open spec fn stream(format: Lzma, data: Seq<u8>) -> Result<Seq<u8>, Seq<char>> {
    match format {
        Lzma::Lzma => lzma_stream(data),
        Lzma::Lzma2 => lzma2_stream(data),
        Lzma::Xz => xz_stream(data),
    }
}

/// What the codec makes of `src` in the given format and a destination that
/// holds `before`.
pub open spec fn decoding(format: Lzma, src: Seq<u8>, before: Seq<u8>) -> (
    Result<nat, Seq<char>>,
    Seq<u8>,
) {
    match format {
        Lzma::Lzma => lzma_decoding(src, before),
        Lzma::Lzma2 => lzma2_decoding(src, before),
        Lzma::Xz => xz_decoding(src, before),
    }
}

impl DescribeScheme for Lzma {
    open spec fn name_is(&self, name: Seq<char>) -> bool {
        name == "lzma-rs"@
    }

    /// The settings are the name of the format.
    open spec fn settings_are(&self, settings: Option<Seq<char>>) -> bool {
        settings == Some(
            match *self {
                Lzma::Lzma => "Lzma"@,
                Lzma::Lzma2 => "Lzma2"@,
                Lzma::Xz => "Xz"@,
            },
        )
    }

    fn name(&self) -> (out: String) {
        String::from_str("lzma-rs")
    }

    fn settings(&self) -> (out: Option<String>) {
        match self {
            Lzma::Lzma => Some(String::from_str("Lzma")),
            Lzma::Lzma2 => Some(String::from_str("Lzma2")),
            Lzma::Xz => Some(String::from_str("Xz")),
        }
    }
}

impl Compressor for Lzma {
    /// Compression gives what the codec makes of the data in the scheme's
    /// format.
    open spec fn compress_yields(&self, data: Seq<u8>, out: Result<Seq<u8>, SchemeError>) -> bool {
        renders(COMPRESSION_LABEL, stream(*self, data), out)
    }

    fn compress(&self, data: &[u8]) -> (out: Result<Vec<u8>, SchemeError>) {
        match self {
            Lzma::Lzma => packed_or_failure(COMPRESSION_LABEL, lzma_compress(data)),
            Lzma::Lzma2 => packed_or_failure(COMPRESSION_LABEL, lzma2_compress(data)),
            Lzma::Xz => packed_or_failure(COMPRESSION_LABEL, xz_compress(data)),
        }
    }
}

impl Decompressor for Lzma {
    /// Decompression is judged by the number of bytes that were decoded
    /// into the destination.
    open spec fn decompress_yields(
        &self,
        src: Seq<u8>,
        before: Seq<u8>,
        after: Seq<u8>,
        failure: Option<SchemeError>,
    ) -> bool {
        &&& after == decoding(*self, src, before).1
        &&& judges(DECOMPRESSION_LABEL, before.len(), decoding(*self, src, before).0, failure)
    }

    fn decompress_to(&self, src: &[u8], dst: &mut [u8]) -> (out: Result<(), SchemeError>) {
        let outcome = match self {
            Lzma::Lzma => lzma_decompress(src, dst),
            Lzma::Lzma2 => lzma2_decompress(src, dst),
            Lzma::Xz => xz_decompress(src, dst),
        };
        sized_verdict(DECOMPRESSION_LABEL, dst.len(), outcome)
    }
}

} // verus!
