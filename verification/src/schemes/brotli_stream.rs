//! Brotli streams from the encoder of the `brotli` crate.

use crate::codec::{codec_view, count_view, judges, packed_or_failure, renders, sized_verdict};
use crate::error::SchemeError;
use crate::scheme::{Compressor, Decompressor, DescribeScheme};
use crate::text::{decimal, render_unsigned};
use std::io::Write;
use vstd::prelude::*;

verus! {

/// Brotli at a quality, with a window of `2^window_size` bytes and an
/// output buffer of `buffer_size` bytes between encoder and output. The
/// codec brings a quality and a window outside its range into it, and takes
/// a buffer size of zero for 4096. The buffer is no larger than an
/// allocation can be.
pub struct Brotli {
    quality: u32,
    window_size: u32,
    buffer_size: usize,
}

/// Whether an allocation can have the given size.
pub open spec fn allocatable(size: usize) -> bool {
    size <= isize::MAX
}

/// What compression reports when the codec fails.
pub const COMPRESSION_LABEL: &'static str = "brotli compression failed";

/// What decompression reports when the codec fails.
pub const DECOMPRESSION_LABEL: &'static str = "brotli decompression failed";

/// What `brotli::CompressorWriter` makes of `data` at the given quality,
/// window and buffer size: the stream, or the wording of its error.
pub uninterp spec fn brotli_stream(
    data: Seq<u8>,
    quality: u32,
    window_size: u32,
    buffer_size: usize,
) -> Result<Seq<u8>, Seq<char>>;

/// What `brotli::BrotliDecompress`, writing through a cursor into a
/// destination that holds `before`, makes of `src`: the position that the
/// cursor reaches or the wording of the error, and what is left in the
/// destination.
pub uninterp spec fn brotli_decoding(src: Seq<u8>, before: Seq<u8>) -> (
    Result<nat, Seq<char>>,
    Seq<u8>,
);

/// Writes all of `data` into a `brotli::CompressorWriter` over an empty
/// vector and takes the vector back, which finishes the stream. The result
/// depends on `data` and the three parameters alone. Buffer sizes beyond
/// what an allocation can be are left out: the writer panics on them.
#[verifier::external_body]
fn brotli_compress(data: &[u8], quality: u32, window_size: u32, buffer_size: usize) -> (out: Result<
    Vec<u8>,
    String,
>)
    requires
        allocatable(buffer_size),
    ensures
        codec_view(out) == brotli_stream(data@, quality, window_size, buffer_size),
{
    let mut writer = brotli::CompressorWriter::new(Vec::new(), buffer_size, quality, window_size);
    match writer.write_all(data) {
        Ok(()) => Ok(writer.into_inner()),
        Err(error) => Err(error.to_string()),
    }
}

/// `brotli::BrotliDecompress` from a cursor over `src` to a cursor over
/// `dst`, and then the position of the second cursor: the number of bytes
/// decoded into `dst`. The outcome and the contents of `dst` depend on `src`
/// and on what `dst` held alone.
#[verifier::external_body]
fn brotli_decompress(src: &[u8], dst: &mut [u8]) -> (out: Result<usize, String>)
    ensures
        final(dst)@.len() == old(dst)@.len(),
        (count_view(out), final(dst)@) == brotli_decoding(src@, old(dst)@),
{
    let mut writer = std::io::Cursor::new(dst);
    match brotli::BrotliDecompress(&mut std::io::Cursor::new(src), &mut writer) {
        Ok(()) => match usize::try_from(writer.position()) {
            Ok(written) => Ok(written),
            Err(error) => Err(error.to_string()),
        },
        Err(error) => Err(error.to_string()),
    }
}

impl Brotli {
    #[verifier::type_invariant]
    spec fn buffer_allocatable(self) -> bool {
        allocatable(self.buffer_size)
    }

    /// The quality.
    pub closed spec fn spec_quality(self) -> u32 {
        self.quality
    }

    /// The binary logarithm of the window size.
    pub closed spec fn spec_window_size(self) -> u32 {
        self.window_size
    }

    /// The size of the output buffer.
    pub closed spec fn spec_buffer_size(self) -> usize {
        self.buffer_size
    }

    /// Brotli with the given parameters, where the buffer can be allocated.
    pub fn new(quality: u32, window_size: u32, buffer_size: usize) -> (out: Option<Brotli>)
        ensures
            out is Some <==> allocatable(buffer_size),
            out matches Some(scheme) ==> {
                &&& scheme.spec_quality() == quality
                &&& scheme.spec_window_size() == window_size
                &&& scheme.spec_buffer_size() == buffer_size
            },
    {
        if buffer_size <= isize::MAX as usize {
            Some(Brotli { quality, window_size, buffer_size })
        } else {
            None
        }
    }

    /// The quality.
    pub fn quality(&self) -> (quality: u32)
        ensures
            quality == self.spec_quality(),
    {
        self.quality
    }

    /// The binary logarithm of the window size.
    pub fn window_size(&self) -> (window_size: u32)
        ensures
            window_size == self.spec_window_size(),
    {
        self.window_size
    }

    /// The size of the output buffer.
    pub fn buffer_size(&self) -> (buffer_size: usize)
        ensures
            buffer_size == self.spec_buffer_size(),
            allocatable(buffer_size),
    {
        proof {
            use_type_invariant(self);
        }
        self.buffer_size
    }

    /// The settings as text: the three parameters in decimal.
    pub open spec fn settings_text(self) -> Seq<char> {
        "quality "@ + decimal(self.spec_quality() as nat) + " / window size "@ + decimal(
            self.spec_window_size() as nat,
        ) + " / buffer size "@ + decimal(self.spec_buffer_size() as nat)
    }
}

impl DescribeScheme for Brotli {
    open spec fn name_is(&self, name: Seq<char>) -> bool {
        name == "brotli"@
    }

    open spec fn settings_are(&self, settings: Option<Seq<char>>) -> bool {
        settings == Some(self.settings_text())
    }

    fn name(&self) -> (out: String) {
        String::from_str("brotli")
    }

    fn settings(&self) -> (out: Option<String>) {
        let mut text = String::from_str("quality ");
        text.append(render_unsigned(self.quality() as u64).as_str());
        text.append(" / window size ");
        text.append(render_unsigned(self.window_size() as u64).as_str());
        text.append(" / buffer size ");
        text.append(render_unsigned(self.buffer_size() as u64).as_str());
        Some(text)
    }
}

impl Compressor for Brotli {
    /// Compression gives what the codec makes of the data at the scheme's
    /// parameters.
    open spec fn compress_yields(&self, data: Seq<u8>, out: Result<Seq<u8>, SchemeError>) -> bool {
        renders(
            COMPRESSION_LABEL,
            brotli_stream(
                data,
                self.spec_quality(),
                self.spec_window_size(),
                self.spec_buffer_size(),
            ),
            out,
        )
    }

    fn compress(&self, data: &[u8]) -> (out: Result<Vec<u8>, SchemeError>) {
        packed_or_failure(
            COMPRESSION_LABEL,
            brotli_compress(data, self.quality(), self.window_size(), self.buffer_size()),
        )
    }
}

impl Decompressor for Brotli {
    /// Decompression is judged by the number of bytes that were decoded
    /// into the destination.
    open spec fn decompress_yields(
        &self,
        src: Seq<u8>,
        before: Seq<u8>,
        after: Seq<u8>,
        failure: Option<SchemeError>,
    ) -> bool {
        &&& after == brotli_decoding(src, before).1
        &&& judges(DECOMPRESSION_LABEL, before.len(), brotli_decoding(src, before).0, failure)
    }

    fn decompress_to(&self, src: &[u8], dst: &mut [u8]) -> (out: Result<(), SchemeError>) {
        let outcome = brotli_decompress(src, dst);
        sized_verdict(DECOMPRESSION_LABEL, dst.len(), outcome)
    }
}

} // verus!
