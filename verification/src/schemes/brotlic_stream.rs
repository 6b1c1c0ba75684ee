//! Brotli streams from the reference encoder, by way of `brotlic`.

use crate::codec::{
    fill_verdict, is_codec_failure, packed_or_failure, probe_buffer, probe_verdict,
    settles_where_filled, ReadOutcome, ReadView,
};
use crate::error::SchemeError;
use crate::scheme::{Compressor, Decompressor, DescribeScheme};
use crate::text::{decimal, render_unsigned};
use std::io::{Read, Write};
use vstd::prelude::*;

verus! {

/// The sliding window of the encoder: the largest or the smallest that the
/// format has.
#[derive(Clone, Copy, Debug, PartialEq, Eq, Structural)]
pub enum WindowSize {
    Best,
    Worst,
}

/// The input block of the encoder: the largest or the smallest that the
/// codec takes.
#[derive(Clone, Copy, Debug, PartialEq, Eq, Structural)]
pub enum BlockSize {
    Best,
    Worst,
}

/// The highest quality that the codec takes.
pub const MAX_QUALITY: u8 = 11;

/// Brotli at a quality of at most [`MAX_QUALITY`], with a window and a block
/// size.
pub struct Brotli {
    quality: u8,
    window: WindowSize,
    block: BlockSize,
}

/// What is reported when the codec cannot be set up.
pub const SETUP_LABEL: &'static str = "couldn't create brotli encoder";

/// What compression reports when the codec fails.
pub const COMPRESSION_LABEL: &'static str = "brotli compression failed";

/// What decompression reports when the codec fails.
pub const DECOMPRESSION_LABEL: &'static str = "brotli decompression error";

/// `brotlic::BrotliEncoder`, an encoder with its parameters set. What is
/// known of it here is which parameters it was made with.
#[verifier::external_type_specification]
#[verifier::external_body]
pub struct ExBrotliEncoder(brotlic::BrotliEncoder);

/// The quality, the window and the block size that an encoder was made
/// with.
pub uninterp spec fn encoder_options(encoder: brotlic::BrotliEncoder) -> (
    u8,
    WindowSize,
    BlockSize,
);

/// The stream that a `brotlic::CompressorWriter` gives for `data` when it
/// succeeds, with an encoder of the given quality, window and block size.
pub uninterp spec fn brotlic_stream(
    data: Seq<u8>,
    quality: u8,
    window: WindowSize,
    block: BlockSize,
) -> Seq<u8>;

/// The bytes that a Brotli decoder was made over.
pub uninterp spec fn reader_source(reader: StreamReader) -> Seq<u8>;

/// The lengths of the buffers that a Brotli decoder was asked to fill so
/// far, in the order of the reads.
pub uninterp spec fn reader_reads(reader: StreamReader) -> Seq<nat>;

/// What `Read::read_exact` on a `brotlic::DecompressorReader` over `src`
/// comes to where the codec reports no error, and what it then leaves in a
/// buffer that held `before`, after earlier reads into buffers of the
/// lengths `reads`.
pub uninterp spec fn brotlic_read(src: Seq<u8>, reads: Seq<nat>, before: Seq<u8>) -> (
    ReadView,
    Seq<u8>,
);

/// `brotlic::BrotliEncoderOptions::build` with the quality, the window and
/// the block size set and every other option left as it is: an encoder made
/// with the three, or the wording of the error with which the codec refused
/// one of them. The codec is a C library and says no more of a refusal than
/// that there was one, so nothing is claimed of when it comes. Qualities
/// above eleven are left out: `brotlic::Quality::new` refuses them.
#[verifier::external_body]
fn encoder(quality: u8, window: WindowSize, block: BlockSize) -> (out: Result<
    brotlic::BrotliEncoder,
    String,
>)
    requires
        quality <= MAX_QUALITY,
    ensures
        out matches Ok(encoder) ==> encoder_options(encoder) == (quality, window, block),
{
    let quality = brotlic::Quality::new(quality).unwrap();
    let window = match window {
        WindowSize::Best => brotlic::WindowSize::best(),
        WindowSize::Worst => brotlic::WindowSize::worst(),
    };
    let block = match block {
        BlockSize::Best => brotlic::BlockSize::best(),
        BlockSize::Worst => brotlic::BlockSize::worst(),
    };
    let mut options = brotlic::BrotliEncoderOptions::new();
    match options.quality(quality).window_size(window).block_size(block).build() {
        Ok(encoder) => Ok(encoder),
        Err(error) => Err(error.to_string()),
    }
}

/// Writes all of `data` into a `brotlic::CompressorWriter` with the given
/// encoder over an empty vector and takes the vector back, which finishes
/// the stream. Where that succeeds, the stream depends on `data` and on the
/// parameters of the encoder alone. It may fail for more than its
/// arguments: the codec is a C library that takes its working memory from
/// the heap as it encodes and reports a failure without its cause. So
/// nothing is claimed of when it fails.
#[verifier::external_body]
fn encode(encoder: brotlic::BrotliEncoder, data: &[u8]) -> (out: Result<Vec<u8>, String>)
    ensures
        out matches Ok(bytes) ==> bytes@ == brotlic_stream(
            data@,
            encoder_options(encoder).0,
            encoder_options(encoder).1,
            encoder_options(encoder).2,
        ),
{
    let mut writer = brotlic::CompressorWriter::with_encoder(encoder, Vec::new());
    match writer.write_all(data) {
        Ok(()) => match writer.into_inner() {
            Ok(bytes) => Ok(bytes),
            Err(error) => Err(error.to_string()),
        },
        Err(error) => Err(error.to_string()),
    }
}

/// A `brotlic::DecompressorReader` over a slice: a reader of the bytes that
/// a Brotli stream decodes to. The reader is bound by a trait of the
/// standard library that cannot be declared, so it is held out of sight
/// here. What is known of it is what it was made over and which reads were
/// made of it.
#[verifier::external_body]
pub struct StreamReader<'a> {
    decoder: brotlic::DecompressorReader<&'a [u8]>,
}

/// `brotlic::DecompressorReader::new` over the bytes of `src`: a decoder of
/// which no read was made yet.
#[verifier::external_body]
fn stream_reader<'a>(src: &'a [u8]) -> (reader: StreamReader<'a>)
    ensures
        reader_source(reader) == src@,
        reader_reads(reader) == Seq::<nat>::empty(),
{
    StreamReader { decoder: brotlic::DecompressorReader::new(src) }
}

/// `Read::read_exact` on a Brotli decoder: tries to fill `dst` with the next
/// decoded bytes. An error of the kind `UnexpectedEof` is told apart from
/// every other error. A read may fail for more than its arguments: the codec
/// is a C library that takes memory from the heap as it decodes and reports
/// a want of it as an error. Every error of the codec comes as one of the
/// other errors. Where none comes, what the read comes to and leaves in
/// `dst` depends on the source, on the lengths of the earlier reads and on
/// what `dst` held alone.
#[verifier::external_body]
fn stream_read_exact(reader: &mut StreamReader<'_>, dst: &mut [u8]) -> (out: ReadOutcome)
    ensures
        final(dst)@.len() == old(dst)@.len(),
        reader_source(*final(reader)) == reader_source(*old(reader)),
        reader_reads(*final(reader)) == reader_reads(*old(reader)).push(old(dst)@.len()),
        !(out is Failed) ==> (out@, final(dst)@) == brotlic_read(
            reader_source(*old(reader)),
            reader_reads(*old(reader)),
            old(dst)@,
        ),
{
    match reader.decoder.read_exact(dst) {
        Ok(()) => ReadOutcome::Filled,
        Err(error) if error.kind() == std::io::ErrorKind::UnexpectedEof => {
            ReadOutcome::Ended(error.to_string())
        },
        Err(error) => ReadOutcome::Failed(error.to_string()),
    }
}

impl Brotli {
    #[verifier::type_invariant]
    spec fn quality_in_range(self) -> bool {
        self.quality <= MAX_QUALITY
    }

    /// The quality.
    pub closed spec fn spec_quality(self) -> u8 {
        self.quality
    }

    /// The window size.
    pub closed spec fn spec_window(self) -> WindowSize {
        self.window
    }

    /// The block size.
    pub closed spec fn spec_block(self) -> BlockSize {
        self.block
    }

    /// Brotli at the given quality, window and block size, where the codec
    /// takes the quality.
    pub fn new(quality: u8, window: WindowSize, block: BlockSize) -> (out: Option<Brotli>)
        ensures
            out is Some <==> quality <= MAX_QUALITY,
            out matches Some(scheme) ==> {
                &&& scheme.spec_quality() == quality
                &&& scheme.spec_window() == window
                &&& scheme.spec_block() == block
            },
    {
        if quality <= MAX_QUALITY {
            Some(Brotli { quality, window, block })
        } else {
            None
        }
    }

    /// The quality.
    pub fn quality(&self) -> (quality: u8)
        ensures
            quality == self.spec_quality(),
            quality <= MAX_QUALITY,
    {
        proof {
            use_type_invariant(self);
        }
        self.quality
    }

    /// The window size.
    pub fn window(&self) -> (window: WindowSize)
        ensures
            window == self.spec_window(),
    {
        self.window
    }

    /// The block size.
    pub fn block(&self) -> (block: BlockSize)
        ensures
            block == self.spec_block(),
    {
        self.block
    }

    /// The settings as text: the quality in decimal and the two sizes by
    /// their names.
    pub open spec fn settings_text(self) -> Seq<char> {
        "quality "@ + decimal(self.spec_quality() as nat) + match self.spec_window() {
            WindowSize::Best => " / Best window size"@,
            WindowSize::Worst => " / Worst window size"@,
        } + match self.spec_block() {
            BlockSize::Best => " / Best block size"@,
            BlockSize::Worst => " / Worst block size"@,
        }
    }
}

impl DescribeScheme for Brotli {
    open spec fn name_is(&self, name: Seq<char>) -> bool {
        name == "brotlic"@
    }

    open spec fn settings_are(&self, settings: Option<Seq<char>>) -> bool {
        settings == Some(self.settings_text())
    }

    fn name(&self) -> (out: String) {
        String::from_str("brotlic")
    }

    fn settings(&self) -> (out: Option<String>) {
        let mut text = String::from_str("quality ");
        text.append(render_unsigned(self.quality() as u64).as_str());
        match self.window() {
            WindowSize::Best => text.append(" / Best window size"),
            WindowSize::Worst => text.append(" / Worst window size"),
        }
        match self.block() {
            BlockSize::Best => text.append(" / Best block size"),
            BlockSize::Worst => text.append(" / Worst block size"),
        }
        Some(text)
    }
}

impl Compressor for Brotli {
    /// Compression gives the stream that the codec makes of the data with
    /// an encoder of the scheme's quality, window and block size. It fails
    /// only with a failure of the codec, as the encoder is set up or as it
    /// encodes; the codec gives no cause, and may fail for want of memory,
    /// so nothing says on which inputs it fails.
    open spec fn compress_yields(&self, data: Seq<u8>, out: Result<Seq<u8>, SchemeError>) -> bool {
        match out {
            Ok(bytes) => bytes == brotlic_stream(
                data,
                self.spec_quality(),
                self.spec_window(),
                self.spec_block(),
            ),
            Err(error) => {
                ||| is_codec_failure(Some(error), SETUP_LABEL)
                ||| is_codec_failure(Some(error), COMPRESSION_LABEL)
            },
        }
    }

    fn compress(&self, data: &[u8]) -> (out: Result<Vec<u8>, SchemeError>) {
        match encoder(self.quality(), self.window(), self.block()) {
            Ok(encoder) => packed_or_failure(COMPRESSION_LABEL, encode(encoder, data)),
            Err(detail) => Err(SchemeError::Codec { operation: SETUP_LABEL, detail }),
        }
    }
}

impl Decompressor for Brotli {
    /// Decompression fills the destination from a decoder over the source
    /// and then probes the decoder for one byte more. It succeeds only where
    /// the destination is filled and the decoded data ends there, and it
    /// reports a destination too short only where the destination is
    /// filled; in both cases the destination holds the decoded bytes. Every
    /// other failure is one of the codec; it may come from a want of memory,
    /// so nothing says on which sources it comes.
    open spec fn decompress_yields(
        &self,
        src: Seq<u8>,
        before: Seq<u8>,
        after: Seq<u8>,
        failure: Option<SchemeError>,
    ) -> bool {
        &&& settles_where_filled(brotlic_read(src, Seq::empty(), before), after, failure)
        &&& failure is None ==> brotlic_read(src, seq![before.len()], probe_buffer()).0 is Ended
        &&& failure matches Some(SchemeError::Codec { .. }) ==> is_codec_failure(
            failure,
            DECOMPRESSION_LABEL,
        )
    }

    fn decompress_to(&self, src: &[u8], dst: &mut [u8]) -> (out: Result<(), SchemeError>) {
        let mut decoder = stream_reader(src);
        assert(Seq::<nat>::empty().push(dst@.len()) =~= seq![dst@.len()]);
        match fill_verdict(DECOMPRESSION_LABEL, stream_read_exact(&mut decoder, dst)) {
            Ok(()) => {
                let mut probe = [0u8; 1];
                assert(probe@ =~= probe_buffer());
                probe_verdict(stream_read_exact(&mut decoder, &mut probe))
            },
            Err(error) => Err(error),
        }
    }
}

} // verus!
