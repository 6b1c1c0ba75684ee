//! LZ4 from the reference implementation, by way of `lzzzz`: fast blocks,
//! high-compression blocks and frames.

use crate::codec::{
    count_view, fill_verdict, is_codec_failure, judges, length_verdict, probe_buffer,
    probe_verdict, settles_where_filled, sized_verdict, ReadOutcome, ReadView,
};
use crate::error::SchemeError;
use crate::scheme::{failure_of, packed_view, Compressor, Decompressor, DescribeScheme};
use crate::text::{render_signed, signed_decimal};
use std::io::Read;
use vstd::prelude::*;

verus! {

/// The compression levels that frames are measured at.
#[derive(Clone, Copy, Debug, PartialEq, Eq, Structural)]
pub enum FrameLevel {
    Default,
    High,
    Max,
}

/// LZ4 in one of three forms.
#[derive(Clone, Copy, Debug, PartialEq, Eq, Structural)]
pub enum Lz4 {
    /// A block from the fast compressor, at an acceleration.
    NormalBlock(i32),
    /// A block from the high-compression compressor, at a level.
    HcBlock(i32),
    /// A frame, at a level.
    Frame(FrameLevel),
}

/// What is reported when the codec fails.
pub const LABEL: &'static str = "lzzzz error";

/// What is reported when the codec cannot be set up.
pub const SETUP_LABEL: &'static str = "couldn't initialize the lzzzz decompressor";

/// What decompression reports when the codec fails.
pub const DECOMPRESSION_LABEL: &'static str = "lzzzz decompression error";

/// The level of the codec's default compression.
pub const CLEVEL_DEFAULT: i32 = 0;

/// The lowest level of the codec's high compression.
pub const CLEVEL_HIGH: i32 = 10;

/// The highest level that the codec takes.
pub const CLEVEL_MAX: i32 = 12;

/// The lowest level at which the frame encoder of the codec takes its
/// working memory from the heap, so that it may fail for want of it.
pub const CLEVEL_HEAP: i32 = 2;

/// What `lzzzz::lz4::compress_to_vec` makes of `data` at `acceleration`:
/// the number of bytes that it reports and the vector, or the wording of
/// its error.
pub uninterp spec fn fast_block(data: Seq<u8>, acceleration: i32) -> Result<
    (nat, Seq<u8>),
    Seq<char>,
>;

/// What `lzzzz::lz4_hc::compress_to_vec` makes of `data` at `level`: the
/// number of bytes that it reports and the vector, or the wording of its
/// error.
pub uninterp spec fn hc_block(data: Seq<u8>, level: i32) -> Result<(nat, Seq<u8>), Seq<char>>;

/// What `lzzzz::lz4f::compress_to_vec` makes of `data` at `level` where it
/// is not short of memory: the number of bytes that it reports and the
/// vector, or the wording of its error.
pub uninterp spec fn frame(data: Seq<u8>, level: i32) -> Result<(nat, Seq<u8>), Seq<char>>;

/// What `lzzzz::lz4::decompress` makes of `src` and a destination that
/// holds `before`: the number of bytes that it reports or the wording of
/// its error, and what it leaves in the destination.
pub uninterp spec fn block_decoding(src: Seq<u8>, before: Seq<u8>) -> (
    Result<nat, Seq<char>>,
    Seq<u8>,
);

/// The bytes that a frame decompressor was made over.
pub uninterp spec fn frame_source(reader: FrameReader) -> Seq<u8>;

/// The lengths of the buffers that a frame decompressor was asked to fill
/// so far, in the order of the reads.
pub uninterp spec fn frame_reads(reader: FrameReader) -> Seq<nat>;

/// What `Read::read_exact` on a `lzzzz::lz4f::ReadDecompressor` over `src`
/// comes to where the codec reports no error, and what it then leaves in a
/// buffer that held `before`, after earlier reads into buffers of the
/// lengths `reads`.
pub uninterp spec fn frame_read(src: Seq<u8>, reads: Seq<nat>, before: Seq<u8>) -> (
    ReadView,
    Seq<u8>,
);

/// The outcome of a compression call of the codec as a plain value: the
/// number that it reports and the bytes of the vector, or the wording of
/// its error.
pub open spec fn packing_view(outcome: Result<(usize, Vec<u8>), String>) -> Result<
    (nat, Seq<u8>),
    Seq<char>,
> {
    match outcome {
        Ok((written, bytes)) => Ok((written as nat, bytes@)),
        Err(wording) => Err(wording@),
    }
}

/// `lzzzz::lz4::compress_to_vec` into an empty vector: the whole of `data`
/// as one block at `acceleration`, with the number of bytes that the codec
/// says it wrote. The codec works in a state that the crate keeps for it
/// and takes no memory of its own; the call fails only where the codec
/// writes nothing for an input that is not empty. So the outcome depends on
/// `data` and `acceleration` alone.
#[verifier::external_body]
fn fast_compress(data: &[u8], acceleration: i32) -> (out: Result<(usize, Vec<u8>), String>)
    ensures
        packing_view(out) == fast_block(data@, acceleration),
{
    let mut bytes = Vec::new();
    match lzzzz::lz4::compress_to_vec(data, &mut bytes, acceleration) {
        Ok(written) => Ok((written, bytes)),
        Err(error) => Err(error.to_string()),
    }
}

/// `lzzzz::lz4_hc::compress_to_vec` into an empty vector: the whole of
/// `data` as one block at `level`, with the number of bytes that the codec
/// says it wrote. The codec works in a state that the crate keeps for it
/// and takes no memory of its own; the call fails only where the codec
/// writes nothing for an input that is not empty. So the outcome depends on
/// `data` and `level` alone.
#[verifier::external_body]
fn hc_compress(data: &[u8], level: i32) -> (out: Result<(usize, Vec<u8>), String>)
    ensures
        packing_view(out) == hc_block(data@, level),
{
    let mut bytes = Vec::new();
    match lzzzz::lz4_hc::compress_to_vec(data, &mut bytes, level) {
        Ok(written) => Ok((written, bytes)),
        Err(error) => Err(error.to_string()),
    }
}

/// `lzzzz::lz4f::compress_to_vec` into an empty vector, with preferences
/// that set the compression level and nothing else: the whole of `data` as
/// one frame, with the number of bytes that the codec says it wrote. Below
/// level two the codec works on the stack, and the outcome depends on `data`
/// and `level` alone. From level two on it takes its working memory from
/// the heap and reports a want of it as an error: there only a success is
/// sure to depend on `data` and `level` alone.
#[verifier::external_body]
fn frame_compress(data: &[u8], level: i32) -> (out: Result<(usize, Vec<u8>), String>)
    ensures
        out is Ok || level < CLEVEL_HEAP ==> packing_view(out) == frame(data@, level),
{
    let preferences = lzzzz::lz4f::PreferencesBuilder::new().compression_level(level).build();
    let mut bytes = Vec::new();
    match lzzzz::lz4f::compress_to_vec(data, &mut bytes, &preferences) {
        Ok(written) => Ok((written, bytes)),
        Err(error) => Err(error.to_string()),
    }
}

/// `lzzzz::lz4::decompress`: decodes the block in `src` into the front of
/// `dst` and reports how many bytes it wrote. The codec takes no memory; the
/// call fails exactly where the codec reports a negative number. So the
/// outcome and the contents of `dst` depend on `src` and on what `dst` held
/// alone.
#[verifier::external_body]
fn block_decompress(src: &[u8], dst: &mut [u8]) -> (out: Result<usize, String>)
    ensures
        final(dst)@.len() == old(dst)@.len(),
        (count_view(out), final(dst)@) == block_decoding(src@, old(dst)@),
{
    match lzzzz::lz4::decompress(src, dst) {
        Ok(written) => Ok(written),
        Err(error) => Err(error.to_string()),
    }
}

/// A `lzzzz::lz4f::ReadDecompressor` over a slice: a reader of the bytes
/// that LZ4 frames decode to. The decompressor is bound by a trait of the
/// standard library that cannot be declared, so it is held out of sight
/// here. What is known of it is what it was made over and which reads were
/// made of it.
#[verifier::external_body]
pub struct FrameReader<'a> {
    decoder: lzzzz::lz4f::ReadDecompressor<'a, &'a [u8]>,
}

/// `lzzzz::lz4f::ReadDecompressor::new` over the bytes of `src`: a
/// decompressor of which no read was made yet, or the wording of the error
/// with which the codec refused to set it up. The codec takes the memory
/// for it from the heap, so the refusal may come from a want of memory.
#[verifier::external_body]
fn frame_reader<'a>(src: &'a [u8]) -> (out: Result<FrameReader<'a>, String>)
    ensures
        out matches Ok(reader) ==> {
            &&& frame_source(reader) == src@
            &&& frame_reads(reader) == Seq::<nat>::empty()
        },
{
    match lzzzz::lz4f::ReadDecompressor::new(src) {
        Ok(decoder) => Ok(FrameReader { decoder }),
        Err(error) => Err(error.to_string()),
    }
}

/// `Read::read_exact` on an LZ4 frame decompressor: tries to fill `dst`
/// with the next decoded bytes. An error of the kind `UnexpectedEof` is told
/// apart from every other error. Every error of the codec, the want of
/// memory among them, comes as one of the other errors. Where none comes,
/// what the read comes to and leaves in `dst` depends on the source, on the
/// lengths of the earlier reads and on what `dst` held alone.
#[verifier::external_body]
fn frame_read_exact(reader: &mut FrameReader<'_>, dst: &mut [u8]) -> (out: ReadOutcome)
    ensures
        final(dst)@.len() == old(dst)@.len(),
        frame_source(*final(reader)) == frame_source(*old(reader)),
        frame_reads(*final(reader)) == frame_reads(*old(reader)).push(old(dst)@.len()),
        !(out is Failed) ==> (out@, final(dst)@) == frame_read(
            frame_source(*old(reader)),
            frame_reads(*old(reader)),
            old(dst)@,
        ),
{
    match reader.decoder.read_exact(dst) {
        Ok(()) => ReadOutcome::Filled,
        Err(error) if error.kind() == std::io::ErrorKind::UnexpectedEof => {
            ReadOutcome::Ended(error.to_string())
        },
        Err(error) => ReadOutcome::Failed(error.to_string()),
    }
}

/// The number that goes with a frame level.
pub open spec fn level_number(level: FrameLevel) -> i32 {
    match level {
        FrameLevel::Default => CLEVEL_DEFAULT,
        FrameLevel::High => CLEVEL_HIGH,
        FrameLevel::Max => CLEVEL_MAX,
    }
}

/// The settings of a scheme as text.
pub open spec fn settings_text(scheme: Lz4) -> Seq<char> {
    match scheme {
        Lz4::NormalBlock(acceleration) => "block / normal / acceleration "@ + signed_decimal(
            acceleration as int,
        ),
        Lz4::HcBlock(level) => "block / hc / acceleration "@ + signed_decimal(level as int),
        Lz4::Frame(FrameLevel::Default) => "frame / Default"@,
        Lz4::Frame(FrameLevel::High) => "frame / High"@,
        Lz4::Frame(FrameLevel::Max) => "frame / Max"@,
    }
}

/// What the codec makes of `data` in the form of the scheme.
pub open spec fn packing(scheme: Lz4, data: Seq<u8>) -> Result<(nat, Seq<u8>), Seq<char>> {
    match scheme {
        Lz4::NormalBlock(acceleration) => fast_block(data, acceleration),
        Lz4::HcBlock(level) => hc_block(data, level),
        Lz4::Frame(level) => frame(data, level_number(level)),
    }
}

/// Whether `out` is what a scheme makes of the outcome of a compression
/// call of the codec: the bytes of the vector where the codec reports as
/// many bytes as the vector holds, a length mismatch where it reports
/// another number, and a failure of the codec, in the codec's wording, where
/// the codec failed.
pub open spec fn packs(
    outcome: Result<(nat, Seq<u8>), Seq<char>>,
    out: Result<Seq<u8>, SchemeError>,
) -> bool {
    match outcome {
        Ok((written, bytes)) => if written == bytes.len() {
            out == Ok::<Seq<u8>, SchemeError>(bytes)
        } else {
            &&& out matches Err(SchemeError::LengthMismatch { expected, produced })
            &&& expected == bytes.len()
            &&& produced == written
        },
        Err(wording) => {
            &&& out matches Err(SchemeError::Codec { operation, detail })
            &&& operation == LABEL
            &&& detail@ == wording
        },
    }
}

/// Judges what a compression call came to: the vector is the result where
/// the codec reports as many bytes as the vector holds.
fn packed_verdict(outcome: Result<(usize, Vec<u8>), String>) -> (out: Result<Vec<u8>, SchemeError>)
    ensures
        packs(packing_view(outcome), packed_view(out)),
        outcome is Err ==> out is Err && is_codec_failure(failure_of(out), LABEL),
{
    match outcome {
        Ok((written, bytes)) => match length_verdict(bytes.len(), written) {
            Ok(()) => Ok(bytes),
            Err(error) => Err(error),
        },
        Err(detail) => Err(SchemeError::Codec { operation: LABEL, detail }),
    }
}

impl DescribeScheme for Lz4 {
    open spec fn name_is(&self, name: Seq<char>) -> bool {
        name == "lzzzz"@
    }

    open spec fn settings_are(&self, settings: Option<Seq<char>>) -> bool {
        settings == Some(settings_text(*self))
    }

    fn name(&self) -> (out: String) {
        String::from_str("lzzzz")
    }

    fn settings(&self) -> (out: Option<String>) {
        match self {
            Lz4::NormalBlock(acceleration) => {
                let mut text = String::from_str("block / normal / acceleration ");
                text.append(render_signed(*acceleration as i64).as_str());
                Some(text)
            },
            Lz4::HcBlock(level) => {
                let mut text = String::from_str("block / hc / acceleration ");
                text.append(render_signed(*level as i64).as_str());
                Some(text)
            },
            Lz4::Frame(FrameLevel::Default) => Some(String::from_str("frame / Default")),
            Lz4::Frame(FrameLevel::High) => Some(String::from_str("frame / High")),
            Lz4::Frame(FrameLevel::Max) => Some(String::from_str("frame / Max")),
        }
    }
}

impl Compressor for Lz4 {
    /// Compression gives the vector that the codec filled, where the codec
    /// reports as many bytes as the vector holds; it fails with a length
    /// mismatch where the codec reports another number, and with a failure
    /// of the codec, in the codec's wording, where the codec fails. Of
    /// frames from the level on at which the codec takes memory from the
    /// heap, a failure of the codec may also come from a want of memory.
    open spec fn compress_yields(&self, data: Seq<u8>, out: Result<Seq<u8>, SchemeError>) -> bool {
        match *self {
            Lz4::Frame(level) if level_number(level) >= CLEVEL_HEAP => {
                ||| packs(packing(*self, data), out)
                ||| out matches Err(error) && is_codec_failure(Some(error), LABEL)
            },
            _ => packs(packing(*self, data), out),
        }
    }

    fn compress(&self, data: &[u8]) -> (out: Result<Vec<u8>, SchemeError>) {
        match self {
            Lz4::NormalBlock(acceleration) => packed_verdict(fast_compress(data, *acceleration)),
            Lz4::HcBlock(level) => packed_verdict(hc_compress(data, *level)),
            Lz4::Frame(FrameLevel::Default) => packed_verdict(frame_compress(data, CLEVEL_DEFAULT)),
            Lz4::Frame(FrameLevel::High) => packed_verdict(frame_compress(data, CLEVEL_HIGH)),
            Lz4::Frame(FrameLevel::Max) => packed_verdict(frame_compress(data, CLEVEL_MAX)),
        }
    }
}

impl Decompressor for Lz4 {
    /// Decompression of a block is judged by the number of bytes that the
    /// codec reports. Decompression of a frame fills the destination from a
    /// decompressor over the source and then probes it for one byte more. It
    /// succeeds only where the destination is filled and the decoded data
    /// ends there, and it reports a destination too short only where the
    /// destination is filled; in both cases the destination holds the
    /// decoded bytes. Every other failure of a frame is one of the codec, as
    /// it is set up or as it decodes; it may come from a want of memory, so
    /// nothing says on which sources it comes.
    open spec fn decompress_yields(
        &self,
        src: Seq<u8>,
        before: Seq<u8>,
        after: Seq<u8>,
        failure: Option<SchemeError>,
    ) -> bool {
        match *self {
            Lz4::Frame(_) => {
                &&& settles_where_filled(frame_read(src, Seq::empty(), before), after, failure)
                &&& failure is None ==> frame_read(
                    src,
                    seq![before.len()],
                    probe_buffer(),
                ).0 is Ended
                &&& failure matches Some(SchemeError::Codec { .. }) ==> {
                    ||| is_codec_failure(failure, SETUP_LABEL)
                    ||| is_codec_failure(failure, DECOMPRESSION_LABEL)
                }
            },
            _ => {
                &&& after == block_decoding(src, before).1
                &&& judges(LABEL, before.len(), block_decoding(src, before).0, failure)
            },
        }
    }

    fn decompress_to(&self, src: &[u8], dst: &mut [u8]) -> (out: Result<(), SchemeError>) {
        match self {
            Lz4::Frame(_) => {
                let mut decoder = match frame_reader(src) {
                    Ok(decoder) => decoder,
                    Err(detail) => {
                        return Err(SchemeError::Codec { operation: SETUP_LABEL, detail });
                    },
                };
                assert(Seq::<nat>::empty().push(dst@.len()) =~= seq![dst@.len()]);
                match fill_verdict(DECOMPRESSION_LABEL, frame_read_exact(&mut decoder, dst)) {
                    Ok(()) => {
                        let mut probe = [0u8; 1];
                        assert(probe@ =~= probe_buffer());
                        probe_verdict(frame_read_exact(&mut decoder, &mut probe))
                    },
                    Err(error) => Err(error),
                }
            },
            _ => {
                let outcome = block_decompress(src, dst);
                sized_verdict(LABEL, dst.len(), outcome)
            },
        }
    }
}

} // verus!
