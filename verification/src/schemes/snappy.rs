//! Snappy as a raw block and in the frame format, by way of `snap`.

use crate::codec::{
    codec_view, count_view, fill_verdict, judges, packed_or_failure, probe_buffer, probe_verdict,
    renders, settles, sized_verdict, ReadOutcome, ReadView,
};
use crate::error::SchemeError;
use crate::scheme::{Compressor, Decompressor, DescribeScheme};
use std::io::{Read, Write};
use vstd::prelude::*;

verus! {

/// Snappy in one of its two forms.
#[derive(Clone, Copy, Debug, PartialEq, Eq, Structural)]
pub enum Snap {
    /// One raw block.
    Raw,
    /// The frame format.
    Frame,
}

/// What compression reports when the codec fails.
pub const COMPRESSION_LABEL: &'static str = "snappy compression failed";

/// What decompression reports when the codec fails.
pub const DECOMPRESSION_LABEL: &'static str = "snappy decompression failed";

/// What `snap::raw::Encoder::compress_vec` makes of `data`: the raw block,
/// or the wording of its error.
pub uninterp spec fn snap_block(data: Seq<u8>) -> Result<Seq<u8>, Seq<char>>;

/// What `snap::write::FrameEncoder` makes of `data`: the frames, or the
/// wording of its error.
pub uninterp spec fn snap_frames(data: Seq<u8>) -> Result<Seq<u8>, Seq<char>>;

/// What `snap::raw::Decoder::decompress` makes of `src` and a destination
/// that holds `before`: the number of bytes that it reports or the wording
/// of its error, and what it leaves in the destination.
pub uninterp spec fn snap_block_decoding(src: Seq<u8>, before: Seq<u8>) -> (
    Result<nat, Seq<char>>,
    Seq<u8>,
);

/// `snap::raw::Encoder::compress_vec` on a fresh encoder: the whole of
/// `data` as one raw block. The result depends on `data` alone.
#[verifier::external_body]
fn raw_compress(data: &[u8]) -> (out: Result<Vec<u8>, String>)
    ensures
        codec_view(out) == snap_block(data@),
{
    match snap::raw::Encoder::new().compress_vec(data) {
        Ok(bytes) => Ok(bytes),
        Err(error) => Err(error.to_string()),
    }
}

/// `snap::raw::Decoder::decompress` on a fresh decoder: decodes the block in
/// `src` into the front of `dst` and reports how many bytes it wrote. The
/// outcome and the contents of `dst` depend on `src` and on what `dst` held
/// alone.
#[verifier::external_body]
fn raw_decompress(src: &[u8], dst: &mut [u8]) -> (out: Result<usize, String>)
    ensures
        final(dst)@.len() == old(dst)@.len(),
        (count_view(out), final(dst)@) == snap_block_decoding(src@, old(dst)@),
{
    match snap::raw::Decoder::new().decompress(src, dst) {
        Ok(written) => Ok(written),
        Err(error) => Err(error.to_string()),
    }
}

/// Writes all of `data` into a `snap::write::FrameEncoder` over an empty
/// vector and takes the vector back, which flushes the last frame. The
/// result depends on `data` alone.
#[verifier::external_body]
fn frame_compress(data: &[u8]) -> (out: Result<Vec<u8>, String>)
    ensures
        codec_view(out) == snap_frames(data@),
{
    let mut encoder = snap::write::FrameEncoder::new(Vec::new());
    match encoder.write_all(data) {
        Ok(()) => match encoder.into_inner() {
            Ok(bytes) => Ok(bytes),
            Err(error) => Err(error.to_string()),
        },
        Err(error) => Err(error.to_string()),
    }
}

/// A `snap::read::FrameDecoder` over a slice: a reader of the bytes that
/// Snappy frames decode to. The decoder is bound by a trait of the standard
/// library that cannot be declared, so it is held out of sight here. What is
/// known of it is what it was made over and which reads were made of it.
#[verifier::external_body]
pub struct FrameReader<'a> {
    decoder: snap::read::FrameDecoder<&'a [u8]>,
}

/// The bytes that a frame decoder was made over.
pub uninterp spec fn frame_source(reader: FrameReader) -> Seq<u8>;

/// The lengths of the buffers that a frame decoder was asked to fill so far,
/// in the order of the reads.
pub uninterp spec fn frame_reads(reader: FrameReader) -> Seq<nat>;

/// What `Read::read_exact` on a `snap::read::FrameDecoder` over `src` comes
/// to, and what it leaves in a buffer that held `before`, after earlier
/// reads into buffers of the lengths `reads`.
pub uninterp spec fn frame_read(src: Seq<u8>, reads: Seq<nat>, before: Seq<u8>) -> (
    ReadView,
    Seq<u8>,
);

/// `snap::read::FrameDecoder::new` over the bytes of `src`: a decoder of which
/// no read was made yet.
#[verifier::external_body]
fn frame_reader<'a>(src: &'a [u8]) -> (reader: FrameReader<'a>)
    ensures
        frame_source(reader) == src@,
        frame_reads(reader) == Seq::<nat>::empty(),
{
    FrameReader { decoder: snap::read::FrameDecoder::new(src) }
}

/// `Read::read_exact` on a Snappy frame decoder: tries to fill `dst` with the
/// next decoded bytes. An error of the kind `UnexpectedEof` is told apart
/// from every other error. The decoder is plain Rust and works on nothing
/// but its source, so what the read comes to and leaves in `dst` depends on
/// the source, on the lengths of the earlier reads and on what `dst` held
/// alone.
#[verifier::external_body]
fn frame_read_exact(reader: &mut FrameReader<'_>, dst: &mut [u8]) -> (out: ReadOutcome)
    ensures
        final(dst)@.len() == old(dst)@.len(),
        frame_source(*final(reader)) == frame_source(*old(reader)),
        frame_reads(*final(reader)) == frame_reads(*old(reader)).push(old(dst)@.len()),
        (out@, final(dst)@) == frame_read(
            frame_source(*old(reader)),
            frame_reads(*old(reader)),
            old(dst)@,
        ),
{
    match reader.decoder.read_exact(dst) {
        Ok(()) => ReadOutcome::Filled,
        Err(error) if error.kind() == std::io::ErrorKind::UnexpectedEof => {
            ReadOutcome::Ended(error.to_string())
        },
        Err(error) => ReadOutcome::Failed(error.to_string()),
    }
}

impl DescribeScheme for Snap {
    open spec fn name_is(&self, name: Seq<char>) -> bool {
        name == "snap"@
    }

    open spec fn settings_are(&self, settings: Option<Seq<char>>) -> bool {
        settings == Some(
            match *self {
                Snap::Raw => "Raw"@,
                Snap::Frame => "Frame"@,
            },
        )
    }

    fn name(&self) -> (out: String) {
        String::from_str("snap")
    }

    fn settings(&self) -> (out: Option<String>) {
        match self {
            Snap::Raw => Some(String::from_str("Raw")),
            Snap::Frame => Some(String::from_str("Frame")),
        }
    }
}

impl Compressor for Snap {
    /// Compression gives what the codec makes of the data in the scheme's
    /// form.
    open spec fn compress_yields(&self, data: Seq<u8>, out: Result<Seq<u8>, SchemeError>) -> bool {
        match *self {
            Snap::Raw => renders(COMPRESSION_LABEL, snap_block(data), out),
            Snap::Frame => renders(COMPRESSION_LABEL, snap_frames(data), out),
        }
    }

    fn compress(&self, data: &[u8]) -> (out: Result<Vec<u8>, SchemeError>) {
        match self {
            Snap::Raw => packed_or_failure(COMPRESSION_LABEL, raw_compress(data)),
            Snap::Frame => packed_or_failure(COMPRESSION_LABEL, frame_compress(data)),
        }
    }
}

impl Decompressor for Snap {
    /// Decompression of a raw block is judged by the number of bytes that
    /// the codec reports. Decompression of frames fills the destination from
    /// a decoder over the source and then probes the decoder for one byte
    /// more: it succeeds exactly where the destination is filled and the
    /// decoded data ends there, reports a destination too short where there
    /// is more or the probe fails, and reports a failure of the codec where
    /// the destination is not filled; the destination is left as the first
    /// read left it.
    open spec fn decompress_yields(
        &self,
        src: Seq<u8>,
        before: Seq<u8>,
        after: Seq<u8>,
        failure: Option<SchemeError>,
    ) -> bool {
        match *self {
            Snap::Raw => {
                &&& after == snap_block_decoding(src, before).1
                &&& judges(
                    DECOMPRESSION_LABEL,
                    before.len(),
                    snap_block_decoding(src, before).0,
                    failure,
                )
            },
            Snap::Frame => settles(
                DECOMPRESSION_LABEL,
                frame_read(src, Seq::empty(), before),
                frame_read(src, seq![before.len()], probe_buffer()).0,
                after,
                failure,
            ),
        }
    }

    fn decompress_to(&self, src: &[u8], dst: &mut [u8]) -> (out: Result<(), SchemeError>) {
        match self {
            Snap::Raw => {
                let outcome = raw_decompress(src, dst);
                sized_verdict(DECOMPRESSION_LABEL, dst.len(), outcome)
            },
            Snap::Frame => {
                let mut decoder = frame_reader(src);
                assert(Seq::<nat>::empty().push(dst@.len()) =~= seq![dst@.len()]);
                match fill_verdict(DECOMPRESSION_LABEL, frame_read_exact(&mut decoder, dst)) {
                    Ok(()) => {
                        let mut probe = [0u8; 1];
                        assert(probe@ =~= probe_buffer());
                        probe_verdict(frame_read_exact(&mut decoder, &mut probe))
                    },
                    Err(error) => Err(error),
                }
            },
        }
    }
}

} // verus!
