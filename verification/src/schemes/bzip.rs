//! bzip2 at its nine block sizes, by way of `bzip2`.

use crate::codec::{
    codec_view, fill_verdict, is_codec_failure, packed_or_failure, probe_verdict, renders,
    settles_where_filled, ReadOutcome, ReadView,
};
use crate::error::SchemeError;
use crate::scheme::{Compressor, Decompressor, DescribeScheme};
use crate::text::{decimal, render_unsigned};
use std::io::Read;
use vstd::prelude::*;

verus! {

/// The lowest compression level that the codec takes.
pub const MIN_LEVEL: u32 = 1;

/// The highest compression level that the codec takes.
pub const MAX_LEVEL: u32 = 9;

/// bzip2 at a compression level from [`MIN_LEVEL`] to [`MAX_LEVEL`].
pub struct Bzip2 {
    level: u32,
}

/// What compression reports when the codec fails.
pub const COMPRESSION_LABEL: &'static str = "bzip2 compression error";

/// What decompression reports when the codec fails.
pub const DECOMPRESSION_LABEL: &'static str = "bzip2 decompression error";

/// What reading a `bzip2::read::BzEncoder` over `data` at `level` to its end
/// gives: the stream, or the wording of the error.
pub uninterp spec fn bzip2_stream(data: Seq<u8>, level: u32) -> Result<Seq<u8>, Seq<char>>;

/// Reads a `bzip2::read::BzEncoder` over `data` at `level` to its end. The
/// encoder reads from a slice, which cannot fail, and has no error of its own
/// to return: it takes the status of the codec for granted. So the outcome
/// depends on `data` and `level` alone. Levels outside one to nine are left
/// out: the codec panics on them.
#[verifier::external_body]
fn bzip2_compress(data: &[u8], level: u32) -> (out: Result<Vec<u8>, String>)
    requires
        MIN_LEVEL <= level <= MAX_LEVEL,
    ensures
        codec_view(out) == bzip2_stream(data@, level),
{
    let mut encoder = bzip2::read::BzEncoder::new(data, bzip2::Compression::new(level));
    let mut bytes = Vec::new();
    match encoder.read_to_end(&mut bytes) {
        Ok(_) => Ok(bytes),
        Err(error) => Err(error.to_string()),
    }
}

/// `bzip2::read::MultiBzDecoder`, a reader of the bytes that a sequence of
/// bzip2 streams decodes to. What is known of it here is what it was made
/// over and which reads were made of it.
#[verifier::external_type_specification]
#[verifier::external_body]
#[verifier::reject_recursive_types(R)]
pub struct ExMultiBzDecoder<R>(bzip2::read::MultiBzDecoder<R>);

/// The bytes that a bzip2 decoder was made over.
pub uninterp spec fn bzip2_decoder_source(decoder: bzip2::read::MultiBzDecoder<&[u8]>) -> Seq<u8>;

/// The lengths of the buffers that a bzip2 decoder was asked to fill so far,
/// in the order of the reads.
pub uninterp spec fn bzip2_decoder_reads(decoder: bzip2::read::MultiBzDecoder<&[u8]>) -> Seq<
    nat,
>;

/// What `Read::read_exact` on a `bzip2::read::MultiBzDecoder` over `src`
/// comes to where the codec is never short of memory, and what it then
/// leaves in a buffer that held `before`, after earlier reads into buffers
/// of the lengths `reads`.
pub uninterp spec fn bzip2_read(src: Seq<u8>, reads: Seq<nat>, before: Seq<u8>) -> (
    ReadView,
    Seq<u8>,
);

/// `bzip2::read::MultiBzDecoder::new` over the bytes of `src`: a decoder of
/// which no read was made yet.
#[verifier::external_body]
fn bzip2_decoder<'a>(src: &'a [u8]) -> (decoder: bzip2::read::MultiBzDecoder<&'a [u8]>)
    ensures
        bzip2_decoder_source(decoder) == src@,
        bzip2_decoder_reads(decoder) == Seq::<nat>::empty(),
{
    bzip2::read::MultiBzDecoder::new(src)
}

/// `Read::read_exact` on a bzip2 decoder: tries to fill `dst` with the next
/// decoded bytes. An error of the kind `UnexpectedEof` is told apart from
/// every other error. A read that does not fill `dst` may have failed for
/// more than its arguments: where the codec is short of memory the decoder
/// goes on as if it were short of input, and then reports the end of the
/// data. So only of a read that fills `dst` is anything claimed: that it
/// leaves in `dst` what depends on the source, on the lengths of the earlier
/// reads and on what `dst` held alone.
#[verifier::external_body]
fn bzip2_read_exact(decoder: &mut bzip2::read::MultiBzDecoder<&[u8]>, dst: &mut [u8]) -> (out:
    ReadOutcome)
    ensures
        final(dst)@.len() == old(dst)@.len(),
        bzip2_decoder_source(*final(decoder)) == bzip2_decoder_source(*old(decoder)),
        bzip2_decoder_reads(*final(decoder)) == bzip2_decoder_reads(*old(decoder)).push(
            old(dst)@.len(),
        ),
        out is Filled ==> (out@, final(dst)@) == bzip2_read(
            bzip2_decoder_source(*old(decoder)),
            bzip2_decoder_reads(*old(decoder)),
            old(dst)@,
        ),
{
    match decoder.read_exact(dst) {
        Ok(()) => ReadOutcome::Filled,
        Err(error) if error.kind() == std::io::ErrorKind::UnexpectedEof => {
            ReadOutcome::Ended(error.to_string())
        },
        Err(error) => ReadOutcome::Failed(error.to_string()),
    }
}

impl Bzip2 {
    #[verifier::type_invariant]
    spec fn level_in_range(self) -> bool {
        MIN_LEVEL <= self.level <= MAX_LEVEL
    }

    /// The compression level.
    pub closed spec fn spec_level(self) -> u32 {
        self.level
    }

    /// bzip2 at the given level, where the codec takes the level.
    pub fn new(level: u32) -> (out: Option<Bzip2>)
        ensures
            out is Some <==> MIN_LEVEL <= level <= MAX_LEVEL,
            out matches Some(scheme) ==> scheme.spec_level() == level,
    {
        if MIN_LEVEL <= level && level <= MAX_LEVEL {
            Some(Bzip2 { level })
        } else {
            None
        }
    }

    /// The compression level.
    pub fn level(&self) -> (level: u32)
        ensures
            level == self.spec_level(),
            MIN_LEVEL <= level <= MAX_LEVEL,
    {
        proof {
            use_type_invariant(self);
        }
        self.level
    }
}

impl DescribeScheme for Bzip2 {
    open spec fn name_is(&self, name: Seq<char>) -> bool {
        name == "bzip2"@
    }

    /// The settings are the level in decimal.
    open spec fn settings_are(&self, settings: Option<Seq<char>>) -> bool {
        settings == Some("level "@ + decimal(self.spec_level() as nat))
    }

    fn name(&self) -> (out: String) {
        String::from_str("bzip2")
    }

    fn settings(&self) -> (out: Option<String>) {
        let mut text = String::from_str("level ");
        text.append(render_unsigned(self.level() as u64).as_str());
        Some(text)
    }
}

impl Compressor for Bzip2 {
    /// Compression gives what the codec makes of the data at the level.
    open spec fn compress_yields(&self, data: Seq<u8>, out: Result<Seq<u8>, SchemeError>) -> bool {
        renders(COMPRESSION_LABEL, bzip2_stream(data, self.spec_level()), out)
    }

    fn compress(&self, data: &[u8]) -> (out: Result<Vec<u8>, SchemeError>) {
        packed_or_failure(COMPRESSION_LABEL, bzip2_compress(data, self.level()))
    }
}

impl Decompressor for Bzip2 {
    /// Decompression fills the destination from a decoder over the source
    /// and then probes the decoder for one byte more. It succeeds, or
    /// reports a destination too short, only where the destination is
    /// filled, and then the destination holds the decoded bytes. Every other
    /// failure is one of the codec; it may come from a want of memory, so
    /// nothing says on which sources it comes.
    open spec fn decompress_yields(
        &self,
        src: Seq<u8>,
        before: Seq<u8>,
        after: Seq<u8>,
        failure: Option<SchemeError>,
    ) -> bool {
        &&& settles_where_filled(bzip2_read(src, Seq::empty(), before), after, failure)
        &&& failure matches Some(SchemeError::Codec { .. }) ==> is_codec_failure(
            failure,
            DECOMPRESSION_LABEL,
        )
    }

    fn decompress_to(&self, src: &[u8], dst: &mut [u8]) -> (out: Result<(), SchemeError>) {
        let mut decoder = bzip2_decoder(src);
        match fill_verdict(DECOMPRESSION_LABEL, bzip2_read_exact(&mut decoder, dst)) {
            Ok(()) => {
                let mut probe = [0u8; 1];
                probe_verdict(bzip2_read_exact(&mut decoder, &mut probe))
            },
            Err(error) => Err(error),
        }
    }
}

} // verus!
