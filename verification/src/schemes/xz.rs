//! XZ at the presets of liblzma, by way of `rust-lzma`.

use crate::codec::{
    fill_verdict, is_codec_failure, packed_or_failure, probe_buffer, probe_verdict,
    settles_where_filled, ReadOutcome, ReadView,
};
use crate::error::SchemeError;
use crate::scheme::{Compressor, Decompressor, DescribeScheme};
use crate::text::{decimal, render_unsigned};
use std::io::Read;
use vstd::prelude::*;

verus! {

/// The bit of a preset that asks for the extreme variant of its level.
pub const EXTREME_PRESET: u32 = 0x8000_0000;

/// XZ at a preset of liblzma: a level, with [`EXTREME_PRESET`] set for the
/// extreme variant of that level.
pub struct Lzma {
    pub preset: u32,
}

/// What compression reports when the codec fails.
pub const COMPRESSION_LABEL: &'static str = "lzma compression failed";

/// What is reported when the codec cannot be set up.
pub const SETUP_LABEL: &'static str = "couldn't create lzma decompressor";

/// What decompression reports when the codec fails.
pub const DECOMPRESSION_LABEL: &'static str = "lzma decompression error";

/// The XZ stream that `lzma::compress` gives for `data` at `preset` when it
/// succeeds.
pub uninterp spec fn xz_stream(data: Seq<u8>, preset: u32) -> Seq<u8>;

/// `lzma::compress`: the whole of `data` as one XZ stream at `preset`. Where
/// the call succeeds, the stream depends on `data` and `preset` alone. The
/// call may fail for more than its arguments: liblzma takes the memory of
/// the encoder from the heap and reports a want of it as an error, beside
/// the presets that it does not take. So nothing is claimed of when the call
/// fails.
#[verifier::external_body]
fn xz_compress(data: &[u8], preset: u32) -> (out: Result<Vec<u8>, String>)
    ensures
        out matches Ok(bytes) ==> bytes@ == xz_stream(data@, preset),
{
    match lzma::compress(data, preset) {
        Ok(bytes) => Ok(bytes),
        Err(error) => Err(error.to_string()),
    }
}

/// `lzma::LzmaReader`, here a reader of the bytes that an XZ stream decodes
/// to. What is known of it here is what it was made over and which reads
/// were made of it.
#[verifier::external_type_specification]
#[verifier::external_body]
#[verifier::reject_recursive_types(Inner)]
pub struct ExLzmaReader<Inner>(lzma::LzmaReader<Inner>);

/// The bytes that an XZ decoder was made over.
pub uninterp spec fn xz_decoder_source(decoder: lzma::LzmaReader<&[u8]>) -> Seq<u8>;

/// The lengths of the buffers that an XZ decoder was asked to fill so far,
/// in the order of the reads.
pub uninterp spec fn xz_decoder_reads(decoder: lzma::LzmaReader<&[u8]>) -> Seq<nat>;

/// What `Read::read_exact` on a decompressing `lzma::LzmaReader` over `src`
/// comes to where liblzma reports no error, and what it then leaves in a
/// buffer that held `before`, after earlier reads into buffers of the
/// lengths `reads`.
pub uninterp spec fn xz_read(src: Seq<u8>, reads: Seq<nat>, before: Seq<u8>) -> (
    ReadView,
    Seq<u8>,
);

/// `lzma::LzmaReader::new_decompressor` over the bytes of `src`: a decoder of
/// which no read was made yet, or the wording of the error with which
/// liblzma refused to set a decoder up. The refusal does not depend on
/// `src`: liblzma takes the memory of the decoder from the heap and reports
/// a want of it as an error.
#[verifier::external_body]
fn xz_decoder<'a>(src: &'a [u8]) -> (out: Result<lzma::LzmaReader<&'a [u8]>, String>)
    ensures
        out matches Ok(decoder) ==> {
            &&& xz_decoder_source(decoder) == src@
            &&& xz_decoder_reads(decoder) == Seq::<nat>::empty()
        },
{
    match lzma::LzmaReader::new_decompressor(src) {
        Ok(decoder) => Ok(decoder),
        Err(error) => Err(error.to_string()),
    }
}

/// `Read::read_exact` on an XZ decoder: tries to fill `dst` with the next
/// decoded bytes. An error of the kind `UnexpectedEof` is told apart from
/// every other error. A read may fail for more than its arguments: liblzma
/// reports a want of memory as an error. Every error of liblzma comes as one
/// of the other errors. Where none comes, what the read comes to and leaves
/// in `dst` depends on the source, on the lengths of the earlier reads and
/// on what `dst` held alone.
#[verifier::external_body]
fn xz_read_exact(decoder: &mut lzma::LzmaReader<&[u8]>, dst: &mut [u8]) -> (out: ReadOutcome)
    ensures
        final(dst)@.len() == old(dst)@.len(),
        xz_decoder_source(*final(decoder)) == xz_decoder_source(*old(decoder)),
        xz_decoder_reads(*final(decoder)) == xz_decoder_reads(*old(decoder)).push(
            old(dst)@.len(),
        ),
        !(out is Failed) ==> (out@, final(dst)@) == xz_read(
            xz_decoder_source(*old(decoder)),
            xz_decoder_reads(*old(decoder)),
            old(dst)@,
        ),
{
    match decoder.read_exact(dst) {
        Ok(()) => ReadOutcome::Filled,
        Err(error) if error.kind() == std::io::ErrorKind::UnexpectedEof => {
            ReadOutcome::Ended(error.to_string())
        },
        Err(error) => ReadOutcome::Failed(error.to_string()),
    }
}

impl Lzma {
    /// Whether the preset asks for the extreme variant.
    pub open spec fn spec_is_extreme(self) -> bool {
        self.preset >= EXTREME_PRESET
    }

    /// The level of the preset, without the extreme bit.
    pub open spec fn spec_level(self) -> u32 {
        if self.preset >= EXTREME_PRESET {
            (self.preset - EXTREME_PRESET) as u32
        } else {
            self.preset
        }
    }

    /// Whether the preset asks for the extreme variant.
    pub fn is_extreme(&self) -> (extreme: bool)
        ensures
            extreme == self.spec_is_extreme(),
    {
        let preset = self.preset;
        assert((preset & 0x8000_0000u32 != 0) <==> preset >= 0x8000_0000u32) by (bit_vector);
        (preset & EXTREME_PRESET) != 0
    }

    /// The level of the preset, without the extreme bit.
    pub fn level(&self) -> (level: u32)
        ensures
            level == self.spec_level(),
    {
        let preset = self.preset;
        assert(preset >= 0x8000_0000u32 ==> preset & !0x8000_0000u32 == preset - 0x8000_0000u32)
            by (bit_vector);
        assert(preset < 0x8000_0000u32 ==> preset & !0x8000_0000u32 == preset) by (bit_vector);
        preset & !EXTREME_PRESET
    }
}

impl DescribeScheme for Lzma {
    open spec fn name_is(&self, name: Seq<char>) -> bool {
        name == "rust-lzma"@
    }

    /// The settings are the level in decimal, after the word that says
    /// whether the preset is an extreme one.
    open spec fn settings_are(&self, settings: Option<Seq<char>>) -> bool {
        settings == Some(
            if self.spec_is_extreme() {
                "extreme "@ + decimal(self.spec_level() as nat)
            } else {
                "preset "@ + decimal(self.spec_level() as nat)
            },
        )
    }

    fn name(&self) -> (out: String) {
        String::from_str("rust-lzma")
    }

    fn settings(&self) -> (out: Option<String>) {
        let mut text = if self.is_extreme() {
            String::from_str("extreme ")
        } else {
            String::from_str("preset ")
        };
        text.append(render_unsigned(self.level() as u64).as_str());
        Some(text)
    }
}

impl Compressor for Lzma {
    /// Compression gives the XZ stream of the data at the preset, or fails
    /// with a failure of the codec. The codec may fail for want of memory,
    /// so nothing says on which inputs it fails.
    open spec fn compress_yields(&self, data: Seq<u8>, out: Result<Seq<u8>, SchemeError>) -> bool {
        match out {
            Ok(bytes) => bytes == xz_stream(data, self.preset),
            Err(error) => is_codec_failure(Some(error), COMPRESSION_LABEL),
        }
    }

    fn compress(&self, data: &[u8]) -> (out: Result<Vec<u8>, SchemeError>) {
        packed_or_failure(COMPRESSION_LABEL, xz_compress(data, self.preset))
    }
}

impl Decompressor for Lzma {
    /// Decompression fills the destination from a decoder over the source
    /// and then probes the decoder for one byte more. It succeeds only where
    /// the destination is filled and the decoded data ends there, and it
    /// reports a destination too short only where the destination is
    /// filled; in both cases the destination holds the decoded bytes. Every
    /// other failure is one of the codec, as it is set up or as it decodes;
    /// it may come from a want of memory, so nothing says on which sources
    /// it comes.
    open spec fn decompress_yields(
        &self,
        src: Seq<u8>,
        before: Seq<u8>,
        after: Seq<u8>,
        failure: Option<SchemeError>,
    ) -> bool {
        &&& settles_where_filled(xz_read(src, Seq::empty(), before), after, failure)
        &&& failure is None ==> xz_read(src, seq![before.len()], probe_buffer()).0 is Ended
        &&& failure matches Some(SchemeError::Codec { .. }) ==> {
            ||| is_codec_failure(failure, DECOMPRESSION_LABEL)
            ||| is_codec_failure(failure, SETUP_LABEL)
        }
    }

    fn decompress_to(&self, src: &[u8], dst: &mut [u8]) -> (out: Result<(), SchemeError>) {
        let mut decoder = match xz_decoder(src) {
            Ok(decoder) => decoder,
            Err(detail) => {
                return Err(SchemeError::Codec { operation: SETUP_LABEL, detail });
            },
        };
        assert(Seq::<nat>::empty().push(dst@.len()) =~= seq![dst@.len()]);
        match fill_verdict(DECOMPRESSION_LABEL, xz_read_exact(&mut decoder, dst)) {
            Ok(()) => {
                let mut probe = [0u8; 1];
                assert(probe@ =~= probe_buffer());
                probe_verdict(xz_read_exact(&mut decoder, &mut probe))
            },
            Err(error) => Err(error),
        }
    }
}

} // verus!
