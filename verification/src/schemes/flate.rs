//! DEFLATE in its three wrappings (raw, zlib, gzip), by way of `flate2`.

use crate::codec::{
    codec_view, fill_verdict, packed_or_failure, probe_buffer, probe_verdict, renders, settles,
    ReadOutcome, ReadView,
};
use crate::error::SchemeError;
use crate::scheme::{Compressor, Decompressor, DescribeScheme};
use crate::text::{decimal, render_unsigned};
use std::io::{Read, Write};
use vstd::prelude::*;

verus! {

/// The wrapping of a DEFLATE stream.
#[derive(Clone, Copy, Debug, PartialEq, Eq, Structural)]
pub enum Format {
    /// The raw stream.
    Deflate,
    /// The stream with the zlib header and checksum.
    Zlib,
    /// The stream with the gzip header and trailer.
    GZip,
}

/// The highest compression level that the codec takes.
pub const MAX_LEVEL: u32 = 10;

/// DEFLATE with a wrapping and a compression level of at most [`MAX_LEVEL`].
pub struct Deflate {
    format: Format,
    level: u32,
}

/// What compression to a raw stream reports when the codec fails.
pub const DEFLATE_LABEL: &'static str = "deflate compression failed";

/// What compression to a zlib stream reports when the codec fails.
pub const ZLIB_LABEL: &'static str = "zlib compression failed";

/// What compression to a gzip stream reports when the codec fails.
pub const GZIP_LABEL: &'static str = "gzip compression failed";

/// What compression reports when the codec fails, by wrapping.
pub open spec fn compression_label(format: Format) -> &'static str {
    match format {
        Format::Deflate => DEFLATE_LABEL,
        Format::Zlib => ZLIB_LABEL,
        Format::GZip => GZIP_LABEL,
    }
}

/// What decompression reports when the codec fails.
pub const DECOMPRESSION_LABEL: &'static str = "deflate decompression failed";

/// What the settings begin with, by wrapping.
pub open spec fn settings_prefix(format: Format) -> Seq<char> {
    match format {
        Format::Deflate => "deflate / level "@,
        Format::Zlib => "zlib / level "@,
        Format::GZip => "gzip / level "@,
    }
}

/// What `flate2::write::DeflateEncoder` makes of `data` at `level`: the raw
/// DEFLATE stream, or the wording of its error.
pub uninterp spec fn deflate_stream(data: Seq<u8>, level: u32) -> Result<Seq<u8>, Seq<char>>;

/// What `flate2::write::ZlibEncoder` makes of `data` at `level`: the zlib
/// stream, or the wording of its error.
pub uninterp spec fn zlib_stream(data: Seq<u8>, level: u32) -> Result<Seq<u8>, Seq<char>>;

/// What `flate2::write::GzEncoder` makes of `data` at `level`: the gzip
/// stream, or the wording of its error.
pub uninterp spec fn gzip_stream(data: Seq<u8>, level: u32) -> Result<Seq<u8>, Seq<char>>;

/// What the codec makes of `data` in the given wrapping at `level`.
pub open spec fn stream(format: Format, data: Seq<u8>, level: u32) -> Result<Seq<u8>, Seq<char>> {
    match format {
        Format::Deflate => deflate_stream(data, level),
        Format::Zlib => zlib_stream(data, level),
        Format::GZip => gzip_stream(data, level),
    }
}

/// Writes all of `data` into a `flate2::write::DeflateEncoder` over an empty
/// vector and finishes the stream. The result depends on `data` and `level`
/// alone. Levels above ten are left out: the codec does not take them.
#[verifier::external_body]
fn deflate(data: &[u8], level: u32) -> (out: Result<Vec<u8>, String>)
    requires
        level <= MAX_LEVEL,
    ensures
        codec_view(out) == deflate_stream(data@, level),
{
    let level = flate2::Compression::new(level);
    let mut encoder = flate2::write::DeflateEncoder::new(Vec::new(), level);
    match encoder.write_all(data) {
        Ok(()) => match encoder.finish() {
            Ok(bytes) => Ok(bytes),
            Err(error) => Err(error.to_string()),
        },
        Err(error) => Err(error.to_string()),
    }
}

/// Writes all of `data` into a `flate2::write::ZlibEncoder` over an empty
/// vector and finishes the stream. The result depends on `data` and `level`
/// alone. Levels above ten are left out: the codec does not take them.
#[verifier::external_body]
fn zlib(data: &[u8], level: u32) -> (out: Result<Vec<u8>, String>)
    requires
        level <= MAX_LEVEL,
    ensures
        codec_view(out) == zlib_stream(data@, level),
{
    let level = flate2::Compression::new(level);
    let mut encoder = flate2::write::ZlibEncoder::new(Vec::new(), level);
    match encoder.write_all(data) {
        Ok(()) => match encoder.finish() {
            Ok(bytes) => Ok(bytes),
            Err(error) => Err(error.to_string()),
        },
        Err(error) => Err(error.to_string()),
    }
}

/// Writes all of `data` into a `flate2::write::GzEncoder` over an empty
/// vector and finishes the stream. The result depends on `data` and `level`
/// alone: the header that the encoder writes holds no time and no name.
/// Levels above ten are left out: the codec does not take them.
#[verifier::external_body]
fn gzip(data: &[u8], level: u32) -> (out: Result<Vec<u8>, String>)
    requires
        level <= MAX_LEVEL,
    ensures
        codec_view(out) == gzip_stream(data@, level),
{
    let level = flate2::Compression::new(level);
    let mut encoder = flate2::write::GzEncoder::new(Vec::new(), level);
    match encoder.write_all(data) {
        Ok(()) => match encoder.finish() {
            Ok(bytes) => Ok(bytes),
            Err(error) => Err(error.to_string()),
        },
        Err(error) => Err(error.to_string()),
    }
}

/// `flate2::read::DeflateDecoder`, a reader of the bytes that a raw DEFLATE stream
/// decodes to. What is known of it here is what it was made over and which
/// reads were made of it.
#[verifier::external_type_specification]
#[verifier::external_body]
#[verifier::reject_recursive_types(R)]
pub struct ExDeflateDecoder<R>(flate2::read::DeflateDecoder<R>);

/// The bytes that a raw DEFLATE decoder was made over.
pub uninterp spec fn deflate_decoder_source(decoder: flate2::read::DeflateDecoder<&[u8]>) -> Seq<
    u8,
>;

/// The lengths of the buffers that a raw DEFLATE decoder was asked to fill so
/// far, in the order of the reads.
pub uninterp spec fn deflate_decoder_reads(decoder: flate2::read::DeflateDecoder<&[u8]>) -> Seq<
    nat,
>;

/// What `Read::read_exact` on a `flate2::read::DeflateDecoder` over `src` comes
/// to, and what it leaves in a buffer that held `before`, after earlier
/// reads into buffers of the lengths `reads`.
pub uninterp spec fn deflate_read(src: Seq<u8>, reads: Seq<nat>, before: Seq<u8>) -> (
    ReadView,
    Seq<u8>,
);

/// `flate2::read::ZlibDecoder`, a reader of the bytes that a zlib stream
/// decodes to. What is known of it here is what it was made over and which
/// reads were made of it.
#[verifier::external_type_specification]
#[verifier::external_body]
#[verifier::reject_recursive_types(R)]
pub struct ExZlibDecoder<R>(flate2::read::ZlibDecoder<R>);

/// The bytes that a zlib decoder was made over.
pub uninterp spec fn zlib_decoder_source(decoder: flate2::read::ZlibDecoder<&[u8]>) -> Seq<u8>;

/// The lengths of the buffers that a zlib decoder was asked to fill so
/// far, in the order of the reads.
pub uninterp spec fn zlib_decoder_reads(decoder: flate2::read::ZlibDecoder<&[u8]>) -> Seq<nat>;

/// What `Read::read_exact` on a `flate2::read::ZlibDecoder` over `src` comes
/// to, and what it leaves in a buffer that held `before`, after earlier
/// reads into buffers of the lengths `reads`.
pub uninterp spec fn zlib_read(src: Seq<u8>, reads: Seq<nat>, before: Seq<u8>) -> (
    ReadView,
    Seq<u8>,
);

/// `flate2::read::GzDecoder`, a reader of the bytes that a gzip stream
/// decodes to. What is known of it here is what it was made over and which
/// reads were made of it.
#[verifier::external_type_specification]
#[verifier::external_body]
#[verifier::reject_recursive_types(R)]
pub struct ExGzDecoder<R>(flate2::read::GzDecoder<R>);

/// The bytes that a gzip decoder was made over.
pub uninterp spec fn gzip_decoder_source(decoder: flate2::read::GzDecoder<&[u8]>) -> Seq<u8>;

/// The lengths of the buffers that a gzip decoder was asked to fill so
/// far, in the order of the reads.
pub uninterp spec fn gzip_decoder_reads(decoder: flate2::read::GzDecoder<&[u8]>) -> Seq<nat>;

/// What `Read::read_exact` on a `flate2::read::GzDecoder` over `src` comes
/// to, and what it leaves in a buffer that held `before`, after earlier
/// reads into buffers of the lengths `reads`.
pub uninterp spec fn gzip_read(src: Seq<u8>, reads: Seq<nat>, before: Seq<u8>) -> (
    ReadView,
    Seq<u8>,
);

/// `flate2::read::DeflateDecoder::new` over the bytes of `src`: a decoder of
/// which no read was made yet.
#[verifier::external_body]
fn deflate_decoder<'a>(src: &'a [u8]) -> (decoder: flate2::read::DeflateDecoder<&'a [u8]>)
    ensures
        deflate_decoder_source(decoder) == src@,
        deflate_decoder_reads(decoder) == Seq::<nat>::empty(),
{
    flate2::read::DeflateDecoder::new(src)
}

/// `flate2::read::ZlibDecoder::new` over the bytes of `src`: a decoder of
/// which no read was made yet.
#[verifier::external_body]
fn zlib_decoder<'a>(src: &'a [u8]) -> (decoder: flate2::read::ZlibDecoder<&'a [u8]>)
    ensures
        zlib_decoder_source(decoder) == src@,
        zlib_decoder_reads(decoder) == Seq::<nat>::empty(),
{
    flate2::read::ZlibDecoder::new(src)
}

/// `flate2::read::GzDecoder::new` over the bytes of `src`: a decoder of
/// which no read was made yet.
#[verifier::external_body]
fn gzip_decoder<'a>(src: &'a [u8]) -> (decoder: flate2::read::GzDecoder<&'a [u8]>)
    ensures
        gzip_decoder_source(decoder) == src@,
        gzip_decoder_reads(decoder) == Seq::<nat>::empty(),
{
    flate2::read::GzDecoder::new(src)
}

/// `Read::read_exact` on a raw DEFLATE decoder: tries to fill `dst` with the
/// next decoded bytes. An error of the kind `UnexpectedEof` is told apart
/// from every other error. The decoder works on nothing but its source, so
/// what the read comes to and leaves in `dst` depends on the source, on the
/// lengths of the earlier reads and on what `dst` held alone.
#[verifier::external_body]
fn deflate_read_exact(decoder: &mut flate2::read::DeflateDecoder<&[u8]>, dst: &mut [u8]) -> (out:
    ReadOutcome)
    ensures
        final(dst)@.len() == old(dst)@.len(),
        deflate_decoder_source(*final(decoder)) == deflate_decoder_source(*old(decoder)),
        deflate_decoder_reads(*final(decoder)) == deflate_decoder_reads(*old(decoder)).push(
            old(dst)@.len(),
        ),
        (out@, final(dst)@) == deflate_read(
            deflate_decoder_source(*old(decoder)),
            deflate_decoder_reads(*old(decoder)),
            old(dst)@,
        ),
{
    match decoder.read_exact(dst) {
        Ok(()) => ReadOutcome::Filled,
        Err(error) if error.kind() == std::io::ErrorKind::UnexpectedEof => {
            ReadOutcome::Ended(error.to_string())
        },
        Err(error) => ReadOutcome::Failed(error.to_string()),
    }
}

/// `Read::read_exact` on a zlib decoder: tries to fill `dst` with the
/// next decoded bytes. An error of the kind `UnexpectedEof` is told apart
/// from every other error. The decoder works on nothing but its source, so
/// what the read comes to and leaves in `dst` depends on the source, on the
/// lengths of the earlier reads and on what `dst` held alone.
#[verifier::external_body]
fn zlib_read_exact(decoder: &mut flate2::read::ZlibDecoder<&[u8]>, dst: &mut [u8]) -> (out:
    ReadOutcome)
    ensures
        final(dst)@.len() == old(dst)@.len(),
        zlib_decoder_source(*final(decoder)) == zlib_decoder_source(*old(decoder)),
        zlib_decoder_reads(*final(decoder)) == zlib_decoder_reads(*old(decoder)).push(
            old(dst)@.len(),
        ),
        (out@, final(dst)@) == zlib_read(
            zlib_decoder_source(*old(decoder)),
            zlib_decoder_reads(*old(decoder)),
            old(dst)@,
        ),
{
    match decoder.read_exact(dst) {
        Ok(()) => ReadOutcome::Filled,
        Err(error) if error.kind() == std::io::ErrorKind::UnexpectedEof => {
            ReadOutcome::Ended(error.to_string())
        },
        Err(error) => ReadOutcome::Failed(error.to_string()),
    }
}

/// `Read::read_exact` on a gzip decoder: tries to fill `dst` with the
/// next decoded bytes. An error of the kind `UnexpectedEof` is told apart
/// from every other error. The decoder works on nothing but its source, so
/// what the read comes to and leaves in `dst` depends on the source, on the
/// lengths of the earlier reads and on what `dst` held alone.
#[verifier::external_body]
fn gzip_read_exact(decoder: &mut flate2::read::GzDecoder<&[u8]>, dst: &mut [u8]) -> (out:
    ReadOutcome)
    ensures
        final(dst)@.len() == old(dst)@.len(),
        gzip_decoder_source(*final(decoder)) == gzip_decoder_source(*old(decoder)),
        gzip_decoder_reads(*final(decoder)) == gzip_decoder_reads(*old(decoder)).push(
            old(dst)@.len(),
        ),
        (out@, final(dst)@) == gzip_read(
            gzip_decoder_source(*old(decoder)),
            gzip_decoder_reads(*old(decoder)),
            old(dst)@,
        ),
{
    match decoder.read_exact(dst) {
        Ok(()) => ReadOutcome::Filled,
        Err(error) if error.kind() == std::io::ErrorKind::UnexpectedEof => {
            ReadOutcome::Ended(error.to_string())
        },
        Err(error) => ReadOutcome::Failed(error.to_string()),
    }
}

/// What a read of a decoder for the given wrapping over `src` comes to, and
/// what it leaves in a buffer that held `before`, after earlier reads into
/// buffers of the lengths `reads`.
pub open spec fn reading(format: Format, src: Seq<u8>, reads: Seq<nat>, before: Seq<u8>) -> (
    ReadView,
    Seq<u8>,
) {
    match format {
        Format::Deflate => deflate_read(src, reads, before),
        Format::Zlib => zlib_read(src, reads, before),
        Format::GZip => gzip_read(src, reads, before),
    }
}

impl Deflate {
    #[verifier::type_invariant]
    spec fn level_in_range(self) -> bool {
        self.level <= MAX_LEVEL
    }

    /// The wrapping.
    pub closed spec fn spec_format(self) -> Format {
        self.format
    }

    /// The compression level.
    pub closed spec fn spec_level(self) -> u32 {
        self.level
    }

    /// DEFLATE in the given wrapping at the given level, where the codec
    /// takes the level.
    pub fn new(format: Format, level: u32) -> (out: Option<Deflate>)
        ensures
            out is Some <==> level <= MAX_LEVEL,
            out matches Some(scheme) ==> scheme.spec_format() == format && scheme.spec_level()
                == level,
    {
        if level <= MAX_LEVEL {
            Some(Deflate { format, level })
        } else {
            None
        }
    }

    /// The wrapping.
    pub fn format(&self) -> (format: Format)
        ensures
            format == self.spec_format(),
    {
        self.format
    }

    /// The compression level.
    pub fn level(&self) -> (level: u32)
        ensures
            level == self.spec_level(),
            level <= MAX_LEVEL,
    {
        proof {
            use_type_invariant(self);
        }
        self.level
    }
}

impl DescribeScheme for Deflate {
    open spec fn name_is(&self, name: Seq<char>) -> bool {
        name == "flate2 (rust)"@
    }

    /// The settings are the wrapping and the level in decimal.
    open spec fn settings_are(&self, settings: Option<Seq<char>>) -> bool {
        settings == Some(settings_prefix(self.spec_format()) + decimal(self.spec_level() as nat))
    }

    fn name(&self) -> (out: String) {
        String::from_str("flate2 (rust)")
    }

    fn settings(&self) -> (out: Option<String>) {
        let mut text = match self.format() {
            Format::Deflate => String::from_str("deflate / level "),
            Format::Zlib => String::from_str("zlib / level "),
            Format::GZip => String::from_str("gzip / level "),
        };
        text.append(render_unsigned(self.level() as u64).as_str());
        Some(text)
    }
}

impl Compressor for Deflate {
    /// Compression gives what the codec makes of the data in the scheme's
    /// wrapping at its level.
    open spec fn compress_yields(&self, data: Seq<u8>, out: Result<Seq<u8>, SchemeError>) -> bool {
        renders(
            compression_label(self.spec_format()),
            stream(self.spec_format(), data, self.spec_level()),
            out,
        )
    }

    fn compress(&self, data: &[u8]) -> (out: Result<Vec<u8>, SchemeError>) {
        let level = self.level();
        match self.format() {
            Format::Deflate => packed_or_failure(DEFLATE_LABEL, deflate(data, level)),
            Format::Zlib => packed_or_failure(ZLIB_LABEL, zlib(data, level)),
            Format::GZip => packed_or_failure(GZIP_LABEL, gzip(data, level)),
        }
    }
}

impl Decompressor for Deflate {
    /// Decompression fills the destination from a decoder over the source
    /// and then probes the decoder for one byte more. It succeeds exactly
    /// where the destination is filled and the decoded data ends there; it
    /// reports a destination too short where there is more, or where the
    /// probe fails, and a failure of the codec where the destination is not
    /// filled. The destination is left as the first read left it.
    open spec fn decompress_yields(
        &self,
        src: Seq<u8>,
        before: Seq<u8>,
        after: Seq<u8>,
        failure: Option<SchemeError>,
    ) -> bool {
        settles(
            DECOMPRESSION_LABEL,
            reading(self.spec_format(), src, Seq::empty(), before),
            reading(self.spec_format(), src, seq![before.len()], probe_buffer()).0,
            after,
            failure,
        )
    }

    fn decompress_to(&self, src: &[u8], dst: &mut [u8]) -> (out: Result<(), SchemeError>) {
        let mut probe = [0u8; 1];
        assert(probe@ =~= probe_buffer());
        assert(Seq::<nat>::empty().push(dst@.len()) =~= seq![dst@.len()]);
        match self.format() {
            Format::Deflate => {
                let mut decoder = deflate_decoder(src);
                match fill_verdict(DECOMPRESSION_LABEL, deflate_read_exact(&mut decoder, dst)) {
                    Ok(()) => probe_verdict(deflate_read_exact(&mut decoder, &mut probe)),
                    Err(error) => Err(error),
                }
            },
            Format::Zlib => {
                let mut decoder = zlib_decoder(src);
                match fill_verdict(DECOMPRESSION_LABEL, zlib_read_exact(&mut decoder, dst)) {
                    Ok(()) => probe_verdict(zlib_read_exact(&mut decoder, &mut probe)),
                    Err(error) => Err(error),
                }
            },
            Format::GZip => {
                let mut decoder = gzip_decoder(src);
                match fill_verdict(DECOMPRESSION_LABEL, gzip_read_exact(&mut decoder, dst)) {
                    Ok(()) => probe_verdict(gzip_read_exact(&mut decoder, &mut probe)),
                    Err(error) => Err(error),
                }
            },
        }
    }
}

} // verus!
