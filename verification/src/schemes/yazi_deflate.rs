//! Raw DEFLATE at the levels of `yazi`.

use crate::codec::{codec_view, count_view, judges, packed_or_failure, renders, sized_verdict};
use crate::error::SchemeError;
use crate::scheme::{Compressor, Decompressor, DescribeScheme};
use crate::text::{decimal, render_unsigned};
use vstd::prelude::*;

verus! {

/// The compression levels of the codec.
#[derive(Clone, Copy, Debug, PartialEq, Eq, Structural)]
pub enum Level {
    /// No compression: stored blocks.
    NoCompression,
    /// Fast compression.
    BestSpeed,
    /// A compromise between speed and size.
    Default,
    /// Slower compression for a smaller size.
    BestSize,
    /// A level by its number. The codec takes ten for every higher number.
    Specific(u8),
}

/// Raw DEFLATE at a level.
pub struct Yazi {
    pub level: Level,
}

/// What compression reports when the codec fails.
pub const COMPRESSION_LABEL: &'static str = "yazi compression failed";

/// What decompression reports when the codec fails.
pub const DECOMPRESSION_LABEL: &'static str = "yazi decompression error";

/// What `yazi::compress` makes of `data` as raw DEFLATE at `level`: the
/// stream, or the wording of its error.
pub uninterp spec fn yazi_stream(data: Seq<u8>, level: Level) -> Result<Seq<u8>, Seq<char>>;

/// What a fresh `yazi::Decoder` streaming into a destination that holds
/// `before` makes of `src`: the number of bytes that it reports or the
/// wording of its error, and what it leaves in the destination.
pub uninterp spec fn yazi_decoding(src: Seq<u8>, before: Seq<u8>) -> (
    Result<nat, Seq<char>>,
    Seq<u8>,
);

/// `yazi::compress` in the raw format: the whole of `data` as one DEFLATE
/// stream at `level`. The result depends on `data` and `level` alone.
#[verifier::external_body]
fn yazi_compress(data: &[u8], level: Level) -> (out: Result<Vec<u8>, String>)
    ensures
        codec_view(out) == yazi_stream(data@, level),
{
    let level = match level {
        Level::NoCompression => yazi::CompressionLevel::None,
        Level::BestSpeed => yazi::CompressionLevel::BestSpeed,
        Level::Default => yazi::CompressionLevel::Default,
        Level::BestSize => yazi::CompressionLevel::BestSize,
        Level::Specific(number) => yazi::CompressionLevel::Specific(number),
    };
    match yazi::compress(data, yazi::Format::Raw, level) {
        Ok(bytes) => Ok(bytes),
        Err(error) => Err(format!("{:?}", error)),
    }
}

/// Writes all of `src` into the stream of a fresh `yazi::Decoder` over `dst`
/// and finishes the stream, which reports how many bytes were decoded. The
/// outcome and the contents of `dst` depend on `src` and on what `dst` held
/// alone.
#[verifier::external_body]
fn yazi_decompress(src: &[u8], dst: &mut [u8]) -> (out: Result<usize, String>)
    ensures
        final(dst)@.len() == old(dst)@.len(),
        (count_view(out), final(dst)@) == yazi_decoding(src@, old(dst)@),
{
    let mut decoder = yazi::Decoder::new();
    let mut stream = decoder.stream_into_buf(dst);
    match stream.write(src) {
        Ok(()) => match stream.finish() {
            Ok((written, _)) => match usize::try_from(written) {
                Ok(written) => Ok(written),
                Err(error) => Err(error.to_string()),
            },
            Err(error) => Err(format!("{:?}", error)),
        },
        Err(error) => Err(format!("{:?}", error)),
    }
}

/// How a level reads in the settings.
pub open spec fn level_text(level: Level) -> Seq<char> {
    match level {
        Level::NoCompression => "None"@,
        Level::BestSpeed => "BestSpeed"@,
        Level::Default => "Default"@,
        Level::BestSize => "BestSize"@,
        Level::Specific(number) => "Specific("@ + decimal(number as nat) + ")"@,
    }
}

impl DescribeScheme for Yazi {
    open spec fn name_is(&self, name: Seq<char>) -> bool {
        name == "yazi"@
    }

    open spec fn settings_are(&self, settings: Option<Seq<char>>) -> bool {
        settings == Some(level_text(self.level))
    }

    fn name(&self) -> (out: String) {
        String::from_str("yazi")
    }

    fn settings(&self) -> (out: Option<String>) {
        match self.level {
            Level::NoCompression => Some(String::from_str("None")),
            Level::BestSpeed => Some(String::from_str("BestSpeed")),
            Level::Default => Some(String::from_str("Default")),
            Level::BestSize => Some(String::from_str("BestSize")),
            Level::Specific(number) => {
                let mut text = String::from_str("Specific(");
                text.append(render_unsigned(number as u64).as_str());
                text.append(")");
                Some(text)
            },
        }
    }
}

impl Compressor for Yazi {
    /// Compression gives what the codec makes of the data at the level.
    open spec fn compress_yields(&self, data: Seq<u8>, out: Result<Seq<u8>, SchemeError>) -> bool {
        renders(COMPRESSION_LABEL, yazi_stream(data, self.level), out)
    }

    fn compress(&self, data: &[u8]) -> (out: Result<Vec<u8>, SchemeError>) {
        packed_or_failure(COMPRESSION_LABEL, yazi_compress(data, self.level))
    }
}

impl Decompressor for Yazi {
    /// Decompression is judged by the number of bytes that the codec
    /// reports.
    open spec fn decompress_yields(
        &self,
        src: Seq<u8>,
        before: Seq<u8>,
        after: Seq<u8>,
        failure: Option<SchemeError>,
    ) -> bool {
        &&& after == yazi_decoding(src, before).1
        &&& judges(DECOMPRESSION_LABEL, before.len(), yazi_decoding(src, before).0, failure)
    }

    fn decompress_to(&self, src: &[u8], dst: &mut [u8]) -> (out: Result<(), SchemeError>) {
        let outcome = yazi_decompress(src, dst);
        sized_verdict(DECOMPRESSION_LABEL, dst.len(), outcome)
    }
}

} // verus!
