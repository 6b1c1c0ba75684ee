//! Raw DEFLATE from the encoder of the `deflate` crate. The crate has no
//! decoder, so the scheme is measured for compression alone.

use crate::codec::{codec_view, packed_or_failure, renders};
use crate::error::SchemeError;
use crate::scheme::{Compressor, DescribeScheme};
use std::io::Write;
use vstd::prelude::*;

verus! {

/// The compression modes of the encoder.
#[derive(Clone, Copy, Debug, PartialEq, Eq, Structural)]
pub enum Mode {
    /// Fast, minimal compression.
    Fast,
    /// The default level.
    Default,
    /// A higher level of compression.
    Best,
}

/// Raw DEFLATE in one of the modes of the encoder.
pub struct Deflate {
    pub mode: Mode,
}

/// What compression reports when the codec fails.
pub const COMPRESSION_LABEL: &'static str = "deflate compression failed";

/// What `deflate::write::DeflateEncoder` makes of `data` in `mode`: the
/// stream, or the wording of its error.
pub uninterp spec fn deflate_stream(data: Seq<u8>, mode: Mode) -> Result<Seq<u8>, Seq<char>>;

/// Writes all of `data` into a `deflate::write::DeflateEncoder` over an
/// empty vector and finishes the stream. The result depends on `data` and
/// `mode` alone.
#[verifier::external_body]
fn deflate(data: &[u8], mode: Mode) -> (out: Result<Vec<u8>, String>)
    ensures
        codec_view(out) == deflate_stream(data@, mode),
{
    let mode = match mode {
        Mode::Fast => deflate::Compression::Fast,
        Mode::Default => deflate::Compression::Default,
        Mode::Best => deflate::Compression::Best,
    };
    let mut encoder = deflate::write::DeflateEncoder::new(Vec::new(), mode);
    match encoder.write_all(data) {
        Ok(()) => match encoder.finish() {
            Ok(bytes) => Ok(bytes),
            Err(error) => Err(error.to_string()),
        },
        Err(error) => Err(error.to_string()),
    }
}

impl DescribeScheme for Deflate {
    open spec fn name_is(&self, name: Seq<char>) -> bool {
        name == "deflate"@
    }

    /// The settings are the name of the mode.
    open spec fn settings_are(&self, settings: Option<Seq<char>>) -> bool {
        settings == Some(
            match self.mode {
                Mode::Fast => "Fast"@,
                Mode::Default => "Default"@,
                Mode::Best => "Best"@,
            },
        )
    }

    fn name(&self) -> (out: String) {
        String::from_str("deflate")
    }

    fn settings(&self) -> (out: Option<String>) {
        match self.mode {
            Mode::Fast => Some(String::from_str("Fast")),
            Mode::Default => Some(String::from_str("Default")),
            Mode::Best => Some(String::from_str("Best")),
        }
    }
}

impl Compressor for Deflate {
    /// Compression gives what the codec makes of the data in the mode.
    open spec fn compress_yields(&self, data: Seq<u8>, out: Result<Seq<u8>, SchemeError>) -> bool {
        renders(COMPRESSION_LABEL, deflate_stream(data, self.mode), out)
    }

    fn compress(&self, data: &[u8]) -> (out: Result<Vec<u8>, SchemeError>) {
        packed_or_failure(COMPRESSION_LABEL, deflate(data, self.mode))
    }
}

} // verus!
