//! LZSS with parameters chosen at run time or fixed at compile time, by way
//! of `lzss`.

use crate::codec::{codec_view, done_or_failure, packed_or_failure, relays, renders};
use crate::error::SchemeError;
use crate::scheme::{Compressor, Decompressor, DescribeScheme};
use crate::text::{decimal, optional_text, render_unsigned};
use vstd::prelude::*;

verus! {

/// Whether the codec takes an offset of `ei` bits with a length of `ej`
/// bits: the length has at least one bit and fewer than the offset, and the
/// two together have from eight to twenty-four bits.
pub open spec fn valid_parameters(ei: usize, ej: usize) -> bool {
    &&& 0 < ej < ei
    &&& 8 <= ei + ej <= 24
}

/// LZSS with an offset of `ei` bits, a length of `ej` bits and the byte `c`
/// to fill the window with at the start. The parameters are ones that the
/// codec takes.
pub struct LzssDyn {
    ei: usize,
    ej: usize,
    c: u8,
}

/// LZSS with its parameters fixed at compile time: an offset of `EI` bits, a
/// length of `EJ` bits, the byte `C` to fill the window with at the start, a
/// window of `N` bytes and a buffer of `N2`. The codec refuses at compile
/// time parameters that it does not take, a window other than `2^EI` bytes
/// and a buffer other than twice the window.
pub struct LzssStatic<
    const EI: usize,
    const EJ: usize,
    const C: u8,
    const N: usize,
    const N2: usize,
> {}

/// What compression reports when the codec fails.
pub const COMPRESSION_LABEL: &'static str = "lzss compression error";

/// What decompression reports when the codec fails.
pub const DECOMPRESSION_LABEL: &'static str = "lzss decompression error";

/// What `lzss::LzssDyn::compress` makes of `data` with the given parameters:
/// the stream, or the wording of its error.
pub uninterp spec fn dyn_stream(data: Seq<u8>, ei: usize, ej: usize, c: u8) -> Result<
    Seq<u8>,
    Seq<char>,
>;

/// What `lzss::LzssDyn::decompress` with the given parameters makes of `src`
/// and a destination that holds `before` and has to be filled exactly: the
/// wording of its error if it fails, and what it leaves in the destination.
pub uninterp spec fn dyn_decoding(
    src: Seq<u8>,
    before: Seq<u8>,
    ei: usize,
    ej: usize,
    c: u8,
) -> (Option<Seq<char>>, Seq<u8>);

/// What `lzss::Lzss::compress_stack` makes of `data` with the given
/// parameters: the stream, or the wording of its error.
pub uninterp spec fn static_stream(data: Seq<u8>, ei: usize, ej: usize, c: u8) -> Result<
    Seq<u8>,
    Seq<char>,
>;

/// What `lzss::Lzss::decompress_stack` with the given parameters makes of
/// `src` and a destination that holds `before` and has to be filled
/// exactly: the wording of its error if it fails, and what it leaves in the
/// destination.
pub uninterp spec fn static_decoding(
    src: Seq<u8>,
    before: Seq<u8>,
    ei: usize,
    ej: usize,
    c: u8,
) -> (Option<Seq<char>>, Seq<u8>);

/// `lzss::LzssDyn::compress` from a reader over `data` into a vector, with a
/// codec made by `lzss::LzssDyn::new`. The result depends on `data` and the
/// parameters alone. Parameters that the codec does not take are left out.
#[verifier::external_body]
fn dyn_compress(data: &[u8], ei: usize, ej: usize, c: u8) -> (out: Result<Vec<u8>, String>)
    requires
        valid_parameters(ei, ej),
    ensures
        codec_view(out) == dyn_stream(data@, ei, ej, c),
{
    let codec = match lzss::LzssDyn::new(ei, ej, c) {
        Ok(codec) => codec,
        Err(error) => return Err(error.to_string()),
    };
    match codec.compress(lzss::SliceReader::new(data), lzss::VecWriter::with_capacity(0)) {
        Ok(bytes) => Ok(bytes),
        Err(error) => Err(error.to_string()),
    }
}

/// `lzss::LzssDyn::decompress` from a reader over `src` into a writer that
/// has to fill `dst` exactly, with a codec made by `lzss::LzssDyn::new`. The
/// outcome and the contents of `dst` depend on `src`, on what `dst` held and
/// on the parameters alone. Parameters that the codec does not take are left
/// out.
#[verifier::external_body]
fn dyn_decompress(src: &[u8], dst: &mut [u8], ei: usize, ej: usize, c: u8) -> (out: Option<String>)
    requires
        valid_parameters(ei, ej),
    ensures
        final(dst)@.len() == old(dst)@.len(),
        (optional_text(out), final(dst)@) == dyn_decoding(src@, old(dst)@, ei, ej, c),
{
    let codec = match lzss::LzssDyn::new(ei, ej, c) {
        Ok(codec) => codec,
        Err(error) => return Some(error.to_string()),
    };
    match codec.decompress(lzss::SliceReader::new(src), lzss::SliceWriterExact::new(dst)) {
        Ok(()) => None,
        Err(error) => Some(error.to_string()),
    }
}

/// `lzss::Lzss::compress_stack` from a reader over `data` into a vector. The
/// result depends on `data` and the parameters alone.
#[verifier::external_body]
fn static_compress<
    const EI: usize,
    const EJ: usize,
    const C: u8,
    const N: usize,
    const N2: usize,
>(
    data: &[u8],
) -> (out: Result<Vec<u8>, String>)
    ensures
        codec_view(out) == static_stream(data@, EI, EJ, C),
{
    match lzss::Lzss::<EI, EJ, C, N, N2>::compress_stack(
        lzss::SliceReader::new(data),
        lzss::VecWriter::with_capacity(0),
    ) {
        Ok(bytes) => Ok(bytes),
        Err(error) => Err(error.to_string()),
    }
}

/// `lzss::Lzss::decompress_stack` from a reader over `src` into a writer
/// that has to fill `dst` exactly. The outcome and the contents of `dst`
/// depend on `src`, on what `dst` held and on the parameters alone.
#[verifier::external_body]
fn static_decompress<
    const EI: usize,
    const EJ: usize,
    const C: u8,
    const N: usize,
    const N2: usize,
>(
    src: &[u8],
    dst: &mut [u8],
) -> (out: Option<String>)
    ensures
        final(dst)@.len() == old(dst)@.len(),
        (optional_text(out), final(dst)@) == static_decoding(src@, old(dst)@, EI, EJ, C),
{
    match lzss::Lzss::<EI, EJ, C, N, N2>::decompress_stack(
        lzss::SliceReader::new(src),
        lzss::SliceWriterExact::new(dst),
    ) {
        Ok(()) => None,
        Err(error) => Some(error.to_string()),
    }
}

/// The settings of an LZSS scheme: the two bit counts in decimal.
pub open spec fn settings_text(ei: usize, ej: usize) -> Seq<char> {
    "ei="@ + decimal(ei as nat) + "/ej="@ + decimal(ej as nat)
}

/// Renders the settings of an LZSS scheme.
fn render_settings(ei: usize, ej: usize) -> (text: String)
    ensures
        text@ == settings_text(ei, ej),
{
    let mut text = String::from_str("ei=");
    text.append(render_unsigned(ei as u64).as_str());
    text.append("/ej=");
    text.append(render_unsigned(ej as u64).as_str());
    text
}

impl LzssDyn {
    #[verifier::type_invariant]
    spec fn parameters_valid(self) -> bool {
        valid_parameters(self.ei, self.ej)
    }

    /// The number of bits of an offset.
    pub closed spec fn spec_ei(self) -> usize {
        self.ei
    }

    /// The number of bits of a length.
    pub closed spec fn spec_ej(self) -> usize {
        self.ej
    }

    /// The byte that the window is filled with at the start.
    pub closed spec fn spec_c(self) -> u8 {
        self.c
    }

    /// LZSS with the given parameters, where the codec takes them.
    pub fn new(ei: usize, ej: usize, c: u8) -> (out: Option<LzssDyn>)
        ensures
            out is Some <==> valid_parameters(ei, ej),
            out matches Some(scheme) ==> scheme.spec_ei() == ei && scheme.spec_ej() == ej
                && scheme.spec_c() == c,
    {
        if 0 < ej && ej < ei && ei <= 24 && 8 <= ei + ej && ei + ej <= 24 {
            Some(LzssDyn { ei, ej, c })
        } else {
            None
        }
    }

    /// The number of bits of an offset.
    pub fn ei(&self) -> (ei: usize)
        ensures
            ei == self.spec_ei(),
            valid_parameters(ei, self.spec_ej()),
    {
        proof {
            use_type_invariant(self);
        }
        self.ei
    }

    /// The number of bits of a length.
    pub fn ej(&self) -> (ej: usize)
        ensures
            ej == self.spec_ej(),
    {
        self.ej
    }

    /// The byte that the window is filled with at the start.
    pub fn c(&self) -> (c: u8)
        ensures
            c == self.spec_c(),
    {
        self.c
    }
}

impl DescribeScheme for LzssDyn {
    open spec fn name_is(&self, name: Seq<char>) -> bool {
        name == "lzss (dyn)"@
    }

    open spec fn settings_are(&self, settings: Option<Seq<char>>) -> bool {
        settings == Some(settings_text(self.spec_ei(), self.spec_ej()))
    }

    fn name(&self) -> (out: String) {
        String::from_str("lzss (dyn)")
    }

    fn settings(&self) -> (out: Option<String>) {
        Some(render_settings(self.ei(), self.ej()))
    }
}

impl Compressor for LzssDyn {
    /// Compression gives what the codec makes of the data with the scheme's
    /// parameters.
    open spec fn compress_yields(&self, data: Seq<u8>, out: Result<Seq<u8>, SchemeError>) -> bool {
        renders(
            COMPRESSION_LABEL,
            dyn_stream(data, self.spec_ei(), self.spec_ej(), self.spec_c()),
            out,
        )
    }

    fn compress(&self, data: &[u8]) -> (out: Result<Vec<u8>, SchemeError>) {
        packed_or_failure(COMPRESSION_LABEL, dyn_compress(data, self.ei(), self.ej(), self.c()))
    }
}

impl Decompressor for LzssDyn {
    /// Decompression succeeds where the codec fills the destination
    /// exactly, and fails with the codec's failure otherwise.
    open spec fn decompress_yields(
        &self,
        src: Seq<u8>,
        before: Seq<u8>,
        after: Seq<u8>,
        failure: Option<SchemeError>,
    ) -> bool {
        &&& after == dyn_decoding(src, before, self.spec_ei(), self.spec_ej(), self.spec_c()).1
        &&& relays(
            DECOMPRESSION_LABEL,
            dyn_decoding(src, before, self.spec_ei(), self.spec_ej(), self.spec_c()).0,
            failure,
        )
    }

    fn decompress_to(&self, src: &[u8], dst: &mut [u8]) -> (out: Result<(), SchemeError>) {
        done_or_failure(
            DECOMPRESSION_LABEL,
            dyn_decompress(src, dst, self.ei(), self.ej(), self.c()),
        )
    }
}

impl<
    const EI: usize,
    const EJ: usize,
    const C: u8,
    const N: usize,
    const N2: usize,
> DescribeScheme for LzssStatic<EI, EJ, C, N, N2> {
    open spec fn name_is(&self, name: Seq<char>) -> bool {
        name == "lzss (static)"@
    }

    open spec fn settings_are(&self, settings: Option<Seq<char>>) -> bool {
        settings == Some(settings_text(EI, EJ))
    }

    fn name(&self) -> (out: String) {
        String::from_str("lzss (static)")
    }

    fn settings(&self) -> (out: Option<String>) {
        Some(render_settings(EI, EJ))
    }
}

impl<
    const EI: usize,
    const EJ: usize,
    const C: u8,
    const N: usize,
    const N2: usize,
> Compressor for LzssStatic<EI, EJ, C, N, N2> {
    /// Compression gives what the codec makes of the data with the scheme's
    /// parameters.
    open spec fn compress_yields(&self, data: Seq<u8>, out: Result<Seq<u8>, SchemeError>) -> bool {
        renders(COMPRESSION_LABEL, static_stream(data, EI, EJ, C), out)
    }

    fn compress(&self, data: &[u8]) -> (out: Result<Vec<u8>, SchemeError>) {
        packed_or_failure(COMPRESSION_LABEL, static_compress::<EI, EJ, C, N, N2>(data))
    }
}

impl<
    const EI: usize,
    const EJ: usize,
    const C: u8,
    const N: usize,
    const N2: usize,
> Decompressor for LzssStatic<EI, EJ, C, N, N2> {
    /// Decompression succeeds where the codec fills the destination
    /// exactly, and fails with the codec's failure otherwise.
    open spec fn decompress_yields(
        &self,
        src: Seq<u8>,
        before: Seq<u8>,
        after: Seq<u8>,
        failure: Option<SchemeError>,
    ) -> bool {
        &&& after == static_decoding(src, before, EI, EJ, C).1
        &&& relays(DECOMPRESSION_LABEL, static_decoding(src, before, EI, EJ, C).0, failure)
    }

    fn decompress_to(&self, src: &[u8], dst: &mut [u8]) -> (out: Result<(), SchemeError>) {
        done_or_failure(DECOMPRESSION_LABEL, static_decompress::<EI, EJ, C, N, N2>(src, dst))
    }
}

} // verus!
