//! What a compression scheme has to offer to be measured.

use crate::error::SchemeError;
use crate::text::optional_text;
use vstd::prelude::*;

verus! {

/// The outcome of a compression call as a plain value.
pub open spec fn packed_view(out: Result<Vec<u8>, SchemeError>) -> Result<Seq<u8>, SchemeError> {
    match out {
        Ok(bytes) => Ok(bytes@),
        Err(error) => Err(error),
    }
}

/// The failure of a call, if it failed.
pub open spec fn failure_of<Value>(out: Result<Value, SchemeError>) -> Option<SchemeError> {
    match out {
        Ok(_) => None,
        Err(error) => Some(error),
    }
}

/// A scheme that can compress.
pub trait Compressor {
    /// Whether a call of `compress` on `data` may end in `out`.
    ///
    /// A scheme states here what it promises of its output. A scheme that
    /// leaves this as it is promises nothing: every outcome is possible.
    open spec fn compress_yields(&self, data: Seq<u8>, out: Result<Seq<u8>, SchemeError>) -> bool {
        true
    }

    /// Compresses `data`.
    fn compress(&self, data: &[u8]) -> (out: Result<Vec<u8>, SchemeError>)
        ensures
            self.compress_yields(data@, packed_view(out)),
    ;
}

/// A scheme that can decompress into a buffer of exactly the decoded length.
pub trait Decompressor {
    /// Whether a call of `decompress_to` on `src`, with a destination that
    /// holds `before`, may leave `after` in the destination and end in
    /// `failure` (`None` for success).
    ///
    /// A scheme that leaves this as it is promises nothing.
    open spec fn decompress_yields(
        &self,
        src: Seq<u8>,
        before: Seq<u8>,
        after: Seq<u8>,
        failure: Option<SchemeError>,
    ) -> bool {
        true
    }

    /// Decodes `src` into `dst`, which the decoded data must fill exactly.
    fn decompress_to(&self, src: &[u8], dst: &mut [u8]) -> (out: Result<(), SchemeError>)
        ensures
            final(dst)@.len() == old(dst)@.len(),
            self.decompress_yields(src@, old(dst)@, final(dst)@, failure_of(out)),
    ;
}

/// A scheme that can say what it is, for the report.
pub trait DescribeScheme {
    /// Whether `name` may be what `name` returns.
    open spec fn name_is(&self, name: Seq<char>) -> bool {
        true
    }

    /// Whether `settings` may be what `settings` returns.
    open spec fn settings_are(&self, settings: Option<Seq<char>>) -> bool {
        true
    }

    /// The name of the scheme.
    fn name(&self) -> (out: String)
        ensures
            self.name_is(out@),
    ;

    /// The parameters the scheme was set up with, where it has any worth
    /// reporting.
    fn settings(&self) -> (out: Option<String>)
        ensures
            self.settings_are(optional_text(out)),
    ;
}

} // verus!
