//! What schemes make of the outcomes of their codecs: the checks that they
//! share when they decode into a buffer of known length, and the failures
//! that they report.

use crate::error::SchemeError;
use crate::scheme::{failure_of, packed_view};
use crate::text::optional_text;
use vstd::prelude::*;

verus! {

/// The outcome of a codec call as a plain value: the bytes it gave, or the
/// wording of its error.
pub open spec fn codec_view(outcome: Result<Vec<u8>, String>) -> Result<Seq<u8>, Seq<char>> {
    match outcome {
        Ok(bytes) => Ok(bytes@),
        Err(wording) => Err(wording@),
    }
}

/// Whether `out` is what a scheme makes of the outcome of its codec: the
/// bytes as they are, or a codec failure under the scheme's `operation`
/// with the codec's wording.
pub open spec fn renders(
    operation: &'static str,
    outcome: Result<Seq<u8>, Seq<char>>,
    out: Result<Seq<u8>, SchemeError>,
) -> bool {
    match outcome {
        Ok(bytes) => out == Ok::<Seq<u8>, SchemeError>(bytes),
        Err(wording) => {
            &&& out matches Err(SchemeError::Codec { operation: label, detail })
            &&& label == operation
            &&& detail@ == wording
        },
    }
}

/// Makes the result of a compression out of the outcome of a codec call.
pub fn packed_or_failure(operation: &'static str, outcome: Result<Vec<u8>, String>) -> (out: Result<
    Vec<u8>,
    SchemeError,
>)
    ensures
        renders(operation, codec_view(outcome), packed_view(out)),
{
    match outcome {
        Ok(bytes) => Ok(bytes),
        Err(detail) => Err(SchemeError::Codec { operation, detail }),
    }
}

/// Whether `failure` is a failure of the codec under the label `operation`.
pub open spec fn is_codec_failure(failure: Option<SchemeError>, operation: &'static str) -> bool {
    failure matches Some(SchemeError::Codec { operation: label, .. }) && label == operation
}

/// What an attempt to read an exact number of decoded bytes came to.
#[derive(Debug, PartialEq, Eq)]
pub enum ReadOutcome {
    /// The bytes asked for were all there.
    Filled,
    /// The decoded data ended before the bytes asked for were all there.
    Ended(String),
    /// The decoder reported a failure other than the end of the data.
    Failed(String),
}

/// What an attempt to read an exact number of decoded bytes came to, as a
/// plain value.
pub enum ReadView {
    Filled,
    Ended(Seq<char>),
    Failed(Seq<char>),
}

impl View for ReadOutcome {
    type V = ReadView;

    open spec fn view(&self) -> ReadView {
        match *self {
            ReadOutcome::Filled => ReadView::Filled,
            ReadOutcome::Ended(wording) => ReadView::Ended(wording@),
            ReadOutcome::Failed(wording) => ReadView::Failed(wording@),
        }
    }
}

/// What the buffer of a probe holds before the probe: one zero byte.
pub open spec fn probe_buffer() -> Seq<u8> {
    seq![0u8]
}

/// Whether `failure` and `after` are what a scheme makes of a decoder that
/// was read from twice: `fill` is what the attempt to fill the destination
/// came to and what it left there, `probe` what the attempt to read one
/// byte more came to.
///
/// The destination holds what the first read left. The scheme succeeds
/// where the destination was filled and the data ended before one byte
/// more; it reports a destination too short where the destination was
/// filled and the probe came to anything else; and it reports a failure of
/// the codec under `operation`, in the decoder's wording, where the
/// destination was not filled.
pub open spec fn settles(
    operation: &'static str,
    fill: (ReadView, Seq<u8>),
    probe: ReadView,
    after: Seq<u8>,
    failure: Option<SchemeError>,
) -> bool {
    &&& after == fill.1
    &&& match fill.0 {
        ReadView::Filled => if probe is Ended {
            failure is None
        } else {
            failure == Some(SchemeError::DestinationTooShort)
        },
        ReadView::Ended(wording) => {
            &&& failure matches Some(SchemeError::Codec { operation: label, detail })
            &&& label == operation
            &&& detail@ == wording
        },
        ReadView::Failed(wording) => {
            &&& failure matches Some(SchemeError::Codec { operation: label, detail })
            &&& label == operation
            &&& detail@ == wording
        },
    }
}

/// Whether `failure` and `after` are what a scheme may make of a decoder
/// whose reads are known only where they fill their buffer: `fill` is what
/// the attempt to fill the destination comes to, and what it leaves there,
/// where the codec does not fail for a reason of its own.
///
/// The scheme succeeds, or reports a destination too short, only where the
/// destination was filled, and then the destination holds what that read
/// leaves. Every other failure is a failure of the codec.
pub open spec fn settles_where_filled(
    fill: (ReadView, Seq<u8>),
    after: Seq<u8>,
    failure: Option<SchemeError>,
) -> bool {
    match failure {
        None => fill == (ReadView::Filled, after),
        Some(SchemeError::DestinationTooShort) => fill == (ReadView::Filled, after),
        Some(SchemeError::Codec { .. }) => true,
        Some(SchemeError::LengthMismatch { .. }) => false,
    }
}

/// Judges the attempt to fill the destination from a decoder: anything but
/// a full destination is a failure of the codec, in the decoder's wording.
pub fn fill_verdict(operation: &'static str, fill: ReadOutcome) -> (out: Result<(), SchemeError>)
    ensures
        match fill {
            ReadOutcome::Filled => out is Ok,
            ReadOutcome::Ended(detail) => out == Err::<(), SchemeError>(
                SchemeError::Codec { operation, detail },
            ),
            ReadOutcome::Failed(detail) => out == Err::<(), SchemeError>(
                SchemeError::Codec { operation, detail },
            ),
        },
{
    match fill {
        ReadOutcome::Filled => Ok(()),
        ReadOutcome::Ended(detail) => Err(SchemeError::Codec { operation, detail }),
        ReadOutcome::Failed(detail) => Err(SchemeError::Codec { operation, detail }),
    }
}

/// Judges the probe for one more decoded byte after the destination was
/// filled: only a clean end of the data shows that the destination had
/// exactly the decoded length.
pub fn probe_verdict(probe: ReadOutcome) -> (out: Result<(), SchemeError>)
    ensures
        probe is Ended ==> out is Ok,
        !(probe is Ended) ==> out == Err::<(), SchemeError>(SchemeError::DestinationTooShort),
{
    match probe {
        ReadOutcome::Ended(_) => Ok(()),
        _ => Err(SchemeError::DestinationTooShort),
    }
}

/// Judges the number of bytes that a decoder says it produced against the
/// length of the destination.
pub fn length_verdict(expected: usize, produced: usize) -> (out: Result<(), SchemeError>)
    ensures
        produced == expected ==> out is Ok,
        produced != expected ==> out == Err::<(), SchemeError>(
            SchemeError::LengthMismatch { expected, produced },
        ),
{
    if produced == expected {
        Ok(())
    } else {
        Err(SchemeError::LengthMismatch { expected, produced })
    }
}

/// `<[T]>::copy_from_slice` copies all of `src` into `dst`. The two must be
/// of the same length; the call panics where they are not.
pub assume_specification<T: Copy>[ <[T]>::copy_from_slice ](dst: &mut [T], src: &[T])
    requires
        old(dst)@.len() == src@.len(),
    ensures
        final(dst)@ == src@,
;

/// Copies decoded data into a destination that it has to fill exactly.
///
/// Where the two differ in length, nothing is copied and the two lengths
/// are reported.
pub fn copy_exact(decoded: &[u8], dst: &mut [u8]) -> (out: Result<(), SchemeError>)
    ensures
        final(dst)@.len() == old(dst)@.len(),
        decoded@.len() == old(dst)@.len() ==> out is Ok && final(dst)@ == decoded@,
        decoded@.len() != old(dst)@.len() ==> final(dst)@ == old(dst)@ && out == Err::<
            (),
            SchemeError,
        >(
            SchemeError::LengthMismatch {
                expected: old(dst)@.len() as usize,
                produced: decoded.len(),
            },
        ),
{
    match length_verdict(dst.len(), decoded.len()) {
        Ok(()) => {
            dst.copy_from_slice(decoded);
            Ok(())
        },
        Err(error) => Err(error),
    }
}

/// The outcome of a codec call that reports a number of bytes, as a plain
/// value: the number, or the wording of the codec's error.
pub open spec fn count_view(outcome: Result<usize, String>) -> Result<nat, Seq<char>> {
    match outcome {
        Ok(count) => Ok(count as nat),
        Err(wording) => Err(wording@),
    }
}

/// Whether `failure` is what a scheme makes of a decoder that wrote into a
/// destination of the length `expected` and came to `outcome`: success
/// where the decoder reports exactly `expected` bytes, a length mismatch
/// where it reports another number, and a failure of the codec under
/// `operation`, in the codec's wording, where the decoder failed.
pub open spec fn judges(
    operation: &'static str,
    expected: nat,
    outcome: Result<nat, Seq<char>>,
    failure: Option<SchemeError>,
) -> bool {
    match outcome {
        Ok(count) => if count == expected {
            failure is None
        } else {
            &&& failure matches Some(SchemeError::LengthMismatch { expected: wanted, produced })
            &&& wanted == expected
            &&& produced == count
        },
        Err(wording) => {
            &&& failure matches Some(SchemeError::Codec { operation: label, detail })
            &&& label == operation
            &&& detail@ == wording
        },
    }
}

/// Judges what a decoder that wrote into a destination of the length
/// `expected` came to.
pub fn sized_verdict(
    operation: &'static str,
    expected: usize,
    outcome: Result<usize, String>,
) -> (out: Result<(), SchemeError>)
    ensures
        judges(operation, expected as nat, count_view(outcome), failure_of(out)),
{
    match outcome {
        Ok(produced) => length_verdict(expected, produced),
        Err(detail) => Err(SchemeError::Codec { operation, detail }),
    }
}

/// Whether `failure` is what a scheme makes of the outcome of a codec call
/// that gives nothing back: success where the codec succeeded, and a
/// failure of the codec under `operation`, in the codec's wording, where it
/// failed.
pub open spec fn relays(
    operation: &'static str,
    outcome: Option<Seq<char>>,
    failure: Option<SchemeError>,
) -> bool {
    match outcome {
        None => failure is None,
        Some(wording) => {
            &&& failure matches Some(SchemeError::Codec { operation: label, detail })
            &&& label == operation
            &&& detail@ == wording
        },
    }
}

/// Makes the result of a decompression out of the outcome of a codec call
/// that gives nothing back.
pub fn done_or_failure(operation: &'static str, outcome: Option<String>) -> (out: Result<
    (),
    SchemeError,
>)
    ensures
        relays(operation, optional_text(outcome), failure_of(out)),
{
    match outcome {
        None => Ok(()),
        Some(detail) => Err(SchemeError::Codec { operation, detail }),
    }
}

} // verus!
