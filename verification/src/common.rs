//! Common types shared by both decoding modes: the error model, the result
//! alias, and the mathematical model of a single decode step.

use vstd::prelude::*;

verus! {

/// General result type used by a decoder instance.
pub type DecoderResult<T> = Result<T, DecoderError>;

/// Enumeration of the different decoder failure kinds.
#[derive(Debug, Copy, Clone, PartialEq, Eq, Structural)]
pub enum DecoderErrorCode {
    /// The underlying byte source could not be read.
    StreamFailure,
    /// The bytes read do not form a structurally valid encoded sequence.
    InvalidByteSequence,
    /// The end of the input has been reached: an expected, non-exceptional
    /// termination condition, reported through the error channel for
    /// uniformity with the pull-based protocol.
    EndOfInput,
    /// A byte at or above `0x80` was met while decoding in ASCII mode.
    OutOfRange,
}

/// A decoding failure: a failure kind plus a human-readable diagnostic.
#[derive(Debug, Copy, Clone)]
pub struct DecoderError {
    /// The error code.
    pub code: DecoderErrorCode,
    /// Associated error message.
    pub message: &'static str,
}

/// What one decode call yields: a scalar value, or a typed failure. `width`
/// is the number of bytes the call consumes, so that the cursor advance is
/// pinned down together with the outcome.
pub enum DecodeStep {
    /// A scalar value was decoded from `width` bytes.
    Scalar { value: u32, width: usize },
    /// Decoding failed with `code` after consuming `width` bytes.
    Failure { code: DecoderErrorCode, width: usize },
}

/// Relies on std's `char::from_u32`: it returns the character with the given
/// numeric value exactly when that value is a Unicode scalar value (at most
/// `0x10ffff` and outside the surrogate band), and `None` otherwise.
#[verifier::external_body]
pub(crate) fn char_from_u32(v: u32) -> (r: Option<char>)
    ensures
        r is Some <==> vstd::utf8::is_scalar(v),
        r matches Some(c) ==> c as u32 == v,
{
    char::from_u32(v)
}

} // verus!
