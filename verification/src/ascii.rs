//! A character-oriented decoder that takes an owned buffer of raw bytes and
//! produces a stream of ASCII characters, rejecting every byte at or above
//! `0x80` with an `OutOfRange` error.

use vstd::prelude::*;

use crate::common::{char_from_u32, DecodeStep, DecoderError, DecoderErrorCode, DecoderResult};

verus! {

/// What one ASCII-mode decode call yields on buffer `s` with the cursor at
/// `i`: the byte itself when it lies in the ASCII range, `OutOfRange` when it
/// does not (the offending byte is still consumed), and `EndOfInput` when no
/// byte remains.
pub open spec fn ascii_decode_step(s: Seq<u8>, i: int) -> DecodeStep {
    if !(0 <= i < s.len()) {
        DecodeStep::Failure { code: DecoderErrorCode::EndOfInput, width: 0 }
    } else if s[i] <= 0x7f {
        DecodeStep::Scalar { value: s[i] as u32, width: 1 }
    } else {
        DecodeStep::Failure { code: DecoderErrorCode::OutOfRange, width: 1 }
    }
}

/// An ASCII decoder over an owned buffer of raw bytes, read through a
/// monotonically advancing cursor.
pub struct AsciiDecoder {
    /// The staged input bytes.
    buffer: Vec<u8>,
    /// The current cursor into the buffer.
    index: usize,
}

impl AsciiDecoder {
    /// The bytes this decoder reads.
    pub closed spec fn bytes(&self) -> Seq<u8> {
        self.buffer@
    }

    /// The cursor: how many bytes have been consumed so far.
    pub closed spec fn pos(&self) -> int {
        self.index as int
    }

    /// Internal consistency: the cursor never passes the end of the buffer.
    pub closed spec fn wf(&self) -> bool {
        self.index <= self.buffer.len()
    }

    /// Create a new decoder over the given bytes, with the cursor at the
    /// start of the buffer.
    pub fn new(buffer: Vec<u8>) -> (d: AsciiDecoder)
        ensures
            d.wf(),
            d.bytes() == buffer@,
            d.pos() == 0,
    {
        AsciiDecoder { buffer, index: 0 }
    }

    /// Attempt to decode the next character from the buffer. One call
    /// consumes the next byte and yields it as a character when it lies in
    /// the ASCII range, or fails with a typed error; the outcome and the
    /// cursor advance are exactly those of [`ascii_decode_step`] at the old
    /// cursor. A byte at or above `0x80` is consumed even though it is
    /// rejected; the decoder makes no attempt to resynchronise.
    pub fn decode_next(&mut self) -> (r: DecoderResult<char>)
        requires
            old(self).wf(),
        ensures
            final(self).wf(),
            final(self).bytes() == old(self).bytes(),
            (match ascii_decode_step(old(self).bytes(), old(self).pos()) {
                DecodeStep::Scalar { value, width } => {
                    &&& r matches Ok(c) && c as u32 == value
                    &&& final(self).pos() == old(self).pos() + width
                },
                DecodeStep::Failure { code, width } => {
                    &&& r matches Err(e) && e.code == code
                    &&& final(self).pos() == old(self).pos() + width
                },
            }),
    {
        if self.index >= self.buffer.len() {
            return Err(DecoderError {
                code: DecoderErrorCode::EndOfInput,
                message: "end of input reached",
            });
        }
        let b = self.buffer[self.index];
        self.index = self.index + 1;
        if b <= 0x7f {
            Ok(char_from_u32(b as u32).unwrap())
        } else {
            Err(DecoderError {
                code: DecoderErrorCode::OutOfRange,
                message: "non-ascii character detected",
            })
        }
    }

    /// The iteration adapter: decode the next character, collapsing every
    /// failure — an out-of-range byte as well as ordinary end of input — to
    /// `None`. The failure kind is deliberately not exposed here; a caller
    /// that needs to tell the outcomes apart must use [`Self::decode_next`].
    pub fn next(&mut self) -> (r: Option<char>)
        requires
            old(self).wf(),
        ensures
            final(self).wf(),
            final(self).bytes() == old(self).bytes(),
            (match ascii_decode_step(old(self).bytes(), old(self).pos()) {
                DecodeStep::Scalar { value, width } => {
                    &&& r matches Some(c) && c as u32 == value
                    &&& final(self).pos() == old(self).pos() + width
                },
                DecodeStep::Failure { width, .. } => {
                    &&& r is None
                    &&& final(self).pos() == old(self).pos() + width
                },
            }),
    {
        match self.decode_next() {
            Ok(c) => Some(c),
            Err(_) => None,
        }
    }
}

/// The number of characters the iteration adapter still yields from cursor
/// `i`: one per scalar-yielding step, stopping at the first failing step.
pub open spec fn ascii_chars_remaining(s: Seq<u8>, i: int) -> nat
    decreases s.len() - i,
{
    if !(0 <= i < s.len()) {
        0
    } else {
        match ascii_decode_step(s, i) {
            DecodeStep::Scalar { width, .. } => (1 + ascii_chars_remaining(s, i + width)) as nat,
            DecodeStep::Failure { .. } => 0,
        }
    }
}

/// Law: ASCII-mode decoding of a byte at or above `0x80` fails with
/// `OutOfRange`, consuming the offending byte.
pub proof fn lemma_ascii_out_of_range(s: Seq<u8>, i: int)
    requires
        0 <= i < s.len(),
        s[i] >= 0x80,
    ensures
        ascii_decode_step(s, i) == (DecodeStep::Failure {
            code: DecoderErrorCode::OutOfRange,
            width: 1,
        }),
{
}

/// Law: at or past the end of the input — in particular on empty input —
/// every decode call fails with `EndOfInput` and consumes nothing, so
/// repeated calls keep yielding `EndOfInput` without reading further.
pub proof fn lemma_ascii_end_of_input(s: Seq<u8>, i: int)
    requires
        i >= s.len(),
    ensures
        ascii_decode_step(s, i) == (DecodeStep::Failure {
            code: DecoderErrorCode::EndOfInput,
            width: 0,
        }),
{
}

/// Law: over a buffer that holds only ASCII bytes, the iteration adapter
/// yields exactly one character per byte — from cursor `i`, exactly the
/// number of bytes that remain, and from the start, exactly the buffer's
/// length.
pub proof fn lemma_ascii_iteration_count(s: Seq<u8>, i: int)
    requires
        0 <= i <= s.len(),
        forall|j: int| 0 <= j < s.len() ==> s[j] <= 0x7f,
    ensures
        ascii_chars_remaining(s, i) == s.len() - i,
    decreases s.len() - i,
{
    if i < s.len() {
        lemma_ascii_iteration_count(s, i + 1);
    }
}

} // verus!
