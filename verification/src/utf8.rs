//! A character-oriented decoder that takes an owned buffer of raw bytes and
//! produces a stream of Unicode scalar values decoded under the UTF-8 rules:
//! leading-byte classification, continuation-byte consumption, surrogate
//! exclusion and the maximum code point bound.

use vstd::prelude::*;
use vstd::utf8::{
    codepoint_width_1, codepoint_width_2, codepoint_width_3, codepoint_width_4, decode_first_scalar,
    decode_utf8, is_continuation_byte, is_leading_byte_width_1, is_leading_byte_width_2,
    is_leading_byte_width_3, is_leading_byte_width_4, is_scalar, length_of_first_scalar,
    pop_first_scalar, valid_first_scalar, valid_utf8,
};

use crate::common::{char_from_u32, DecodeStep, DecoderError, DecoderErrorCode, DecoderResult};

verus! {

/// The kind of UTF-8 sequence a leading byte introduces, read off its
/// high-order bits.
#[derive(Debug, Copy, Clone, PartialEq, Eq, Structural)]
pub enum SequenceType {
    /// `0xxxxxxx`: a one-byte sequence in the ASCII range.
    Single,
    /// `110xxxxx`: a two-byte sequence.
    Pair,
    /// `1110xxxx`: a three-byte sequence.
    Triple,
    /// `11110xxx`: a four-byte sequence.
    Quad,
    /// A continuation byte in leading position, or `11111xxx`.
    Unrecognised,
}

/// Classification of a leading byte. The five patterns cover all byte values
/// and do not overlap.
pub open spec fn spec_sequence_type(b: u8) -> SequenceType {
    if is_leading_byte_width_1(b) {
        SequenceType::Single
    } else if is_leading_byte_width_2(b) {
        SequenceType::Pair
    } else if is_leading_byte_width_3(b) {
        SequenceType::Triple
    } else if is_leading_byte_width_4(b) {
        SequenceType::Quad
    } else {
        SequenceType::Unrecognised
    }
}

/// Determine what kind of UTF-8 sequence the given leading byte opens.
pub fn sequence_type(b: u8) -> (t: SequenceType)
    ensures
        t == spec_sequence_type(b),
{
    if b < 0x80 {
        SequenceType::Single
    } else if 0xe0 <= b && b <= 0xef {
        SequenceType::Triple
    } else if 0xc0 <= b && b <= 0xdf {
        SequenceType::Pair
    } else if 0xf0 <= b && b <= 0xf7 {
        SequenceType::Quad
    } else {
        SequenceType::Unrecognised
    }
}

/// A reassembled value is returned only when it is a Unicode scalar value;
/// otherwise the sequence is rejected, after being consumed whole.
pub open spec fn scalar_or_failure(value: u32, width: usize) -> DecodeStep {
    if is_scalar(value) {
        DecodeStep::Scalar { value, width }
    } else {
        DecodeStep::Failure { code: DecoderErrorCode::InvalidByteSequence, width }
    }
}

/// What one UTF-8 decode call yields on buffer `s` with the cursor at `i`.
///
/// The leading byte decides the sequence length; the scalar value is packed
/// from the leading byte's low data bits and the low six bits of each
/// continuation byte. A sequence that reassembles to a surrogate or to a
/// value above `0x10ffff` is consumed whole and rejected as an invalid byte
/// sequence; an unrecognised leading byte is rejected after consuming exactly
/// that one byte; a sequence cut short by the end of the buffer fails with
/// `EndOfInput` and consumes nothing.
pub open spec fn utf8_decode_step(s: Seq<u8>, i: int) -> DecodeStep {
    if !(0 <= i < s.len()) {
        DecodeStep::Failure { code: DecoderErrorCode::EndOfInput, width: 0 }
    } else {
        match spec_sequence_type(s[i]) {
            SequenceType::Single => scalar_or_failure(codepoint_width_1(s[i]), 1),
            SequenceType::Pair => if i + 2 <= s.len() {
                scalar_or_failure(codepoint_width_2(s[i], s[i + 1]), 2)
            } else {
                DecodeStep::Failure { code: DecoderErrorCode::EndOfInput, width: 0 }
            },
            SequenceType::Triple => if i + 3 <= s.len() {
                scalar_or_failure(codepoint_width_3(s[i], s[i + 1], s[i + 2]), 3)
            } else {
                DecodeStep::Failure { code: DecoderErrorCode::EndOfInput, width: 0 }
            },
            SequenceType::Quad => if i + 4 <= s.len() {
                scalar_or_failure(codepoint_width_4(s[i], s[i + 1], s[i + 2], s[i + 3]), 4)
            } else {
                DecodeStep::Failure { code: DecoderErrorCode::EndOfInput, width: 0 }
            },
            SequenceType::Unrecognised => DecodeStep::Failure {
                code: DecoderErrorCode::InvalidByteSequence,
                width: 1,
            },
        }
    }
}

/// A one-byte codepoint carries at most seven data bits.
proof fn lemma_codepoint_width_1_bound(b0: u8)
    by (bit_vector)
    ensures
        codepoint_width_1(b0) <= 0x7f,
        b0 <= 0x7f ==> codepoint_width_1(b0) == b0 as u32,
{
}

/// A two-byte codepoint carries at most eleven data bits.
proof fn lemma_codepoint_width_2_bound(b0: u8, b1: u8)
    by (bit_vector)
    ensures
        codepoint_width_2(b0, b1) <= 0x7ff,
{
}

/// A three-byte codepoint carries at most sixteen data bits.
proof fn lemma_codepoint_width_3_bound(b0: u8, b1: u8, b2: u8)
    by (bit_vector)
    ensures
        codepoint_width_3(b0, b1, b2) <= 0xffff,
{
}

/// A UTF-8 decoder over an owned buffer of raw bytes, read through a
/// monotonically advancing cursor.
pub struct Utf8Decoder {
    /// The staged input bytes.
    buffer: Vec<u8>,
    /// The current cursor into the buffer.
    index: usize,
}

impl Utf8Decoder {
    /// The bytes this decoder reads.
    pub closed spec fn bytes(&self) -> Seq<u8> {
        self.buffer@
    }

    /// The cursor: how many bytes have been consumed so far.
    pub closed spec fn pos(&self) -> int {
        self.index as int
    }

    /// Internal consistency: the cursor never passes the end of the buffer.
    pub closed spec fn wf(&self) -> bool {
        self.index <= self.buffer.len()
    }

    /// Create a new decoder over the given bytes, with the cursor at the
    /// start of the buffer.
    pub fn new(buffer: Vec<u8>) -> (d: Utf8Decoder)
        ensures
            d.wf(),
            d.bytes() == buffer@,
            d.pos() == 0,
    {
        Utf8Decoder { buffer, index: 0 }
    }

    /// Attempt to decode the next character from the buffer. One call
    /// consumes one complete encoded sequence of one to four bytes, or fails
    /// with a typed error; the outcome and the cursor advance are exactly
    /// those of [`utf8_decode_step`] at the old cursor.
    pub fn decode_next(&mut self) -> (r: DecoderResult<char>)
        requires
            old(self).wf(),
        ensures
            final(self).wf(),
            final(self).bytes() == old(self).bytes(),
            (match utf8_decode_step(old(self).bytes(), old(self).pos()) {
                DecodeStep::Scalar { value, width } => {
                    &&& r matches Ok(c) && c as u32 == value
                    &&& final(self).pos() == old(self).pos() + width
                },
                DecodeStep::Failure { code, width } => {
                    &&& r matches Err(e) && e.code == code
                    &&& final(self).pos() == old(self).pos() + width
                },
            }),
    {
        if self.index >= self.buffer.len() {
            return Err(DecoderError {
                code: DecoderErrorCode::EndOfInput,
                message: "end of input reached",
            });
        }
        let b0 = self.buffer[self.index];
        match sequence_type(b0) {
            SequenceType::Single => {
                let value: u32 = (b0 & 0x7f) as u32;
                self.index = self.index + 1;
                proof {
                    lemma_codepoint_width_1_bound(b0);
                }
                Ok(char_from_u32(value).unwrap())
            },
            SequenceType::Pair => {
                if self.buffer.len() - self.index < 2 {
                    return Err(DecoderError {
                        code: DecoderErrorCode::EndOfInput,
                        message: "end of input reached",
                    });
                }
                let b1 = self.buffer[self.index + 1];
                let value: u32 = (((b0 & 0x1f) as u32) << 6) | ((b1 & 0x3f) as u32);
                self.index = self.index + 2;
                proof {
                    lemma_codepoint_width_2_bound(b0, b1);
                }
                Ok(char_from_u32(value).unwrap())
            },
            SequenceType::Triple => {
                if self.buffer.len() - self.index < 3 {
                    return Err(DecoderError {
                        code: DecoderErrorCode::EndOfInput,
                        message: "end of input reached",
                    });
                }
                let b1 = self.buffer[self.index + 1];
                let b2 = self.buffer[self.index + 2];
                let value: u32 = (((b0 & 0x0f) as u32) << 12) | (((b1 & 0x3f) as u32) << 6)
                    | ((b2 & 0x3f) as u32);
                self.index = self.index + 3;
                proof {
                    lemma_codepoint_width_3_bound(b0, b1, b2);
                }
                if 0xd800 <= value && value <= 0xdfff {
                    Err(DecoderError {
                        code: DecoderErrorCode::InvalidByteSequence,
                        message: "value falls within forbidden range [0xd800, 0xdfff]",
                    })
                } else {
                    Ok(char_from_u32(value).unwrap())
                }
            },
            SequenceType::Quad => {
                if self.buffer.len() - self.index < 4 {
                    return Err(DecoderError {
                        code: DecoderErrorCode::EndOfInput,
                        message: "end of input reached",
                    });
                }
                let b1 = self.buffer[self.index + 1];
                let b2 = self.buffer[self.index + 2];
                let b3 = self.buffer[self.index + 3];
                let value: u32 = (((b0 & 0x07) as u32) << 18) | (((b1 & 0x3f) as u32) << 12)
                    | (((b2 & 0x3f) as u32) << 6) | ((b3 & 0x3f) as u32);
                self.index = self.index + 4;
                if value > 0x10ffff {
                    Err(DecoderError {
                        code: DecoderErrorCode::InvalidByteSequence,
                        message: "value falls outside maximum bound 0x10ffff",
                    })
                } else if 0xd800 <= value && value <= 0xdfff {
                    Err(DecoderError {
                        code: DecoderErrorCode::InvalidByteSequence,
                        message: "value falls within forbidden range [0xd800, 0xdfff]",
                    })
                } else {
                    Ok(char_from_u32(value).unwrap())
                }
            },
            SequenceType::Unrecognised => {
                self.index = self.index + 1;
                Err(DecoderError {
                    code: DecoderErrorCode::InvalidByteSequence,
                    message: "invalid byte sequence",
                })
            },
        }
    }

    /// The iteration adapter: decode the next character, collapsing every
    /// failure — a malformed sequence as well as ordinary end of input — to
    /// `None`. The failure kind is deliberately not exposed here; a caller
    /// that needs to tell the outcomes apart must use [`Self::decode_next`].
    pub fn next(&mut self) -> (r: Option<char>)
        requires
            old(self).wf(),
        ensures
            final(self).wf(),
            final(self).bytes() == old(self).bytes(),
            (match utf8_decode_step(old(self).bytes(), old(self).pos()) {
                DecodeStep::Scalar { value, width } => {
                    &&& r matches Some(c) && c as u32 == value
                    &&& final(self).pos() == old(self).pos() + width
                },
                DecodeStep::Failure { width, .. } => {
                    &&& r is None
                    &&& final(self).pos() == old(self).pos() + width
                },
            }),
    {
        match self.decode_next() {
            Ok(c) => Some(c),
            Err(_) => None,
        }
    }
}

/// Law: a single byte at or below `0x7f` decodes to its own value and
/// consumes exactly that one byte, whatever follows it.
pub proof fn lemma_utf8_single_byte(s: Seq<u8>, i: int)
    requires
        0 <= i < s.len(),
        s[i] <= 0x7f,
    ensures
        utf8_decode_step(s, i) == (DecodeStep::Scalar { value: s[i] as u32, width: 1 }),
{
    lemma_codepoint_width_1_bound(s[i]);
}

/// Law: a well-formed two-byte sequence — leading byte `110xxxxx`,
/// continuation byte `10xxxxxx` — decodes to the packed value
/// `((lead & 0x1f) << 6) | (cont & 0x3f)` and consumes both bytes.
pub proof fn lemma_utf8_pair(s: Seq<u8>, i: int)
    requires
        0 <= i,
        i + 2 <= s.len(),
        is_leading_byte_width_2(s[i]),
        is_continuation_byte(s[i + 1]),
    ensures
        utf8_decode_step(s, i) == (DecodeStep::Scalar {
            value: codepoint_width_2(s[i], s[i + 1]),
            width: 2,
        }),
{
    lemma_codepoint_width_2_bound(s[i], s[i + 1]);
}

/// Law: a well-formed three-byte sequence whose packed value falls in the
/// surrogate band `[0xd800, 0xdfff]` fails as an invalid byte sequence; any
/// other packed value decodes successfully. Either way all three bytes are
/// consumed.
pub proof fn lemma_utf8_triple(s: Seq<u8>, i: int)
    requires
        0 <= i,
        i + 3 <= s.len(),
        is_leading_byte_width_3(s[i]),
        is_continuation_byte(s[i + 1]),
        is_continuation_byte(s[i + 2]),
    ensures
        ({
            let value = codepoint_width_3(s[i], s[i + 1], s[i + 2]);
            &&& 0xd800 <= value <= 0xdfff ==> utf8_decode_step(s, i) == (DecodeStep::Failure {
                code: DecoderErrorCode::InvalidByteSequence,
                width: 3,
            })
            &&& !(0xd800 <= value <= 0xdfff) ==> utf8_decode_step(s, i) == (DecodeStep::Scalar {
                value,
                width: 3,
            })
        }),
{
    lemma_codepoint_width_3_bound(s[i], s[i + 1], s[i + 2]);
}

/// Law: a well-formed four-byte sequence whose packed value lies above
/// `0x10ffff` fails as an invalid byte sequence; a packed value at or below
/// `0x10ffff` and outside the surrogate band decodes successfully. Either way
/// all four bytes are consumed. (A four-byte overlong encoding of a surrogate
/// packs to a value that is no Unicode scalar; it, too, is rejected, which is
/// why the success direction excludes the surrogate band.)
pub proof fn lemma_utf8_quad(s: Seq<u8>, i: int)
    requires
        0 <= i,
        i + 4 <= s.len(),
        is_leading_byte_width_4(s[i]),
        is_continuation_byte(s[i + 1]),
        is_continuation_byte(s[i + 2]),
        is_continuation_byte(s[i + 3]),
    ensures
        ({
            let value = codepoint_width_4(s[i], s[i + 1], s[i + 2], s[i + 3]);
            &&& value > 0x10ffff ==> utf8_decode_step(s, i) == (DecodeStep::Failure {
                code: DecoderErrorCode::InvalidByteSequence,
                width: 4,
            })
            &&& value <= 0x10ffff && !(0xd800 <= value <= 0xdfff) ==> utf8_decode_step(s, i)
                == (DecodeStep::Scalar { value, width: 4 })
        }),
{
}

/// Law: a leading byte matching no recognised pattern — a continuation byte
/// `10xxxxxx` in leading position, or `11111xxx` — fails as an invalid byte
/// sequence and consumes exactly one byte.
pub proof fn lemma_utf8_unrecognised(s: Seq<u8>, i: int)
    requires
        0 <= i < s.len(),
        is_continuation_byte(s[i]) || s[i] >= 0xf8,
    ensures
        utf8_decode_step(s, i) == (DecodeStep::Failure {
            code: DecoderErrorCode::InvalidByteSequence,
            width: 1,
        }),
{
}

/// Law: on input whose remainder is well-formed UTF-8 by the strict
/// definition in `vstd::utf8` — shaped leading and continuation bytes, no
/// overlong encoding, no surrogate — one decode step yields exactly the first
/// scalar of that definition and consumes exactly its encoding's width.
pub proof fn lemma_utf8_step_strict(s: Seq<u8>, i: int)
    requires
        0 <= i <= s.len(),
        valid_first_scalar(s.skip(i)),
    ensures
        utf8_decode_step(s, i) == (DecodeStep::Scalar {
            value: decode_first_scalar(s.skip(i)),
            width: length_of_first_scalar(s.skip(i)) as usize,
        }),
{
    let t = s.skip(i);
    assert(forall|j: int| 0 <= j < t.len() ==> t[j] == s[i + j]);
    if is_leading_byte_width_1(t[0]) {
        lemma_codepoint_width_1_bound(s[i]);
    } else if is_leading_byte_width_2(t[0]) {
        lemma_codepoint_width_2_bound(s[i], s[i + 1]);
    } else if is_leading_byte_width_3(t[0]) {
        lemma_codepoint_width_3_bound(s[i], s[i + 1], s[i + 2]);
    }
}

/// The sequence of characters the iteration adapter yields from cursor `i`:
/// one per scalar-yielding step, stopping at the first failing step.
pub open spec fn utf8_chars_from(s: Seq<u8>, i: int) -> Seq<char>
    decreases s.len() - i,
{
    if !(0 <= i < s.len()) {
        seq![]
    } else {
        match utf8_decode_step(s, i) {
            DecodeStep::Scalar { value, width } => seq![value as char] + utf8_chars_from(
                s,
                i + width,
            ),
            DecodeStep::Failure { .. } => seq![],
        }
    }
}

/// Law: on well-formed UTF-8 input, by the strict definition in `vstd::utf8`,
/// the iteration adapter yields exactly the character sequence that
/// definition decodes — no scalar is dropped, reordered or invented.
pub proof fn lemma_utf8_stream_strict(s: Seq<u8>, i: int)
    requires
        0 <= i <= s.len(),
        valid_utf8(s.skip(i)),
    ensures
        utf8_chars_from(s, i) == decode_utf8(s.skip(i)),
    decreases s.len() - i,
{
    let t = s.skip(i);
    if t.len() == 0 {
        assert(utf8_chars_from(s, i) == Seq::<char>::empty());
        assert(decode_utf8(t) == Seq::<char>::empty());
    } else {
        lemma_utf8_step_strict(s, i);
        let w = length_of_first_scalar(t);
        assert(pop_first_scalar(t) =~= s.skip(i + w));
        lemma_utf8_stream_strict(s, i + w);
        assert(utf8_chars_from(s, i) =~= decode_utf8(t));
    }
}

/// Law: at or past the end of the input — in particular on empty input —
/// every decode call fails with `EndOfInput` and consumes nothing, so
/// repeated calls keep yielding `EndOfInput` without reading further.
pub proof fn lemma_utf8_end_of_input(s: Seq<u8>, i: int)
    requires
        i >= s.len(),
    ensures
        utf8_decode_step(s, i) == (DecodeStep::Failure {
            code: DecoderErrorCode::EndOfInput,
            width: 0,
        }),
{
}

} // verus!
