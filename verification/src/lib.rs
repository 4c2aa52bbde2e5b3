//! Streaming decoders that turn a buffer of raw bytes into a sequence of
//! Unicode scalar values, one `char` per call, without building any
//! intermediate string.
//!
//! Two decoding modes are offered: a strict multi-byte UTF-8 decoder
//! ([`utf8::Utf8Decoder`]) and a restricted single-byte ASCII decoder
//! ([`ascii::AsciiDecoder`]) that rejects every byte at or above `0x80`.
//! Both report their outcomes through the shared error model in [`common`],
//! and both expose a pull-based interface: each call to `decode_next` either
//! consumes one complete encoded sequence and yields its scalar value, or
//! fails with a typed error and a well-defined cursor advance.

pub mod ascii;
pub mod common;
pub mod utf8;
