use chisel_decoders::common::DecoderErrorCode;
use chisel_decoders::utf8::{sequence_type, SequenceType, Utf8Decoder};

#[test]
fn utf8_can_create_from_array() {
    let buffer: Vec<u8> = vec![0x10, 0x12, 0x23, 0x12];
    let _decoder = Utf8Decoder::new(buffer);
}

#[test]
fn utf8_decoder_can_create_from_array() {
    let buffer: Vec<u8> = vec![0x10, 0x12, 0x23, 0x12];
    let _decoder = Utf8Decoder::new(buffer);
}

#[test]
fn should_correctly_decode_utf8_characters() {
    let buffer: Vec<u8> = "\u{0e40}\u{0e04}\u{0e19}".as_bytes().to_vec();
    let mut decoder = Utf8Decoder::new(buffer);
    let c = decoder.next().unwrap();
    assert_eq!(c, '\u{0e40}')
}

#[test]
fn single_bytes_decode_to_their_own_value() {
    let mut bytes: Vec<u8> = Vec::new();
    let mut b: u32 = 0;
    while b <= 0x7f {
        bytes.push(b as u8);
        b += 1;
    }
    let mut decoder = Utf8Decoder::new(bytes);
    let mut expected: u32 = 0;
    while expected <= 0x7f {
        let c = decoder.decode_next().unwrap();
        assert_eq!(c as u32, expected);
        expected += 1;
    }
    assert_eq!(
        decoder.decode_next().unwrap_err().code,
        DecoderErrorCode::EndOfInput
    );
}

#[test]
fn all_well_formed_pairs_decode_to_packed_value() {
    let mut lead: u32 = 0xc0;
    while lead <= 0xdf {
        let mut cont: u32 = 0x80;
        while cont <= 0xbf {
            let mut decoder = Utf8Decoder::new(vec![lead as u8, cont as u8]);
            let c = decoder.decode_next().unwrap();
            assert_eq!(c as u32, ((lead & 0x1f) << 6) | (cont & 0x3f));
            cont += 1;
        }
        lead += 1;
    }
}

#[test]
fn pair_decodes_packed_value() {
    // ((0xc3 & 0x1f) << 6) | (0xa9 & 0x3f) == 0xe9
    let mut decoder = Utf8Decoder::new(vec![0xc3, 0xa9]);
    assert_eq!(decoder.decode_next().unwrap(), '\u{e9}');
}

#[test]
fn triple_decodes_devanagari_ha() {
    let mut decoder = Utf8Decoder::new(vec![0xe0, 0xa4, 0xb9]);
    assert_eq!(decoder.decode_next().unwrap(), '\u{0939}');
    assert_eq!(
        decoder.decode_next().unwrap_err().code,
        DecoderErrorCode::EndOfInput
    );
}

#[test]
fn four_singles_then_end_of_input() {
    let mut decoder = Utf8Decoder::new(vec![0x10, 0x12, 0x23, 0x12]);
    let expected: [u32; 4] = [0x10, 0x12, 0x23, 0x12];
    for &e in expected.iter() {
        assert_eq!(decoder.decode_next().unwrap() as u32, e);
    }
    assert_eq!(
        decoder.decode_next().unwrap_err().code,
        DecoderErrorCode::EndOfInput
    );
    assert_eq!(
        decoder.decode_next().unwrap_err().code,
        DecoderErrorCode::EndOfInput
    );
}

#[test]
fn surrogate_triple_is_rejected() {
    // 0xed 0xa0 0x80 packs to 0xd800, the bottom of the surrogate band.
    let mut decoder = Utf8Decoder::new(vec![0xed, 0xa0, 0x80]);
    assert_eq!(
        decoder.decode_next().unwrap_err().code,
        DecoderErrorCode::InvalidByteSequence
    );
    // The whole three-byte sequence was consumed.
    assert_eq!(
        decoder.decode_next().unwrap_err().code,
        DecoderErrorCode::EndOfInput
    );
}

#[test]
fn triple_below_surrogate_band_decodes() {
    // 0xed 0x9f 0xbf packs to 0xd7ff, just below the surrogate band.
    let mut decoder = Utf8Decoder::new(vec![0xed, 0x9f, 0xbf]);
    assert_eq!(decoder.decode_next().unwrap(), '\u{d7ff}');
}

#[test]
fn triple_above_surrogate_band_decodes() {
    // 0xee 0x80 0x80 packs to 0xe000, just above the surrogate band.
    let mut decoder = Utf8Decoder::new(vec![0xee, 0x80, 0x80]);
    assert_eq!(decoder.decode_next().unwrap(), '\u{e000}');
}

#[test]
fn quad_above_maximum_is_rejected() {
    // 0xf4 0x90 0x80 0x80 packs to 0x110000, above the maximum code point.
    let mut decoder = Utf8Decoder::new(vec![0xf4, 0x90, 0x80, 0x80]);
    assert_eq!(
        decoder.decode_next().unwrap_err().code,
        DecoderErrorCode::InvalidByteSequence
    );
    // The whole four-byte sequence was consumed.
    assert_eq!(
        decoder.decode_next().unwrap_err().code,
        DecoderErrorCode::EndOfInput
    );
}

#[test]
fn quad_at_maximum_decodes() {
    // 0xf4 0x8f 0xbf 0xbf packs to 0x10ffff, the maximum code point.
    let mut decoder = Utf8Decoder::new(vec![0xf4, 0x8f, 0xbf, 0xbf]);
    assert_eq!(decoder.decode_next().unwrap(), '\u{10ffff}');
}

#[test]
fn quad_decodes_first_supplementary_scalar() {
    // 0xf0 0x90 0x80 0x80 packs to 0x10000.
    let mut decoder = Utf8Decoder::new(vec![0xf0, 0x90, 0x80, 0x80]);
    assert_eq!(decoder.decode_next().unwrap(), '\u{10000}');
}

#[test]
fn overlong_quad_surrogate_is_rejected() {
    // 0xf0 0x8d 0xa0 0x80 packs to 0xd800: not a Unicode scalar value, so
    // the checked conversion refuses it.
    let mut decoder = Utf8Decoder::new(vec![0xf0, 0x8d, 0xa0, 0x80]);
    assert_eq!(
        decoder.decode_next().unwrap_err().code,
        DecoderErrorCode::InvalidByteSequence
    );
}

#[test]
fn unrecognised_leading_byte_consumes_one_byte() {
    // A continuation byte in leading position.
    let mut decoder = Utf8Decoder::new(vec![0x80, 0x41]);
    assert_eq!(
        decoder.decode_next().unwrap_err().code,
        DecoderErrorCode::InvalidByteSequence
    );
    assert_eq!(decoder.decode_next().unwrap(), 'A');
    // A 11111xxx byte in leading position.
    let mut decoder = Utf8Decoder::new(vec![0xf8, 0x41]);
    assert_eq!(
        decoder.decode_next().unwrap_err().code,
        DecoderErrorCode::InvalidByteSequence
    );
    assert_eq!(decoder.decode_next().unwrap(), 'A');
}

#[test]
fn empty_input_fails_with_end_of_input() {
    let mut decoder = Utf8Decoder::new(Vec::new());
    assert_eq!(
        decoder.decode_next().unwrap_err().code,
        DecoderErrorCode::EndOfInput
    );
}

#[test]
fn truncated_sequences_fail_with_end_of_input() {
    // A two-byte sequence cut short: the cursor must not advance partially,
    // so a second call yields EndOfInput again.
    let mut decoder = Utf8Decoder::new(vec![0xc3]);
    assert_eq!(
        decoder.decode_next().unwrap_err().code,
        DecoderErrorCode::EndOfInput
    );
    assert_eq!(
        decoder.decode_next().unwrap_err().code,
        DecoderErrorCode::EndOfInput
    );
    let mut decoder = Utf8Decoder::new(vec![0xe0, 0xa4]);
    assert_eq!(
        decoder.decode_next().unwrap_err().code,
        DecoderErrorCode::EndOfInput
    );
    let mut decoder = Utf8Decoder::new(vec![0xf0, 0x90, 0x80]);
    assert_eq!(
        decoder.decode_next().unwrap_err().code,
        DecoderErrorCode::EndOfInput
    );
}

#[test]
fn iteration_stops_at_first_failure() {
    // Through the iteration adapter a malformed sequence looks exactly like
    // clean end of input: the error detail is deliberately suppressed.
    let mut decoder = Utf8Decoder::new(vec![0x41, 0xf8, 0x42]);
    assert_eq!(decoder.next(), Some('A'));
    assert_eq!(decoder.next(), None);
}

#[test]
fn classifier_covers_all_leading_bytes() {
    let mut b: u32 = 0;
    while b <= 0xff {
        let byte = b as u8;
        let t = sequence_type(byte);
        let expected = if byte < 0x80 {
            SequenceType::Single
        } else if byte >= 0xc0 && byte <= 0xdf {
            SequenceType::Pair
        } else if byte >= 0xe0 && byte <= 0xef {
            SequenceType::Triple
        } else if byte >= 0xf0 && byte <= 0xf7 {
            SequenceType::Quad
        } else {
            SequenceType::Unrecognised
        };
        assert_eq!(t, expected);
        b += 1;
    }
}
