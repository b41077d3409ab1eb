use kotoori::DecodeError;
use kotoori::EncodingTag;
use kotoori::decode_bytes;
use kotoori::detect_encoding;
use kotoori::encode_content;
use kotoori::parse_tag;
use kotoori::tag_name;

#[test]
fn detect_empty_is_utf8() {
    assert_eq!(detect_encoding(&[]), EncodingTag::Utf8);
}

#[test]
fn detect_plain_utf8() {
    assert_eq!(detect_encoding(b"hello"), EncodingTag::Utf8);
    assert_eq!(detect_encoding("こんにちは".as_bytes()), EncodingTag::Utf8);
}

#[test]
fn detect_bom() {
    assert_eq!(detect_encoding(&[0xEF, 0xBB, 0xBF, 0x68, 0x69]), EncodingTag::Utf8Bom);
    assert_eq!(detect_encoding(&[0xEF, 0xBB, 0xBF]), EncodingTag::Utf8Bom);
}

#[test]
fn detect_shift_jis_pair() {
    assert_eq!(detect_encoding(&[0x82, 0xA0]), EncodingTag::ShiftJis);
}

#[test]
fn detect_shift_jis_text() {
    // "あいうえお"
    let buf: [u8; 10] = [0x82, 0xA0, 0x82, 0xA2, 0x82, 0xA4, 0x82, 0xA6, 0x82, 0xA8];
    assert_eq!(detect_encoding(&buf), EncodingTag::ShiftJis);
}

#[test]
fn detect_truncated_lead_byte_falls_back_to_utf8() {
    assert_eq!(detect_encoding(&[0x81]), EncodingTag::Utf8);
}

#[test]
fn decode_shift_jis_single_char() {
    let decoded = decode_bytes(&[0x82, 0xA0], EncodingTag::ShiftJis).unwrap();
    assert_eq!(decoded, "あ");
    let encoded = encode_content(&decoded, EncodingTag::ShiftJis);
    assert_eq!(encoded, vec![0x82, 0xA0]);
}

#[test]
fn shift_jis_round_trip() {
    // "あい"
    let original: Vec<u8> = vec![0x82, 0xA0, 0x82, 0xA2];
    let decoded = decode_bytes(&original, EncodingTag::ShiftJis).unwrap();
    assert_eq!(decoded, "あい");
    let encoded = encode_content(&decoded, EncodingTag::ShiftJis);
    assert_eq!(encoded, original);
}

#[test]
fn bom_round_trip() {
    let original: Vec<u8> = vec![0xEF, 0xBB, 0xBF, 0x68, 0x69];
    assert_eq!(detect_encoding(&original), EncodingTag::Utf8Bom);
    let decoded = decode_bytes(&original, EncodingTag::Utf8Bom).unwrap();
    assert_eq!(decoded, "hi");
    let encoded = encode_content(&decoded, EncodingTag::Utf8Bom);
    assert_eq!(encoded, original);
}

#[test]
fn utf8_round_trip() {
    let original = "日本語 text\n".as_bytes().to_vec();
    let decoded = decode_bytes(&original, EncodingTag::Utf8).unwrap();
    assert_eq!(decoded, "日本語 text\n");
    let encoded = encode_content(&decoded, EncodingTag::Utf8);
    assert_eq!(encoded, original);
}

#[test]
fn invalid_bom_content_is_a_hard_error() {
    let buf: [u8; 4] = [0xEF, 0xBB, 0xBF, 0xFF];
    assert_eq!(decode_bytes(&buf, EncodingTag::Utf8Bom), Err(DecodeError::InvalidUtf8Bom));
}

#[test]
fn utf8_decode_is_lossy_on_invalid_bytes() {
    let buf: [u8; 2] = [0x68, 0xFF];
    let decoded = decode_bytes(&buf, EncodingTag::Utf8).unwrap();
    assert_eq!(decoded, "h\u{FFFD}");
}

#[test]
fn shift_jis_decode_never_fails() {
    // A lone lead byte with no trail byte decodes to a replacement character.
    let decoded = decode_bytes(&[0x81], EncodingTag::ShiftJis).unwrap();
    assert_eq!(decoded, "\u{FFFD}");
}

#[test]
fn encode_bom_prepends_the_mark() {
    assert_eq!(encode_content("hi", EncodingTag::Utf8Bom), vec![0xEF, 0xBB, 0xBF, 0x68, 0x69]);
    assert_eq!(encode_content("", EncodingTag::Utf8Bom), vec![0xEF, 0xBB, 0xBF]);
}

#[test]
fn encode_utf8_is_raw_bytes() {
    assert_eq!(encode_content("hi", EncodingTag::Utf8), b"hi".to_vec());
    assert_eq!(encode_content("", EncodingTag::Utf8), Vec::<u8>::new());
}

#[test]
fn full_cycle_is_bit_exact_for_every_tag() {
    let cases: Vec<(&str, EncodingTag)> = vec![
        ("plain ascii", EncodingTag::Utf8),
        ("日本語テキスト", EncodingTag::Utf8),
        ("with mark", EncodingTag::Utf8Bom),
        ("あいうえお", EncodingTag::ShiftJis),
        ("kana カタカナ", EncodingTag::ShiftJis),
    ];
    for (text, tag) in cases {
        let bytes = encode_content(text, tag);
        let decoded = decode_bytes(&bytes, tag).unwrap();
        assert_eq!(decoded, text);
        let re_encoded = encode_content(&decoded, tag);
        assert_eq!(re_encoded, bytes);
    }
}

#[test]
fn empty_buffer_decodes_to_empty_string() {
    assert_eq!(decode_bytes(&[], EncodingTag::Utf8), Ok(String::new()));
    assert_eq!(decode_bytes(&[], EncodingTag::ShiftJis), Ok(String::new()));
}

#[test]
fn tag_names_round_trip() {
    for tag in [EncodingTag::Utf8, EncodingTag::Utf8Bom, EncodingTag::ShiftJis] {
        assert_eq!(parse_tag(&tag_name(tag)), tag);
    }
    assert_eq!(tag_name(EncodingTag::Utf8), "UTF-8");
    assert_eq!(tag_name(EncodingTag::Utf8Bom), "UTF-8-BOM");
    assert_eq!(tag_name(EncodingTag::ShiftJis), "SHIFT-JIS");
    assert_eq!(parse_tag("anything else"), EncodingTag::Utf8);
}
