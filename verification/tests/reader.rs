use kotoori::DecodeError;
use kotoori::EncodingTag;
use kotoori::ReadError;
use kotoori::clean_font_name;
use kotoori::parse_fc_list_line;
use kotoori::trim_blanks;
use kotoori::default_fonts;
use kotoori::read_text_from_bytes;
use kotoori::unique_candidate_name;

#[test]
fn reading_binary_content_fails_with_no_text() {
    let png: [u8; 8] = [0x89, 0x50, 0x4E, 0x47, 0x0D, 0x0A, 0x1A, 0x0A];
    let r = read_text_from_bytes(&png, None);
    match r {
        Err(ReadError::BinaryFile) => {}
        _ => panic!("expected the binary-file error"),
    }
}

#[test]
fn reading_marked_but_invalid_content_fails_strictly() {
    let buf: [u8; 4] = [0xEF, 0xBB, 0xBF, 0xFF];
    match read_text_from_bytes(&buf, None) {
        Err(e) => assert_eq!(e, ReadError::Decode(DecodeError::InvalidUtf8Bom)),
        Ok(_) => panic!("expected a strict decode failure"),
    }
}

#[test]
fn reading_plain_text_returns_text_and_tag() {
    let r = read_text_from_bytes(b"hello", None).unwrap();
    assert_eq!(r.content, "hello");
    assert_eq!(r.encoding, EncodingTag::Utf8);
}

#[test]
fn reading_empty_buffer_gives_empty_utf8_text() {
    let r = read_text_from_bytes(&[], None).unwrap();
    assert_eq!(r.content, "");
    assert_eq!(r.encoding, EncodingTag::Utf8);
}

#[test]
fn reading_bom_content_strips_the_mark() {
    let r = read_text_from_bytes(&[0xEF, 0xBB, 0xBF, 0x68, 0x69], None).unwrap();
    assert_eq!(r.content, "hi");
    assert_eq!(r.encoding, EncodingTag::Utf8Bom);
}

#[test]
fn reading_shift_jis_content_detects_and_decodes() {
    let r = read_text_from_bytes(&[0x82, 0xA0], None).unwrap();
    assert_eq!(r.content, "あ");
    assert_eq!(r.encoding, EncodingTag::ShiftJis);
}

#[test]
fn forced_tag_bypasses_detection() {
    // These bytes would detect as Shift-JIS; forcing UTF-8 decodes lossily.
    let r = read_text_from_bytes(&[0x82, 0xA0], Some(EncodingTag::Utf8)).unwrap();
    assert_eq!(r.encoding, EncodingTag::Utf8);
    assert_eq!(r.content, "\u{FFFD}\u{FFFD}");
}

#[test]
fn unique_name_is_stem_underscore_timestamp_extension() {
    assert_eq!(unique_candidate_name("notes", "202501011200", ".txt"), "notes_202501011200.txt");
    assert_eq!(unique_candidate_name("file", "202501011200", ""), "file_202501011200");
}

#[test]
fn default_font_list_is_fixed() {
    let fonts = default_fonts();
    assert_eq!(
        fonts,
        vec!["Meiryo", "MS Gothic", "Yu Gothic", "Arial", "Courier New"]
    );
}

#[test]
fn trim_removes_blank_edges_only() {
    assert_eq!(trim_blanks("  Hiragino Sans \t\r\n"), "Hiragino Sans");
    assert_eq!(trim_blanks("Osaka"), "Osaka");
    assert_eq!(trim_blanks("   \t  "), "");
    assert_eq!(trim_blanks(""), "");
}

#[test]
fn fc_list_line_yields_the_family_between_the_first_two_colons() {
    assert_eq!(
        parse_fc_list_line("/usr/share/fonts/noto.ttf: Noto Sans CJK JP:style=Regular"),
        Some("Noto Sans CJK JP".to_string())
    );
    assert_eq!(parse_fc_list_line("no colons here"), None);
    assert_eq!(parse_fc_list_line("/usr/share/fonts/one.ttf: only one colon"), None);
    assert_eq!(parse_fc_list_line("a:   :style"), None);
    assert_eq!(parse_fc_list_line(":x:"), Some("x".to_string()));
}

#[test]
fn font_stem_cleanup_strips_weight_suffix() {
    assert_eq!(clean_font_name("HiraginoSans-W3"), "HiraginoSans");
    assert_eq!(clean_font_name("Arial"), "Arial");
    assert_eq!(clean_font_name("Noto-Sans-CJK"), "Noto");
    assert_eq!(clean_font_name(""), "");
    assert_eq!(clean_font_name("-W3"), "");
}
