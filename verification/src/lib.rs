//! Text-encoding detection and a safe decode/encode pipeline.
//!
//! Given an arbitrary byte buffer, the library decides whether it is binary
//! or text, detects its probable encoding among UTF-8, UTF-8 with a
//! byte-order mark, and Shift-JIS, decodes it to a string, and re-encodes
//! the string back to bytes so that a later save reproduces the original
//! byte-level framing.

mod classify;
mod codec;
mod fonts;
mod reader;
mod utf8scan;

pub use classify::CONTROL_RATIO_DEN;
pub use classify::CONTROL_RATIO_NUM;
pub use classify::count_control;
pub use classify::count_nul;
pub use classify::has_magic_prefix;
pub use classify::is_binary_bytes;
pub use classify::is_control_byte;
pub use classify::lemma_magic_prefix_is_binary;
pub use classify::lemma_magic_prefix_stable;
pub use classify::spec_is_binary;
pub use codec::DecodeError;
pub use codec::EncodingTag;
pub use codec::SJIS_RATIO_DEN;
pub use codec::SJIS_RATIO_NUM;
pub use codec::bom_seq;
pub use codec::decode_bytes;
pub use codec::detect_encoding;
pub use codec::encode_content;
pub use codec::has_utf8_bom;
pub use codec::is_sjis_lead;
pub use codec::is_sjis_trail;
pub use codec::lemma_bom_round_trip;
pub use codec::lemma_encode_then_decode;
pub use codec::lemma_tag_name_parse;
pub use codec::lemma_utf8_detect_decode;
pub use codec::lossy_chars_of;
pub use codec::parse_tag;
pub use codec::sjis_bytes_of;
pub use codec::sjis_chars_of;
pub use codec::sjis_score;
pub use codec::spec_decode;
pub use codec::spec_detect;
pub use codec::spec_encode;
pub use codec::spec_parse_tag;
pub use codec::spec_tag_name;
pub use codec::tag_name;
pub use fonts::clean_font_name;
pub use fonts::default_fonts;
pub use fonts::hyphen_prefix_len;
pub use fonts::is_blank;
pub use fonts::leading_blanks;
pub use fonts::parse_fc_list_line;
pub use fonts::prefix_len_until;
pub use fonts::spec_clean_font_name;
pub use fonts::spec_parse_fc_line;
pub use fonts::spec_trim_blanks;
pub use fonts::trailing_blanks;
pub use fonts::trim_blanks;
pub use reader::ReadError;
pub use reader::ReadFileResult;
pub use reader::read_text_from_bytes;
pub use reader::spec_read;
pub use reader::unique_candidate_name;
pub use utf8scan::is_utf8;
