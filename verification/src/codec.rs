//! Encoding detection and byte/text conversion for the three supported
//! encodings: UTF-8, UTF-8 with a byte-order mark, and Shift-JIS.
//!
//! UTF-8 conversions are stated against the byte-level specification of
//! `vstd::utf8`. Shift-JIS conversions go through `encoding_rs`; what its
//! tables produce is abstracted by the named results `sjis_chars_of` and
//! `sjis_bytes_of`.

use vstd::prelude::*;
use vstd::slice::slice_subrange;
use vstd::utf8::valid_utf8;
use vstd::utf8::decode_utf8;
use vstd::utf8::encode_utf8;
use vstd::utf8::encode_utf8_valid_utf8;
use vstd::utf8::encode_utf8_decode_utf8;
use vstd::utf8::decode_utf8_encode_utf8;
use vstd::string::StrSliceExecFns;

use crate::utf8scan::is_utf8;

verus! {

/// The encoding a buffer was detected to hold, or that a caller forces.
/// Exactly one tag belongs to any successful decode, and that tag is the
/// one that re-encodes the text losslessly.
#[derive(Clone, Copy, Debug, PartialEq, Eq, Structural)]
pub enum EncodingTag {
    Utf8,
    Utf8Bom,
    ShiftJis,
}

/// A strict decode failure. Only the byte-order-mark tag decodes strictly,
/// so this is the only error a decode can raise.
#[derive(Clone, Copy, Debug, PartialEq, Eq, Structural)]
pub enum DecodeError {
    InvalidUtf8Bom,
}

/// The three bytes of the UTF-8 byte-order mark.
pub open spec fn bom_seq() -> Seq<u8> {
    seq![0xEFu8, 0xBBu8, 0xBFu8]
}

/// True when the buffer starts with the UTF-8 byte-order mark.
pub open spec fn has_utf8_bom(b: Seq<u8>) -> bool {
    b.len() >= 3 && b[0] == 0xEF && b[1] == 0xBB && b[2] == 0xBF
}

/// Shift-JIS lead-byte ranges.
pub open spec fn is_sjis_lead(v: u8) -> bool {
    (0x81 <= v && v <= 0x9F) || (0xE0 <= v && v <= 0xEF)
}

/// Shift-JIS trail-byte ranges.
pub open spec fn is_sjis_trail(v: u8) -> bool {
    (0x40 <= v && v <= 0x7E) || (0x80 <= v && v <= 0xFC)
}

/// Numerator of the Shift-JIS score threshold: a buffer whose score
/// exceeds the fraction `SJIS_RATIO_NUM / SJIS_RATIO_DEN` of its length
/// is taken for Shift-JIS. An empirical tuning constant: changing it
/// changes observable detection behaviour.
pub const SJIS_RATIO_NUM: u64 = 2;

/// Denominator of the Shift-JIS score threshold.
pub const SJIS_RATIO_DEN: u64 = 5;

/// Shift-JIS plausibility score of a buffer: a scan that counts two for
/// every confirmed lead/trail pair and skips it, and advances by one byte
/// otherwise.
pub open spec fn sjis_score(b: Seq<u8>) -> nat
    decreases b.len(),
{
    if b.len() == 0 {
        0
    } else if is_sjis_lead(b[0]) && b.len() >= 2 && is_sjis_trail(b[1]) {
        (2 + sjis_score(b.skip(2))) as nat
    } else {
        sjis_score(b.skip(1))
    }
}

/// The detected encoding of a buffer: the byte-order mark is authoritative;
/// next, whole-buffer UTF-8 validity; next, a Shift-JIS score above the
/// threshold ratio; UTF-8 is the fallback.
pub open spec fn spec_detect(b: Seq<u8>) -> EncodingTag {
    if has_utf8_bom(b) {
        EncodingTag::Utf8Bom
    } else if valid_utf8(b) {
        EncodingTag::Utf8
    } else if SJIS_RATIO_DEN * sjis_score(b) > SJIS_RATIO_NUM * b.len() {
        EncodingTag::ShiftJis
    } else {
        EncodingTag::Utf8
    }
}

/// What `String::from_utf8_lossy` returns: the buffer's characters with
/// every malformed sequence replaced by the replacement character.
pub uninterp spec fn lossy_chars_of(b: Seq<u8>) -> Seq<char>;

/// What the Shift-JIS decode of `encoding_rs` returns for a whole buffer.
pub uninterp spec fn sjis_chars_of(b: Seq<u8>) -> Seq<char>;

/// What the Shift-JIS encode of `encoding_rs` returns for a whole string.
pub uninterp spec fn sjis_bytes_of(s: Seq<char>) -> Seq<u8>;

/// The decode result for a buffer under a tag. The byte-order-mark tag
/// strips three bytes and requires the remainder to be strictly valid;
/// the other two tags never fail.
pub open spec fn spec_decode(b: Seq<u8>, tag: EncodingTag) -> Result<Seq<char>, DecodeError> {
    match tag {
        EncodingTag::Utf8Bom => {
            if valid_utf8(b.skip(3)) {
                Ok(decode_utf8(b.skip(3)))
            } else {
                Err(DecodeError::InvalidUtf8Bom)
            }
        },
        EncodingTag::ShiftJis => Ok(sjis_chars_of(b)),
        EncodingTag::Utf8 => {
            if valid_utf8(b) {
                Ok(decode_utf8(b))
            } else {
                Ok(lossy_chars_of(b))
            }
        },
    }
}

/// The encoded bytes of a text under a tag.
pub open spec fn spec_encode(s: Seq<char>, tag: EncodingTag) -> Seq<u8> {
    match tag {
        EncodingTag::Utf8Bom => bom_seq() + encode_utf8(s),
        EncodingTag::ShiftJis => sjis_bytes_of(s),
        EncodingTag::Utf8 => encode_utf8(s),
    }
}

/// Relies on `String::from_utf8`: it succeeds exactly on valid UTF-8 input,
/// and the returned string holds exactly the given bytes.
#[verifier::external_body]
fn string_from_utf8(bytes: &[u8]) -> (r: Option<String>)
    ensures
        r is Some <==> valid_utf8(bytes@),
        r matches Some(s) ==> encode_utf8(s@) == bytes@,
{
    String::from_utf8(bytes.to_vec()).ok()
}

/// Relies on `String::from_utf8_lossy`: malformed sequences are replaced
/// with the replacement character, and valid UTF-8 input comes back as the
/// very bytes that went in.
#[verifier::external_body]
fn string_from_utf8_lossy(bytes: &[u8]) -> (r: String)
    ensures
        r@ == lossy_chars_of(bytes@),
        valid_utf8(bytes@) ==> encode_utf8(r@) == bytes@,
        bytes@.len() == 0 ==> r@.len() == 0,
{
    String::from_utf8_lossy(bytes).into_owned()
}

/// Relies on `encoding_rs::SHIFT_JIS`'s `decode` (the WHATWG decode
/// concept, byte-order-mark sniffing included): the result depends on the
/// input bytes alone, and empty input decodes to the empty string. The
/// length bound keeps its output-size calculation from overflowing.
#[verifier::external_body]
fn sjis_decode(bytes: &[u8]) -> (r: String)
    requires
        bytes@.len() <= usize::MAX / 4,
    ensures
        r@ == sjis_chars_of(bytes@),
        bytes@.len() == 0 ==> r@.len() == 0,
{
    let (cow, _, _) = encoding_rs::SHIFT_JIS.decode(bytes);
    cow.into_owned()
}

/// Relies on `encoding_rs::SHIFT_JIS`'s `encode` (the WHATWG encode
/// concept): the result depends on the input characters alone, and the
/// empty string encodes to no bytes. The length bound keeps its
/// output-size calculation from overflowing.
#[verifier::external_body]
fn sjis_encode(content: &str) -> (r: Vec<u8>)
    requires
        content@.len() <= usize::MAX / 16,
    ensures
        r@ == sjis_bytes_of(content@),
        content@.len() == 0 ==> r@.len() == 0,
{
    let (cow, _, _) = encoding_rs::SHIFT_JIS.encode(content);
    cow.into_owned()
}

/// Detects the probable encoding of a text buffer.
pub fn detect_encoding(bytes: &[u8]) -> (r: EncodingTag)
    ensures
        r == spec_detect(bytes@),
{
    let n = bytes.len();
    if n >= 3 && bytes[0] == 0xEF && bytes[1] == 0xBB && bytes[2] == 0xBF {
        return EncodingTag::Utf8Bom;
    }
    if is_utf8(bytes) {
        return EncodingTag::Utf8;
    }
    let mut score: usize = 0;
    let mut i: usize = 0;
    proof {
        assert(bytes@.skip(0) =~= bytes@);
    }
    while i < n
        invariant
            n == bytes@.len(),
            i <= n,
            score <= i,
            sjis_score(bytes@) == score + sjis_score(bytes@.skip(i as int)),
        decreases n - i,
    {
        let b1 = bytes[i];
        let mut step: usize = 1;
        if (0x81 <= b1 && b1 <= 0x9F) || (0xE0 <= b1 && b1 <= 0xEF) {
            if n - i >= 2 {
                let b2 = bytes[i + 1];
                if (0x40 <= b2 && b2 <= 0x7E) || (0x80 <= b2 && b2 <= 0xFC) {
                    score += 2;
                    step = 2;
                }
            }
        }
        proof {
            let t = bytes@.skip(i as int);
            if step == 2 {
                assert(t.skip(2) =~= bytes@.skip(i as int + 2));
            } else {
                assert(t.skip(1) =~= bytes@.skip(i as int + 1));
            }
        }
        i += step;
    }
    proof {
        assert(bytes@.skip(n as int) =~= Seq::<u8>::empty());
    }
    if (SJIS_RATIO_DEN as u128) * (score as u128) > (SJIS_RATIO_NUM as u128) * (n as u128) {
        EncodingTag::ShiftJis
    } else {
        EncodingTag::Utf8
    }
}

/// Decodes a buffer under the given tag. The byte-order-mark tag is
/// strict: after stripping the three mark bytes the remainder must be
/// valid UTF-8, or the decode fails. The other two tags never fail; their
/// malformed input comes back with replacement characters. On a strict
/// success of the byte-order-mark tag, re-encoding reproduces the buffer
/// bit-exactly, and likewise for valid UTF-8 under the plain tag.
pub fn decode_bytes(bytes: &[u8], tag: EncodingTag) -> (r: Result<String, DecodeError>)
    requires
        tag is Utf8Bom ==> bytes@.len() >= 3,
        tag is ShiftJis ==> bytes@.len() <= usize::MAX / 4,
    ensures
        r is Ok <==> spec_decode(bytes@, tag) is Ok,
        (r matches Ok(s) ==> spec_decode(bytes@, tag) == Ok::<Seq<char>, DecodeError>(s@)),
        (r matches Err(e) ==> spec_decode(bytes@, tag) == Err::<Seq<char>, DecodeError>(e)),
        (r matches Ok(s) ==> ((tag is Utf8Bom && has_utf8_bom(bytes@)) ==> spec_encode(s@, tag)
            == bytes@)),
        (r matches Ok(s) ==> ((tag is Utf8 && valid_utf8(bytes@)) ==> spec_encode(s@, tag)
            == bytes@)),
{
    broadcast use encode_utf8_decode_utf8;

    match tag {
        EncodingTag::Utf8Bom => {
            let rest = slice_subrange(bytes, 3, bytes.len());
            proof {
                assert(rest@ =~= bytes@.skip(3));
            }
            match string_from_utf8(rest) {
                Some(s) => {
                    proof {
                        if has_utf8_bom(bytes@) {
                            assert(bom_seq() + encode_utf8(s@) =~= bytes@);
                        }
                    }
                    Ok(s)
                },
                None => Err(DecodeError::InvalidUtf8Bom),
            }
        },
        EncodingTag::ShiftJis => Ok(sjis_decode(bytes)),
        EncodingTag::Utf8 => {
            match string_from_utf8(bytes) {
                Some(s) => Ok(s),
                None => Ok(string_from_utf8_lossy(bytes)),
            }
        },
    }
}

/// Encodes a text under the given tag; encoding never fails. For the two
/// UTF-8 tags the result decodes back to the very same text, so one full
/// encode/decode cycle loses nothing.
pub fn encode_content(content: &str, tag: EncodingTag) -> (r: Vec<u8>)
    requires
        tag is ShiftJis ==> content@.len() <= usize::MAX / 16,
    ensures
        r@ == spec_encode(content@, tag),
        !(tag is ShiftJis) ==> spec_decode(r@, tag) == Ok::<Seq<char>, DecodeError>(content@),
{
    broadcast use encode_utf8_valid_utf8, encode_utf8_decode_utf8;

    match tag {
        EncodingTag::Utf8Bom => {
            let mut out: Vec<u8> = Vec::new();
            out.push(0xEF);
            out.push(0xBB);
            out.push(0xBF);
            let bs = content.as_bytes();
            let m = bs.len();
            let mut j: usize = 0;
            while j < m
                invariant
                    m == bs@.len(),
                    j <= m,
                    bs@ == encode_utf8(content@),
                    out@ == bom_seq() + bs@.subrange(0, j as int),
                decreases m - j,
            {
                let b = bs[j];
                out.push(b);
                proof {
                    assert(bom_seq() + bs@.subrange(0, j as int + 1) =~= (bom_seq()
                        + bs@.subrange(0, j as int)).push(bs@[j as int]));
                }
                j += 1;
            }
            proof {
                assert(bs@.subrange(0, m as int) =~= bs@);
                assert((bom_seq() + encode_utf8(content@)).skip(3) =~= encode_utf8(content@));
            }
            out
        },
        EncodingTag::ShiftJis => sjis_encode(content),
        EncodingTag::Utf8 => {
            let out = vstd::slice::slice_to_vec(content.as_bytes());
            out
        },
    }
}

/// The display name of a tag, as the host shell exchanges it.
pub open spec fn spec_tag_name(tag: EncodingTag) -> Seq<char> {
    match tag {
        EncodingTag::Utf8 => "UTF-8"@,
        EncodingTag::Utf8Bom => "UTF-8-BOM"@,
        EncodingTag::ShiftJis => "SHIFT-JIS"@,
    }
}

/// The tag a display name stands for; any unrecognised name falls back to
/// plain UTF-8.
pub open spec fn spec_parse_tag(s: Seq<char>) -> EncodingTag {
    if s == "UTF-8-BOM"@ {
        EncodingTag::Utf8Bom
    } else if s == "SHIFT-JIS"@ {
        EncodingTag::ShiftJis
    } else {
        EncodingTag::Utf8
    }
}

fn str_eq(a: &str, b: &str) -> (r: bool)
    ensures
        r == (a@ == b@),
{
    let na = a.unicode_len();
    let nb = b.unicode_len();
    if na != nb {
        return false;
    }
    let mut i: usize = 0;
    while i < na
        invariant
            na == a@.len(),
            nb == b@.len(),
            na == nb,
            i <= na,
            forall|k: int| 0 <= k < i ==> a@[k] == b@[k],
        decreases na - i,
    {
        if a.get_char(i) != b.get_char(i) {
            return false;
        }
        i += 1;
    }
    proof {
        assert(a@ =~= b@);
    }
    true
}

/// The display name of a tag.
pub fn tag_name(tag: EncodingTag) -> (r: String)
    ensures
        r@ == spec_tag_name(tag),
{
    match tag {
        EncodingTag::Utf8 => "UTF-8".to_owned(),
        EncodingTag::Utf8Bom => "UTF-8-BOM".to_owned(),
        EncodingTag::ShiftJis => "SHIFT-JIS".to_owned(),
    }
}

/// Parses a display name back into a tag; unrecognised names fall back to
/// plain UTF-8.
pub fn parse_tag(s: &str) -> (r: EncodingTag)
    ensures
        r == spec_parse_tag(s@),
{
    if str_eq(s, "UTF-8-BOM") {
        EncodingTag::Utf8Bom
    } else if str_eq(s, "SHIFT-JIS") {
        EncodingTag::ShiftJis
    } else {
        EncodingTag::Utf8
    }
}

/// The tag/name association is faithful: parsing a tag's own display name
/// yields that tag back, so the tag that travels with a decoded text
/// survives the trip through the host shell.
pub proof fn lemma_tag_name_parse(tag: EncodingTag)
    ensures
        spec_parse_tag(spec_tag_name(tag)) == tag,
{
    reveal_strlit("UTF-8");
    reveal_strlit("UTF-8-BOM");
    reveal_strlit("SHIFT-JIS");
    assert("UTF-8"@.len() == 5);
    assert("UTF-8-BOM"@.len() == 9);
    assert("SHIFT-JIS"@.len() == 9);
    assert("UTF-8-BOM"@[0] == 'U');
    assert("SHIFT-JIS"@[0] == 'S');
}

/// The byte-order mark is authoritative: any buffer carrying it detects as
/// the byte-order-mark tag, and when the rest of the buffer is valid
/// UTF-8, decoding and re-encoding under that tag is a bit-exact round
/// trip.
pub proof fn lemma_bom_round_trip(b: Seq<u8>)
    requires
        has_utf8_bom(b),
        valid_utf8(b.skip(3)),
    ensures
        spec_detect(b) == EncodingTag::Utf8Bom,
        spec_decode(b, EncodingTag::Utf8Bom) == Ok::<Seq<char>, DecodeError>(
            decode_utf8(b.skip(3)),
        ),
        spec_encode(decode_utf8(b.skip(3)), EncodingTag::Utf8Bom) == b,
{
    broadcast use decode_utf8_encode_utf8;

    assert(bom_seq() + b.skip(3) =~= b);
}

/// A buffer of valid UTF-8 without a byte-order mark detects as plain
/// UTF-8, decodes without loss, and re-encoding its decode reproduces the
/// buffer bit-exactly.
pub proof fn lemma_utf8_detect_decode(b: Seq<u8>)
    requires
        valid_utf8(b),
        !has_utf8_bom(b),
    ensures
        spec_detect(b) == EncodingTag::Utf8,
        spec_decode(b, EncodingTag::Utf8) == Ok::<Seq<char>, DecodeError>(decode_utf8(b)),
        spec_encode(decode_utf8(b), EncodingTag::Utf8) == b,
{
    broadcast use decode_utf8_encode_utf8;

}

/// Decoding recovers exactly what was encoded: for the two UTF-8 tags,
/// decode after encode returns the original text for every text, and a
/// second encode reproduces the same bytes, so a full cycle over bytes
/// produced by `spec_encode` is bit-exact.
pub proof fn lemma_encode_then_decode(s: Seq<char>, tag: EncodingTag)
    requires
        !(tag is ShiftJis),
    ensures
        spec_decode(spec_encode(s, tag), tag) == Ok::<Seq<char>, DecodeError>(s),
        spec_encode(spec_decode(spec_encode(s, tag), tag)->Ok_0, tag) == spec_encode(s, tag),
{
    broadcast use encode_utf8_valid_utf8, encode_utf8_decode_utf8;

    if tag is Utf8Bom {
        assert((bom_seq() + encode_utf8(s)).skip(3) =~= encode_utf8(s));
    }
}

} // verus!
