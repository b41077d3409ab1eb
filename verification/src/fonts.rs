//! Font-name helpers: the fallback list used when the host platform
//! offers no font enumeration, the cleanup that strips a weight or style
//! suffix from a font file's stem, and the parser for one line of a font
//! listing in the `path: Family:style=...` shape.

use vstd::prelude::*;
use vstd::string::StrSliceExecFns;

verus! {

/// The index of the first occurrence of `stop` in the sequence, or the
/// sequence's length when it does not occur.
pub open spec fn prefix_len_until(s: Seq<char>, stop: char) -> int
    decreases s.len(),
{
    if s.len() == 0 {
        0
    } else if s[0] == stop {
        0
    } else {
        1 + prefix_len_until(s.drop_first(), stop)
    }
}

proof fn lemma_prefix_len_until_of(s: Seq<char>, stop: char, i: int)
    requires
        0 <= i <= s.len(),
        forall|k: int| 0 <= k < i ==> s[k] != stop,
        i < s.len() ==> s[i] == stop,
    ensures
        prefix_len_until(s, stop) == i,
    decreases i,
{
    if i == 0 {
    } else {
        assert(s[0] != stop);
        lemma_prefix_len_until_of(s.drop_first(), stop, i - 1);
    }
}

/// The number of leading characters of the name before its first hyphen;
/// the whole length when the name has none.
pub open spec fn hyphen_prefix_len(s: Seq<char>) -> int {
    prefix_len_until(s, '-')
}

/// What cleaning a font file stem yields: the part before the first
/// hyphen, so a weight suffix such as `-W3` is dropped.
pub open spec fn spec_clean_font_name(s: Seq<char>) -> Seq<char> {
    s.take(hyphen_prefix_len(s))
}

/// Strips the hyphen-separated weight or style suffix from a font file
/// stem and returns the base name.
pub fn clean_font_name(stem: &str) -> (r: String)
    ensures
        r@ == spec_clean_font_name(stem@),
{
    let n = stem.unicode_len();
    let mut i: usize = 0;
    while i < n
        invariant
            n == stem@.len(),
            i <= n,
            forall|k: int| 0 <= k < i ==> stem@[k] != '-',
        decreases n - i,
    {
        if stem.get_char(i) == '-' {
            proof {
                lemma_prefix_len_until_of(stem@, '-', i as int);
            }
            let prefix = stem.substring_char(0, i);
            proof {
                assert(prefix@ =~= stem@.take(i as int));
            }
            return prefix.to_owned();
        }
        i += 1;
    }
    proof {
        lemma_prefix_len_until_of(stem@, '-', n as int);
        assert(stem@.take(n as int) =~= stem@);
    }
    stem.to_owned()
}

/// The blank characters that trimming removes: space, tab, carriage
/// return and line feed.
pub open spec fn is_blank(c: char) -> bool {
    c == ' ' || c == '\t' || c == '\r' || c == '\n'
}

/// The number of blank characters at the front of the sequence.
pub open spec fn leading_blanks(s: Seq<char>) -> int
    decreases s.len(),
{
    if s.len() == 0 {
        0
    } else if is_blank(s[0]) {
        1 + leading_blanks(s.drop_first())
    } else {
        0
    }
}

/// The number of blank characters at the back of the sequence.
pub open spec fn trailing_blanks(s: Seq<char>) -> int
    decreases s.len(),
{
    if s.len() == 0 {
        0
    } else if is_blank(s.last()) {
        1 + trailing_blanks(s.drop_last())
    } else {
        0
    }
}

/// The sequence with its blank edges removed: empty when it is blank
/// throughout, and otherwise the span from its first to its last
/// non-blank character.
pub open spec fn spec_trim_blanks(s: Seq<char>) -> Seq<char> {
    if leading_blanks(s) == s.len() {
        Seq::empty()
    } else {
        s.subrange(leading_blanks(s), s.len() - trailing_blanks(s))
    }
}

proof fn lemma_leading_blanks_of(s: Seq<char>, i: int)
    requires
        0 <= i <= s.len(),
        forall|k: int| 0 <= k < i ==> is_blank(s[k]),
        i < s.len() ==> !is_blank(s[i]),
    ensures
        leading_blanks(s) == i,
    decreases i,
{
    if i == 0 {
    } else {
        assert(is_blank(s[0]));
        lemma_leading_blanks_of(s.drop_first(), i - 1);
    }
}

proof fn lemma_trailing_blanks_of(s: Seq<char>, j: int)
    requires
        0 <= j <= s.len(),
        forall|k: int| s.len() - j <= k < s.len() ==> is_blank(s[k]),
        j < s.len() ==> !is_blank(s[s.len() - 1 - j]),
    ensures
        trailing_blanks(s) == j,
    decreases j,
{
    if j == 0 {
    } else {
        assert(is_blank(s.last()));
        lemma_trailing_blanks_of(s.drop_last(), j - 1);
    }
}

fn is_blank_char(c: char) -> (r: bool)
    ensures
        r == is_blank(c),
{
    c == ' ' || c == '\t' || c == '\r' || c == '\n'
}

/// Removes blank characters from both ends of the name.
pub fn trim_blanks(s: &str) -> (r: String)
    ensures
        r@ == spec_trim_blanks(s@),
{
    let n = s.unicode_len();
    let mut lo: usize = 0;
    while lo < n && is_blank_char(s.get_char(lo))
        invariant
            n == s@.len(),
            lo <= n,
            forall|k: int| 0 <= k < lo ==> is_blank(s@[k]),
        decreases n - lo,
    {
        lo += 1;
    }
    proof {
        lemma_leading_blanks_of(s@, lo as int);
    }
    if lo == n {
        return String::new();
    }
    let mut hi: usize = n;
    while hi > lo && is_blank_char(s.get_char(hi - 1))
        invariant
            n == s@.len(),
            lo <= hi <= n,
            lo < n,
            !is_blank(s@[lo as int]),
            forall|k: int| hi <= k < n ==> is_blank(s@[k]),
        decreases hi,
    {
        hi -= 1;
    }
    proof {
        assert(hi > lo);
        lemma_trailing_blanks_of(s@, n as int - hi as int);
    }
    let mid = s.substring_char(lo, hi);
    proof {
        assert(mid@ =~= spec_trim_blanks(s@));
    }
    mid.to_owned()
}

/// What parsing one font-listing line yields. A line reads
/// `path: Family:style=...`; the text between the first and second colon,
/// with its blank edges removed, is the family name. A line without two
/// colons, or with nothing but blanks between them, yields no name.
pub open spec fn spec_parse_fc_line(s: Seq<char>) -> Option<Seq<char>> {
    let c1 = prefix_len_until(s, ':');
    if c1 == s.len() {
        None
    } else {
        let rest = s.skip(c1 + 1);
        let c2 = prefix_len_until(rest, ':');
        if c2 == rest.len() {
            None
        } else {
            let family = spec_trim_blanks(rest.take(c2));
            if family.len() == 0 {
                None
            } else {
                Some(family)
            }
        }
    }
}

/// Parses one line of a font listing and returns the family name between
/// the line's first two colons, trimmed, when there is one.
pub fn parse_fc_list_line(line: &str) -> (r: Option<String>)
    ensures
        (r matches Some(f) ==> spec_parse_fc_line(line@) == Some(f@)),
        r is None ==> spec_parse_fc_line(line@) is None,
{
    let n = line.unicode_len();
    let mut i: usize = 0;
    while i < n && line.get_char(i) != ':'
        invariant
            n == line@.len(),
            i <= n,
            forall|k: int| 0 <= k < i ==> line@[k] != ':',
        decreases n - i,
    {
        i += 1;
    }
    proof {
        lemma_prefix_len_until_of(line@, ':', i as int);
    }
    if i == n {
        return None;
    }
    let mut j: usize = i + 1;
    while j < n && line.get_char(j) != ':'
        invariant
            n == line@.len(),
            i + 1 <= j <= n,
            forall|k: int| i + 1 <= k < j ==> line@[k] != ':',
        decreases n - j,
    {
        j += 1;
    }
    let ghost rest = line@.skip(i as int + 1);
    proof {
        lemma_prefix_len_until_of(rest, ':', j as int - i as int - 1);
    }
    if j == n {
        return None;
    }
    let span = line.substring_char(i + 1, j);
    proof {
        assert(span@ =~= rest.take(j as int - i as int - 1));
    }
    let family = trim_blanks(span);
    if family.as_str().is_empty() {
        None
    } else {
        Some(family)
    }
}

/// The fixed fallback font list, offered when the host platform cannot be
/// queried or reports nothing.
pub fn default_fonts() -> (r: Vec<String>)
    ensures
        r@.len() == 5,
        r@[0]@ == "Meiryo"@,
        r@[1]@ == "MS Gothic"@,
        r@[2]@ == "Yu Gothic"@,
        r@[3]@ == "Arial"@,
        r@[4]@ == "Courier New"@,
{
    let mut v: Vec<String> = Vec::new();
    v.push("Meiryo".to_owned());
    v.push("MS Gothic".to_owned());
    v.push("Yu Gothic".to_owned());
    v.push("Arial".to_owned());
    v.push("Courier New".to_owned());
    v
}

} // verus!
