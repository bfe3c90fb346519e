//! Verified text helpers shared across the library: blankness checks,
//! ASCII case folding, substring search, and trimming.

use vstd::prelude::*;

verus! {

/// ASCII whitespace as recognised by the library's blankness and trim rules.
pub open spec fn is_space_char(c: char) -> bool {
    c == ' ' || c == '\t' || c == '\n' || c == '\r'
}

/// A string is blank when every character is whitespace (so in particular
/// when it is empty).
pub open spec fn spec_is_blank(s: Seq<char>) -> bool {
    forall|i: int| 0 <= i < s.len() ==> is_space_char(#[trigger] s[i])
}

/// Relies on `str::chars` and `Iterator::collect` for `Vec`: the result
/// holds exactly the string's characters in order.
#[verifier::external_body]
pub fn str_chars(s: &str) -> (r: Vec<char>)
    ensures
        r@ == s@,
{
    s.chars().collect()
}

/// Relies on `String`'s `FromIterator<char>`: the result is the string of
/// exactly these characters in order.
#[verifier::external_body]
pub fn chars_to_string(v: &Vec<char>) -> (r: String)
    ensures
        r@ == v@,
{
    v.iter().collect()
}

/// Relies on `char::from_u32`: it yields the character with exactly this
/// scalar value, and `None` exactly for surrogate values and values above
/// the largest scalar.
#[verifier::external_body]
pub fn char_from_u32(v: u32) -> (r: Option<char>)
    ensures
        r matches Some(c) ==> c as u32 == v,
        r is None <==> (0xD800 <= v < 0xE000 || v > 0x10FFFF),
{
    char::from_u32(v)
}

/// Relies on `str::from_utf8`: it succeeds exactly on valid UTF-8 and
/// yields the string those bytes encode.
#[verifier::external_body]
pub fn bytes_to_str(bytes: &[u8]) -> (r: Option<&str>)
    ensures
        r is Some <==> vstd::utf8::valid_utf8(bytes@),
        r matches Some(s) ==> s@ == vstd::utf8::decode_utf8(bytes@),
{
    core::str::from_utf8(bytes).ok()
}

/// Returns `true` when the string consists of whitespace only.
pub fn is_blank(s: &str) -> (r: bool)
    ensures
        r == spec_is_blank(s@),
{
    let chars = str_chars(s);
    let mut i: usize = 0;
    while i < chars.len()
        invariant
            chars@ == s@,
            i <= chars@.len(),
            forall|j: int| 0 <= j < i ==> is_space_char(#[trigger] chars@[j]),
        decreases chars@.len() - i,
    {
        let c = chars[i];
        if !(c == ' ' || c == '\t' || c == '\n' || c == '\r') {
            return false;
        }
        i = i + 1;
    }
    true
}

/// ASCII lower-casing of one character; other characters are unchanged.
pub open spec fn spec_lower_char(c: char) -> char {
    if 'A' <= c && c <= 'Z' {
        (((c as u32) + 32) as u8) as char
    } else {
        c
    }
}

/// Character-wise ASCII lower-casing of a character sequence.
pub open spec fn spec_lower(s: Seq<char>) -> Seq<char> {
    Seq::new(s.len(), |i: int| spec_lower_char(s[i]))
}

/// Lower-cases one ASCII letter, leaving all other characters unchanged.
pub fn lower_char(c: char) -> (r: char)
    ensures
        r == spec_lower_char(c),
{
    if c >= 'A' && c <= 'Z' {
        (((c as u32) + 32) as u8) as char
    } else {
        c
    }
}

/// Returns the characters of `s` with ASCII letters lower-cased.
pub fn lower_chars(s: &str) -> (r: Vec<char>)
    ensures
        r@ == spec_lower(s@),
{
    let chars = str_chars(s);
    let mut out: Vec<char> = Vec::new();
    let mut i: usize = 0;
    while i < chars.len()
        invariant
            chars@ == s@,
            i <= chars@.len(),
            out@.len() == i,
            forall|j: int| 0 <= j < i ==> out@[j] == spec_lower_char(#[trigger] chars@[j]),
        decreases chars@.len() - i,
    {
        let c = chars[i];
        out.push(lower_char(c));
        i = i + 1;
    }
    assert(out@ =~= spec_lower(s@));
    out
}

/// `s` ends with `suffix`.
pub open spec fn spec_ends_with(s: Seq<char>, suffix: Seq<char>) -> bool {
    s.len() >= suffix.len() && s.subrange(s.len() - suffix.len(), s.len() as int) == suffix
}

/// Returns `true` when `s` ends with `suffix`.
pub fn ends_with(s: &str, suffix: &str) -> (r: bool)
    ensures
        r == spec_ends_with(s@, suffix@),
{
    let sc = str_chars(s);
    let tc = str_chars(suffix);
    if sc.len() < tc.len() {
        return false;
    }
    let offset = sc.len() - tc.len();
    let mut i: usize = 0;
    while i < tc.len()
        invariant
            sc@ == s@,
            tc@ == suffix@,
            offset == sc@.len() - tc@.len(),
            sc@.len() <= usize::MAX,
            i <= tc@.len(),
            forall|j: int| 0 <= j < i ==> sc@[offset + j] == #[trigger] tc@[j],
        decreases tc@.len() - i,
    {
        if !(sc[offset + i] == tc[i]) {
            assert(s@.subrange(s@.len() - suffix@.len(), s@.len() as int)[i as int] != suffix@[i as int]);
            return false;
        }
        i = i + 1;
    }
    assert(s@.subrange(s@.len() - suffix@.len(), s@.len() as int) =~= suffix@);
    true
}

/// Two strings hold the same characters.
pub fn str_eq(a: &str, b: &str) -> (r: bool)
    ensures
        r == (a@ == b@),
{
    let ac = str_chars(a);
    let bc = str_chars(b);
    if ac.len() != bc.len() {
        return false;
    }
    let mut i: usize = 0;
    while i < ac.len()
        invariant
            ac@ == a@,
            bc@ == b@,
            ac@.len() == bc@.len(),
            i <= ac@.len(),
            forall|j: int| 0 <= j < i ==> ac@[j] == #[trigger] bc@[j],
        decreases ac@.len() - i,
    {
        if !(ac[i] == bc[i]) {
            return false;
        }
        i = i + 1;
    }
    assert(a@ =~= b@);
    true
}

/// First index at or after `from` where `needle` occurs in `hay`, if any.
pub open spec fn spec_find_from(hay: Seq<char>, needle: Seq<char>, from: int) -> Option<int>
    decreases hay.len() + 1 - from,
        when 0 <= from <= hay.len() + 1
{
    if from + needle.len() > hay.len() {
        None
    } else if hay.subrange(from, from + needle.len()) == needle {
        Some(from)
    } else {
        spec_find_from(hay, needle, from + 1)
    }
}

/// First index where `needle` occurs in `hay`, if any.
pub open spec fn spec_find(hay: Seq<char>, needle: Seq<char>) -> Option<int> {
    spec_find_from(hay, needle, 0)
}

/// Checks whether `needle` occurs in `hay` starting exactly at `at`.
fn matches_at(hay: &Vec<char>, needle: &Vec<char>, at: usize) -> (r: bool)
    requires
        at + needle@.len() <= hay@.len(),
    ensures
        r == (hay@.subrange(at as int, at + needle@.len()) == needle@),
{
    let hay_len = hay.len();
    let mut i: usize = 0;
    while i < needle.len()
        invariant
            at + needle@.len() <= hay@.len(),
            hay_len == hay@.len(),
            i <= needle@.len(),
            forall|j: int| 0 <= j < i ==> hay@[at + j] == #[trigger] needle@[j],
        decreases needle@.len() - i,
    {
        if !(hay[at + i] == needle[i]) {
            assert(hay@.subrange(at as int, at + needle@.len())[i as int] != needle@[i as int]);
            return false;
        }
        i = i + 1;
    }
    assert(hay@.subrange(at as int, at + needle@.len()) =~= needle@);
    true
}

/// Returns the first index where `needle` occurs in `hay`.
pub fn find_first(hay: &Vec<char>, needle: &Vec<char>) -> (r: Option<usize>)
    ensures
        r matches Some(p) ==> spec_find(hay@, needle@) == Some(p as int),
        r is None ==> spec_find(hay@, needle@) is None,
{
    if needle.len() > hay.len() {
        assert(spec_find_from(hay@, needle@, 0) is None);
        return None;
    }
    if needle.len() == 0 {
        assert(hay@.subrange(0, 0) =~= needle@);
        return Some(0);
    }
    let hay_len = hay.len();
    let last = hay.len() - needle.len();
    let mut i: usize = 0;
    while i <= last
        invariant
            1 <= needle@.len() <= hay@.len(),
            hay_len == hay@.len(),
            last == hay@.len() - needle@.len(),
            i <= last + 1,
            spec_find(hay@, needle@) == spec_find_from(hay@, needle@, i as int),
        decreases last + 1 - i,
    {
        if matches_at(hay, needle, i) {
            return Some(i);
        }
        i = i + 1;
    }
    assert(spec_find_from(hay@, needle@, i as int) is None);
    None
}

/// A found occurrence lies inside the haystack.
pub proof fn lemma_find_from_bounds(hay: Seq<char>, needle: Seq<char>, from: int)
    requires
        0 <= from <= hay.len() + 1,
    ensures
        spec_find_from(hay, needle, from) matches Some(p) ==> from <= p && p + needle.len()
            <= hay.len(),
    decreases hay.len() + 1 - from,
{
    if from + needle.len() > hay.len() {
    } else if hay.subrange(from, from + needle.len()) == needle {
    } else {
        lemma_find_from_bounds(hay, needle, from + 1);
    }
}

/// The characters of `v` are exactly those of `s`.
pub fn chars_eq_str(v: &Vec<char>, s: &str) -> (r: bool)
    ensures
        r == (v@ == s@),
{
    let sc = str_chars(s);
    if v.len() != sc.len() {
        return false;
    }
    let mut i: usize = 0;
    while i < v.len()
        invariant
            sc@ == s@,
            v@.len() == sc@.len(),
            i <= v@.len(),
            forall|j: int| 0 <= j < i ==> v@[j] == #[trigger] sc@[j],
        decreases v@.len() - i,
    {
        if !(v[i] == sc[i]) {
            return false;
        }
        i = i + 1;
    }
    assert(v@ =~= s@);
    true
}

/// Number of leading whitespace characters.
pub open spec fn spec_leading_spaces(s: Seq<char>, from: int) -> int
    recommends
        0 <= from <= s.len(),
    decreases s.len() - from,
{
    if from < s.len() && is_space_char(s[from]) {
        spec_leading_spaces(s, from + 1)
    } else {
        from
    }
}

/// Number of characters kept from the front when trailing whitespace is
/// removed, scanning down from `upto`.
pub open spec fn spec_trailing_keep(s: Seq<char>, upto: int) -> int
    recommends
        0 <= upto <= s.len(),
    decreases upto,
{
    if upto > 0 && is_space_char(s[upto - 1]) {
        spec_trailing_keep(s, upto - 1)
    } else {
        upto
    }
}

/// Bounds for the trailing-whitespace scan: it never moves past `upto`.
pub proof fn lemma_trailing_keep_le(s: Seq<char>, upto: int)
    requires
        0 <= upto <= s.len(),
    ensures
        0 <= spec_trailing_keep(s, upto) <= upto,
    decreases upto,
{
    if upto > 0 && is_space_char(s[upto - 1]) {
        lemma_trailing_keep_le(s, upto - 1);
    }
}

/// The sequence with leading and trailing whitespace removed.
pub open spec fn spec_trim(s: Seq<char>) -> Seq<char> {
    let start = spec_leading_spaces(s, 0);
    let end = spec_trailing_keep(s, s.len() as int);
    if start <= end {
        s.subrange(start, end)
    } else {
        Seq::empty()
    }
}

/// Returns the characters of `v` with leading and trailing whitespace
/// removed.
pub fn trim_chars(v: &Vec<char>) -> (r: Vec<char>)
    ensures
        r@ == spec_trim(v@),
{
    let mut start: usize = 0;
    while start < v.len() && (v[start] == ' ' || v[start] == '\t' || v[start] == '\n' || v[start]
        == '\r')
        invariant
            start <= v@.len(),
            spec_leading_spaces(v@, 0) == spec_leading_spaces(v@, start as int),
        decreases v@.len() - start,
    {
        start = start + 1;
    }
    let mut end: usize = v.len();
    while end > start && (v[end - 1] == ' ' || v[end - 1] == '\t' || v[end - 1] == '\n' || v[end
        - 1] == '\r')
        invariant
            start <= end <= v@.len(),
            spec_leading_spaces(v@, 0) == start,
            spec_trailing_keep(v@, v@.len() as int) == spec_trailing_keep(v@, end as int),
        decreases end,
    {
        end = end - 1;
    }
    let mut out: Vec<char> = Vec::new();
    let mut i: usize = start;
    while i < end
        invariant
            start <= end <= v@.len(),
            start <= i <= end,
            out@ == v@.subrange(start as int, i as int),
        decreases end - i,
    {
        out.push(v[i]);
        assert(out@ =~= v@.subrange(start as int, i + 1));
        i = i + 1;
    }
    proof {
        lemma_trailing_keep_le(v@, end as int);
        if end > start {
            assert(spec_trailing_keep(v@, end as int) == end);
        }
        assert(out@ =~= spec_trim(v@));
    }
    out
}

} // verus!
