//! A small JSON scanner over character buffers, used by the wire-contract
//! parsers: whitespace, strings with escapes, unsigned integers, and a
//! generic value skipper for fields the schemas ignore.

use vstd::prelude::*;
use crate::text::{char_from_u32, chars_to_string};

verus! {

/// JSON whitespace.
pub open spec fn spec_json_ws(c: char) -> bool {
    c == ' ' || c == '\t' || c == '\n' || c == '\r'
}

/// Advances past JSON whitespace.
pub(crate) fn skip_ws(chars: &Vec<char>, pos: usize) -> (r: usize)
    requires
        pos <= chars@.len(),
    ensures
        pos <= r <= chars@.len(),
        forall|j: int| pos <= j < r ==> spec_json_ws(#[trigger] chars@[j]),
        r < chars@.len() ==> !spec_json_ws(chars@[r as int]),
{
    let mut i = pos;
    while i < chars.len() && (chars[i] == ' ' || chars[i] == '\t' || chars[i] == '\n' || chars[i]
        == '\r')
        invariant
            pos <= i <= chars@.len(),
            forall|j: int| pos <= j < i ==> spec_json_ws(#[trigger] chars@[j]),
        decreases chars@.len() - i,
    {
        i = i + 1;
    }
    i
}

/// Value of one hexadecimal digit character.
fn hex_val(c: char) -> (r: Option<u32>)
    ensures
        r matches Some(v) ==> v < 16,
{
    if c >= '0' && c <= '9' {
        Some((c as u32) - 48)
    } else if c >= 'a' && c <= 'f' {
        Some((c as u32) - 87)
    } else if c >= 'A' && c <= 'F' {
        Some((c as u32) - 55)
    } else {
        None
    }
}

/// Reads four hexadecimal digits starting at `pos`.
fn parse_hex4(chars: &Vec<char>, pos: usize) -> (r: Option<u32>)
    requires
        pos <= chars@.len(),
    ensures
        r matches Some(v) ==> v < 65536,
        r is Some ==> pos + 4 <= chars@.len(),
{
    if pos >= chars.len() || chars.len() - pos < 4 {
        return None;
    }
    let mut value: u32 = 0;
    let mut k: usize = 0;
    while k < 4
        invariant
            pos + 4 <= chars@.len(),
            chars@.len() <= usize::MAX,
            k <= 4,
            value < 65536,
        decreases 4 - k,
    {
        let d = match hex_val(chars[pos + k]) {
            Some(d) => d,
            None => { return None },
        };
        if value >= 4096 {
            return None;
        }
        value = value * 16 + d;
        k = k + 1;
    }
    Some(value)
}

/// Position of the quote closing an escape-free string body that starts
/// at `i`: the first quote at or after `i`, provided no backslash or
/// control character comes before it.
pub open spec fn plain_string_end(s: Seq<char>, i: int) -> Option<int>
    decreases s.len() - i,
        when 0 <= i <= s.len()
{
    if i >= s.len() {
        None
    } else if s[i] == '"' {
        Some(i)
    } else if s[i] == '\\' || (s[i] as u32) < 32 {
        None
    } else {
        plain_string_end(s, i + 1)
    }
}

/// The closing quote of an escape-free string body lies inside the text.
pub proof fn lemma_plain_string_end_bounds(s: Seq<char>, i: int)
    requires
        0 <= i <= s.len(),
    ensures
        plain_string_end(s, i) matches Some(q) ==> i <= q < s.len(),
    decreases s.len() - i,
{
    if i < s.len() && !(s[i] == '"') && !(s[i] == '\\' || (s[i] as u32) < 32) {
        lemma_plain_string_end_bounds(s, i + 1);
    }
}

/// An all-plain body closed by a quote at `q` scans exactly to `q`.
pub proof fn lemma_plain_string_end_at(s: Seq<char>, i: int, q: int)
    requires
        0 <= i <= q < s.len(),
        s[q] == '"',
        forall|j: int| i <= j < q ==> (#[trigger] s[j]) != '"' && s[j] != '\\' && (s[j] as u32)
            >= 32,
    ensures
        plain_string_end(s, i) == Some(q),
    decreases q - i,
{
    if i < q {
        lemma_plain_string_end_at(s, i + 1, q);
    }
}

/// Parses a JSON string literal starting at `pos` (which must hold the
/// opening quote), processing escapes; raw control characters are
/// rejected. On an escape-free string the parse succeeds and yields
/// exactly the characters up to the closing quote.
pub(crate) fn parse_string(chars: &Vec<char>, pos: usize) -> (r: Option<(String, usize)>)
    requires
        pos <= chars@.len(),
    ensures
        r matches Some(p) ==> pos < p.1 <= chars@.len(),
        pos < chars@.len() && chars@[pos as int] == '"' ==> (plain_string_end(chars@, pos + 1)
            matches Some(q) ==> r matches Some(p) && p.0@ == chars@.subrange(pos + 1, q) && p.1 == q
            + 1),
    decreases chars@.len() - pos,
{
    if pos >= chars.len() || !(chars[pos] == '"') {
        return None;
    }
    let mut out: Vec<char> = Vec::new();
    let mut i = pos + 1;
    proof {
        if plain_string_end(chars@, pos + 1) is Some {
            lemma_plain_string_end_bounds(chars@, pos + 1);
            assert(out@ =~= chars@.subrange(pos + 1, pos + 1));
        }
    }
    while i < chars.len()
        invariant
            pos < i <= chars@.len(),
            chars@.len() <= usize::MAX,
            plain_string_end(chars@, pos + 1) matches Some(q) ==> i <= q && out@ == chars@.subrange(
                pos + 1,
                i as int,
            ) && plain_string_end(chars@, i as int) == Some(q),
        decreases chars@.len() - i,
    {
        let c = chars[i];
        if c == '"' {
            return Some((chars_to_string(&out), i + 1));
        }
        if c == '\\' {
            if i + 1 >= chars.len() {
                return None;
            }
            let e = chars[i + 1];
            if e == '"' || e == '\\' || e == '/' {
                out.push(e);
                i = i + 2;
            } else if e == 'b' {
                out.push('\u{0008}');
                i = i + 2;
            } else if e == 'f' {
                out.push('\u{000C}');
                i = i + 2;
            } else if e == 'n' {
                out.push('\n');
                i = i + 2;
            } else if e == 'r' {
                out.push('\r');
                i = i + 2;
            } else if e == 't' {
                out.push('\t');
                i = i + 2;
            } else if e == 'u' {
                let v = match parse_hex4(chars, i + 2) {
                    Some(v) => v,
                    None => { return None },
                };
                if v >= 0xD800 && v < 0xDC00 {
                    if chars.len() - i < 8 || !(chars[i + 6] == '\\') || !(chars[i + 7] == 'u') {
                        return None;
                    }
                    let v2 = match parse_hex4(chars, i + 8) {
                        Some(v2) => v2,
                        None => { return None },
                    };
                    if !(v2 >= 0xDC00 && v2 < 0xE000) {
                        return None;
                    }
                    let code = 0x10000 + ((v - 0xD800) * 0x400) + (v2 - 0xDC00);
                    let decoded = match char_from_u32(code) {
                        Some(decoded) => decoded,
                        None => { return None },
                    };
                    out.push(decoded);
                    i = i + 12;
                } else {
                    let decoded = match char_from_u32(v) {
                        Some(decoded) => decoded,
                        None => { return None },
                    };
                    out.push(decoded);
                    i = i + 6;
                }
            } else {
                return None;
            }
        } else if (c as u32) < 32 {
            return None;
        } else {
            out.push(c);
            proof {
                if plain_string_end(chars@, pos + 1) is Some {
                    lemma_plain_string_end_bounds(chars@, i + 1);
                    assert(out@ =~= chars@.subrange(pos + 1, i + 1));
                }
            }
            i = i + 1;
        }
    }
    None
}

/// A character is a decimal digit.
pub open spec fn is_digit(c: char) -> bool {
    '0' <= c && c <= '9'
}

/// Value of the digit run `s[from .. to)` read as a decimal number.
pub open spec fn spec_digits_val(s: Seq<char>, from: int, to: int) -> int
    decreases to - from,
{
    if to <= from {
        0
    } else {
        spec_digits_val(s, from, to - 1) * 10 + ((s[to - 1] as u32) - 48)
    }
}

/// Parses an unsigned decimal integer starting at `pos`; rejects leading
/// zeros, values that overflow `u64`, and numbers with a fraction or
/// exponent.
pub(crate) fn parse_u64(chars: &Vec<char>, pos: usize) -> (r: Option<(u64, usize)>)
    requires
        pos <= chars@.len(),
    ensures
        r matches Some(p) ==> {
            &&& pos < p.1 <= chars@.len()
            &&& forall|j: int| pos <= j < p.1 ==> is_digit(#[trigger] chars@[j])
            &&& p.0 == spec_digits_val(chars@, pos as int, p.1 as int)
        },
{
    if pos >= chars.len() {
        return None;
    }
    let first = chars[pos];
    if !(first >= '0' && first <= '9') {
        return None;
    }
    let mut value: u64 = ((first as u32) - 48) as u64;
    let mut i = pos + 1;
    proof {
        assert(spec_digits_val(chars@, pos as int, pos as int) == 0);
        assert(value == spec_digits_val(chars@, pos as int, pos + 1));
    }
    while i < chars.len() && chars[i] >= '0' && chars[i] <= '9'
        invariant
            pos < i <= chars@.len(),
            forall|j: int| pos <= j < i ==> is_digit(#[trigger] chars@[j]),
            value == spec_digits_val(chars@, pos as int, i as int),
        decreases chars@.len() - i,
    {
        let d = ((chars[i] as u32) - 48) as u64;
        value = match value.checked_mul(10) {
            Some(v) => match v.checked_add(d) {
                Some(v) => v,
                None => { return None },
            },
            None => { return None },
        };
        i = i + 1;
    }
    if first == '0' && i > pos + 1 {
        return None;
    }
    if i < chars.len() && (chars[i] == '.' || chars[i] == 'e' || chars[i] == 'E') {
        return None;
    }
    Some((value, i))
}

/// Skips one JSON number (integer, fraction and exponent parts).
fn skip_number(chars: &Vec<char>, pos: usize) -> (r: Option<usize>)
    requires
        pos <= chars@.len(),
    ensures
        r matches Some(next) ==> pos < next <= chars@.len(),
{
    let mut i = pos;
    if i < chars.len() && chars[i] == '-' {
        i = i + 1;
    }
    if i >= chars.len() || !(chars[i] >= '0' && chars[i] <= '9') {
        return None;
    }
    i = i + 1;
    while i < chars.len() && chars[i] >= '0' && chars[i] <= '9'
        invariant
            pos < i <= chars@.len(),
        decreases chars@.len() - i,
    {
        i = i + 1;
    }
    if i < chars.len() && chars[i] == '.' {
        i = i + 1;
        if i >= chars.len() || !(chars[i] >= '0' && chars[i] <= '9') {
            return None;
        }
        while i < chars.len() && chars[i] >= '0' && chars[i] <= '9'
            invariant
                pos < i <= chars@.len(),
            decreases chars@.len() - i,
        {
            i = i + 1;
        }
    }
    if i < chars.len() && (chars[i] == 'e' || chars[i] == 'E') {
        i = i + 1;
        if i < chars.len() && (chars[i] == '+' || chars[i] == '-') {
            i = i + 1;
        }
        if i >= chars.len() || !(chars[i] >= '0' && chars[i] <= '9') {
            return None;
        }
        while i < chars.len() && chars[i] >= '0' && chars[i] <= '9'
            invariant
                pos < i <= chars@.len(),
            decreases chars@.len() - i,
        {
            i = i + 1;
        }
    }
    Some(i)
}

/// Checks for one of the literals `true`, `false` or `null` at `pos` and
/// returns the position after it.
fn skip_keyword(chars: &Vec<char>, pos: usize) -> (r: Option<usize>)
    requires
        pos <= chars@.len(),
    ensures
        r matches Some(next) ==> pos < next <= chars@.len(),
{
    if pos < chars.len() && chars[pos] == 't' {
        if chars.len() - pos >= 4 && chars[pos + 1] == 'r' && chars[pos + 2] == 'u' && chars[pos
            + 3] == 'e' {
            return Some(pos + 4);
        }
        return None;
    }
    if pos < chars.len() && chars[pos] == 'f' {
        if chars.len() - pos >= 5 && chars[pos + 1] == 'a' && chars[pos + 2] == 'l' && chars[pos
            + 3] == 's' && chars[pos + 4] == 'e' {
            return Some(pos + 5);
        }
        return None;
    }
    if pos < chars.len() && chars[pos] == 'n' {
        if chars.len() - pos >= 4 && chars[pos + 1] == 'u' && chars[pos + 2] == 'l' && chars[pos
            + 3] == 'l' {
            return Some(pos + 4);
        }
        return None;
    }
    None
}

/// Skips one complete JSON value of any kind.
pub(crate) fn skip_value(chars: &Vec<char>, pos: usize) -> (r: Option<usize>)
    requires
        pos <= chars@.len(),
    ensures
        r matches Some(next) ==> pos < next <= chars@.len(),
    decreases chars@.len() - pos,
{
    if pos >= chars.len() {
        return None;
    }
    let c = chars[pos];
    if c == '"' {
        match parse_string(chars, pos) {
            Some(p) => Some(p.1),
            None => None,
        }
    } else if c == '-' || (c >= '0' && c <= '9') {
        skip_number(chars, pos)
    } else if c == 't' || c == 'f' || c == 'n' {
        skip_keyword(chars, pos)
    } else if c == '[' {
        let mut i = skip_ws(chars, pos + 1);
        if i < chars.len() && chars[i] == ']' {
            return Some(i + 1);
        }
        loop
            invariant
                pos < i <= chars@.len(),
            decreases chars@.len() - i,
        {
            i = match skip_value(chars, i) {
                Some(next) => next,
                None => { return None },
            };
            i = skip_ws(chars, i);
            if i < chars.len() && chars[i] == ',' {
                i = skip_ws(chars, i + 1);
            } else if i < chars.len() && chars[i] == ']' {
                return Some(i + 1);
            } else {
                return None;
            }
        }
    } else if c == '{' {
        let mut i = skip_ws(chars, pos + 1);
        if i < chars.len() && chars[i] == '}' {
            return Some(i + 1);
        }
        loop
            invariant
                pos < i <= chars@.len(),
            decreases chars@.len() - i,
        {
            i = match parse_string(chars, i) {
                Some(p) => p.1,
                None => { return None },
            };
            i = skip_ws(chars, i);
            if !(i < chars.len() && chars[i] == ':') {
                return None;
            }
            i = skip_ws(chars, i + 1);
            i = match skip_value(chars, i) {
                Some(next) => next,
                None => { return None },
            };
            i = skip_ws(chars, i);
            if i < chars.len() && chars[i] == ',' {
                i = skip_ws(chars, i + 1);
            } else if i < chars.len() && chars[i] == '}' {
                return Some(i + 1);
            } else {
                return None;
            }
        }
    } else {
        None
    }
}

} // verus!
