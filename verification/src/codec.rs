//! Canonical JSON encoding of the upload payload, byte for byte.
//!
//! The library frames its own wire bytes: the encoder below is verified
//! against spec functions that define the canonical document, and the
//! idempotency key is derived from exactly these bytes.

use vstd::prelude::*;
use crate::json::{parse_string, parse_u64, skip_value, skip_ws};
use crate::model::{BatchMetadata, CoreError, MosaicPayload};
use crate::text::{bytes_to_str, str_chars, str_eq};

verus! {

/// The low byte of each character; on ASCII text this is the ASCII
/// encoding.
pub open spec fn low_bytes(s: Seq<char>) -> Seq<u8> {
    Seq::new(s.len(), |i: int| ((s[i] as u32) % 256) as u8)
}

/// Decimal digits of `n` without a leading zero; empty for `n <= 0`.
pub open spec fn dec_digits(n: int) -> Seq<u8>
    decreases n,
{
    if n <= 0 {
        Seq::empty()
    } else {
        dec_digits(n / 10).push((48 + n % 10) as u8)
    }
}

/// Decimal encoding of a non-negative number; `0` encodes as `"0"`.
pub open spec fn dec_u64(n: int) -> Seq<u8> {
    if n == 0 {
        seq![48u8]
    } else {
        dec_digits(n)
    }
}

/// One lower-case hexadecimal digit.
pub open spec fn hex_digit(d: int) -> u8 {
    if d < 10 {
        (48 + d) as u8
    } else {
        (87 + d) as u8
    }
}

/// Four hexadecimal digits of a value below `0x10000`.
pub open spec fn hex4(n: int) -> Seq<u8> {
    seq![
        hex_digit(n / 4096 % 16),
        hex_digit(n / 256 % 16),
        hex_digit(n / 16 % 16),
        hex_digit(n % 16),
    ]
}

/// JSON escape of one character: quotes and backslashes are escaped,
/// control and non-ASCII characters use `\u` escapes (a surrogate pair
/// beyond the basic plane), and printable ASCII stands for itself.
pub open spec fn json_esc_char(c: char) -> Seq<u8> {
    if c == '"' {
        seq![92u8, 34u8]
    } else if c == '\\' {
        seq![92u8, 92u8]
    } else if (c as u32) < 32 {
        seq![92u8, 117u8] + hex4(c as u32 as int)
    } else if (c as u32) < 128 {
        seq![(c as u32) as u8]
    } else if (c as u32) < 65536 {
        seq![92u8, 117u8] + hex4(c as u32 as int)
    } else {
        let v = (c as u32 - 65536) as int;
        seq![92u8, 117u8] + hex4(55296 + v / 1024) + seq![92u8, 117u8] + hex4(56320 + v % 1024)
    }
}

/// JSON escape of every character in order.
pub open spec fn json_esc_all(s: Seq<char>) -> Seq<u8>
    decreases s.len(),
{
    if s.len() == 0 {
        Seq::empty()
    } else {
        json_esc_all(s.drop_last()) + json_esc_char(s.last())
    }
}

/// A JSON string literal: quote, escaped characters, quote.
pub open spec fn json_string_bytes(s: Seq<char>) -> Seq<u8> {
    seq![34u8] + json_esc_all(s) + seq![34u8]
}

/// Comma-separated decimal items of a byte array.
pub open spec fn dec_items(s: Seq<u8>) -> Seq<u8>
    decreases s.len(),
{
    if s.len() == 0 {
        Seq::empty()
    } else if s.len() == 1 {
        dec_u64(s[0] as int)
    } else {
        dec_items(s.drop_last()) + seq![44u8] + dec_u64(s.last() as int)
    }
}

/// The canonical JSON document of one upload payload.
pub open spec fn spec_payload_json(p: MosaicPayload) -> Seq<u8> {
    low_bytes("{\"schema_version\":"@) + json_string_bytes(p.schema_version@) + low_bytes(
        ",\"metadata\":{\"start_timestamp_ms\":"@,
    ) + dec_u64(p.metadata.start_timestamp_ms as int) + low_bytes(",\"end_timestamp_ms\":"@)
        + dec_u64(p.metadata.end_timestamp_ms as int) + low_bytes(",\"screen_id\":"@)
        + json_string_bytes(p.metadata.screen_id@) + low_bytes(",\"source_width\":"@) + dec_u64(
        p.metadata.source_width as int,
    ) + low_bytes(",\"source_height\":"@) + dec_u64(p.metadata.source_height as int) + low_bytes(
        ",\"session_id\":"@,
    ) + json_string_bytes(p.metadata.session_id@) + low_bytes(",\"frame_count\":"@) + dec_u64(
        p.metadata.frame_count as int,
    ) + low_bytes("},\"mosaic_width\":"@) + dec_u64(p.mosaic_width as int) + low_bytes(
        ",\"mosaic_height\":"@,
    ) + dec_u64(p.mosaic_height as int) + low_bytes(",\"mosaic_rgba\":["@) + dec_items(
        p.mosaic_rgba@,
    ) + low_bytes("]}"@)
}

/// Appends the low bytes of a text segment.
pub(crate) fn push_low_bytes(out: &mut Vec<u8>, s: &str)
    ensures
        final(out)@ == old(out)@ + low_bytes(s@),
{
    let cs = crate::text::str_chars(s);
    let mut i: usize = 0;
    while i < cs.len()
        invariant
            cs@ == s@,
            i <= cs@.len(),
            out@ == old(out)@ + low_bytes(s@).take(i as int),
        decreases cs@.len() - i,
    {
        let b = ((cs[i] as u32) % 256) as u8;
        out.push(b);
        assert(out@ =~= old(out)@ + low_bytes(s@).take(i + 1));
        i = i + 1;
    }
    assert(low_bytes(s@).take(s@.len() as int) =~= low_bytes(s@));
}

/// Appends the decimal encoding of `n`.
pub(crate) fn push_dec_u64(out: &mut Vec<u8>, n: u64)
    ensures
        final(out)@ == old(out)@ + dec_u64(n as int),
{
    if n == 0 {
        out.push(48);
        assert(out@ =~= old(out)@ + dec_u64(0));
        return ;
    }
    let mut tmp: Vec<u8> = Vec::new();
    let mut m = n;
    while m > 0
        invariant
            dec_digits(n as int) =~= dec_digits(m as int) + tmp@.reverse(),
        decreases m,
    {
        let d = (48 + (m % 10)) as u8;
        let ghost old_tmp = tmp@;
        tmp.push(d);
        m = m / 10;
        proof {
            assert(tmp@.reverse() =~= seq![d] + old_tmp.reverse());
            assert(dec_digits(n as int) =~= dec_digits(m as int) + tmp@.reverse());
        }
    }
    assert(dec_digits(n as int) =~= tmp@.reverse());
    let mut j: usize = tmp.len();
    while j > 0
        invariant
            j <= tmp@.len(),
            out@ =~= old(out)@ + tmp@.reverse().take(tmp@.len() - j),
        decreases j,
    {
        let b = tmp[j - 1];
        out.push(b);
        proof {
            assert(tmp@.reverse()[tmp@.len() - j] == tmp@[j - 1]);
            assert(out@ =~= old(out)@ + tmp@.reverse().take(tmp@.len() - (j - 1)));
        }
        j = j - 1;
    }
    proof {
        assert(tmp@.reverse().take(tmp@.len() as int) =~= tmp@.reverse());
        assert(out@ =~= old(out)@ + dec_u64(n as int));
    }
}

/// Appends four hexadecimal digits of a value below `0x10000`.
pub(crate) fn push_hex4(out: &mut Vec<u8>, n: u32)
    requires
        n < 65536,
    ensures
        final(out)@ == old(out)@ + hex4(n as int),
{
    let d1 = (n / 4096) % 16;
    let d2 = (n / 256) % 16;
    let d3 = (n / 16) % 16;
    let d4 = n % 16;
    out.push((if d1 < 10 { 48 + d1 } else { 87 + d1 }) as u8);
    out.push((if d2 < 10 { 48 + d2 } else { 87 + d2 }) as u8);
    out.push((if d3 < 10 { 48 + d3 } else { 87 + d3 }) as u8);
    out.push((if d4 < 10 { 48 + d4 } else { 87 + d4 }) as u8);
    assert(out@ =~= old(out)@ + hex4(n as int));
}

/// Appends the JSON escape of one character.
pub(crate) fn push_esc_char(out: &mut Vec<u8>, c: char)
    ensures
        final(out)@ == old(out)@ + json_esc_char(c),
{
    if c == '"' {
        out.push(92);
        out.push(34);
        assert(out@ =~= old(out)@ + json_esc_char(c));
    } else if c == '\\' {
        out.push(92);
        out.push(92);
        assert(out@ =~= old(out)@ + json_esc_char(c));
    } else if (c as u32) < 32 {
        out.push(92);
        out.push(117);
        push_hex4(out, c as u32);
        assert(out@ =~= old(out)@ + json_esc_char(c));
    } else if (c as u32) < 128 {
        out.push((c as u32) as u8);
        assert(out@ =~= old(out)@ + json_esc_char(c));
    } else if (c as u32) < 65536 {
        out.push(92);
        out.push(117);
        push_hex4(out, c as u32);
        assert(out@ =~= old(out)@ + json_esc_char(c));
    } else {
        let v = (c as u32) - 65536;
        out.push(92);
        out.push(117);
        push_hex4(out, 55296 + v / 1024);
        out.push(92);
        out.push(117);
        push_hex4(out, 56320 + (v % 1024));
        assert(out@ =~= old(out)@ + json_esc_char(c));
    }
}

/// Appends a JSON string literal.
pub(crate) fn push_json_string(out: &mut Vec<u8>, s: &str)
    ensures
        final(out)@ == old(out)@ + json_string_bytes(s@),
{
    out.push(34);
    let cs = crate::text::str_chars(s);
    let mut i: usize = 0;
    while i < cs.len()
        invariant
            cs@ == s@,
            i <= cs@.len(),
            out@ == old(out)@ + seq![34u8] + json_esc_all(s@.take(i as int)),
        decreases cs@.len() - i,
    {
        push_esc_char(out, cs[i]);
        proof {
            assert(s@.take(i + 1).drop_last() =~= s@.take(i as int));
            assert(s@.take(i + 1).last() == s@[i as int]);
            assert(out@ =~= old(out)@ + seq![34u8] + json_esc_all(s@.take(i + 1)));
        }
        i = i + 1;
    }
    out.push(34);
    proof {
        assert(s@.take(s@.len() as int) =~= s@);
        assert(out@ =~= old(out)@ + json_string_bytes(s@));
    }
}

/// Appends the comma-separated decimal items of a byte array.
pub(crate) fn push_dec_items(out: &mut Vec<u8>, bytes: &Vec<u8>)
    ensures
        final(out)@ == old(out)@ + dec_items(bytes@),
{
    let mut i: usize = 0;
    while i < bytes.len()
        invariant
            i <= bytes@.len(),
            out@ == old(out)@ + dec_items(bytes@.take(i as int)),
        decreases bytes@.len() - i,
    {
        if i > 0 {
            out.push(44);
        }
        push_dec_u64(out, bytes[i] as u64);
        proof {
            assert(bytes@.take(i + 1).drop_last() =~= bytes@.take(i as int));
            assert(bytes@.take(i + 1).last() == bytes@[i as int]);
            if i == 0 {
                assert(out@ =~= old(out)@ + dec_items(bytes@.take(1)));
            } else {
                assert(out@ =~= old(out)@ + dec_items(bytes@.take(i + 1)));
            }
        }
        i = i + 1;
    }
    assert(bytes@.take(bytes@.len() as int) =~= bytes@);
}

impl MosaicPayload {
    /// Serializes the payload to its canonical JSON bytes. This encoding
    /// never fails; the `Result` mirrors the codec interface.
    pub fn to_json_bytes(&self) -> (r: Result<Vec<u8>, CoreError>)
        ensures
            r matches Ok(b) && b@ == spec_payload_json(*self),
    {
        let mut out: Vec<u8> = Vec::new();
        push_low_bytes(&mut out, "{\"schema_version\":");
        push_json_string(&mut out, self.schema_version.as_str());
        push_low_bytes(&mut out, ",\"metadata\":{\"start_timestamp_ms\":");
        push_dec_u64(&mut out, self.metadata.start_timestamp_ms);
        push_low_bytes(&mut out, ",\"end_timestamp_ms\":");
        push_dec_u64(&mut out, self.metadata.end_timestamp_ms);
        push_low_bytes(&mut out, ",\"screen_id\":");
        push_json_string(&mut out, self.metadata.screen_id.as_str());
        push_low_bytes(&mut out, ",\"source_width\":");
        push_dec_u64(&mut out, self.metadata.source_width as u64);
        push_low_bytes(&mut out, ",\"source_height\":");
        push_dec_u64(&mut out, self.metadata.source_height as u64);
        push_low_bytes(&mut out, ",\"session_id\":");
        push_json_string(&mut out, self.metadata.session_id.as_str());
        push_low_bytes(&mut out, ",\"frame_count\":");
        push_dec_u64(&mut out, self.metadata.frame_count as u64);
        push_low_bytes(&mut out, "},\"mosaic_width\":");
        push_dec_u64(&mut out, self.mosaic_width as u64);
        push_low_bytes(&mut out, ",\"mosaic_height\":");
        push_dec_u64(&mut out, self.mosaic_height as u64);
        push_low_bytes(&mut out, ",\"mosaic_rgba\":[");
        push_dec_items(&mut out, &self.mosaic_rgba);
        push_low_bytes(&mut out, "]}");
        Ok(out)
    }

    /// Deserializes a payload from JSON bytes; any malformed or
    /// out-of-range document fails with a codec error.
    ///
    /// The encoder side is specified byte-exactly by `spec_payload_json`;
    /// that decoding inverts it is fixed by the round-trip test rather
    /// than by a spec-level grammar.
    pub fn from_json_bytes(raw: &[u8]) -> (r: Result<MosaicPayload, CoreError>)
        ensures
            r matches Err(e) ==> e matches CoreError::Codec(_),
    {
        let text = match bytes_to_str(raw) {
            Some(text) => text,
            None => {
                return Err(CoreError::Codec(String::from_str("payload is not valid UTF-8")));
            },
        };
        let chars = str_chars(text);
        match parse_payload_object(&chars) {
            Some(payload) => Ok(payload),
            None => Err(CoreError::Codec(String::from_str("malformed payload JSON"))),
        }
    }
}

/// Parses a `u64` member value that must fit in `u32`.
fn parse_u32_value(chars: &Vec<char>, pos: usize) -> (r: Option<(u32, usize)>)
    requires
        pos <= chars@.len(),
    ensures
        r matches Some(p) ==> pos < p.1 <= chars@.len(),
{
    let (value, next) = match parse_u64(chars, pos) {
        Some(p) => p,
        None => { return None },
    };
    if value > 0xffff_ffff {
        return None;
    }
    Some((value as u32, next))
}

/// Parses the `mosaic_rgba` member: an array of byte values.
fn parse_byte_array(chars: &Vec<char>, pos: usize) -> (r: Option<(Vec<u8>, usize)>)
    requires
        pos <= chars@.len(),
    ensures
        r matches Some(p) ==> pos < p.1 <= chars@.len(),
{
    if pos >= chars.len() || !(chars[pos] == '[') {
        return None;
    }
    let mut out: Vec<u8> = Vec::new();
    let mut i = skip_ws(chars, pos + 1);
    if i < chars.len() && chars[i] == ']' {
        return Some((out, i + 1));
    }
    loop
        invariant
            pos < i <= chars@.len(),
        decreases chars@.len() - i,
    {
        let (value, next) = match parse_u64(chars, i) {
            Some(p) => p,
            None => { return None },
        };
        if value > 255 {
            return None;
        }
        out.push(value as u8);
        i = skip_ws(chars, next);
        if i < chars.len() && chars[i] == ',' {
            i = skip_ws(chars, i + 1);
        } else if i < chars.len() && chars[i] == ']' {
            return Some((out, i + 1));
        } else {
            return None;
        }
    }
}

/// Parses the `metadata` member object; all seven fields are required and
/// unknown members are skipped.
fn parse_metadata_object(chars: &Vec<char>, pos: usize) -> (r: Option<(BatchMetadata, usize)>)
    requires
        pos <= chars@.len(),
    ensures
        r matches Some(p) ==> pos < p.1 <= chars@.len(),
{
    if pos >= chars.len() || !(chars[pos] == '{') {
        return None;
    }
    let mut start_timestamp_ms: Option<u64> = None;
    let mut end_timestamp_ms: Option<u64> = None;
    let mut screen_id: Option<String> = None;
    let mut source_width: Option<u32> = None;
    let mut source_height: Option<u32> = None;
    let mut session_id: Option<String> = None;
    let mut frame_count: Option<usize> = None;
    let mut i = skip_ws(chars, pos + 1);
    if i < chars.len() && chars[i] == '}' {
        return None;
    }
    loop
        invariant
            pos < i <= chars@.len(),
        decreases chars@.len() - i,
    {
        let (key, next) = match parse_string(chars, i) {
            Some(p) => p,
            None => { return None },
        };
        i = skip_ws(chars, next);
        if !(i < chars.len() && chars[i] == ':') {
            return None;
        }
        i = skip_ws(chars, i + 1);
        if str_eq(key.as_str(), "start_timestamp_ms") {
            let (value, next) = match parse_u64(chars, i) {
                Some(p) => p,
                None => { return None },
            };
            start_timestamp_ms = Some(value);
            i = next;
        } else if str_eq(key.as_str(), "end_timestamp_ms") {
            let (value, next) = match parse_u64(chars, i) {
                Some(p) => p,
                None => { return None },
            };
            end_timestamp_ms = Some(value);
            i = next;
        } else if str_eq(key.as_str(), "screen_id") {
            let (value, next) = match parse_string(chars, i) {
                Some(p) => p,
                None => { return None },
            };
            screen_id = Some(value);
            i = next;
        } else if str_eq(key.as_str(), "source_width") {
            let (value, next) = match parse_u32_value(chars, i) {
                Some(p) => p,
                None => { return None },
            };
            source_width = Some(value);
            i = next;
        } else if str_eq(key.as_str(), "source_height") {
            let (value, next) = match parse_u32_value(chars, i) {
                Some(p) => p,
                None => { return None },
            };
            source_height = Some(value);
            i = next;
        } else if str_eq(key.as_str(), "session_id") {
            let (value, next) = match parse_string(chars, i) {
                Some(p) => p,
                None => { return None },
            };
            session_id = Some(value);
            i = next;
        } else if str_eq(key.as_str(), "frame_count") {
            let (value, next) = match parse_u64(chars, i) {
                Some(p) => p,
                None => { return None },
            };
            if value > (usize::MAX as u64) {
                return None;
            }
            frame_count = Some(value as usize);
            i = next;
        } else {
            i = match skip_value(chars, i) {
                Some(next) => next,
                None => { return None },
            };
        }
        i = skip_ws(chars, i);
        if i < chars.len() && chars[i] == ',' {
            i = skip_ws(chars, i + 1);
        } else if i < chars.len() && chars[i] == '}' {
            let metadata = BatchMetadata {
                start_timestamp_ms: match start_timestamp_ms {
                    Some(v) => v,
                    None => { return None },
                },
                end_timestamp_ms: match end_timestamp_ms {
                    Some(v) => v,
                    None => { return None },
                },
                screen_id: match screen_id {
                    Some(v) => v,
                    None => { return None },
                },
                source_width: match source_width {
                    Some(v) => v,
                    None => { return None },
                },
                source_height: match source_height {
                    Some(v) => v,
                    None => { return None },
                },
                session_id: match session_id {
                    Some(v) => v,
                    None => { return None },
                },
                frame_count: match frame_count {
                    Some(v) => v,
                    None => { return None },
                },
            };
            return Some((metadata, i + 1));
        } else {
            return None;
        }
    }
}

/// Parses the top-level payload object, requiring the document to be one
/// object with nothing but whitespace around it.
fn parse_payload_object(chars: &Vec<char>) -> (r: Option<MosaicPayload>) {
    let mut schema_version: Option<String> = None;
    let mut metadata: Option<BatchMetadata> = None;
    let mut mosaic_width: Option<u32> = None;
    let mut mosaic_height: Option<u32> = None;
    let mut mosaic_rgba: Option<Vec<u8>> = None;
    let pos = skip_ws(chars, 0);
    if !(pos < chars.len() && chars[pos] == '{') {
        return None;
    }
    let mut i = skip_ws(chars, pos + 1);
    if i < chars.len() && chars[i] == '}' {
        return None;
    }
    let mut done = false;
    while !done
        invariant
            i <= chars@.len(),
        decreases chars@.len() - i,
    {
        if i >= chars.len() {
            return None;
        }
        let (key, next) = match parse_string(chars, i) {
            Some(p) => p,
            None => { return None },
        };
        i = skip_ws(chars, next);
        if !(i < chars.len() && chars[i] == ':') {
            return None;
        }
        i = skip_ws(chars, i + 1);
        if str_eq(key.as_str(), "schema_version") {
            let (value, next) = match parse_string(chars, i) {
                Some(p) => p,
                None => { return None },
            };
            schema_version = Some(value);
            i = next;
        } else if str_eq(key.as_str(), "metadata") {
            let (value, next) = match parse_metadata_object(chars, i) {
                Some(p) => p,
                None => { return None },
            };
            metadata = Some(value);
            i = next;
        } else if str_eq(key.as_str(), "mosaic_width") {
            let (value, next) = match parse_u32_value(chars, i) {
                Some(p) => p,
                None => { return None },
            };
            mosaic_width = Some(value);
            i = next;
        } else if str_eq(key.as_str(), "mosaic_height") {
            let (value, next) = match parse_u32_value(chars, i) {
                Some(p) => p,
                None => { return None },
            };
            mosaic_height = Some(value);
            i = next;
        } else if str_eq(key.as_str(), "mosaic_rgba") {
            let (value, next) = match parse_byte_array(chars, i) {
                Some(p) => p,
                None => { return None },
            };
            mosaic_rgba = Some(value);
            i = next;
        } else {
            i = match skip_value(chars, i) {
                Some(next) => next,
                None => { return None },
            };
        }
        i = skip_ws(chars, i);
        if i < chars.len() && chars[i] == ',' {
            i = skip_ws(chars, i + 1);
        } else if i < chars.len() && chars[i] == '}' {
            i = i + 1;
            done = true;
        } else {
            return None;
        }
    }
    let tail = skip_ws(chars, i);
    if tail != chars.len() {
        return None;
    }
    Some(
        MosaicPayload {
            schema_version: match schema_version {
                Some(v) => v,
                None => { return None },
            },
            metadata: match metadata {
                Some(v) => v,
                None => { return None },
            },
            mosaic_width: match mosaic_width {
                Some(v) => v,
                None => { return None },
            },
            mosaic_height: match mosaic_height {
                Some(v) => v,
                None => { return None },
            },
            mosaic_rgba: match mosaic_rgba {
                Some(v) => v,
                None => { return None },
            },
        },
    )
}

} // verus!
