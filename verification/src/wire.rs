//! Wire codec for the tap daemon's JSON API.
//!
//! Both operations carry a single-field JSON object: `{"user": <string>}`
//! on create, `{"name": <string>}` on delete and in the create response.
//! The encoder emits the canonical form (no whitespace, minimal escapes,
//! control characters as `\u00XX`). The parser accepts exactly one object
//! with the expected field, with optional JSON whitespace between tokens;
//! anything else is malformed.

use vstd::prelude::*;
use crate::text::{push_char, hex_digit};
use vstd::string::StrSliceExecFns;

verus! {

/// JSON insignificant whitespace.
pub open spec fn is_json_ws(c: char) -> bool {
    c == ' ' || c == '\t' || c == '\n' || c == '\r'
}

/// The escape sequence a character is written as inside a JSON string:
/// `"` and `\` get a backslash, the named control characters their short
/// escape, other control characters the `\u00XX` form, and everything
/// else stands for itself.
pub open spec fn esc_char(c: char) -> Seq<char> {
    if c == '"' {
        seq!['\\', '"']
    } else if c == '\\' {
        seq!['\\', '\\']
    } else if c == '\u{8}' {
        seq!['\\', 'b']
    } else if c == '\t' {
        seq!['\\', 't']
    } else if c == '\n' {
        seq!['\\', 'n']
    } else if c == '\u{c}' {
        seq!['\\', 'f']
    } else if c == '\r' {
        seq!['\\', 'r']
    } else if (c as u32) < 0x20 {
        seq!['\\', 'u', '0', '0', hex_digit(c as u32 as int / 16), hex_digit(c as u32 as int % 16)]
    } else {
        seq![c]
    }
}

/// The escaped body of a JSON string.
pub open spec fn spec_escape(s: Seq<char>) -> Seq<char>
    decreases s.len(),
{
    if s.len() == 0 {
        Seq::empty()
    } else {
        esc_char(s[0]) + spec_escape(s.drop_first())
    }
}

/// Appending one character extends the escaped form at the end.
pub proof fn lemma_escape_push(s: Seq<char>, c: char)
    ensures
        spec_escape(s.push(c)) == spec_escape(s) + esc_char(c),
    decreases s.len(),
{
    if s.len() == 0 {
        let t = s.push(c);
        assert(t[0] == c);
        assert(t.drop_first() =~= Seq::<char>::empty());
        assert(spec_escape(t) == esc_char(t[0]) + spec_escape(t.drop_first()));
        assert(spec_escape(Seq::<char>::empty()) == Seq::<char>::empty());
        assert(spec_escape(t) =~= spec_escape(s) + esc_char(c));
    } else {
        assert(s.push(c).drop_first() =~= s.drop_first().push(c));
        lemma_escape_push(s.drop_first(), c);
        assert(spec_escape(s.push(c)) =~= spec_escape(s) + esc_char(c));
    }
}

/// A complete JSON string: quote, escaped body, quote.
pub open spec fn spec_json_string(s: Seq<char>) -> Seq<char> {
    seq!['"'] + spec_escape(s) + seq!['"']
}

/// The canonical one-field object `{"<key>":"<value>"}`.
pub open spec fn spec_field_object(key: Seq<char>, value: Seq<char>) -> Seq<char> {
    seq!['{'] + spec_json_string(key) + seq![':'] + spec_json_string(value) + seq!['}']
}

fn push_low_hex_digit(s: &mut String, d: u32)
    requires
        d < 16,
    ensures
        final(s)@ == old(s)@.push(hex_digit(d as int)),
{
    if d == 0 { push_char(s, '0') }
    else if d == 1 { push_char(s, '1') }
    else if d == 2 { push_char(s, '2') }
    else if d == 3 { push_char(s, '3') }
    else if d == 4 { push_char(s, '4') }
    else if d == 5 { push_char(s, '5') }
    else if d == 6 { push_char(s, '6') }
    else if d == 7 { push_char(s, '7') }
    else if d == 8 { push_char(s, '8') }
    else if d == 9 { push_char(s, '9') }
    else if d == 10 { push_char(s, 'a') }
    else if d == 11 { push_char(s, 'b') }
    else if d == 12 { push_char(s, 'c') }
    else if d == 13 { push_char(s, 'd') }
    else if d == 14 { push_char(s, 'e') }
    else { push_char(s, 'f') }
}

/// Appends the JSON string form of `s` (quotes and escapes) to `out`.
pub fn push_json_string(out: &mut String, s: &str)
    ensures
        final(out)@ == old(out)@ + spec_json_string(s@),
{
    push_char(out, '"');
    let len = s.unicode_len();
    let mut i: usize = 0;
    while i < len
        invariant
            len == s@.len(),
            i <= len,
            out@ == old(out)@ + seq!['"'] + spec_escape(s@.subrange(0, i as int)),
        decreases len - i,
    {
        let c = s.get_char(i);
        if c == '"' {
            push_char(out, '\\');
            push_char(out, '"');
        } else if c == '\\' {
            push_char(out, '\\');
            push_char(out, '\\');
        } else if c == '\u{8}' {
            push_char(out, '\\');
            push_char(out, 'b');
        } else if c == '\t' {
            push_char(out, '\\');
            push_char(out, 't');
        } else if c == '\n' {
            push_char(out, '\\');
            push_char(out, 'n');
        } else if c == '\u{c}' {
            push_char(out, '\\');
            push_char(out, 'f');
        } else if c == '\r' {
            push_char(out, '\\');
            push_char(out, 'r');
        } else if (c as u32) < 0x20 {
            push_char(out, '\\');
            push_char(out, 'u');
            push_char(out, '0');
            push_char(out, '0');
            push_low_hex_digit(out, (c as u32) / 16);
            push_low_hex_digit(out, (c as u32) % 16);
        } else {
            push_char(out, c);
        }
        proof {
            lemma_escape_push(s@.subrange(0, i as int), s@[i as int]);
            assert(s@.subrange(0, i + 1 as int) =~= s@.subrange(0, i as int).push(s@[i as int]));
            assert(out@ =~= old(out)@ + seq!['"'] + spec_escape(s@.subrange(0, i + 1 as int)));
        }
        i = i + 1;
    }
    proof {
        assert(s@.subrange(0, len as int) =~= s@);
    }
    push_char(out, '"');
    proof {
        assert(out@ =~= old(out)@ + spec_json_string(s@));
    }
}

/// The canonical body `{"<key>":"<value>"}`.
pub fn encode_field_object(key: &str, value: &str) -> (r: String)
    ensures
        r@ == spec_field_object(key@, value@),
{
    let mut out = String::new();
    push_char(&mut out, '{');
    push_json_string(&mut out, key);
    push_char(&mut out, ':');
    push_json_string(&mut out, value);
    push_char(&mut out, '}');
    proof {
        assert(out@ =~= spec_field_object(key@, value@));
    }
    out
}

/// First index at or after `i` whose character is not JSON whitespace.
pub open spec fn spec_skip_ws(s: Seq<char>, i: int) -> int
    decreases s.len() - i when 0 <= i <= s.len()
{
    if i < s.len() && is_json_ws(s[i]) {
        spec_skip_ws(s, i + 1)
    } else {
        i
    }
}

pub proof fn lemma_skip_ws_bounds(s: Seq<char>, i: int)
    requires
        0 <= i <= s.len(),
    ensures
        i <= spec_skip_ws(s, i) <= s.len(),
    decreases s.len() - i,
{
    if i < s.len() && is_json_ws(s[i]) {
        lemma_skip_ws_bounds(s, i + 1);
    }
}

/// The value of one hexadecimal digit, either case.
pub open spec fn hex_val(c: char) -> Option<int> {
    if '0' <= c && c <= '9' {
        Some(c as u32 as int - 48)
    } else if 'a' <= c && c <= 'f' {
        Some(c as u32 as int - 87)
    } else if 'A' <= c && c <= 'F' {
        Some(c as u32 as int - 55)
    } else {
        None
    }
}

/// The character a short escape stands for, if the letter names one.
pub open spec fn unescape_simple(e: char) -> Option<char> {
    if e == '"' {
        Some('"')
    } else if e == '\\' {
        Some('\\')
    } else if e == '/' {
        Some('/')
    } else if e == 'b' {
        Some('\u{8}')
    } else if e == 'f' {
        Some('\u{c}')
    } else if e == 'n' {
        Some('\n')
    } else if e == 'r' {
        Some('\r')
    } else if e == 't' {
        Some('\t')
    } else {
        None
    }
}

/// Parses the body of a JSON string from index `i` (just after the
/// opening quote) up to and over the closing quote. Returns the decoded
/// value and the index after the closing quote. `\uXXXX` escapes are
/// accepted for ASCII code points only; unescaped control characters
/// are malformed.
pub open spec fn spec_parse_jstring_body(s: Seq<char>, i: int) -> Option<(Seq<char>, int)>
    decreases s.len() - i when 0 <= i <= s.len()
{
    if i >= s.len() {
        None
    } else if s[i] == '"' {
        Some((Seq::empty(), i + 1))
    } else if s[i] == '\\' {
        if i + 1 >= s.len() {
            None
        } else if s[i + 1] == 'u' {
            if i + 5 >= s.len() {
                None
            } else {
                match (hex_val(s[i + 2]), hex_val(s[i + 3]), hex_val(s[i + 4]), hex_val(
                    s[i + 5],
                )) {
                    (Some(h3), Some(h2), Some(h1), Some(h0)) => {
                        let v = h3 * 4096 + h2 * 256 + h1 * 16 + h0;
                        if v < 0x80 {
                            match spec_parse_jstring_body(s, i + 6) {
                                Some((tail, j)) => Some((seq![((v as u8) as char)] + tail, j)),
                                None => None,
                            }
                        } else {
                            None
                        }
                    }
                    _ => None,
                }
            }
        } else {
            match unescape_simple(s[i + 1]) {
                Some(c) => match spec_parse_jstring_body(s, i + 2) {
                    Some((tail, j)) => Some((seq![c] + tail, j)),
                    None => None,
                },
                None => None,
            }
        }
    } else if (s[i] as u32) < 0x20 {
        None
    } else {
        match spec_parse_jstring_body(s, i + 1) {
            Some((tail, j)) => Some((seq![s[i]] + tail, j)),
            None => None,
        }
    }
}

/// A successful string parse moves strictly forward and stays in bounds.
pub proof fn lemma_jstring_body_bounds(s: Seq<char>, i: int)
    requires
        0 <= i <= s.len(),
    ensures
        spec_parse_jstring_body(s, i) matches Some(p) ==> i < p.1 <= s.len(),
    decreases s.len() - i,
{
    if i < s.len() {
        if s[i] == '\\' {
            if i + 1 < s.len() && s[i + 1] == 'u' {
                if i + 5 < s.len() {
                    lemma_jstring_body_bounds(s, i + 6);
                }
            } else if i + 1 < s.len() {
                lemma_jstring_body_bounds(s, i + 2);
            }
        } else if s[i] != '"' && (s[i] as u32) >= 0x20 {
            lemma_jstring_body_bounds(s, i + 1);
        }
    }
}

/// The whole-body parse of `{"<key>": <string>}`, with optional JSON
/// whitespace between tokens and nothing else before or after.
pub open spec fn spec_parse_field(s: Seq<char>, key: Seq<char>) -> Option<Seq<char>> {
    let i0 = spec_skip_ws(s, 0);
    if i0 < s.len() && s[i0] == '{' {
        let i1 = spec_skip_ws(s, i0 + 1);
        if i1 < s.len() && s[i1] == '"' {
            if i1 + 1 + key.len() < s.len() && s.subrange(i1 + 1, i1 + 1 + key.len()) == key
                && s[i1 + 1 + key.len()] == '"' {
                let i2 = spec_skip_ws(s, i1 + key.len() + 2);
                if i2 < s.len() && s[i2] == ':' {
                    let i3 = spec_skip_ws(s, i2 + 1);
                    if i3 < s.len() && s[i3] == '"' {
                        match spec_parse_jstring_body(s, i3 + 1) {
                            Some((v, i4)) => {
                                let i5 = spec_skip_ws(s, i4);
                                if i5 < s.len() && s[i5] == '}' && spec_skip_ws(s, i5 + 1)
                                    == s.len() {
                                    Some(v)
                                } else {
                                    None
                                }
                            }
                            None => None,
                        }
                    } else {
                        None
                    }
                } else {
                    None
                }
            } else {
                None
            }
        } else {
            None
        }
    } else {
        None
    }
}

/// A character that stands for itself inside a JSON string: not a
/// quote, not a backslash, not a control character.
pub open spec fn is_plain_char(c: char) -> bool {
    c != '"' && c != '\\' && (c as u32) >= 0x20
}

/// A plain character escapes to itself.
pub proof fn lemma_escape_plain(s: Seq<char>)
    requires
        forall|i: int| 0 <= i < s.len() ==> is_plain_char(#[trigger] s[i]),
    ensures
        spec_escape(s) == s,
    decreases s.len(),
{
    if s.len() > 0 {
        lemma_escape_plain(s.drop_first());
        assert(spec_escape(s) =~= s);
    } else {
        assert(spec_escape(s) =~= s);
    }
}

/// A skip over no whitespace stays put.
proof fn lemma_skip_ws_still(s: Seq<char>, i: int)
    requires
        0 <= i <= s.len(),
        i < s.len() ==> !is_json_ws(s[i]),
    ensures
        spec_skip_ws(s, i) == i,
{
}

/// Decoding inverts encoding, one string: if the text from `i` carries
/// the escaped form of `v` and its closing quote, the parse succeeds
/// and yields exactly `v`, stopping right after the quote.
proof fn lemma_jstring_roundtrip(s: Seq<char>, i: int, v: Seq<char>)
    requires
        0 <= i,
        i + spec_escape(v).len() + 1 <= s.len(),
        s.subrange(i, i + spec_escape(v).len() + 1) == spec_escape(v) + seq!['"'],
    ensures
        spec_parse_jstring_body(s, i) == Some((v, i + spec_escape(v).len() + 1)),
    decreases v.len(),
{
    let e = spec_escape(v);
    let sub = s.subrange(i, i + e.len() + 1);
    if v.len() == 0 {
        assert(sub[0] == '"');
        assert(s[i] == sub[0]);
    } else {
        let c = v[0];
        let e0 = esc_char(c);
        let vrest = v.drop_first();
        let rest = spec_escape(vrest);
        assert(e == e0 + rest);
        let i2 = i + e0.len() as int;
        assert forall|k: int| 0 <= k < rest.len() + 1 implies #[trigger] s.subrange(
            i2,
            i2 + rest.len() + 1,
        )[k] == (rest + seq!['"'])[k] by {
            assert(s.subrange(i2, i2 + rest.len() + 1)[k] == s[i2 + k]);
            assert(sub[e0.len() + k] == s[i + (e0.len() + k)]);
            assert(s[i2 + k] == sub[e0.len() + k]);
            assert(sub[e0.len() + k] == (rest + seq!['"'])[k]);
        }
        assert(s.subrange(i2, i2 + rest.len() + 1) =~= rest + seq!['"']);
        lemma_jstring_roundtrip(s, i2, vrest);
        if c == '"' || c == '\\' || c == '\u{8}' || c == '\t' || c == '\n' || c == '\u{c}'
            || c == '\r' {
            assert(e0.len() == 2);
            assert(sub[0] == e0[0]);
            assert(sub[1] == e0[1]);
            assert(s[i] == sub[0]);
            assert(s[i + 1] == sub[1]);
            assert(e0[0] == '\\');
            assert(e0[1] != 'u');
            assert(unescape_simple(e0[1]) == Some(c));
            assert(spec_parse_jstring_body(s, i) == Some(
                (seq![c] + vrest, i + e.len() + 1),
            ));
            assert(seq![c] + vrest =~= v);
        } else if (c as u32) < 0x20 {
            let u = c as u32;
            assert(e0.len() == 6);
            assert(sub[0] == e0[0]);
            assert(sub[1] == e0[1]);
            assert(sub[2] == e0[2]);
            assert(sub[3] == e0[3]);
            assert(sub[4] == e0[4]);
            assert(sub[5] == e0[5]);
            assert(s[i] == sub[0]);
            assert(s[i + 1] == sub[1]);
            assert(s[i + 2] == sub[2]);
            assert(s[i + 3] == sub[3]);
            assert(s[i + 4] == sub[4]);
            assert(s[i + 5] == sub[5]);
            assert(e0[0] == '\\' && e0[1] == 'u' && e0[2] == '0' && e0[3] == '0');
            assert(e0[4] == hex_digit(u as int / 16) && e0[5] == hex_digit(u as int % 16));
            assert(hex_val('0') == Some(0int));
            assert(hex_val(hex_digit(u as int / 16)) == Some(u as int / 16));
            assert(hex_val(hex_digit(u as int % 16)) == Some(u as int % 16));
            let w = 0 * 4096 + 0 * 256 + (u as int / 16) * 16 + u as int % 16;
            assert(w == u as int);
            assert(((w as u8) as char) == c) by {
                assert(w < 0x20);
                assert((w as u8) as u32 == u);
                vstd::utf8::char_u32_cast(c, u);
            }
            assert(spec_parse_jstring_body(s, i) == Some(
                (seq![c] + vrest, i + e.len() + 1),
            ));
            assert(seq![c] + vrest =~= v);
        } else {
            assert(is_plain_char(c));
            assert(e0.len() == 1);
            assert(sub[0] == e0[0]);
            assert(s[i] == sub[0]);
            assert(e0[0] == c);
            assert(spec_parse_jstring_body(s, i) == Some(
                (seq![c] + vrest, i + e.len() + 1),
            ));
            assert(seq![c] + vrest =~= v);
        }
    }
}

/// Round trip: parsing the canonical one-field object for a plain key
/// gives back exactly the encoded value, whatever that value holds.
/// What one side of the daemon API writes, the other reads unchanged.
pub proof fn lemma_field_object_roundtrip(key: Seq<char>, v: Seq<char>)
    requires
        forall|i: int| 0 <= i < key.len() ==> is_plain_char(#[trigger] key[i]),
    ensures
        spec_parse_field(spec_field_object(key, v), key) == Some(v),
{
    lemma_escape_plain(key);
    let s = spec_field_object(key, v);
    let k = key.len() as int;
    let e = spec_escape(v);
    let flat = seq!['{', '"'] + key + seq!['"', ':', '"'] + e + seq!['"', '}'];
    assert(s =~= flat);
    assert(s.len() == k + e.len() + 7);
    assert(s[0] == '{');
    lemma_skip_ws_still(s, 0);
    assert(s[1] == '"');
    lemma_skip_ws_still(s, 1);
    assert(s.subrange(2, 2 + k) =~= key) by {
        assert forall|m: int| 0 <= m < k implies s.subrange(2, 2 + k)[m] == key[m] by {
            assert(s.subrange(2, 2 + k)[m] == s[2 + m]);
            assert(s[2 + m] == flat[2 + m]);
        }
    }
    assert(s[2 + k] == '"');
    assert(s[3 + k] == ':');
    lemma_skip_ws_still(s, 3 + k);
    assert(s[4 + k] == '"');
    lemma_skip_ws_still(s, 4 + k);
    assert(s.subrange(5 + k, 5 + k + e.len() + 1) =~= e + seq!['"']) by {
        assert forall|m: int| 0 <= m < e.len() + 1 implies s.subrange(
            5 + k,
            5 + k + e.len() + 1,
        )[m] == (e + seq!['"'])[m] by {
            assert(s.subrange(5 + k, 5 + k + e.len() + 1)[m] == s[5 + k + m]);
            assert(s[5 + k + m] == flat[5 + k + m]);
        }
    }
    lemma_jstring_roundtrip(s, 5 + k, v);
    let j = 5 + k + e.len() + 1;
    assert(s[j] == '}');
    lemma_skip_ws_still(s, j);
    lemma_skip_ws_still(s, j + 1);
    assert(spec_skip_ws(s, j + 1) == s.len());
}

fn is_ws_exec(c: char) -> (r: bool)
    ensures
        r == is_json_ws(c),
{
    c == ' ' || c == '\t' || c == '\n' || c == '\r'
}

fn skip_ws(s: &str, i: usize) -> (r: usize)
    requires
        i as int <= s@.len(),
    ensures
        r as int == spec_skip_ws(s@, i as int),
        i <= r,
        r as int <= s@.len(),
{
    let len = s.unicode_len();
    let mut j = i;
    while j < len && is_ws_exec(s.get_char(j))
        invariant
            i <= j,
            j as int <= s@.len(),
            len == s@.len(),
            spec_skip_ws(s@, i as int) == spec_skip_ws(s@, j as int),
        decreases len - j,
    {
        j = j + 1;
    }
    j
}

fn hex_val_exec(c: char) -> (r: Option<u32>)
    ensures
        match hex_val(c) {
            Some(v) => r matches Some(u) && u as int == v && u < 16,
            None => r is None,
        },
{
    let u = c as u32;
    if '0' <= c && c <= '9' {
        Some(u - 48)
    } else if 'a' <= c && c <= 'f' {
        Some(u - 87)
    } else if 'A' <= c && c <= 'F' {
        Some(u - 55)
    } else {
        None
    }
}

fn parse_jstring_body(s: &str, i: usize) -> (r: Option<(String, usize)>)
    requires
        i as int <= s@.len(),
    ensures
        match spec_parse_jstring_body(s@, i as int) {
            Some(p) => r matches Some(q) && q.0@ == p.0 && q.1 as int == p.1,
            None => r is None,
        },
    decreases s@.len() - i,
{
    let len = s.unicode_len();
    if i >= len {
        return None;
    }
    let c = s.get_char(i);
    if c == '"' {
        return Some((String::new(), i + 1));
    }
    if c == '\\' {
        if i + 1 >= len {
            return None;
        }
        let e = s.get_char(i + 1);
        if e == 'u' {
            if len - i <= 5 {
                return None;
            }
            let h3 = hex_val_exec(s.get_char(i + 2));
            let h2 = hex_val_exec(s.get_char(i + 3));
            let h1 = hex_val_exec(s.get_char(i + 4));
            let h0 = hex_val_exec(s.get_char(i + 5));
            match (h3, h2, h1, h0) {
                (Some(a), Some(b), Some(x), Some(y)) => {
                    let v = a * 4096 + b * 256 + x * 16 + y;
                    if v >= 0x80 {
                        return None;
                    }
                    match parse_jstring_body(s, i + 6) {
                        Some((tail, j)) => {
                            let mut out = String::new();
                            push_char(&mut out, (v as u8) as char);
                            out.append(tail.as_str());
                            Some((out, j))
                        }
                        None => None,
                    }
                }
                _ => None,
            }
        } else {
            let dec = if e == '"' {
                Some('"')
            } else if e == '\\' {
                Some('\\')
            } else if e == '/' {
                Some('/')
            } else if e == 'b' {
                Some('\u{8}')
            } else if e == 'f' {
                Some('\u{c}')
            } else if e == 'n' {
                Some('\n')
            } else if e == 'r' {
                Some('\r')
            } else if e == 't' {
                Some('\t')
            } else {
                None
            };
            match dec {
                Some(d) => match parse_jstring_body(s, i + 2) {
                    Some((tail, j)) => {
                        let mut out = String::new();
                        push_char(&mut out, d);
                        out.append(tail.as_str());
                        Some((out, j))
                    }
                    None => None,
                },
                None => None,
            }
        }
    } else if (c as u32) < 0x20 {
        None
    } else {
        match parse_jstring_body(s, i + 1) {
            Some((tail, j)) => {
                let mut out = String::new();
                push_char(&mut out, c);
                out.append(tail.as_str());
                Some((out, j))
            }
            None => None,
        }
    }
}

/// Parses a whole body of the form `{"<key>": <string>}` and returns the
/// decoded string value; `None` on any malformed body.
#[verifier::loop_isolation(false)]
pub fn parse_field_object(s: &str, key: &str) -> (r: Option<String>)
    ensures
        match spec_parse_field(s@, key@) {
            Some(v) => r matches Some(n) && n@ == v,
            None => r is None,
        },
{
    let len = s.unicode_len();
    let key_len = key.unicode_len();
    proof {
        lemma_skip_ws_bounds(s@, 0);
    }
    let i0 = skip_ws(s, 0);
    if !(i0 < len) {
        return None;
    }
    if s.get_char(i0) != '{' {
        return None;
    }
    let i1 = skip_ws(s, i0 + 1);
    if !(i1 < len) {
        return None;
    }
    if s.get_char(i1) != '"' {
        return None;
    }
    if !(key_len < len - i1 - 1) {
        return None;
    }
    let mut k: usize = 0;
    while k < key_len
        invariant
            k <= key_len,
            key_len == key@.len(),
            len == s@.len(),
            0 <= i1,
            i1 + 1 + key_len < len,
            forall|m: int| 0 <= m < k ==> s@[i1 + 1 + m] == key@[m],
        decreases key_len - k,
    {
        if s.get_char(i1 + 1 + k) != key.get_char(k) {
            proof {
                assert(s@.subrange(i1 + 1, i1 + 1 + key@.len() as int)[k as int] == s@[i1 + 1
                    + k]);
            }
            return None;
        }
        k = k + 1;
    }
    proof {
        assert(s@.subrange(i1 + 1, i1 + 1 + key@.len() as int) =~= key@);
    }
    if s.get_char(i1 + 1 + key_len) != '"' {
        return None;
    }
    let i2 = skip_ws(s, i1 + key_len + 2);
    if !(i2 < len) {
        return None;
    }
    if s.get_char(i2) != ':' {
        return None;
    }
    let i3 = skip_ws(s, i2 + 1);
    if !(i3 < len) {
        return None;
    }
    if s.get_char(i3) != '"' {
        return None;
    }
    proof {
        lemma_jstring_body_bounds(s@, i3 as int + 1);
    }
    match parse_jstring_body(s, i3 + 1) {
        Some((v, i4)) => {
            let i5 = skip_ws(s, i4);
            if !(i5 < len) {
                return None;
            }
            if s.get_char(i5) != '}' {
                return None;
            }
            if skip_ws(s, i5 + 1) != len {
                return None;
            }
            Some(v)
        }
        None => None,
    }
}

} // verus!
