//! Small verified text-building helpers: appending single characters,
//! rendering unsigned numbers in decimal, and rendering bytes in
//! lowercase hexadecimal.

use vstd::prelude::*;

verus! {

/// Relies on `String::push`: appends exactly one character at the end.
#[verifier::external_body]
pub fn push_char(s: &mut String, c: char)
    ensures
        final(s)@ == old(s)@.push(c),
{
    s.push(c);
}

/// The decimal digit character for a value below ten.
pub open spec fn dec_digit(d: int) -> char {
    if d == 0 { '0' }
    else if d == 1 { '1' }
    else if d == 2 { '2' }
    else if d == 3 { '3' }
    else if d == 4 { '4' }
    else if d == 5 { '5' }
    else if d == 6 { '6' }
    else if d == 7 { '7' }
    else if d == 8 { '8' }
    else { '9' }
}

/// The usual decimal rendering of a non-negative integer, most
/// significant digit first, with no leading zeros (except for zero
/// itself).
pub open spec fn spec_dec(n: int) -> Seq<char>
    decreases n,
{
    if n < 10 {
        seq![dec_digit(n)]
    } else {
        spec_dec(n / 10).push(dec_digit(n % 10))
    }
}

fn push_dec_digit(s: &mut String, d: u64)
    requires
        d < 10,
    ensures
        final(s)@ == old(s)@.push(dec_digit(d as int)),
{
    if d == 0 { push_char(s, '0') }
    else if d == 1 { push_char(s, '1') }
    else if d == 2 { push_char(s, '2') }
    else if d == 3 { push_char(s, '3') }
    else if d == 4 { push_char(s, '4') }
    else if d == 5 { push_char(s, '5') }
    else if d == 6 { push_char(s, '6') }
    else if d == 7 { push_char(s, '7') }
    else if d == 8 { push_char(s, '8') }
    else { push_char(s, '9') }
}

fn push_dec(s: &mut String, n: u64)
    ensures
        final(s)@ == old(s)@ + spec_dec(n as int),
    decreases n,
{
    if n >= 10 {
        push_dec(s, n / 10);
    }
    push_dec_digit(s, n % 10);
    proof {
        if n < 10 {
            assert(old(s)@ + spec_dec(n as int) =~= old(s)@.push(dec_digit(n as int)));
        } else {
            assert(old(s)@ + spec_dec(n as int)
                =~= (old(s)@ + spec_dec(n as int / 10)).push(dec_digit(n as int % 10)));
        }
    }
}

/// Renders `n` in decimal.
pub fn u64_to_dec(n: u64) -> (s: String)
    ensures
        s@ == spec_dec(n as int),
{
    let mut s = String::new();
    push_dec(&mut s, n);
    proof {
        assert(s@ =~= spec_dec(n as int));
    }
    s
}

/// The lowercase hexadecimal digit character for a value below sixteen.
pub open spec fn hex_digit(d: int) -> char {
    if d < 10 { dec_digit(d) }
    else if d == 10 { 'a' }
    else if d == 11 { 'b' }
    else if d == 12 { 'c' }
    else if d == 13 { 'd' }
    else if d == 14 { 'e' }
    else { 'f' }
}

/// Lowercase hexadecimal rendering of a byte string: two digits per
/// byte, high nibble first.
pub open spec fn spec_hex(bytes: Seq<u8>) -> Seq<char>
    decreases bytes.len(),
{
    if bytes.len() == 0 {
        Seq::empty()
    } else {
        spec_hex(bytes.drop_last())
            .push(hex_digit(bytes.last() as int / 16))
            .push(hex_digit(bytes.last() as int % 16))
    }
}

/// Each character of a hexadecimal rendering is a lowercase hex digit.
pub proof fn lemma_spec_hex_chars(bytes: Seq<u8>)
    ensures
        spec_hex(bytes).len() == 2 * bytes.len(),
        forall|i: int| 0 <= i < spec_hex(bytes).len()
            ==> #[trigger] is_hex_char(spec_hex(bytes)[i]),
    decreases bytes.len(),
{
    if bytes.len() > 0 {
        lemma_spec_hex_chars(bytes.drop_last());
    }
}

/// A lowercase hexadecimal digit character.
pub open spec fn is_hex_char(c: char) -> bool {
    ('0' <= c && c <= '9') || ('a' <= c && c <= 'f')
}

} // verus!
