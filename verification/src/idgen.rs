//! Generation of fresh random identifiers: the per-run VM id (128 random
//! bits rendered as 32 hex characters) and the random suffix of a tap
//! device name.

use vstd::prelude::*;
use crate::text::{spec_hex, is_hex_char, lemma_spec_hex_chars};
use crate::ident::{is_ident_char, is_valid_identifier};

verus! {

/// Relies on `rand::random`: fills an array from the thread-local
/// generator. Nothing is promised of the bytes beyond their number.
#[verifier::external_body]
fn random_bytes_16() -> (r: Vec<u8>)
    ensures
        r@.len() == 16,
{
    rand::random::<[u8; 16]>().to_vec()
}

/// Relies on `hex::encode`: lowercase hexadecimal, two digits per byte,
/// high nibble first.
#[verifier::external_body]
fn hex_encode(bytes: &Vec<u8>) -> (r: String)
    ensures
        r@ == spec_hex(bytes@),
{
    hex::encode(bytes)
}

/// Relies on `rand::distr::Alphanumeric` sampled through
/// `SampleString::sample_string`: every sampled character is drawn from
/// `A`-`Z`, `a`-`z`, `0`-`9`, and exactly `len` of them are appended.
#[verifier::external_body]
fn random_alnum(len: usize) -> (r: String)
    ensures
        r@.len() == len,
        forall|i: int| 0 <= i < r@.len() ==> is_alnum_char(#[trigger] r@[i]),
{
    rand::distr::SampleString::sample_string(&rand::distr::Alphanumeric, &mut rand::rng(), len)
}

/// An ASCII letter or digit.
pub open spec fn is_alnum_char(c: char) -> bool {
    ('a' <= c && c <= 'z') || ('A' <= c && c <= 'Z') || ('0' <= c && c <= '9')
}

/// A fresh VM id: 128 random bits as 32 lowercase hex characters.
/// Every such id is a valid identifier, so it is safe in file names.
pub fn fresh_vm_id() -> (r: String)
    ensures
        r@.len() == 32,
        forall|i: int| 0 <= i < r@.len() ==> is_hex_char(#[trigger] r@[i]),
        is_valid_identifier(r@),
{
    let bytes = random_bytes_16();
    let id = hex_encode(&bytes);
    proof {
        lemma_spec_hex_chars(bytes@);
        assert forall|i: int| 0 <= i < id@.len() implies is_ident_char(#[trigger] id@[i]) by {
            assert(is_hex_char(id@[i]));
        }
    }
    id
}

/// A fresh random suffix for a tap device name: seven ASCII letters or
/// digits, hence itself a valid identifier.
pub fn fresh_tap_suffix() -> (r: String)
    ensures
        r@.len() == 7,
        is_valid_identifier(r@),
    {
    let s = random_alnum(7);
    proof {
        assert forall|i: int| 0 <= i < s@.len() implies is_ident_char(#[trigger] s@[i]) by {
            assert(is_alnum_char(s@[i]));
        }
    }
    s
}

} // verus!
