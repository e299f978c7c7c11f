//! Small shared helpers: text-input conversion and the random key used in the
//! real-time channel handshake.

pub mod digits;
pub mod hash_map;
pub mod list;
pub mod types;

use vstd::prelude::*;
use base64::Engine;
use crate::helpers::types::TextInput;

verus! {

/// What standard base64 encoding (padded, the standard alphabet) makes of a
/// byte sequence. The encoding is a function of the bytes alone.
pub uninterp spec fn base64_of(b: Seq<u8>) -> Seq<char>;

/// Relies on std's `FromIterator<char> for String`: collecting copied
/// characters yields the string of exactly those characters.
#[verifier::external_body]
pub(crate) fn collect_chars(cs: &Vec<char>) -> (r: String)
    ensures
        r@ == cs@,
{
    cs.iter().collect()
}

/// Relies on `rand::fill`: fills the slice with random bytes from the
/// thread-local generator. Nothing is promised of the values.
#[verifier::external_body]
fn random_key_bytes() -> (r: Vec<u8>)
    ensures
        r@.len() == 16,
{
    let mut key = [0u8; 16];
    rand::fill(&mut key[..]);
    key.to_vec()
}

/// Relies on `base64::engine::Engine::encode` with the
/// `general_purpose::STANDARD` engine: encodes the bytes as standard padded
/// base64, a function of the bytes alone.
#[verifier::external_body]
fn base64_encode(b: &Vec<u8>) -> (r: String)
    ensures
        r@ == base64_of(b@),
{
    base64::engine::general_purpose::STANDARD.encode(b)
}

/// A fresh `Sec-WebSocket-Key` header value: standard base64 of 16 random
/// bytes.
pub fn generate_sec_websocket_key() -> (r: String)
    ensures
        exists|b: Seq<u8>| b.len() == 16 && r@ == base64_of(b),
{
    let key = random_key_bytes();
    let encoded = base64_encode(&key);
    proof {
        assert(key@.len() == 16 && encoded@ == base64_of(key@));
    }
    encoded
}

/// Whether two strings hold the same characters.
pub fn equal_strings(a: &String, b: &String) -> (r: bool)
    ensures
        r == (a@ == b@),
{
    *a == *b
}

/// Whether two input lines hold the same characters.
pub fn equal_char_vecs(a: &TextInput, b: &TextInput) -> (r: bool)
    ensures
        r == (a@ == b@),
{
    if a.len() != b.len() {
        return false;
    }
    for i in 0..a.len()
        invariant
            a@.len() == b@.len(),
            forall|j: int| 0 <= j < i ==> a@[j] == b@[j],
    {
        if a[i] != b[i] {
            return false;
        }
    }
    proof {
        assert(a@ =~= b@);
    }
    true
}

/// The text entered so far, as one string.
pub fn input_to_string(text_input: &TextInput) -> (r: String)
    ensures
        r@ == text_input@,
{
    collect_chars(text_input)
}

} // verus!
