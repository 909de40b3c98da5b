//! Credential generator: a random 32-character shared secret drawn from the
//! 62-character alphanumeric alphabet.

use vstd::prelude::*;
use crate::text::{ascii_to_string, chars_of_bytes, is_ascii_bytes};
use rand::RngExt;

verus! {

/// Number of characters in a generated secret.
pub const SECRET_LEN: usize = 32;

/// Number of distinct characters a secret may contain: 26 lower-case letters,
/// 26 upper-case letters and 10 digits.
pub const ALPHABET_LEN: usize = 62;

/// The ASCII code standing at position `i` of the secret alphabet:
/// lower-case letters first, then upper-case letters, then digits.
pub open spec fn alphabet_code(i: int) -> int {
    if i < 26 {
        97 + i
    } else if i < 52 {
        65 + (i - 26)
    } else {
        48 + (i - 52)
    }
}

/// The byte is an ASCII letter or digit.
pub open spec fn is_alphanum_byte(b: u8) -> bool {
    (97 <= b <= 122) || (65 <= b <= 90) || (48 <= b <= 57)
}

/// The character is an ASCII letter or digit.
pub open spec fn is_alphanum_char(c: char) -> bool {
    (97 <= c as int <= 122) || (65 <= c as int <= 90) || (48 <= c as int <= 57)
}

/// Relies on rand's RngExt::random_range over a half-open range starting at
/// zero: the result is drawn uniformly and lies below the bound.
#[verifier::external_body]
fn random_index(bound: usize) -> (r: usize)
    requires
        0 < bound,
    ensures
        r < bound,
{
    rand::rng().random_range(0..bound)
}

/// The byte at position `i` of the secret alphabet.
fn alphabet_byte(i: usize) -> (b: u8)
    requires
        i < ALPHABET_LEN,
    ensures
        b as int == alphabet_code(i as int),
        is_alphanum_byte(b),
{
    if i < 26 {
        97 + (i as u8)
    } else if i < 52 {
        65 + ((i - 26) as u8)
    } else {
        48 + ((i - 52) as u8)
    }
}

/// Returns a fresh shared secret: 32 characters, each drawn uniformly at
/// random from the 62-character alphanumeric alphabet.
pub fn generate_secret() -> (s: String)
    ensures
        s@.len() == SECRET_LEN,
        forall|i: int| 0 <= i < s@.len() ==> is_alphanum_char(s@[i]),
{
    let mut bytes: Vec<u8> = Vec::new();
    while bytes.len() < SECRET_LEN
        invariant
            bytes@.len() <= SECRET_LEN,
            forall|i: int| 0 <= i < bytes@.len() ==> is_alphanum_byte(bytes@[i]),
        decreases SECRET_LEN - bytes@.len(),
    {
        let idx = random_index(ALPHABET_LEN);
        let b = alphabet_byte(idx);
        bytes.push(b);
    }
    proof {
        assert(is_ascii_bytes(bytes@));
    }
    let s = ascii_to_string(&bytes);
    proof {
        assert forall|i: int| 0 <= i < s@.len() implies is_alphanum_char(s@[i]) by {
            assert(s@[i] == bytes@[i] as char);
        }
    }
    s
}

} // verus!
