//! Byte-level text building blocks: ASCII views of string literals and
//! decimal renderings of integers, shared by the log channel's line and
//! banner formats.

use vstd::prelude::*;
use vstd::string::StringSliceAdditionalSpecFns;

verus! {

/// Every byte of the sequence is an ASCII code point.
pub open spec fn is_ascii_bytes(s: Seq<u8>) -> bool {
    forall|i: int| 0 <= i < s.len() ==> s[i] < 128
}

/// The byte form of an ASCII character sequence, one byte per character.
pub open spec fn ascii_bytes_of(s: Seq<char>) -> Seq<u8> {
    Seq::new(s.len(), |i: int| s[i] as u8)
}

/// The characters an ASCII byte sequence decodes to, one per byte.
pub open spec fn chars_of_bytes(s: Seq<u8>) -> Seq<char> {
    Seq::new(s.len(), |i: int| s[i] as char)
}

/// Copies an ASCII string slice into its byte form.
pub fn lit_bytes(s: &str) -> (r: Vec<u8>)
    requires
        vstd::string::is_ascii(s),
    ensures
        r@ == ascii_bytes_of(s@),
{
    proof {
        vstd::string::is_ascii_spec_bytes(s);
        assert(s.spec_bytes() =~= ascii_bytes_of(s@));
    }
    let b = s.as_bytes();
    vstd::slice::slice_to_vec(b)
}

/// The decimal digits of a nonnegative integer, as ASCII bytes,
/// most significant digit first.
pub open spec fn dec_digits(n: int) -> Seq<u8>
    decreases n,
{
    if n < 10 {
        seq![(48 + n) as u8]
    } else {
        dec_digits(n / 10).push((48 + n % 10) as u8)
    }
}

/// The decimal digits of an integer, with a leading minus sign when negative.
pub open spec fn int_digits(n: int) -> Seq<u8> {
    if n < 0 {
        seq![45u8] + dec_digits(-n)
    } else {
        dec_digits(n)
    }
}

/// A decimal rendering holds nothing but ASCII digit bytes.
pub proof fn lemma_dec_digits_ascii(n: int)
    requires
        0 <= n,
    ensures
        is_ascii_bytes(dec_digits(n)),
    decreases n,
{
    if n >= 10 {
        lemma_dec_digits_ascii(n / 10);
    }
}

/// Renders an unsigned integer in decimal.
pub fn u64_dec(n: u64) -> (r: Vec<u8>)
    ensures
        r@ == dec_digits(n as int),
    decreases n,
{
    if n < 10 {
        let mut v: Vec<u8> = Vec::new();
        v.push(48 + (n as u8));
        proof {
            assert(v@ =~= dec_digits(n as int));
        }
        v
    } else {
        let mut v = u64_dec(n / 10);
        v.push(48 + ((n % 10) as u8));
        v
    }
}

/// Renders a signed integer in decimal, with a minus sign when negative.
pub fn i32_dec(n: i32) -> (r: Vec<u8>)
    ensures
        r@ == int_digits(n as int),
{
    if n >= 0 {
        u64_dec(n as u64)
    } else {
        let mut v: Vec<u8> = Vec::new();
        v.push(45);
        let wide: i64 = n as i64;
        let mut d = u64_dec((-wide) as u64);
        v.append(&mut d);
        proof {
            assert(v@ =~= int_digits(n as int));
        }
        v
    }
}

/// Relies on String::from_utf8: ASCII bytes are valid UTF-8 and decode to
/// the corresponding characters unchanged, so the conversion cannot fail.
#[verifier::external_body]
pub(crate) fn ascii_to_string(b: &Vec<u8>) -> (r: String)
    requires
        is_ascii_bytes(b@),
    ensures
        r@ == chars_of_bytes(b@),
{
    match String::from_utf8(b.clone()) {
        Ok(s) => s,
        Err(_) => String::new(),
    }
}

} // verus!
