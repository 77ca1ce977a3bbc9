//! Nonce generation: four random bytes, hex-encoded to eight lowercase
//! hexadecimal characters.

use vstd::prelude::*;
use crate::ext::{hex_digit, hex_encode, hex_of, random_u32};

verus! {

/// A lowercase hexadecimal digit.
pub open spec fn is_hex_digit_char(c: char) -> bool {
    c == '0' || c == '1' || c == '2' || c == '3' || c == '4' || c == '5' || c == '6' || c == '7'
        || c == '8' || c == '9' || c == 'a' || c == 'b' || c == 'c' || c == 'd' || c == 'e'
        || c == 'f'
}

/// The shape of a nonce: exactly eight lowercase hexadecimal characters.
pub open spec fn is_nonce(s: Seq<char>) -> bool {
    s.len() == 8 && (forall|i: int| 0 <= i < 8 ==> is_hex_digit_char(s[i]))
}

/// Every character of a hex encoding is a lowercase hex digit, and the
/// encoding is twice as long as the input.
proof fn lemma_hex_of_shape(b: Seq<u8>)
    ensures
        hex_of(b).len() == 2 * b.len(),
        forall|i: int| 0 <= i < hex_of(b).len() ==> is_hex_digit_char(hex_of(b)[i]),
    decreases b.len(),
{
    if b.len() > 0 {
        lemma_hex_of_shape(b.drop_last());
        assert(is_hex_digit_char(hex_digit((b.last() / 16) as u8)));
        assert(is_hex_digit_char(hex_digit((b.last() % 16) as u8)));
    }
}

/// Draws a 32-bit random value, takes its four bytes in little-endian order,
/// and hex-encodes them into an 8-character lowercase nonce.
pub fn generate_nonce() -> (r: String)
    ensures
        is_nonce(r@),
{
    let n = random_u32();
    let mut bytes: Vec<u8> = Vec::new();
    bytes.push((n % 256) as u8);
    bytes.push(((n / 256) % 256) as u8);
    bytes.push(((n / 65536) % 256) as u8);
    bytes.push(((n / 16777216) % 256) as u8);
    let s = hex_encode(&bytes);
    proof {
        lemma_hex_of_shape(bytes@);
    }
    s
}

} // verus!
