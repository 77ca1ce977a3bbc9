//! The trusted boundary: thin wrappers around the outside crates that do
//! base58 decoding, the Ed25519 check, hex encoding, randomness and the
//! clock. Each wrapper's contract states what its outside function returns;
//! everything else in the crate is verified against these contracts.

use vstd::prelude::*;
use std::str::FromStr;

verus! {

/// What `solana_sdk::signature::Signature::from_str` decodes a signature
/// string to: exactly 64 bytes of base58-decoded data on success, nothing
/// when the string is not the base58 form of 64 bytes.
pub uninterp spec fn sig_bytes_of(s: Seq<char>) -> Option<Seq<u8>>;

/// What `solana_sdk::pubkey::Pubkey::from_str` decodes an address string to:
/// exactly 32 bytes of base58-decoded data on success, nothing when the
/// string is not the base58 form of 32 bytes.
pub uninterp spec fn pubkey_bytes_of(s: Seq<char>) -> Option<Seq<u8>>;

/// Whether `sig` is a valid Ed25519 signature over `msg` under the 32-byte
/// public key `pk`, as `nacl::sign::verify` decides it.
pub uninterp spec fn ed25519_verifies(sig: Seq<u8>, msg: Seq<u8>, pk: Seq<u8>) -> bool;

/// The lowercase hexadecimal digit for a value below 16.
pub open spec fn hex_digit(n: u8) -> char {
    if n == 0 {
        '0'
    } else if n == 1 {
        '1'
    } else if n == 2 {
        '2'
    } else if n == 3 {
        '3'
    } else if n == 4 {
        '4'
    } else if n == 5 {
        '5'
    } else if n == 6 {
        '6'
    } else if n == 7 {
        '7'
    } else if n == 8 {
        '8'
    } else if n == 9 {
        '9'
    } else if n == 10 {
        'a'
    } else if n == 11 {
        'b'
    } else if n == 12 {
        'c'
    } else if n == 13 {
        'd'
    } else if n == 14 {
        'e'
    } else {
        'f'
    }
}

/// The lowercase hex encoding of a byte sequence: two digits per byte,
/// high nibble first, bytes in order.
pub open spec fn hex_of(b: Seq<u8>) -> Seq<char>
    decreases b.len(),
{
    if b.len() == 0 {
        Seq::empty()
    } else {
        hex_of(b.drop_last()) + seq![
            hex_digit((b.last() / 16) as u8),
            hex_digit((b.last() % 16) as u8),
        ]
    }
}

/// Relies on `solana_sdk::signature::Signature::from_str`: it base58-decodes
/// the string into exactly 64 signature bytes, and errors on any string that
/// does not decode to that length.
#[verifier::external_body]
pub(crate) fn decode_signature(s: &str) -> (r: Option<Vec<u8>>)
    ensures
        match r {
            Some(b) => sig_bytes_of(s@) == Some(b@) && b@.len() == 64,
            None => sig_bytes_of(s@) is None,
        },
{
    match solana_sdk::signature::Signature::from_str(s) {
        Ok(sig) => Some(sig.as_ref().to_vec()),
        Err(_) => None,
    }
}

/// Relies on `solana_sdk::pubkey::Pubkey::from_str`: it base58-decodes the
/// string into exactly 32 public-key bytes, and errors on any string that
/// does not decode to that length.
#[verifier::external_body]
pub(crate) fn decode_pubkey(s: &str) -> (r: Option<Vec<u8>>)
    ensures
        match r {
            Some(b) => pubkey_bytes_of(s@) == Some(b@) && b@.len() == 32,
            None => pubkey_bytes_of(s@) is None,
        },
{
    match solana_sdk::pubkey::Pubkey::from_str(s) {
        Ok(pk) => Some(pk.as_ref().to_vec()),
        Err(_) => None,
    }
}

/// Relies on `nacl::sign::verify`: the Ed25519 check over a 64-byte
/// signature, the message bytes and a 32-byte public key. Its result depends
/// on the three arguments alone; with a 32-byte key its source reports no
/// error, and an error is counted as a failed check all the same.
#[verifier::external_body]
pub(crate) fn ed25519_check(sig: &[u8], msg: &[u8], pk: &[u8]) -> (r: bool)
    requires
        sig@.len() == 64,
        pk@.len() == 32,
    ensures
        r == ed25519_verifies(sig@, msg@, pk@),
{
    nacl::sign::verify(sig, msg, pk).unwrap_or(false)
}

/// Relies on `hex::encode`: lowercase hex, two digits per byte, high nibble
/// first, bytes in order.
#[verifier::external_body]
pub(crate) fn hex_encode(bytes: &Vec<u8>) -> (r: String)
    ensures
        r@ == hex_of(bytes@),
{
    hex::encode(bytes)
}

/// Relies on `rand::random`: a fresh 32-bit value; nothing is promised of it.
#[verifier::external_body]
pub(crate) fn random_u32() -> u32 {
    rand::random::<u32>()
}

/// Relies on `time::OffsetDateTime::now_utc` and its RFC 3339 formatting:
/// the current UTC time as text; nothing is promised of it. Formatting the
/// current time cannot fail in any reachable year, so a failure panics
/// rather than handing back a default.
#[verifier::external_body]
pub(crate) fn now_rfc3339() -> String {
    time::OffsetDateTime::now_utc()
        .format(&time::format_description::well_known::Rfc3339)
        .unwrap()
}

} // verus!
