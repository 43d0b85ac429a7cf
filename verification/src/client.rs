//! Client-role helpers: parsing pinned server-certificate hashes and
//! normalizing the outbound target address.

use vstd::prelude::*;
use crate::bytes::append_bytes;
use crate::bytes::has_prefix;
use crate::bytes::is_prefix_of;
use crate::origin::https_prefix;
use crate::origin::https_prefix_vec;

verus! {

/// A byte is an ASCII hex digit.
pub open spec fn is_hex_digit(b: u8) -> bool {
    (48 <= b <= 57) || (97 <= b <= 102) || (65 <= b <= 70)
}

/// The numeric value of an ASCII hex digit.
pub open spec fn hex_digit_val(b: u8) -> u8 {
    if 48 <= b <= 57 {
        (b - 48) as u8
    } else if 97 <= b <= 102 {
        (b - 97 + 10) as u8
    } else {
        (b - 65 + 10) as u8
    }
}

/// Every byte of `s` is an ASCII hex digit.
pub open spec fn is_hex_seq(s: Seq<u8>) -> bool {
    forall|i: int| 0 <= i < s.len() ==> is_hex_digit(s[i])
}

/// The bytes a hex string decodes to: one byte for each pair of digits, high
/// digit first.
pub open spec fn hex_decoded(s: Seq<u8>) -> Seq<u8> {
    Seq::new(
        s.len() / 2,
        |i: int| (hex_digit_val(s[2 * i]) * 16 + hex_digit_val(s[2 * i + 1])) as u8,
    )
}

/// Why a pinned certificate hash failed to parse.
#[derive(Clone, Copy, PartialEq, Eq, Structural, Debug)]
pub enum CertHashError {
    /// The hex string has odd length.
    OddLength,
    /// The string holds a byte that is not a hex digit.
    InvalidChar,
    /// The decoded hash is not 32 bytes long.
    WrongLength,
}

/// Relies on hex's `decode`: it fails on an odd-length input, fails when a
/// byte is not a hex digit, and otherwise returns one byte for each digit
/// pair, high digit first.
#[verifier::external_body]
fn hex_decode(s: &Vec<u8>) -> (r: Result<Vec<u8>, CertHashError>)
    ensures
        r is Ok <==> (s@.len() % 2 == 0 && is_hex_seq(s@)),
        match r {
            Ok(v) => v@ == hex_decoded(s@),
            Err(e) => e == (if s@.len() % 2 != 0 {
                CertHashError::OddLength
            } else {
                CertHashError::InvalidChar
            }),
        },
{
    match hex::decode(s) {
        Ok(v) => Ok(v),
        Err(hex::FromHexError::OddLength) => Err(CertHashError::OddLength),
        Err(hex::FromHexError::InvalidHexCharacter { .. }) => Err(CertHashError::InvalidChar),
        Err(hex::FromHexError::InvalidStringLength) => Err(CertHashError::WrongLength),
    }
}

/// Parses a pinned server-certificate hash: sixty-four hex digits decoding
/// to the thirty-two byte SHA-256 digest.
pub fn parse_cert_hash(s: &Vec<u8>) -> (r: Result<Vec<u8>, CertHashError>)
    ensures
        r is Ok <==> (s@.len() == 64 && is_hex_seq(s@)),
        match r {
            Ok(d) => d@ == hex_decoded(s@) && d@.len() == 32,
            Err(e) => e == (if s@.len() % 2 != 0 {
                CertHashError::OddLength
            } else if !is_hex_seq(s@) {
                CertHashError::InvalidChar
            } else {
                CertHashError::WrongLength
            }),
        },
{
    match hex_decode(s) {
        Ok(d) => {
            if d.len() == 32 {
                Ok(d)
            } else {
                Err(CertHashError::WrongLength)
            }
        },
        Err(e) => Err(e),
    }
}

/// Prefixes `https://` to the outbound target unless it already starts with
/// it.
pub fn normalize_client_target(target: &Vec<u8>) -> (r: Vec<u8>)
    ensures
        r@ == (if is_prefix_of(https_prefix(), target@) {
            target@
        } else {
            https_prefix() + target@
        }),
{
    let hp = https_prefix_vec();
    let mut r: Vec<u8> = Vec::new();
    if !has_prefix(target, &hp) {
        append_bytes(&mut r, &hp);
    }
    append_bytes(&mut r, target);
    proof {
        if is_prefix_of(https_prefix(), target@) {
            assert(r@ =~= target@);
        }
    }
    r
}

} // verus!
