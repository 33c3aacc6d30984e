//! Fresh identifiers: random bytes through `getrandom`, shown as a UUID through `uuid`.

use vstd::prelude::*;

verus! {

/// The lowercase hexadecimal digit of `n < 16`.
pub open spec fn hex_digit(n: int) -> char {
    if n < 10 {
        ('0' as int + n) as char
    } else {
        ('a' as int + n - 10) as char
    }
}

/// Each byte as two lowercase hexadecimal digits, high nibble first.
pub open spec fn hex_text(b: Seq<u8>) -> Seq<char>
    decreases b.len(),
{
    if b.len() == 0 {
        seq![]
    } else {
        seq![hex_digit(b[0] as int / 16), hex_digit(b[0] as int % 16)] + hex_text(b.drop_first())
    }
}

/// Sixteen random bytes with the version 4 nibble (byte 6) and the RFC 4122 variant bits
/// (byte 8) set.
pub open spec fn v4_bytes(b: Seq<u8>) -> Seq<u8> {
    b.update(6, (b[6] % 16 + 64) as u8).update(8, (b[8] % 64 + 128) as u8)
}

/// The hyphenated lowercase text of the version 4 UUID made from sixteen random bytes:
/// 8-4-4-4-12 hexadecimal digits.
pub open spec fn uuid_v4_text(b: Seq<u8>) -> Seq<char> {
    let v = v4_bytes(b);
    hex_text(v.subrange(0, 4)) + seq!['-'] + hex_text(v.subrange(4, 6)) + seq!['-'] + hex_text(
        v.subrange(6, 8),
    ) + seq!['-'] + hex_text(v.subrange(8, 10)) + seq!['-'] + hex_text(v.subrange(10, 16))
}

/// `getrandom::fill` on a 16-byte buffer: the bytes, or `None` when the operating system's
/// random source fails. Which bytes come back is not stated.
#[verifier::external_body]
fn random_bytes() -> (r: Option<[u8; 16]>) {
    let mut bytes = [0u8; 16];
    match getrandom::fill(&mut bytes) {
        Ok(()) => Some(bytes),
        Err(_) => None,
    }
}

/// `uuid::Builder::from_random_bytes`, `into_uuid` and `to_string`: the version 4 UUID made
/// from the bytes, in its hyphenated lowercase form.
#[verifier::external_body]
fn uuid_v4_from_bytes(bytes: [u8; 16]) -> (s: String)
    ensures
        s@ == uuid_v4_text(bytes@),
{
    uuid::Builder::from_random_bytes(bytes).into_uuid().to_string()
}

/// A fresh random version 4 UUID as text, or `None` when no random bytes could be had.
pub fn fresh_uuid_text() -> (r: Option<String>)
    ensures
        r matches Some(s) ==> exists|b: Seq<u8>| b.len() == 16 && s@ == uuid_v4_text(b),
{
    match random_bytes() {
        Some(bytes) => {
            let s = uuid_v4_from_bytes(bytes);
            assert(bytes@.len() == 16 && s@ == uuid_v4_text(bytes@));
            Some(s)
        },
        None => None,
    }
}

} // verus!
