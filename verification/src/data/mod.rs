//! The records the services keep, and the sessions they run.

use vstd::prelude::*;
use vstd::string::*;
use vstd::utf8::encode_utf8;
use rustc_serialize::hex::ToHex;

pub mod channel;
pub mod democracy;
pub mod derp;
pub mod resistance;
pub mod state;
pub mod store;
pub mod user;

verus! {

/// What a command constructor answers: the command, or the usage line to
/// send back.
pub type BotResult<T> = Result<T, String>;

/// The digest of a password could not be computed.
#[derive(Debug, Clone, Copy, PartialEq, Eq, Structural)]
pub struct HashError;

/// The error of OpenSSL, `openssl::error::ErrorStack`. Nothing is said of
/// what it holds; it is only passed on.
#[verifier::external_type_specification]
#[verifier::external_body]
pub struct ExErrorStack(openssl::error::ErrorStack);

/// The SHA-512 digest of a sequence of bytes.
pub uninterp spec fn sha512_of(data: Seq<u8>) -> Seq<u8>;

/// Calls `openssl::hash::hash` with the SHA-512 message digest. Where OpenSSL
/// reports no error, the bytes it hands back are the digest of `data`; the
/// contract names that digest and says nothing else of it.
#[verifier::external_body]
fn sha512(data: &[u8]) -> (r: Result<Vec<u8>, openssl::error::ErrorStack>)
    ensures
        r matches Ok(d) ==> d@ == sha512_of(data@),
{
    match openssl::hash::hash(openssl::hash::MessageDigest::sha512(), data) {
        Ok(d) => Ok(d.to_vec()),
        Err(e) => Err(e),
    }
}

/// The lower-case hexadecimal digit for a value below sixteen.
pub open spec fn hex_digit(n: int) -> char {
    if n == 0 {
        '0'
    } else if n == 1 {
        '1'
    } else if n == 2 {
        '2'
    } else if n == 3 {
        '3'
    } else if n == 4 {
        '4'
    } else if n == 5 {
        '5'
    } else if n == 6 {
        '6'
    } else if n == 7 {
        '7'
    } else if n == 8 {
        '8'
    } else if n == 9 {
        '9'
    } else if n == 10 {
        'a'
    } else if n == 11 {
        'b'
    } else if n == 12 {
        'c'
    } else if n == 13 {
        'd'
    } else if n == 14 {
        'e'
    } else {
        'f'
    }
}

/// Bytes in hexadecimal: two lower-case digits for each byte, the high half
/// first.
pub open spec fn hex_text(bytes: Seq<u8>) -> Seq<char> {
    Seq::new(
        2 * bytes.len(),
        |i: int|
            if i % 2 == 0 {
                hex_digit(bytes[i / 2] as int / 16)
            } else {
                hex_digit(bytes[i / 2] as int % 16)
            },
    )
}

/// Calls `to_hex` of `rustc_serialize::hex::ToHex` on a byte slice, which
/// writes each byte as two digits out of `0123456789abcdef`, the high four
/// bits first.
#[verifier::external_body]
fn to_hex(bytes: &[u8]) -> (r: String)
    ensures
        r@ == hex_text(bytes@),
{
    bytes.to_hex()
}

/// The stored form of a password: the SHA-512 digest of its UTF-8 bytes, in
/// hexadecimal.
pub open spec fn password_hash_of(password: Seq<char>) -> Seq<char> {
    hex_text(sha512_of(encode_utf8(password)))
}

/// Writes a computed digest in hexadecimal, and passes a failure on.
pub fn hashed(digest: Result<Vec<u8>, openssl::error::ErrorStack>) -> (r: Result<String, HashError>)
    ensures
        match digest {
            Ok(d) => r matches Ok(h) && h@ == hex_text(d@),
            Err(_) => r is Err,
        },
{
    match digest {
        Ok(d) => Ok(to_hex(d.as_slice())),
        Err(_) => Err(HashError),
    }
}

/// The stored form of `password`. It fails only where OpenSSL does.
pub fn password_hash(password: &str) -> (r: Result<String, HashError>)
    ensures
        r matches Ok(h) ==> h@ == password_hash_of(password@),
{
    hashed(sha512(password.as_bytes()))
}

} // verus!
