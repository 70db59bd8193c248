//! The hashed machine identifier: the SHA-256 digest of the machine's
//! native identifier, in lowercase hexadecimal.

use sha2::{Digest, Sha256};
use vstd::prelude::*;
use vstd::string::*;
use vstd::utf8::encode_utf8;

verus! {

/// The SHA-256 digest of `data`, as `sha2` computes it.
pub uninterp spec fn sha256_digest(data: Seq<u8>) -> Seq<u8>;

/// Calls `Sha256::digest` of the crate `sha2`, the one-shot form of
/// creating a hasher, feeding it `data` and finalizing it. The contract
/// names the digest and states its length, which the hasher's output size
/// fixes at 32 bytes.
#[verifier::external_body]
fn sha256(data: &[u8]) -> (digest: Vec<u8>)
    ensures
        digest@ == sha256_digest(data@),
        digest@.len() == 32,
{
    Sha256::digest(data).to_vec()
}

/// The lowercase hexadecimal digit of a value below 16.
pub open spec fn hex_digit(nibble: int) -> char {
    seq!['0', '1', '2', '3', '4', '5', '6', '7', '8', '9', 'a', 'b', 'c', 'd', 'e', 'f'][nibble]
}

/// `bytes` in lowercase hexadecimal: two digits for each byte, the high
/// half first.
pub open spec fn hex_lower(bytes: Seq<u8>) -> Seq<char> {
    Seq::new(
        2 * bytes.len(),
        |i: int|
            if i % 2 == 0 {
                hex_digit(bytes[i / 2] as int / 16)
            } else {
                hex_digit(bytes[i / 2] as int % 16)
            },
    )
}

/// Calls `hex::encode`, which writes each byte of `data` as two lowercase
/// hexadecimal digits, the high half first.
#[verifier::external_body]
fn hex_encode(data: &[u8]) -> (text: String)
    ensures
        text@ == hex_lower(data@),
{
    hex::encode(data)
}

/// The hashed identifier that belongs to the native identifier `uid`.
pub open spec fn machine_id_of(uid: Seq<char>) -> Seq<char> {
    hex_lower(sha256_digest(encode_utf8(uid)))
}

/// Hashes the machine's native identifier. `uid` is what reading the
/// identifier gave: the identifier, or the reason why it could not be read,
/// which is passed on unchanged.
pub fn get_machine_id(uid: Result<String, String>) -> (id: Result<String, String>)
    ensures
        match uid {
            Ok(native) => id matches Ok(text) && text@ == machine_id_of(native@) && text@.len()
                == 64,
            Err(reason) => id == Err::<String, String>(reason),
        },
{
    match uid {
        Ok(native) => {
            let digest = sha256(native.as_str().as_bytes());
            Ok(hex_encode(digest.as_slice()))
        },
        Err(reason) => Err(reason),
    }
}

} // verus!
