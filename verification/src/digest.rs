//! SHA-2 digests of byte strings.

use crate::hex_codec::{encode, hex_encode};
use sha2::Digest;
use vstd::prelude::*;

verus! {

/// The SHA-512 digest of `data`.
pub uninterp spec fn sha512_digest(data: Seq<u8>) -> Seq<u8>;

/// The SHA-224 digest of `data`.
pub uninterp spec fn sha224_digest(data: Seq<u8>) -> Seq<u8>;

/// `Sha512::digest` of the sha2 crate: the digest of the bytes given, which is sixty-four bytes
/// long. Nothing is proved of the digest but that equal input gives equal output.
#[verifier::external_body]
pub(crate) fn sha512(data: &[u8]) -> (digest: Vec<u8>)
    ensures
        digest@ == sha512_digest(data@),
        digest@.len() == 64,
{
    sha2::Sha512::digest(data).to_vec()
}

/// `Sha224::digest` of the sha2 crate: the digest of the bytes given, which is twenty-eight bytes
/// long. Nothing is proved of the digest but that equal input gives equal output.
#[verifier::external_body]
pub(crate) fn sha224(data: &[u8]) -> (digest: Vec<u8>)
    ensures
        digest@ == sha224_digest(data@),
        digest@.len() == 28,
{
    sha2::Sha224::digest(data).to_vec()
}

/// The SHA-512 digest of `data` as 128 hexadecimal digits.
pub fn sha512_hex(data: &[u8]) -> (text: String)
    ensures
        text@ == hex_encode(sha512_digest(data@)),
        text@.len() == 128,
{
    let digest = sha512(data);
    encode(digest.as_slice())
}

} // verus!
