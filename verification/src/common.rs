//! Names and amounts that every transaction of the family shares.

use crate::digest::{sha512, sha512_digest};
use crate::hex_codec::{encode, hex_encode};
use vstd::prelude::*;
use vstd::string::*;

verus! {

/// The name of the transaction family.
pub const FAMILY_NAME: &'static str = "tfslite";

/// The version of the transaction family.
pub const FAMILY_VERSION: &'static str = "0.1";

/// What it costs to create one file.
pub const FILE_CREATE_COST: u64 = 100000000;

/// The address prefix of the family: the first six hexadecimal digits of the SHA-512 digest of
/// the family's name.
pub open spec fn tfslite_prefix() -> Seq<char> {
    hex_encode(sha512_digest(FAMILY_NAME.spec_bytes())).take(6)
}

/// Computes the address prefix of the family.
pub fn get_tfslite_prefix() -> (prefix: String)
    ensures
        prefix@ == tfslite_prefix(),
        prefix@.len() == 6,
{
    let digest = sha512(FAMILY_NAME.as_bytes());
    let head = vstd::slice::slice_subrange(digest.as_slice(), 0, 3);
    let prefix = encode(head);
    assert(prefix@ =~= hex_encode(digest@).take(6));
    prefix
}

} // verus!
