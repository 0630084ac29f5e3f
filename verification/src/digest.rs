//! The hash functions of Bitcoin, each as a named function of its input.

use vstd::prelude::*;

verus! {

/// The SHA-256 digest of a byte string.
pub uninterp spec fn sha256(data: Seq<u8>) -> Seq<u8>;

/// The RIPEMD-160 digest of a byte string.
pub uninterp spec fn ripemd160(data: Seq<u8>) -> Seq<u8>;

/// The digest of SHA-256 applied twice.
pub open spec fn sha256d(data: Seq<u8>) -> Seq<u8> {
    sha256(sha256(data))
}

/// The 20-byte hash by which a script is indexed: RIPEMD-160 of SHA-256.
pub open spec fn script_hash(script: Seq<u8>) -> Seq<u8> {
    ripemd160(sha256(script))
}

/// `bitcoin::hashes::sha256::Hash::hash`: the digest is named, and has 32 bytes.
#[verifier::external_body]
pub(crate) fn sha256_digest(data: &Vec<u8>) -> (digest: Vec<u8>)
    ensures
        digest@ == sha256(data@),
        digest@.len() == 32,
{
    let digest: bitcoin::hashes::sha256::Hash = bitcoin::hashes::Hash::hash(data);
    bitcoin::hashes::Hash::to_byte_array(digest).to_vec()
}

/// `bitcoin::hashes::ripemd160::Hash::hash`: the digest is named, and has 20 bytes.
#[verifier::external_body]
pub(crate) fn ripemd160_digest(data: &Vec<u8>) -> (digest: Vec<u8>)
    ensures
        digest@ == ripemd160(data@),
        digest@.len() == 20,
{
    let digest: bitcoin::hashes::ripemd160::Hash = bitcoin::hashes::Hash::hash(data);
    bitcoin::hashes::Hash::to_byte_array(digest).to_vec()
}

/// `bitcoin::hashes::sha256d::Hash::hash`: SHA-256 of the SHA-256 digest.
#[verifier::external_body]
pub(crate) fn sha256d_digest(data: &Vec<u8>) -> (digest: [u8; 32])
    ensures
        digest@ == sha256(sha256(data@)),
{
    let digest: bitcoin::hashes::sha256d::Hash = bitcoin::hashes::Hash::hash(data);
    bitcoin::hashes::Hash::to_byte_array(digest)
}

/// `bitcoin::Script::script_hash`: RIPEMD-160 of the SHA-256 digest of the
/// script's bytes.
#[verifier::external_body]
pub(crate) fn script_hash_of(script: &Vec<u8>) -> (digest: [u8; 20])
    ensures
        digest@ == ripemd160(sha256(script@)),
{
    bitcoin::hashes::Hash::to_byte_array(bitcoin::Script::from_bytes(script).script_hash())
}

} // verus!
