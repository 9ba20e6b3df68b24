//! Signing-domain and signing-root helpers.
//!
//! The hash tree root of a message is the SHA-256 digest of the message's
//! canonical encoding (its JSON text, produced by the caller), and the signing
//! root is the SHA-256 digest of that root followed by the 32-byte domain.
use sha2::{Digest, Sha256};
use vstd::prelude::*;

verus! {

broadcast use vstd::array::group_array_axioms;

/// The SHA-256 digest of a byte string, as computed by the `sha2` crate.
pub uninterp spec fn sha256_digest(data: Seq<u8>) -> Seq<u8>;

/// Trusted: `<sha2::Sha256 as sha2::Digest>::digest`. Its result is the 32-byte
/// SHA-256 digest of `data`, named `sha256_digest`; what that digest is on given
/// bytes is not stated here.
#[verifier::external_body]
fn sha256(data: &[u8]) -> (r: [u8; 32])
    ensures
        r@ == sha256_digest(data@),
{
    Sha256::digest(data).into()
}

/// The domain obtained by padding a 4-byte domain type with 28 zero bytes.
pub open spec fn domain_of(domain_type: Seq<u8>) -> Seq<u8> {
    domain_type + Seq::new(28, |i: int| 0u8)
}

/// The hash tree root of a message, given its canonical encoding.
pub open spec fn hash_tree_root_of(encoding: Seq<u8>) -> Seq<u8> {
    sha256_digest(encoding)
}

/// The signing root of a message, given its canonical encoding and the domain.
pub open spec fn signing_root_of(encoding: Seq<u8>, domain: Seq<u8>) -> Seq<u8> {
    sha256_digest(hash_tree_root_of(encoding) + domain)
}

/// Compute a domain by padding the 4-byte domain type with zeros.
/// Fork version and genesis root are not tracked, so they are omitted.
pub fn compute_domain_simple(domain_type: [u8; 4]) -> (domain: [u8; 32])
    ensures
        domain@ == domain_of(domain_type@),
{
    let mut domain = [0u8; 32];
    domain[0] = domain_type[0];
    domain[1] = domain_type[1];
    domain[2] = domain_type[2];
    domain[3] = domain_type[3];
    assert(domain@ =~= domain_of(domain_type@));
    domain
}

/// Hash tree root of a message from its canonical encoding: SHA-256 of the encoding.
pub fn hash_tree_root_encoded(encoding: &[u8]) -> (root: [u8; 32])
    ensures
        root@ == hash_tree_root_of(encoding@),
{
    sha256(encoding)
}

/// Signing root of a message from its canonical encoding:
/// SHA-256 of the message's hash tree root followed by the domain.
pub fn signing_root_encoded(encoding: &[u8], domain: [u8; 32]) -> (root: [u8; 32])
    ensures
        root@ == signing_root_of(encoding@, domain@),
{
    let message_root = hash_tree_root_encoded(encoding);
    let mut preimage: Vec<u8> = Vec::new();
    let mut i: usize = 0;
    while i < 32
        invariant
            0 <= i <= 32,
            message_root@.len() == 32,
            preimage@ == message_root@.subrange(0, i as int),
        decreases 32 - i,
    {
        preimage.push(message_root[i]);
        i = i + 1;
        assert(preimage@ =~= message_root@.subrange(0, i as int));
    }
    let mut j: usize = 0;
    while j < 32
        invariant
            0 <= j <= 32,
            message_root@.len() == 32,
            domain@.len() == 32,
            preimage@ == message_root@ + domain@.subrange(0, j as int),
        decreases 32 - j,
    {
        preimage.push(domain[j]);
        j = j + 1;
        assert(preimage@ =~= message_root@ + domain@.subrange(0, j as int));
    }
    assert(domain@.subrange(0, 32) =~= domain@);
    assert(message_root@.subrange(0, 32) =~= message_root@);
    sha256(preimage.as_slice())
}

} // verus!
