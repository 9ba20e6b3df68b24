//! Signing domains, signing roots, BLS helpers and byte comparisons.

use blst::min_pk::{AggregateSignature, SecretKey, Signature};
use eip_7732::beacon_chain::constants::{
    DOMAIN_BEACON_BUILDER, DOMAIN_PROPOSER_PREFERENCES, DOMAIN_PTC_ATTESTER,
};
use eip_7732::utils::bytes::{bytes_eq, is_all_zero};
use eip_7732::utils::crypto::{bls_sign, bls_verify, bls_verify_aggregate, ETH_DST};
use eip_7732::utils::ssz::{compute_domain_simple, hash_tree_root_encoded, signing_root_encoded};
use sha2::{Digest, Sha256};

fn key(seed: u8) -> SecretKey {
    SecretKey::key_gen(&[seed; 32], &[]).expect("valid ikm")
}

#[test]
fn domain_pads_type_with_zeros() {
    let d = compute_domain_simple(DOMAIN_BEACON_BUILDER);
    let mut expected = [0u8; 32];
    expected[0] = 0x0B;
    assert_eq!(d, expected);
    assert_eq!(compute_domain_simple([1, 2, 3, 4])[..4], [1, 2, 3, 4]);
    assert!(compute_domain_simple([1, 2, 3, 4])[4..].iter().all(|b| *b == 0));
    assert_ne!(compute_domain_simple(DOMAIN_PTC_ATTESTER), compute_domain_simple(DOMAIN_PROPOSER_PREFERENCES));
}

#[test]
fn hash_tree_root_is_sha256_of_encoding() {
    let expected: [u8; 32] = [
        0xba, 0x78, 0x16, 0xbf, 0x8f, 0x01, 0xcf, 0xea, 0x41, 0x41, 0x40, 0xde, 0x5d, 0xae, 0x22,
        0x23, 0xb0, 0x03, 0x61, 0xa3, 0x96, 0x17, 0x7a, 0x9c, 0xb4, 0x10, 0xff, 0x61, 0xf2, 0x00,
        0x15, 0xad,
    ];
    assert_eq!(hash_tree_root_encoded(b"abc"), expected);
}

#[test]
fn signing_root_hashes_root_then_domain() {
    let domain = compute_domain_simple(DOMAIN_BEACON_BUILDER);
    let mut hasher = Sha256::new();
    hasher.update(Sha256::digest(b"{\"slot\":1}"));
    hasher.update(domain);
    let expected: [u8; 32] = hasher.finalize().into();
    assert_eq!(signing_root_encoded(b"{\"slot\":1}", domain), expected);
    assert_ne!(signing_root_encoded(b"{\"slot\":1}", domain), signing_root_encoded(b"{\"slot\":1}", [0u8; 32]));
}

#[test]
fn eth_dst_is_ethereum_tag() {
    assert_eq!(&ETH_DST[..], b"BLS_SIG_BLS12381G2_XMD:SHA-256_SSWU_RO_NUL_");
}

#[test]
fn bls_verify_accepts_own_signature_only() {
    let sk = key(1);
    let pk = sk.sk_to_pk().to_bytes();
    let sig = bls_sign(&sk.to_bytes(), b"message").unwrap();
    assert_eq!(sig, sk.sign(b"message", &ETH_DST, &[]).to_bytes());
    assert!(bls_verify(&pk, b"message", &sig).is_ok());
    assert!(bls_verify(&pk, b"other message", &sig).unwrap_err().starts_with("bls verify failed: "));
    let other = key(2).sk_to_pk().to_bytes();
    assert!(bls_verify(&other, b"message", &sig).is_err());
}

#[test]
fn bls_verify_reports_bad_encodings() {
    let sk = key(3);
    let sig = bls_sign(&sk.to_bytes(), b"m").unwrap();
    assert!(bls_verify(&[0u8; 48], b"m", &sig).unwrap_err().starts_with("invalid pubkey: "));
    let pk = sk.sk_to_pk().to_bytes();
    assert!(bls_verify(&pk, b"m", &[0u8; 96]).unwrap_err().starts_with("invalid signature: "));
}

#[test]
fn bls_verify_aggregate_needs_every_signer() {
    let keys: Vec<SecretKey> = (10..14).map(key).collect();
    let pks: Vec<[u8; 48]> = keys.iter().map(|k| k.sk_to_pk().to_bytes()).collect();
    let sigs: Vec<Signature> =
        keys.iter().map(|k| Signature::from_bytes(&bls_sign(&k.to_bytes(), b"root").unwrap()).unwrap()).collect();
    let refs: Vec<&Signature> = sigs.iter().collect();
    let agg = AggregateSignature::aggregate(&refs, true).unwrap().to_signature().to_bytes();
    assert!(bls_verify_aggregate(&pks, b"root", &agg).is_ok());
    assert!(bls_verify_aggregate(&pks[..3], b"root", &agg)
        .unwrap_err()
        .starts_with("aggregate bls verify failed: "));
    let mut bad = pks.clone();
    bad[2] = [0u8; 48];
    assert!(bls_verify_aggregate(&bad, b"root", &agg).unwrap_err().starts_with("invalid pubkey: "));
    assert!(bls_verify_aggregate(&pks, b"root", &[0u8; 96])
        .unwrap_err()
        .starts_with("invalid signature: "));
}

#[test]
fn byte_comparisons() {
    assert!(bytes_eq(&[1u8, 2, 3], &[1u8, 2, 3]));
    assert!(!bytes_eq(&[1u8, 2, 3], &[1u8, 2, 4]));
    assert!(is_all_zero(&[0u8; 32]));
    let mut a = [0u8; 32];
    a[17] = 1;
    assert!(!is_all_zero(&a));
}

#[test]
fn bls_sign_rejects_invalid_secret_key() {
    assert!(bls_sign(&[0u8; 32], b"m").unwrap_err().starts_with("invalid secret key: "));
    assert!(bls_sign(&[0xFFu8; 32], b"m").unwrap_err().starts_with("invalid secret key: "));
    let sk = key(5);
    let first = bls_sign(&sk.to_bytes(), b"m").unwrap();
    assert_eq!(first, bls_sign(&sk.to_bytes(), b"m").unwrap());
    assert_ne!(first, bls_sign(&key(6).to_bytes(), b"m").unwrap());
}

#[test]
fn bls_verify_aggregate_reports_failures_in_order() {
    let sk = key(7);
    let pk = sk.sk_to_pk().to_bytes();
    let sig = bls_sign(&sk.to_bytes(), b"m").unwrap();
    assert!(bls_verify_aggregate(&[pk], b"m", &sig).is_ok());
    assert!(bls_verify_aggregate(&[pk], b"m", &[0u8; 96])
        .unwrap_err()
        .starts_with("invalid signature: "));
    assert!(bls_verify_aggregate(&[pk, [0u8; 48]], b"m", &sig)
        .unwrap_err()
        .starts_with("invalid pubkey: "));
    assert!(bls_verify_aggregate(&[], b"m", &sig)
        .unwrap_err()
        .starts_with("aggregate bls verify failed: "));
}
