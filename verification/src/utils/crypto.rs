//! BLS signing and verification helpers for bids, envelopes and PTC attestations,
//! backed by the `blst` crate (min-pk variant: 48-byte public keys, 96-byte signatures).
use blst::min_pk::{PublicKey, SecretKey, Signature};
use blst::BLST_ERROR;
use vstd::prelude::*;

use crate::beacon_chain::types::BLSPubkey;

verus! {

broadcast use vstd::array::group_array_axioms;

/// Domain separation tag for Ethereum BLS signatures:
/// the ASCII bytes of `BLS_SIG_BLS12381G2_XMD:SHA-256_SSWU_RO_NUL_`.
pub const ETH_DST: [u8; 43] = [0x42, 0x4C, 0x53, 0x5F, 0x53, 0x49, 0x47, 0x5F, 0x42, 0x4C, 0x53, 0x31, 0x32, 0x33, 0x38, 0x31, 0x47, 0x32, 0x5F, 0x58, 0x4D, 0x44, 0x3A, 0x53, 0x48, 0x41, 0x2D, 0x32, 0x35, 0x36, 0x5F, 0x53, 0x53, 0x57, 0x55, 0x5F, 0x52, 0x4F, 0x5F, 0x4E, 0x55, 0x4C, 0x5F];

#[verifier::external_type_specification]
#[verifier::external_body]
pub struct ExBlstError(BLST_ERROR);

#[verifier::external_type_specification]
#[verifier::external_body]
pub struct ExPublicKey(PublicKey);

#[verifier::external_type_specification]
#[verifier::external_body]
pub struct ExSignature(Signature);

#[verifier::external_type_specification]
#[verifier::external_body]
pub struct ExSecretKey(SecretKey);


/// Whether `blst::min_pk::PublicKey::from_bytes` accepts these bytes.
pub uninterp spec fn bls_public_key_decodes(bytes: Seq<u8>) -> bool;

/// Whether `blst::min_pk::Signature::from_bytes` accepts these bytes.
pub uninterp spec fn bls_signature_decodes(bytes: Seq<u8>) -> bool;

/// Whether `blst::min_pk::Signature::verify` reports success, for the signature
/// and public key decoded from the given encodings and the given flags,
/// message, domain separation tag and augmentation.
pub uninterp spec fn bls_verify_succeeds(
    signature: Seq<u8>,
    sig_groupcheck: bool,
    message: Seq<u8>,
    dst: Seq<u8>,
    aug: Seq<u8>,
    pubkey: Seq<u8>,
    pk_validate: bool,
) -> bool;

/// Whether `blst::min_pk::Signature::fast_aggregate_verify` reports success, for
/// the signature and public keys decoded from the given encodings.
pub uninterp spec fn bls_fast_aggregate_verify_succeeds(
    signature: Seq<u8>,
    sig_groupcheck: bool,
    message: Seq<u8>,
    dst: Seq<u8>,
    pubkeys: Seq<Seq<u8>>,
) -> bool;

/// Whether `blst::min_pk::SecretKey::from_bytes` accepts these bytes as a secret key.
pub uninterp spec fn bls_secret_key_decodes(bytes: Seq<u8>) -> bool;

/// The 96-byte compressed signature that `blst::min_pk::SecretKey::sign` makes,
/// for the secret key with the 32-byte big-endian encoding `secret_key` (the
/// bytes `SecretKey::from_bytes` reads and `SecretKey::to_bytes` writes), over
/// the given message, domain separation tag and augmentation.
pub uninterp spec fn bls_signature_of(
    secret_key: Seq<u8>,
    message: Seq<u8>,
    dst: Seq<u8>,
    aug: Seq<u8>,
) -> Seq<u8>;

/// A secret key decoded by `blst`, kept together with the bytes it was decoded from.
/// Values of this type are only made by `decode_secret_key`.
struct DecodedSecretKey {
    encoding: [u8; 32],
    key: SecretKey,
}

impl View for DecodedSecretKey {
    type V = Seq<u8>;

    closed spec fn view(&self) -> Seq<u8> {
        self.encoding@
    }
}

/// A public key decoded by `blst`, kept together with the bytes it was decoded from.
/// Values of this type are only made by `decode_public_key`.
struct DecodedPublicKey {
    encoding: BLSPubkey,
    key: PublicKey,
}

impl View for DecodedPublicKey {
    type V = Seq<u8>;

    closed spec fn view(&self) -> Seq<u8> {
        self.encoding@
    }
}

/// A signature decoded by `blst`, kept together with the bytes it was decoded from.
/// Values of this type are only made by `decode_signature`.
struct DecodedSignature {
    encoding: [u8; 96],
    signature: Signature,
}

impl View for DecodedSignature {
    type V = Seq<u8>;

    closed spec fn view(&self) -> Seq<u8> {
        self.encoding@
    }
}

/// Trusted: `blst::min_pk::PublicKey::from_bytes`. Succeeds exactly when the
/// bytes decode (named `bls_public_key_decodes`); the decoded key is returned
/// together with the bytes it came from.
#[verifier::external_body]
fn decode_public_key(bytes: &BLSPubkey) -> (r: Result<DecodedPublicKey, BLST_ERROR>)
    ensures
        (r is Ok) == bls_public_key_decodes(bytes@),
        r matches Ok(k) ==> k@ == bytes@,
{
    match PublicKey::from_bytes(bytes) {
        Ok(key) => Ok(DecodedPublicKey { encoding: *bytes, key }),
        Err(e) => Err(e),
    }
}

/// Trusted: `blst::min_pk::Signature::from_bytes`. Succeeds exactly when the
/// bytes decode (named `bls_signature_decodes`); the decoded signature is
/// returned together with the bytes it came from.
#[verifier::external_body]
fn decode_signature(bytes: &[u8; 96]) -> (r: Result<DecodedSignature, BLST_ERROR>)
    ensures
        (r is Ok) == bls_signature_decodes(bytes@),
        r matches Ok(s) ==> s@ == bytes@,
{
    match Signature::from_bytes(bytes) {
        Ok(signature) => Ok(DecodedSignature { encoding: *bytes, signature }),
        Err(e) => Err(e),
    }
}

/// Trusted: `blst::min_pk::Signature::verify`. Returns `Ok` exactly when blst
/// reports `BLST_SUCCESS` (named `bls_verify_succeeds` over the encodings and
/// every other argument), and otherwise the error blst reported.
#[verifier::external_body]
fn verify_signature(
    signature: &DecodedSignature,
    sig_groupcheck: bool,
    message: &[u8],
    dst: &[u8],
    aug: &[u8],
    pubkey: &DecodedPublicKey,
    pk_validate: bool,
) -> (r: Result<(), BLST_ERROR>)
    ensures
        (r is Ok) == bls_verify_succeeds(
            signature@,
            sig_groupcheck,
            message@,
            dst@,
            aug@,
            pubkey@,
            pk_validate,
        ),
{
    match signature.signature.verify(sig_groupcheck, message, dst, aug, &pubkey.key, pk_validate) {
        BLST_ERROR::BLST_SUCCESS => Ok(()),
        e => Err(e),
    }
}

/// Trusted: `blst::min_pk::Signature::fast_aggregate_verify`. Returns `Ok`
/// exactly when blst reports `BLST_SUCCESS` (named
/// `bls_fast_aggregate_verify_succeeds` over the encodings of the signature and of
/// the keys, in order, and the other arguments), and otherwise blst's error.
/// With no keys it fails: blst cannot aggregate an empty key list.
#[verifier::external_body]
fn fast_aggregate_verify_signature(
    signature: &DecodedSignature,
    sig_groupcheck: bool,
    message: &[u8],
    dst: &[u8],
    pubkeys: &[DecodedPublicKey],
) -> (r: Result<(), BLST_ERROR>)
    ensures
        (r is Ok) == bls_fast_aggregate_verify_succeeds(
            signature@,
            sig_groupcheck,
            message@,
            dst@,
            pubkeys@.map_values(|k: DecodedPublicKey| k@),
        ),
        pubkeys@.len() == 0 ==> r is Err,
{
    let keys: Vec<&PublicKey> = pubkeys.iter().map(|k| &k.key).collect();
    match signature.signature.fast_aggregate_verify(sig_groupcheck, message, dst, &keys) {
        BLST_ERROR::BLST_SUCCESS => Ok(()),
        e => Err(e),
    }
}

/// Trusted: `blst::min_pk::SecretKey::from_bytes`. Succeeds exactly when the
/// bytes are a valid secret key (named `bls_secret_key_decodes`); the decoded
/// key is returned together with the bytes it came from.
#[verifier::external_body]
fn decode_secret_key(bytes: &[u8; 32]) -> (r: Result<DecodedSecretKey, BLST_ERROR>)
    ensures
        (r is Ok) == bls_secret_key_decodes(bytes@),
        r matches Ok(k) ==> k@ == bytes@,
{
    match SecretKey::from_bytes(bytes) {
        Ok(key) => Ok(DecodedSecretKey { encoding: *bytes, key }),
        Err(e) => Err(e),
    }
}

/// Trusted: `blst::min_pk::SecretKey::sign`, with the signature compressed to its
/// 96-byte encoding by `Signature::to_bytes`. Signing is deterministic: the
/// result is the signature named `bls_signature_of` for the key's encoding,
/// the message, the tag and the augmentation.
#[verifier::external_body]
fn sign_message(secret_key: &DecodedSecretKey, message: &[u8], dst: &[u8], aug: &[u8]) -> (r: [u8; 96])
    ensures
        r@ == bls_signature_of(secret_key@, message@, dst@, aug@),
{
    secret_key.key.sign(message, dst, aug).to_bytes()
}

/// `text` reports an error under `context`: it starts with the context followed
/// by ": ".
pub open spec fn reports_with_context(text: Seq<char>, context: Seq<char>) -> bool {
    &&& text.len() >= context.len() + 2
    &&& text.subrange(0, context.len() as int) == context
    &&& text[context.len() as int] == ':'
    &&& text[context.len() + 1int] == ' '
}

/// Trusted: `format!` of a context, ": " and the `Debug` text of a `blst` error.
/// The text starts with the context and ": "; the `Debug` part is not stated.
#[verifier::external_body]
fn describe_blst_error(context: &str, error: &BLST_ERROR) -> (r: String)
    ensures
        reports_with_context(r@, context@),
{
    format!("{}: {:?}", context, error)
}

/// A single BLS signature is valid for a public key and message when both
/// encodings decode and blst verifies it with the Ethereum tag, group checks on,
/// and no augmentation.
pub open spec fn bls_signature_valid(pubkey: Seq<u8>, message: Seq<u8>, signature: Seq<u8>) -> bool {
    &&& bls_public_key_decodes(pubkey)
    &&& bls_signature_decodes(signature)
    &&& bls_verify_succeeds(signature, true, message, ETH_DST@, Seq::empty(), pubkey, true)
}

/// The encodings of a list of public keys, as byte sequences.
pub open spec fn pubkey_encodings(pubkeys: Seq<BLSPubkey>) -> Seq<Seq<u8>> {
    pubkeys.map_values(|p: BLSPubkey| p@)
}

/// An aggregate BLS signature is valid for a list of public keys and a message
/// when the list is not empty, the signature and every key decode, and blst's
/// fast aggregate verification succeeds with the Ethereum tag and the signature
/// group check on.
pub open spec fn bls_aggregate_signature_valid(
    pubkeys: Seq<BLSPubkey>,
    message: Seq<u8>,
    signature: Seq<u8>,
) -> bool {
    &&& pubkeys.len() > 0
    &&& bls_signature_decodes(signature)
    &&& forall|i: int| 0 <= i < pubkeys.len() ==> bls_public_key_decodes(#[trigger] pubkeys[i]@)
    &&& bls_fast_aggregate_verify_succeeds(
        signature,
        true,
        message,
        ETH_DST@,
        pubkey_encodings(pubkeys),
    )
}

/// Verify a BLS signature over `message` by `pubkey`.
/// The checks run in order: the public key must decode ("invalid pubkey"), then
/// the signature ("invalid signature"), then blst must verify it ("bls verify
/// failed"); each error text starts with its context.
pub fn bls_verify(pubkey: &BLSPubkey, message: &[u8], signature: &[u8; 96]) -> (r: Result<(), String>)
    ensures
        (r is Ok) == bls_signature_valid(pubkey@, message@, signature@),
        !bls_public_key_decodes(pubkey@) ==> (r matches Err(e) && reports_with_context(
            e@,
            "invalid pubkey"@,
        )),
        bls_public_key_decodes(pubkey@) && !bls_signature_decodes(signature@) ==> (r matches Err(e)
            && reports_with_context(e@, "invalid signature"@)),
        bls_public_key_decodes(pubkey@) && bls_signature_decodes(signature@) ==> (r matches Err(e)
            ==> reports_with_context(e@, "bls verify failed"@)),
{
    let pk = match decode_public_key(pubkey) {
        Ok(pk) => pk,
        Err(e) => {
            return Err(describe_blst_error("invalid pubkey", &e));
        },
    };
    let sig = match decode_signature(signature) {
        Ok(sig) => sig,
        Err(e) => {
            return Err(describe_blst_error("invalid signature", &e));
        },
    };
    let no_aug: [u8; 0] = [];
    assert(no_aug@ =~= Seq::<u8>::empty());
    match verify_signature(&sig, true, message, &ETH_DST, &no_aug, &pk, true) {
        Ok(()) => Ok(()),
        Err(e) => Err(describe_blst_error("bls verify failed", &e)),
    }
}

/// Verify an aggregate BLS signature over `message` by all of `pubkeys`.
pub fn bls_verify_aggregate(pubkeys: &[BLSPubkey], message: &[u8], signature: &[u8; 96]) -> (r: Result<
    (),
    String,
>)
    ensures
        (r is Ok) == bls_aggregate_signature_valid(pubkeys@, message@, signature@),
        pubkeys@.len() == 0 ==> r is Err,
        !bls_signature_decodes(signature@) ==> (r matches Err(e) && reports_with_context(
            e@,
            "invalid signature"@,
        )),
        bls_signature_decodes(signature@) && (exists|i: int|
            0 <= i < pubkeys@.len() && !bls_public_key_decodes(#[trigger] pubkeys@[i]@))
            ==> (r matches Err(e) && reports_with_context(e@, "invalid pubkey"@)),
        bls_signature_decodes(signature@) && (forall|i: int|
            0 <= i < pubkeys@.len() ==> bls_public_key_decodes(#[trigger] pubkeys@[i]@)) ==> (r matches Err(
            e,
        ) ==> reports_with_context(e@, "aggregate bls verify failed"@)),
{
    let sig = match decode_signature(signature) {
        Ok(sig) => sig,
        Err(e) => {
            return Err(describe_blst_error("invalid signature", &e));
        },
    };
    let mut pubs: Vec<DecodedPublicKey> = Vec::new();
    let n = pubkeys.len();
    let mut i: usize = 0;
    while i < n
        invariant
            0 <= i <= n,
            n == pubkeys@.len(),
            bls_signature_decodes(signature@),
            pubs@.len() == i,
            forall|j: int| 0 <= j < i ==> bls_public_key_decodes(#[trigger] pubkeys@[j]@),
            forall|j: int| 0 <= j < i ==> (#[trigger] pubs@[j])@ == pubkeys@[j]@,
        decreases n - i,
    {
        match decode_public_key(&pubkeys[i]) {
            Ok(pk) => {
                pubs.push(pk);
            },
            Err(e) => {
                return Err(describe_blst_error("invalid pubkey", &e));
            },
        }
        i = i + 1;
    }
    assert(pubs@.map_values(|k: DecodedPublicKey| k@) =~= pubkey_encodings(pubkeys@));
    match fast_aggregate_verify_signature(&sig, true, message, &ETH_DST, pubs.as_slice()) {
        Ok(()) => Ok(()),
        Err(e) => Err(describe_blst_error("aggregate bls verify failed", &e)),
    }
}

/// Sign `message` with the secret key encoded by `secret_key` (32 bytes,
/// big-endian) under the Ethereum domain separation tag, with no augmentation.
/// Fails, with "invalid secret key", exactly when the bytes are not a valid key.
pub fn bls_sign(secret_key: &[u8; 32], message: &[u8]) -> (r: Result<[u8; 96], String>)
    ensures
        (r is Ok) == bls_secret_key_decodes(secret_key@),
        r matches Ok(signature) ==> signature@ == bls_signature_of(
            secret_key@,
            message@,
            ETH_DST@,
            Seq::empty(),
        ),
        r matches Err(e) ==> reports_with_context(e@, "invalid secret key"@),
{
    let key = match decode_secret_key(secret_key) {
        Ok(key) => key,
        Err(e) => {
            return Err(describe_blst_error("invalid secret key", &e));
        },
    };
    let no_aug: [u8; 0] = [];
    assert(no_aug@ =~= Seq::<u8>::empty());
    Ok(sign_message(&key, message, &ETH_DST, &no_aug))
}

} // verus!
