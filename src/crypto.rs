//! Ed25519 keys and signatures, held as plain bytes.
use vstd::prelude::*;
use ed25519_dalek::Signer;

verus! {

/// The public key that Ed25519 derives from a 32-byte seed, compressed.
pub uninterp spec fn public_of(seed: Seq<u8>) -> Seq<u8>;

/// Whether 32 bytes are the compressed form of a point on the curve.
pub uninterp spec fn public_key_ok(b: Seq<u8>) -> bool;

/// The Ed25519 signature that a 64-byte secret (seed, then public key) makes
/// over a message.
pub uninterp spec fn signature_of(secret: Seq<u8>, msg: Seq<u8>) -> Seq<u8>;

/// Whether a signature over a message checks out under a public key, with the
/// strict rules that refuse malleable signatures and weak keys.
pub uninterp spec fn verifies(public: Seq<u8>, msg: Seq<u8>, sig: Seq<u8>) -> bool;

/// The shape that a signature must have to be read at all: 64 bytes whose
/// scalar half has its three highest bits clear.
pub open spec fn signature_shape_ok(b: Seq<u8>) -> bool {
    b.len() == 64 && b[63] & 0xe0u8 == 0
}

/// Relies on solana_sdk's `Keypair::new` and `Keypair::to_bytes`: a fresh
/// keypair from the system's secure random source, as its seed followed by the
/// public key that ed25519_dalek derives from that seed, a valid curve point.
#[verifier::external_body]
pub(crate) fn fresh_secret() -> (r: [u8; 64])
    ensures
        r@.subrange(32, 64) == public_of(r@.subrange(0, 32)),
        public_key_ok(r@.subrange(32, 64)),
{
    solana_sdk::signature::Keypair::new().to_bytes()
}

/// Relies on ed25519_dalek's `PublicKey::from_bytes`: 32 bytes that decompress
/// to a curve point.
#[verifier::external_body]
pub(crate) fn check_public_key(b: &[u8]) -> (r: bool)
    ensures
        r == public_key_ok(b@),
        r ==> b@.len() == 32,
{
    ed25519_dalek::PublicKey::from_bytes(b).is_ok()
}

/// Relies on ed25519's `Signature::from_bytes`: it takes 64 bytes whose last
/// byte has its three highest bits clear.
#[verifier::external_body]
pub(crate) fn check_signature(b: &[u8]) -> (r: bool)
    ensures
        r == signature_shape_ok(b@),
{
    ed25519_dalek::Signature::from_bytes(b).is_ok()
}

/// Relies on ed25519_dalek's `Keypair::from_bytes`, which reads the last 32
/// bytes as a public key, and on `Keypair::sign`, a function of the secret and
/// the message whose scalar half is reduced below the group order, so that its
/// three highest bits are clear.
#[verifier::external_body]
pub(crate) fn sign(secret: &[u8], msg: &[u8]) -> (r: Option<[u8; 64]>)
    requires
        secret@.len() == 64,
    ensures
        r is Some <==> public_key_ok(secret@.subrange(32, 64)),
        r matches Some(s) ==> s@ == signature_of(secret@, msg@),
        r matches Some(s) ==> signature_shape_ok(s@),
{
    match ed25519_dalek::Keypair::from_bytes(secret) {
        Ok(kp) => Some(kp.sign(msg).to_bytes()),
        Err(_) => None,
    }
}

/// Relies on ed25519_dalek's `PublicKey::verify_strict`, reading the key and
/// the signature from their bytes as `check_public_key` and `check_signature`
/// accept them.
#[verifier::external_body]
pub(crate) fn verify_strict(public: &[u8], msg: &[u8], sig: &[u8]) -> (r: bool)
    requires
        public_key_ok(public@),
        signature_shape_ok(sig@),
    ensures
        r == verifies(public@, msg@, sig@),
{
    match (ed25519_dalek::PublicKey::from_bytes(public), ed25519_dalek::Signature::from_bytes(sig)) {
        (Ok(pk), Ok(s)) => pk.verify_strict(msg, &s).is_ok(),
        _ => false,
    }
}

} // verus!
