//! Signing a message with a base58 secret, and checking a base64 signature
//! against a base58 public key.
use vstd::prelude::*;
use vstd::slice::slice_subrange;
use vstd::utf8::encode_utf8;
use crate::codec::{b58_decode, b58_encode, b64_decode, b64_encode, from_base58, from_base64, to_base58, to_base64};
use crate::crypto::{check_public_key, check_signature, public_key_ok, sign, signature_of, signature_shape_ok, verifies, verify_strict};
use crate::keypair::{generated_from, ApiResponse, KeypairData};

verus! {

/// A message to sign, and the signer's 64-byte secret in base58.
pub struct SignMessageRequest {
    pub message: String,
    pub secret: String,
}

/// A signature in base64, the signer's public key in base58, and the message.
pub struct SignMessageResponse {
    pub signature: String,
    pub public_key: String,
    pub message: String,
}

/// A message, its signature in base64, and the public key in base58.
pub struct VerifyMessageRequest {
    pub message: String,
    pub signature: String,
    pub pubkey: String,
}

/// Whether the signature checks out, with the message and key it was checked for.
pub struct VerifyMessageData {
    pub valid: bool,
    pub message: String,
    pub pubkey: String,
}

/// The secret that a text stands for: 64 bytes in base58.
pub open spec fn secret_of(s: Seq<char>) -> Option<Seq<u8>> {
    if b58_decode(s) is Some && b58_decode(s)->0.len() == 64 {
        b58_decode(s)
    } else {
        None
    }
}

/// A secret text that decodes to fewer than 64 bytes stands for no secret,
/// so `sign_message` refuses it.
pub proof fn lemma_short_secret_refused(s: Seq<char>)
    requires
        b58_decode(s) is Some,
        b58_decode(s)->0.len() < 64,
    ensures
        secret_of(s) is None,
{
}

/// A generated keypair's secret text stands for its 64 bytes, whose public
/// half is valid, and its public key text reads back to that half: so
/// `sign_message` succeeds with it and echoes the public key text, and
/// `verify_message` reads that key without error.
pub proof fn lemma_generated_keypair_signs(d: KeypairData, secret: Seq<u8>)
    requires
        generated_from(d, secret),
    ensures
        secret_of(d.secret@) == Some(secret),
        public_key_ok(secret.subrange(32, 64)),
        b58_encode(secret.subrange(32, 64)) == d.pubkey@,
        b58_decode(d.pubkey@) == Some(secret.subrange(32, 64)),
{
}

/// A signing response that failed with a reason in its message field.
pub open spec fn sign_failed(r: ApiResponse<SignMessageResponse>, why: &str) -> bool {
    &&& !r.success
    &&& r.data.signature@.len() == 0
    &&& r.data.public_key@.len() == 0
    &&& r.data.message@ == why@
}

/// A verification response that failed with a reason, echoing the key.
pub open spec fn verify_failed(r: ApiResponse<VerifyMessageData>, pubkey: Seq<char>, why: &str) -> bool {
    &&& !r.success
    &&& !r.data.valid
    &&& r.data.message@ == why@
    &&& r.data.pubkey@ == pubkey
}

fn sign_failure(why: &str) -> (r: ApiResponse<SignMessageResponse>)
    ensures
        sign_failed(r, why),
{
    ApiResponse {
        success: false,
        data: SignMessageResponse {
            signature: String::new(),
            public_key: String::new(),
            message: why.to_string(),
        },
    }
}

fn verify_failure(pubkey: String, why: &str) -> (r: ApiResponse<VerifyMessageData>)
    ensures
        verify_failed(r, pubkey@, why),
{
    ApiResponse { success: false, data: VerifyMessageData { valid: false, message: why.to_string(), pubkey } }
}

/// Signs the UTF-8 bytes of the message with the secret. The secret must
/// decode to exactly 64 bytes whose last 32 are a valid public key; the
/// response then holds the signature (64 well-formed bytes, in base64), the
/// public key, and the message.
pub fn sign_message(payload: SignMessageRequest) -> (r: ApiResponse<SignMessageResponse>)
    ensures
        secret_of(payload.secret@) is None
            ==> sign_failed(r, "Invalid or malformed secret key (expected 64-byte base58)"),
        secret_of(payload.secret@) is Some ==> {
            let secret = secret_of(payload.secret@)->0;
            if !public_key_ok(secret.subrange(32, 64)) {
                sign_failed(r, "Failed to parse secret key into Keypair")
            } else {
                &&& r.success
                &&& r.data.signature@ == b64_encode(signature_of(secret, encode_utf8(payload.message@)))
                &&& b64_decode(r.data.signature@) == Some(signature_of(secret, encode_utf8(payload.message@)))
                &&& signature_shape_ok(signature_of(secret, encode_utf8(payload.message@)))
                &&& r.data.public_key@ == b58_encode(secret.subrange(32, 64))
                &&& r.data.message@ == payload.message@
            }
        },
{
    let secret = match from_base58(payload.secret.as_str()) {
        Some(bytes) if bytes.len() == 64 => bytes,
        _ => return sign_failure("Invalid or malformed secret key (expected 64-byte base58)"),
    };
    let signature = match sign(secret.as_slice(), payload.message.as_str().as_bytes()) {
        Some(s) => s,
        None => return sign_failure("Failed to parse secret key into Keypair"),
    };
    ApiResponse {
        success: true,
        data: SignMessageResponse {
            signature: to_base64(signature.as_slice()),
            public_key: to_base58(slice_subrange(secret.as_slice(), 32, 64)),
            message: payload.message,
        },
    }
}

/// Checks a signature over the UTF-8 bytes of the message under the public
/// key, strictly. The key must decode from base58 to a valid public key, then
/// the signature from base64 to a well-formed signature, each failure with its
/// own reason; once both are read, the request succeeds whether or not the
/// signature checks out.
pub fn verify_message(payload: VerifyMessageRequest) -> (r: ApiResponse<VerifyMessageData>)
    ensures
        b58_decode(payload.pubkey@) is None
            ==> verify_failed(r, payload.pubkey@, "Invalid base58 pubkey"),
        b58_decode(payload.pubkey@) is Some ==> {
            let pk = b58_decode(payload.pubkey@)->0;
            let sig = b64_decode(payload.signature@);
            if !public_key_ok(pk) {
                verify_failed(r, payload.pubkey@, "Failed to parse pubkey")
            } else if sig is None {
                verify_failed(r, payload.pubkey@, "Invalid base64 signature")
            } else if !signature_shape_ok(sig->0) {
                verify_failed(r, payload.pubkey@, "Failed to parse signature")
            } else {
                &&& r.success
                &&& r.data.valid == verifies(pk, encode_utf8(payload.message@), sig->0)
                &&& r.data.message@ == payload.message@
                &&& r.data.pubkey@ == payload.pubkey@
            }
        },
{
    let public = match from_base58(payload.pubkey.as_str()) {
        Some(bytes) => bytes,
        None => return verify_failure(payload.pubkey, "Invalid base58 pubkey"),
    };
    if !check_public_key(public.as_slice()) {
        return verify_failure(payload.pubkey, "Failed to parse pubkey");
    }
    let sig = match from_base64(payload.signature.as_str()) {
        Some(bytes) => bytes,
        None => return verify_failure(payload.pubkey, "Invalid base64 signature"),
    };
    if !check_signature(sig.as_slice()) {
        return verify_failure(payload.pubkey, "Failed to parse signature");
    }
    let valid = verify_strict(public.as_slice(), payload.message.as_str().as_bytes(), sig.as_slice());
    ApiResponse { success: true, data: VerifyMessageData { valid, message: payload.message, pubkey: payload.pubkey } }
}

} // verus!
