//! Fresh keypairs, as base58 texts.
use vstd::prelude::*;
use vstd::slice::slice_subrange;
use crate::codec::{b58_decode, b58_encode, to_base58};
use crate::crypto::{fresh_secret, public_key_ok, public_of};

verus! {

/// A keypair as text: the public key, and the 64-byte secret (seed, then
/// public key), both in base58.
pub struct KeypairData {
    pub pubkey: String,
    pub secret: String,
}

/// The envelope of a response: whether the request succeeded, and its data.
pub struct ApiResponse<T> {
    pub success: bool,
    pub data: T,
}

/// What a keypair's text says, read back: the public key decodes to the last
/// 32 bytes of the secret, and the secret to all 64 of them.
pub open spec fn keypair_reads_back(d: KeypairData, secret: Seq<u8>) -> bool {
    &&& secret.len() == 64
    &&& b58_decode(d.secret@) == Some(secret)
    &&& b58_decode(d.pubkey@) == Some(secret.subrange(32, 64))
}

/// A generated keypair's text: it reads back to a seed followed by the
/// public key derived from that seed, which is a valid key, and each text is
/// the base58 of its bytes.
pub open spec fn generated_from(d: KeypairData, secret: Seq<u8>) -> bool {
    &&& keypair_reads_back(d, secret)
    &&& d.pubkey@ == b58_encode(secret.subrange(32, 64))
    &&& d.secret@ == b58_encode(secret)
    &&& secret.subrange(32, 64) == public_of(secret.subrange(0, 32))
    &&& public_key_ok(secret.subrange(32, 64))
}

/// The text of a keypair given as its 64 bytes: seed, then public key.
pub fn keypair_data(secret: &[u8; 64]) -> (r: KeypairData)
    ensures
        r.pubkey@ == b58_encode(secret@.subrange(32, 64)),
        r.secret@ == b58_encode(secret@),
        keypair_reads_back(r, secret@),
{
    let all: &[u8] = secret.as_slice();
    KeypairData { pubkey: to_base58(slice_subrange(all, 32, 64)), secret: to_base58(all) }
}

/// Generates a fresh keypair from a secure random source. It always succeeds:
/// the secret reads back as a 32-byte seed followed by the valid public key
/// derived from it, and the public key text reads back as those last 32 bytes.
pub fn generate_keypair() -> (r: ApiResponse<KeypairData>)
    ensures
        r.success,
        exists|secret: Seq<u8>| #[trigger] generated_from(r.data, secret),
{
    let secret = fresh_secret();
    let data = keypair_data(&secret);
    let r = ApiResponse { success: true, data };
    assert(generated_from(r.data, secret@));
    r
}

} // verus!
