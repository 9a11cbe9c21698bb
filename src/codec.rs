//! Text encodings of byte strings: base58 for keys, base64 for signatures and
//! instruction payloads.
use vstd::prelude::*;

verus! {

/// The base58 text that `bs58` produces for a byte string.
pub uninterp spec fn b58_encode(b: Seq<u8>) -> Seq<char>;

/// The bytes that `bs58` reads from a text, or `None` where it holds a
/// character outside the base58 alphabet.
pub uninterp spec fn b58_decode(s: Seq<char>) -> Option<Seq<u8>>;

/// The standard, padded base64 text of a byte string.
pub uninterp spec fn b64_encode(b: Seq<u8>) -> Seq<char>;

/// The bytes that standard base64 reads from a text, or `None` where the text
/// is not valid padded base64.
pub uninterp spec fn b64_decode(s: Seq<char>) -> Option<Seq<u8>>;

/// Relies on `bs58::encode(..).into_string()`: a function of the bytes alone,
/// which `bs58::decode` reads back to the same bytes.
#[verifier::external_body]
pub(crate) fn to_base58(b: &[u8]) -> (r: String)
    ensures
        r@ == b58_encode(b@),
        b58_decode(r@) == Some(b@),
{
    bs58::encode(b).into_string()
}

/// Relies on `bs58::decode(..).into_vec()`: a function of the text alone.
#[verifier::external_body]
pub(crate) fn from_base58(s: &str) -> (r: Option<Vec<u8>>)
    ensures
        match r {
            Some(v) => b58_decode(s@) == Some(v@),
            None => b58_decode(s@) is None,
        },
{
    match bs58::decode(s).into_vec() {
        Ok(v) => Some(v),
        Err(_) => None,
    }
}

/// Relies on base64's `STANDARD.encode`: a function of the bytes alone, which
/// `STANDARD.decode` reads back to the same bytes.
#[verifier::external_body]
pub(crate) fn to_base64(b: &[u8]) -> (r: String)
    ensures
        r@ == b64_encode(b@),
        b64_decode(r@) == Some(b@),
{
    base64::Engine::encode(&base64::engine::general_purpose::STANDARD, b)
}

/// Relies on base64's `STANDARD.decode`: a function of the text alone.
#[verifier::external_body]
pub(crate) fn from_base64(s: &str) -> (r: Option<Vec<u8>>)
    ensures
        match r {
            Some(v) => b64_decode(s@) == Some(v@),
            None => b64_decode(s@) is None,
        },
{
    match base64::Engine::decode(&base64::engine::general_purpose::STANDARD, s) {
        Ok(v) => Some(v),
        Err(_) => None,
    }
}

} // verus!
