//! HMAC-SHA256 signatures, hex-encoded.

use vstd::prelude::*;
use hmac::{Mac, NewMac};
use crate::text::{hex_text, lemma_hex_text_len};

verus! {

/// The HMAC-SHA256 digest of `msg` under `key`.
pub uninterp spec fn hmac_sha256(key: Seq<u8>, msg: Seq<u8>) -> Seq<u8>;

/// Relies on `hmac::Hmac<sha2::Sha256>`: `new_from_slice` accepts a key of
/// any length (longer keys are hashed first), and `update` then `finalize`
/// give the 32-byte digest of the message.
#[verifier::external_body]
fn hmac_sha256_digest(key: &[u8], msg: &[u8]) -> (r: Option<Vec<u8>>)
    ensures
        r is Some,
        r matches Some(d) ==> d@ == hmac_sha256(key@, msg@) && d@.len() == 32,
{
    match hmac::Hmac::<sha2::Sha256>::new_from_slice(key) {
        Ok(mut mac) => {
            mac.update(msg);
            Some(mac.finalize().into_bytes().to_vec())
        },
        Err(_) => None,
    }
}

/// Relies on `hex::encode`: two lowercase hexadecimal digits per byte.
#[verifier::external_body]
fn hex_encode(b: &[u8]) -> (r: String)
    ensures
        r@ == hex_text(b@),
{
    hex::encode(b)
}

/// The signature of `message` under `secret`: the lowercase hex of its
/// HMAC-SHA256 digest.
pub open spec fn signature_of(secret: Seq<u8>, message: Seq<u8>) -> Seq<char> {
    hex_text(hmac_sha256(secret, message))
}

/// Signs `message` with `secret`: 64 lowercase hex characters.
pub fn sign(secret: &[u8], message: &[u8]) -> (r: String)
    ensures
        r@ == signature_of(secret@, message@),
        r@.len() == 64,
{
    match hmac_sha256_digest(secret, message) {
        Some(d) => {
            proof {
                lemma_hex_text_len(d@);
            }
            hex_encode(d.as_slice())
        },
        None => String::new(),
    }
}

/// Signing is a function of the secret and the message alone: equal inputs
/// give equal signatures.
pub proof fn lemma_sign_deterministic(s1: Seq<u8>, m1: Seq<u8>, s2: Seq<u8>, m2: Seq<u8>)
    requires
        s1 == s2,
        m1 == m2,
    ensures
        signature_of(s1, m1) == signature_of(s2, m2),
{
}

} // verus!
