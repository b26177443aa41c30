use vstd::prelude::*;

use crate::error::SignError;
use crate::key::{key_of_pem, load_key, pem_decode, PrivateKey, SECRET_LEN};

verus! {

/// Length of an Ed25519 signature.
pub const SIGNATURE_LEN: usize = 64;

/// The Ed25519 signature that a 32-byte secret gives for a message, as
/// computed by `ed25519_dalek`.
pub uninterp spec fn ed25519_signature(secret: Seq<u8>, message: Seq<u8>) -> Seq<u8>;

/// Relies on `ed25519_dalek::SigningKey::from_bytes` and its `Signer::sign`
/// (whose `try_sign` always succeeds), with `Signature::to_bytes`: the
/// 64-byte signature, a function of the secret and the message alone.
#[verifier::external_body]
fn ed25519_sign(secret: &[u8], message: &[u8]) -> (r: Vec<u8>)
    requires
        secret@.len() == SECRET_LEN,
    ensures
        r@ == ed25519_signature(secret@, message@),
        r@.len() == SIGNATURE_LEN,
{
    let secret: [u8; 32] = secret.try_into().unwrap();
    let signing_key = ed25519_dalek::SigningKey::from_bytes(&secret);
    ed25519_dalek::Signer::sign(&signing_key, message).to_bytes().to_vec()
}

/// Signs `payload` with `key`. Any payload is accepted, the empty one
/// included, and the payload is only read.
pub fn sign(payload: &[u8], key: &PrivateKey) -> (r: Vec<u8>)
    ensures
        r@ == ed25519_signature(key@, payload@),
        r@.len() == SIGNATURE_LEN,
{
    ed25519_sign(key.secret(), payload)
}

/// Loads the key held in the PEM block `private_key` and signs `data` with it.
/// Succeeds exactly when the PEM block yields a key; fails as `load_key` does.
pub fn ed_sign(data: &[u8], private_key: &[u8]) -> (r: Result<Vec<u8>, SignError>)
    ensures
        match key_of_pem(private_key@) {
            Some(k) => r matches Ok(s) && s@ == ed25519_signature(k, data@)
                && s@.len() == SIGNATURE_LEN,
            None => if pem_decode(private_key@) is None {
                r matches Err(SignError::KeyFormatError)
            } else {
                r matches Err(SignError::KeyLengthError)
            },
        },
{
    let key = load_key(private_key)?;
    Ok(sign(data, &key))
}

/// Signing is deterministic: two signatures obtained from `sign` for the
/// same key and the same payload are the same bytes.
pub proof fn lemma_sign_deterministic(key: PrivateKey, payload: Seq<u8>, first: Seq<u8>, second: Seq<u8>)
    requires
        first == ed25519_signature(key@, payload),
        second == ed25519_signature(key@, payload),
    ensures
        first == second,
{
}

} // verus!
