use vstd::prelude::*;

verus! {

/// Whether `ring`'s Ed25519 verification accepts `signature` as a signature
/// of `message` under the encoded public key `public_key`.
pub uninterp spec fn ed25519_accepts(public_key: Seq<u8>, message: Seq<u8>, signature: Seq<u8>) -> bool;

/// The plaintext that `ring`'s AES-256-GCM opening gives for
/// `ciphertext_and_tag` under `key` and `nonce` with no additional data, or
/// `None` where the tag does not authenticate it.
pub uninterp spec fn aes_256_gcm_opened(key: Seq<u8>, nonce: Seq<u8>, ciphertext_and_tag: Seq<u8>) -> Option<
    Seq<u8>,
>;

/// Calls `ring::signature::UnparsedPublicKey::verify` with the `ED25519`
/// algorithm.  Claimed: the answer is `ed25519_accepts` of the key, message
/// and signature.
#[verifier::external_body]
pub(crate) fn ed25519_verify(public_key: &[u8], message: &[u8], signature: &[u8]) -> (r: bool)
    ensures
        r == ed25519_accepts(public_key@, message@, signature@),
{
    ring::signature::UnparsedPublicKey::new(&ring::signature::ED25519, public_key).verify(
        message,
        signature,
    ).is_ok()
}

/// Why AES-256-GCM opening failed.
#[derive(Debug, Clone, Copy, PartialEq, Eq, Structural)]
pub enum AeadError {
    /// The key does not have the length that AES-256 needs.
    KeyRejected,
    /// The data did not authenticate.
    OpenFailed,
}

/// Calls `ring::aead::UnboundKey::new` with `AES_256_GCM` and then
/// `LessSafeKey::open_in_place` with the given nonce and empty additional
/// data.  Claimed: the key is refused exactly when it is not 32 bytes long
/// (as `UnboundKey::new` documents); otherwise the result is
/// `aes_256_gcm_opened`, and an opened plaintext is the input without its
/// 16-byte tag.
#[verifier::external_body]
pub(crate) fn aes_256_gcm_open(key: &[u8], nonce: &[u8], ciphertext_and_tag: &[u8]) -> (r: Result<
    Vec<u8>,
    AeadError,
>)
    requires
        nonce@.len() == 12,
    ensures
        (r == Err::<Vec<u8>, AeadError>(AeadError::KeyRejected)) <==> key@.len() != 32,
        key@.len() == 32 ==> match r {
            Ok(p) => aes_256_gcm_opened(key@, nonce@, ciphertext_and_tag@) == Some(p@),
            Err(_) => aes_256_gcm_opened(key@, nonce@, ciphertext_and_tag@) is None,
        },
        r matches Ok(p) ==> p@.len() + 16 == ciphertext_and_tag@.len(),
{
    let key = match ring::aead::UnboundKey::new(&ring::aead::AES_256_GCM, key) {
        Ok(k) => ring::aead::LessSafeKey::new(k),
        Err(_) => return Err(AeadError::KeyRejected),
    };
    let nonce = match ring::aead::Nonce::try_assume_unique_for_key(nonce) {
        Ok(n) => n,
        Err(_) => return Err(AeadError::OpenFailed),
    };
    let mut buf = ciphertext_and_tag.to_vec();
    match key.open_in_place(nonce, ring::aead::Aad::empty(), &mut buf) {
        Ok(p) => Ok(p.to_vec()),
        Err(_) => Err(AeadError::OpenFailed),
    }
}

} // verus!
