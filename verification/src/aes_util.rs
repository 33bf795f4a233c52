use vstd::prelude::*;
use crate::crypto::{aes_256_gcm_open, aes_256_gcm_opened, AeadError};
use crate::error::MessageError;
use crate::text::push_str;

verus! {

/// Length of the nonce that ends sealed data.
pub const NONCE_LEN: usize = 12;

/// Length of the authentication tag of AES-256-GCM.
pub const TAG_LEN: usize = 16;

/// The text `ring` gives for its unspecified error.
pub open spec fn ring_error_text() -> Seq<char> {
    "ring::error::Unspecified"@
}

/// What opening sealed `data` (ciphertext and tag, then the nonce) under
/// `key` gives: the plaintext, or which of the two steps failed.
pub open spec fn spec_open_sealed(data: Seq<u8>, key: Seq<u8>) -> Result<Seq<u8>, AeadError> {
    if key.len() != 32 {
        Err(AeadError::KeyRejected)
    } else {
        match aes_256_gcm_opened(
            key,
            data.subrange(data.len() - NONCE_LEN, data.len() as int),
            data.take(data.len() - NONCE_LEN),
        ) {
            Some(p) => Ok(p),
            None => Err(AeadError::OpenFailed),
        }
    }
}

/// The view of a decryption result.
pub open spec fn decrypted(r: Result<Vec<u8>, MessageError>) -> Result<Seq<u8>, Seq<char>> {
    match r {
        Ok(v) => Ok(v@),
        Err(e) => Err(e.msg@),
    }
}

/// What decrypting gives, with the messages for a refused key and for data
/// that does not authenticate.
pub open spec fn spec_decrypt_with(data: Seq<u8>, key: Seq<u8>, key_msg: Seq<char>, open_msg: Seq<char>) -> Result<
    Seq<u8>,
    Seq<char>,
> {
    match spec_open_sealed(data, key) {
        Ok(p) => Ok(p),
        Err(AeadError::KeyRejected) => Err(key_msg + ": "@ + ring_error_text()),
        Err(AeadError::OpenFailed) => Err(open_msg + ": "@ + ring_error_text()),
    }
}

fn error_with(msg: &str) -> (e: MessageError)
    ensures
        e.msg@ == msg@ + ": "@ + ring_error_text(),
{
    let mut s = msg.to_owned();
    push_str(&mut s, ": ");
    push_str(&mut s, "ring::error::Unspecified");
    MessageError::new_with(s)
}

fn decrypt_with(data: &[u8], key: &[u8], key_msg: &str, open_msg: &str) -> (r: Result<
    Vec<u8>,
    MessageError,
>)
    requires
        data@.len() >= NONCE_LEN,
    ensures
        decrypted(r) == spec_decrypt_with(data@, key@, key_msg@, open_msg@),
        r matches Ok(p) ==> p@.len() + NONCE_LEN + TAG_LEN == data@.len(),
{
    let data_end = data.len() - NONCE_LEN;
    let nonce = &data[data_end..data.len()];
    let sealed = &data[0..data_end];
    assert(sealed@ =~= data@.take(data_end as int));
    match aes_256_gcm_open(key, nonce, sealed) {
        Ok(p) => Ok(p),
        Err(AeadError::KeyRejected) => Err(error_with(key_msg)),
        Err(AeadError::OpenFailed) => Err(error_with(open_msg)),
    }
}

/// Decrypts class data sealed under the class key `key`: the data is the
/// AES-256-GCM ciphertext and tag followed by the 12-byte nonce.
pub fn decrypt(data: &[u8], key: &[u8]) -> (r: Result<Vec<u8>, MessageError>)
    requires
        data@.len() >= NONCE_LEN,
    ensures
        decrypted(r) == spec_decrypt_with(data@, key@, "密钥初始化失败！"@, "解密失败"@),
        r matches Ok(p) ==> p@.len() + NONCE_LEN + TAG_LEN == data@.len(),
{
    decrypt_with(data, key, "密钥初始化失败！", "解密失败")
}

/// Decrypts resource data sealed under the resource key `key`, laid out as
/// for [`decrypt`].
pub fn decrypt_resource(data: &[u8], key: &[u8]) -> (r: Result<Vec<u8>, MessageError>)
    requires
        data@.len() >= NONCE_LEN,
    ensures
        decrypted(r) == spec_decrypt_with(data@, key@, "资源密钥初始化失败！"@, "资源解密失败"@),
        r matches Ok(p) ==> p@.len() + NONCE_LEN + TAG_LEN == data@.len(),
{
    decrypt_with(data, key, "资源密钥初始化失败！", "资源解密失败")
}

/// What decrypting the resource bytes `off..off + len` of `data` gives:
/// nothing to do when `len` is too short to hold a nonce and a tag,
/// otherwise the decryption of that region under the resource key `key`.
pub open spec fn spec_decrypt_resource_region(data: Seq<u8>, off: int, len: int, key: Seq<u8>) -> Result<
    Option<Seq<u8>>,
    Seq<char>,
> {
    if len < NONCE_LEN + TAG_LEN {
        Ok(None)
    } else {
        match spec_decrypt_with(data.subrange(off, off + len), key, "资源密钥初始化失败！"@, "资源解密失败"@) {
            Ok(p) => Ok(Some(p)),
            Err(m) => Err(m),
        }
    }
}

/// Decrypts the resource bytes `off..off + len` of `data` under the
/// resource key `key`, as `spec_decrypt_resource_region` says; a region too
/// short for a nonce and a tag is left alone.  A negative length, or a long
/// enough region that does not lie inside `data`, is refused by `requires`.
pub fn decrypt_resource_region(data: &[u8], off: i32, len: i32, key: &[u8]) -> (r: Result<
    Option<Vec<u8>>,
    MessageError,
>)
    requires
        0 <= len,
        len < NONCE_LEN + TAG_LEN || (0 <= off && off + len <= data@.len()),
    ensures
        match r {
            Ok(Some(p)) => spec_decrypt_resource_region(data@, off as int, len as int, key@) == Ok::<
                Option<Seq<u8>>,
                Seq<char>,
            >(Some(p@)),
            Ok(None) => spec_decrypt_resource_region(data@, off as int, len as int, key@) == Ok::<
                Option<Seq<u8>>,
                Seq<char>,
            >(None),
            Err(e) => spec_decrypt_resource_region(data@, off as int, len as int, key@) == Err::<
                Option<Seq<u8>>,
                Seq<char>,
            >(e.msg@),
        },
{
    if len < 28 {
        return Ok(None);
    }
    let start = off as usize;
    let end = start + len as usize;
    match decrypt_resource(&data[start..end], key) {
        Ok(p) => Ok(Some(p)),
        Err(e) => Err(e),
    }
}

} // verus!
