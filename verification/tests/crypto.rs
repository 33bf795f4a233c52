use jg_launcher::aes_util::{decrypt, decrypt_resource, decrypt_resource_region};
use ring::aead::{Aad, LessSafeKey, Nonce, UnboundKey, AES_256_GCM};

fn seal(key: &[u8; 32], nonce: [u8; 12], plain: &[u8]) -> Vec<u8> {
    let key = LessSafeKey::new(UnboundKey::new(&AES_256_GCM, key).unwrap());
    let mut data = plain.to_vec();
    key.seal_in_place_append_tag(Nonce::assume_unique_for_key(nonce), Aad::empty(), &mut data)
        .unwrap();
    data.extend_from_slice(&nonce);
    data
}

#[test]
fn decrypts_sealed_class_data() {
    let key = [3u8; 32];
    let sealed = seal(&key, [5u8; 12], b"class bytes");
    assert_eq!(sealed.len(), 11 + 16 + 12);
    assert_eq!(decrypt(&sealed, &key).unwrap(), b"class bytes".to_vec());
    assert_eq!(decrypt_resource(&sealed, &key).unwrap(), b"class bytes".to_vec());
}

#[test]
fn wrong_key_or_tampered_data_fail() {
    let key = [3u8; 32];
    let sealed = seal(&key, [5u8; 12], b"payload");
    assert_eq!(
        decrypt(&sealed, &[4u8; 32]).unwrap_err().msg,
        "解密失败: ring::error::Unspecified"
    );
    assert_eq!(
        decrypt_resource(&sealed, &[4u8; 32]).unwrap_err().msg,
        "资源解密失败: ring::error::Unspecified"
    );
    let mut tampered = sealed.clone();
    tampered[0] ^= 0x80;
    assert!(decrypt(&tampered, &key).is_err());
    assert!(decrypt(&[0u8; 12], &key).is_err());
}

#[test]
fn short_keys_are_refused() {
    let sealed = seal(&[3u8; 32], [5u8; 12], b"payload");
    assert_eq!(
        decrypt(&sealed, &[3u8; 16]).unwrap_err().msg,
        "密钥初始化失败！: ring::error::Unspecified"
    );
    assert_eq!(
        decrypt_resource(&sealed, &[3u8; 31]).unwrap_err().msg,
        "资源密钥初始化失败！: ring::error::Unspecified"
    );
}

#[test]
fn resource_region_is_decrypted_in_place_of_its_bytes() {
    let key = [9u8; 32];
    let sealed = seal(&key, [1u8; 12], b"resource");
    let mut data = b"head".to_vec();
    data.extend_from_slice(&sealed);
    data.extend_from_slice(b"tail");
    let r = decrypt_resource_region(&data, 4, sealed.len() as i32, &key).unwrap();
    assert_eq!(r, Some(b"resource".to_vec()));
    assert_eq!(decrypt_resource_region(&data, 0, 27, &key).unwrap(), None);
    assert!(decrypt_resource_region(&data, 0, sealed.len() as i32, &key).is_err());
}
