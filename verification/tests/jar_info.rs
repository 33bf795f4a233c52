use base64::prelude::BASE64_URL_SAFE_NO_PAD;
use base64::Engine;
use jg_launcher::jar_info::{find_main_class, JarError, JarInfo, SignatureError};
use ring::signature::{Ed25519KeyPair, KeyPair};

fn signed_comment(original: &[u8], signature: &[u8]) -> Vec<u8> {
    let encoded = BASE64_URL_SAFE_NO_PAD.encode(signature);
    let mut comment = original.to_vec();
    comment.extend_from_slice(b"jgs-v1:");
    comment.extend_from_slice(encoded.as_bytes());
    comment.extend_from_slice(hex::encode((encoded.len() as u16).to_le_bytes()).as_bytes());
    comment
}

#[test]
fn main_class_is_the_first_entry_trimmed() {
    assert_eq!(
        find_main_class("Manifest-Version: 1.0\r\nMain-Class:  a.B \r\nMain-Class: c.D\r\n"),
        Some("a.B".to_string())
    );
    assert_eq!(find_main_class("Main-Class:x"), Some("x".to_string()));
    assert_eq!(find_main_class(" Main-Class: x\n"), None);
    assert_eq!(find_main_class(""), None);
    assert_eq!(find_main_class("Main-Class:\u{3000}y\u{a0}\n"), Some("y".to_string()));
}

#[test]
fn parse_computes_the_signed_length() {
    let comment = signed_comment(b"c", &[1u8; 64]);
    let jar = JarInfo::parse("x.jar", 5000, "Main-Class: m.Main\n", &comment).unwrap();
    assert_eq!(jar.path(), "x.jar");
    assert_eq!(jar.main_class(), "m.Main");
    assert_eq!(jar.signature(), &vec![1u8; 64]);
    assert_eq!(jar.data_end_index(), 5000 - comment.len() - 2);
}

#[test]
fn parse_errors_in_order() {
    let comment = signed_comment(b"", &[1u8; 64]);
    assert_eq!(
        JarInfo::parse("x.jar", 5000, "Manifest-Version: 1.0\n", &comment).unwrap_err(),
        JarError::NoMainClass
    );
    assert_eq!(
        JarInfo::parse("x.jar", 5000, "Main-Class: a\n", b"").unwrap_err(),
        JarError::Signature(SignatureError::NoSignature)
    );
    assert_eq!(
        JarInfo::parse("x.jar", comment.len() as u64 + 1, "Main-Class: a\n", &comment).unwrap_err(),
        JarError::CommentLengthInvalid
    );
    assert!(JarInfo::parse("x.jar", comment.len() as u64 + 2, "Main-Class: a\n", &comment).is_ok());
}

#[test]
fn jar_error_messages() {
    assert_eq!(JarError::NoMainClass.message().msg, "not found Main Class in jar");
    assert_eq!(JarError::CommentLengthInvalid.message().msg, "jar comment length is invalid");
    assert_eq!(
        JarError::Signature(SignatureError::NoSignature).message().msg,
        "cannot extract jar signature: \"jar has no signature\""
    );
    assert_eq!(
        JarError::TooLarge.message().msg,
        format!("The jar file is too large, exceeding {}", usize::MAX)
    );
}

#[test]
fn verify_checks_the_signed_prefix() {
    let pair = Ed25519KeyPair::from_seed_unchecked(&[7u8; 32]).unwrap();
    let data = b"PK\x03\x04 jar body".to_vec();
    let signature = pair.sign(&data);
    let comment = signed_comment(b"", signature.as_ref());
    let mut file = data.clone();
    file.extend_from_slice(&(comment.len() as u16).to_le_bytes());
    file.extend_from_slice(&comment);
    let jar = JarInfo::parse("a.jar", file.len() as u64, "Main-Class: a.A\n", &comment).unwrap();
    assert_eq!(jar.data_end_index(), data.len());
    assert!(jar.verify(&file, pair.public_key().as_ref()));
    let mut tampered = file.clone();
    tampered[0] ^= 1;
    assert!(!jar.verify(&tampered, pair.public_key().as_ref()));
    assert!(!jar.verify(&file, &[0u8; 32]));
}
