use base64::prelude::BASE64_URL_SAFE_NO_PAD;
use base64::Engine;
use jg_launcher::jar_info::{
    extract_sign_from_comment, has_malformed_signature_marker, parse_signature_comment,
    signature_from_decoded, signature_if_canonical, SignatureError, SIGN_LEN,
};

const SIGNATURE_MAGIC: &[u8] = b"jgs-v1:";

fn signed_comment(existing_comment: &[u8], signature: &[u8], marked: bool) -> Vec<u8> {
    let encoded = BASE64_URL_SAFE_NO_PAD.encode(signature);
    let mut comment = existing_comment.to_vec();
    if marked {
        comment.extend_from_slice(SIGNATURE_MAGIC);
    }
    comment.extend_from_slice(encoded.as_bytes());
    comment.extend_from_slice(hex::encode((encoded.len() as u16).to_le_bytes()).as_bytes());
    comment
}

fn comment_with_encoded(prefix: &[u8], encoded: &[u8]) -> Vec<u8> {
    let mut comment = prefix.to_vec();
    comment.extend_from_slice(encoded);
    comment.extend_from_slice(hex::encode((encoded.len() as u16).to_le_bytes()).as_bytes());
    comment
}

#[test]
fn extracts_marked_signature_with_empty_original_comment() {
    let signature = [0x5a; SIGN_LEN];
    let comment = signed_comment(&[], &signature, true);

    assert_eq!(extract_sign_from_comment(&comment), Ok(signature.to_vec()));
}

#[test]
fn extracts_marked_signature_after_nonempty_original_comment() {
    let signature = [0xa5; SIGN_LEN];
    let comment = signed_comment(b"existing comment", &signature, true);

    assert_eq!(extract_sign_from_comment(&comment), Ok(signature.to_vec()));
}

#[test]
fn extracts_legacy_unmarked_signature() {
    let signature = [0x3c; SIGN_LEN];
    let comment = signed_comment(b"legacy comment", &signature, false);

    assert_eq!(extract_sign_from_comment(&comment), Ok(signature.to_vec()));
}

#[test]
fn rejects_missing_or_zero_signature_length() {
    assert_eq!(extract_sign_from_comment(b""), Err("jar has no signature"));
    assert_eq!(
        extract_sign_from_comment(b"existing comment0000"),
        Err("jar signature length is invalid")
    );
}

#[test]
fn rejects_malformed_or_uppercase_signature_length_hex() {
    assert_eq!(
        extract_sign_from_comment(b"signaturezzzz"),
        Err("jar signature info is invalid")
    );
    assert_eq!(
        extract_sign_from_comment(b"signatureABCD"),
        Err("jar signature info is invalid")
    );
}

#[test]
fn rejects_signature_length_underflow() {
    assert_eq!(
        extract_sign_from_comment(b"abc6400"),
        Err("jar signature length is invalid")
    );
}

#[test]
fn rejects_malformed_marker() {
    let signature = [0x11; SIGN_LEN];
    let comment = signed_comment(b"JavaGuard-Signature-v2:", &signature, false);

    assert_eq!(
        extract_sign_from_comment(&comment),
        Err("jar signature marker is invalid")
    );
}

#[test]
fn rejects_malformed_signature_base64() {
    let comment = comment_with_encoded(SIGNATURE_MAGIC, &[b'!'; 86]);

    assert_eq!(
        extract_sign_from_comment(&comment),
        Err("jar signature is invalid")
    );
}

#[test]
fn rejects_wrong_decoded_signature_size() {
    let short_signature = [0x22; SIGN_LEN - 1];
    let comment = signed_comment(&[], &short_signature, true);

    assert_eq!(
        extract_sign_from_comment(&comment),
        Err("jar signature length is invalid")
    );
}

#[test]
fn rejects_noncanonical_base64() {
    let signature = [0; SIGN_LEN];
    let mut encoded = BASE64_URL_SAFE_NO_PAD.encode(signature).into_bytes();
    let last = encoded.last_mut().expect("encoded signature is nonempty");
    assert_eq!(*last, b'A');
    *last = b'B';
    let comment = comment_with_encoded(SIGNATURE_MAGIC, &encoded);

    assert!(extract_sign_from_comment(&comment).is_err());
}

#[test]
fn marker_stem_in_ascii_tail_is_malformed() {
    assert!(has_malformed_signature_marker(b"xxJavaGuard-Signature-yy"));
    assert!(!has_malformed_signature_marker(b"JavaGuard-Signature"));
    assert!(!has_malformed_signature_marker(b""));
    // A non-ASCII byte after the stem hides it.
    let mut prefix = b"JavaGuard-Signature-".to_vec();
    prefix.push(0xc3);
    prefix.extend_from_slice(b"tail");
    assert!(!has_malformed_signature_marker(&prefix));
    // A non-ASCII byte before the stem does not.
    let mut prefix = vec![0xc3u8];
    prefix.extend_from_slice(b"JavaGuard-Signature-");
    assert!(has_malformed_signature_marker(&prefix));
}

#[test]
fn marked_comment_ignores_marker_stem_before_marker() {
    let signature = [0x42; SIGN_LEN];
    let comment = signed_comment(b"JavaGuard-Signature-v2:", &signature, true);
    assert_eq!(extract_sign_from_comment(&comment), Ok(signature.to_vec()));
}

#[test]
fn length_trailer_is_little_endian() {
    // "5600" is 0x0056 = 86 characters, the length of a 64-byte signature.
    let signature = [0x07; SIGN_LEN];
    let encoded = BASE64_URL_SAFE_NO_PAD.encode(signature);
    assert_eq!(encoded.len(), 86);
    let mut comment = encoded.clone().into_bytes();
    comment.extend_from_slice(b"5600");
    assert_eq!(parse_signature_comment(&comment), Ok(signature.to_vec()));
    let mut swapped = encoded.into_bytes();
    swapped.extend_from_slice(b"0056");
    assert_eq!(parse_signature_comment(&swapped), Err(SignatureError::LengthInvalid));
}

#[test]
fn four_character_comment_has_no_signature() {
    assert_eq!(parse_signature_comment(b"0100"), Err(SignatureError::NoSignature));
    assert_eq!(parse_signature_comment(b"a0100"), Err(SignatureError::SignatureInvalid));
}

#[test]
fn decoded_signature_checks() {
    let signature = vec![0x33u8; SIGN_LEN];
    let encoded = BASE64_URL_SAFE_NO_PAD.encode(&signature).into_bytes();
    assert_eq!(signature_from_decoded(&encoded, None), Err(SignatureError::SignatureInvalid));
    assert_eq!(
        signature_from_decoded(&encoded, Some(vec![1, 2, 3])),
        Err(SignatureError::LengthInvalid)
    );
    assert_eq!(
        signature_from_decoded(&encoded, Some(signature.clone())),
        Ok(signature.clone())
    );
    assert_eq!(
        signature_if_canonical(b"abc", signature.clone(), b"abd"),
        Err(SignatureError::NotCanonical)
    );
    assert_eq!(
        signature_if_canonical(b"abc", signature.clone(), b"abc"),
        Ok(signature)
    );
}

#[test]
fn error_messages() {
    assert_eq!(SignatureError::InfoLengthInvalid.message(), "jar signature info length is invalid");
    assert_eq!(SignatureError::NotCanonical.message(), "jar signature encoding is not canonical");
}
