use actixexp::credential::{decode_credential, issue_credential, CREDENTIAL_TTL_SECONDS};

use base64::Engine;
use hmac::Mac;

#[test]
fn issued_credential_decodes_to_its_claims() {
    let key: Vec<u8> = b"server-held-secret".to_vec();
    let token = issue_credential("17", 1_000, &key);
    let claims = decode_credential(&token, &key).expect("the credential must decode");
    assert_eq!(claims.subject, "17");
    assert_eq!(claims.issued_at, 1_000);
    assert_eq!(claims.expiration, 1_000 + CREDENTIAL_TTL_SECONDS);
    assert_eq!(claims.expiration, claims.issued_at + 3600);
}

#[test]
fn subject_may_contain_separators() {
    let key: Vec<u8> = vec![0x0b; 20];
    let token = issue_credential("a.b.c", 5, &key);
    let claims = decode_credential(&token, &key).expect("the credential must decode");
    assert_eq!(claims.subject, "a.b.c");
    assert_eq!(claims.issued_at, 5);
    assert_eq!(claims.expiration, 3605);
}

#[test]
fn wrong_key_rejects_the_credential() {
    let key: Vec<u8> = b"key-one".to_vec();
    let other: Vec<u8> = b"key-two".to_vec();
    let token = issue_credential("17", 1_000, &key);
    assert!(decode_credential(&token, &other).is_none());
}

#[test]
fn tampered_credential_is_rejected() {
    let key: Vec<u8> = b"server-held-secret".to_vec();
    let token = issue_credential("17", 1_000, &key);
    // Claims tampering: a different subject under the old tag.
    let mut forged = token.clone();
    forged.push('x');
    assert!(decode_credential(&forged, &key).is_none());
    // Structural garbage.
    assert!(decode_credential("", &key).is_none());
    assert!(decode_credential("not-a-token", &key).is_none());
}

#[test]
fn token_layout_is_tag_then_claims() {
    let key: Vec<u8> = b"layout-key".to_vec();
    let token = issue_credential("alice", 12, &key);
    let (tag, claims_part) = token.split_at(64);
    assert!(claims_part.starts_with('.'));
    let claims_part = &claims_part[1..];
    assert_eq!(claims_part, "12.3612.alice");

    // The tag really is the HMAC-SHA-384 of the claims part under the key.
    let mut mac = <hmac::Hmac<sha2::Sha384> as hmac::KeyInit>::new_from_slice(&key).unwrap();
    mac.update(claims_part.as_bytes());
    let digest = mac.finalize().into_bytes();
    let expected = base64::engine::general_purpose::URL_SAFE_NO_PAD.encode(digest);
    assert_eq!(tag, expected);
}
