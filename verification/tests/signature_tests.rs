use hmac::Mac;
use smoked_tofu::signature::{verify_signature, AuthError, SignatureHeader};

fn hmac_hex(secret: &[u8], body: &[u8]) -> String {
    let mut mac = hmac::Hmac::<sha2::Sha256>::new_from_slice(secret).unwrap();
    mac.update(body);
    hex::encode(mac.finalize().into_bytes())
}

#[test]
fn correct_signature_is_accepted() {
    let body = b"{\"zen\":\"Design for failure.\"}".to_vec();
    let secret = b"s3cr3t".to_vec();
    let header = SignatureHeader::Text(format!("sha256={}", hmac_hex(&secret, &body)));
    assert!(verify_signature(&body, &secret, &header).is_ok());
}

#[test]
fn known_digest_is_accepted() {
    // HMAC-SHA256 test vector from RFC 4231, test case 2.
    let body = b"what do ya want for nothing?".to_vec();
    let secret = b"Jefe".to_vec();
    let header = SignatureHeader::Text(
        "sha256=5bdcc146bf60754e6a042426089575c75a003f089d2739839dec58b964ec3843".to_string(),
    );
    assert!(verify_signature(&body, &secret, &header).is_ok());
}

#[test]
fn single_byte_mutation_is_rejected() {
    let body = b"commit payload".to_vec();
    let secret = b"s3cr3t".to_vec();
    let header = SignatureHeader::Text(format!("sha256={}", hmac_hex(&secret, &body)));
    for i in 0..body.len() {
        let mut mutated = body.clone();
        mutated[i] ^= 0x01;
        let r = verify_signature(&mutated, &secret, &header);
        assert!(matches!(r, Err(AuthError::SignatureMismatch)));
    }
}

#[test]
fn wrong_secret_is_rejected() {
    let body = b"commit payload".to_vec();
    let header = SignatureHeader::Text(format!("sha256={}", hmac_hex(b"right", body.as_slice())));
    let r = verify_signature(&body, &b"wrong".to_vec(), &header);
    assert!(matches!(r, Err(AuthError::SignatureMismatch)));
}

#[test]
fn missing_header_is_unauthorized() {
    let body = b"body".to_vec();
    let secret = b"s".to_vec();
    let r = verify_signature(&body, &secret, &SignatureHeader::Missing);
    let e = r.unwrap_err();
    assert!(matches!(e, AuthError::MissingSignature));
    assert_eq!(e.status_code(), 401);
}

#[test]
fn header_without_prefix_is_bad_request() {
    let body = b"body".to_vec();
    let secret = b"s".to_vec();
    let digest = hmac_hex(&secret, &body);
    // The right digest, but without the required prefix.
    let r = verify_signature(&body, &secret, &SignatureHeader::Text(digest));
    let e = r.unwrap_err();
    assert!(matches!(e, AuthError::InvalidFormat));
    assert_eq!(e.status_code(), 400);
}

#[test]
fn short_header_is_bad_request() {
    let body = b"body".to_vec();
    let secret = b"s".to_vec();
    let r = verify_signature(&body, &secret, &SignatureHeader::Text("sha".to_string()));
    assert!(matches!(r, Err(AuthError::InvalidFormat)));
}

#[test]
fn unreadable_header_is_bad_request() {
    let body = b"body".to_vec();
    let secret = b"s".to_vec();
    let r = verify_signature(&body, &secret, &SignatureHeader::NotText);
    let e = r.unwrap_err();
    assert!(matches!(e, AuthError::InvalidEncoding));
    assert_eq!(e.status_code(), 400);
}

#[test]
fn mismatched_digest_is_unauthorized() {
    let body = b"body".to_vec();
    let secret = b"s".to_vec();
    let header = SignatureHeader::Text(format!("sha256={}", "0".repeat(64)));
    let e = verify_signature(&body, &secret, &header).unwrap_err();
    assert!(matches!(e, AuthError::SignatureMismatch));
    assert_eq!(e.status_code(), 401);
}

#[test]
fn internal_error_maps_to_500() {
    assert_eq!(AuthError::Internal.status_code(), 500);
}
