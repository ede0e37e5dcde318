use ci_cd_optimizer::errors::AppError;
use ci_cd_optimizer::perceiver::github::verify_signature;
use ci_cd_optimizer::perceiver::gitlab::verify_token;
use hmac::Mac;

fn sign(secret: &str, body: &[u8]) -> String {
    let mut mac = <hmac::Hmac<sha2::Sha256> as hmac::Mac>::new_from_slice(secret.as_bytes())
        .expect("any key length is accepted");
    mac.update(body);
    format!("sha256={}", hex::encode(mac.finalize().into_bytes()))
}

#[test]
fn valid_signature_is_accepted() {
    let secret = "webhook-test-secret";
    let body = b"{\"action\":\"completed\"}";
    let sig = sign(secret, body);
    assert!(verify_signature(body, &sig, secret).is_ok());
}

#[test]
fn altering_one_body_byte_invalidates_signature() {
    let secret = "webhook-test-secret";
    let body = b"{\"action\":\"completed\"}".to_vec();
    let sig = sign(secret, &body);
    for i in 0..body.len() {
        let mut altered = body.clone();
        altered[i] ^= 0x01;
        let r = verify_signature(&altered, &sig, secret);
        assert!(matches!(r, Err(AppError::Unauthorized)));
    }
}

#[test]
fn signature_without_prefix_is_rejected() {
    let secret = "webhook-test-secret";
    let body = b"payload";
    let sig = sign(secret, body);
    let raw = sig.strip_prefix("sha256=").unwrap();
    assert!(matches!(
        verify_signature(body, raw, secret),
        Err(AppError::Unauthorized)
    ));
    assert!(matches!(
        verify_signature(body, "", secret),
        Err(AppError::Unauthorized)
    ));
    let wrong_prefix = format!("sha512={}", raw);
    assert!(matches!(
        verify_signature(body, &wrong_prefix, secret),
        Err(AppError::Unauthorized)
    ));
}

#[test]
fn signature_for_other_secret_is_rejected() {
    let body = b"payload";
    let sig = sign("webhook-test-secret", body);
    assert!(matches!(
        verify_signature(body, &sig, "another-secret"),
        Err(AppError::Unauthorized)
    ));
}

#[test]
fn matching_token_is_accepted() {
    assert!(verify_token("tok-123", "tok-123").is_ok());
}

#[test]
fn mismatched_token_is_rejected() {
    assert!(matches!(
        verify_token("tok-124", "tok-123"),
        Err(AppError::Unauthorized)
    ));
    assert!(matches!(
        verify_token("", "tok-123"),
        Err(AppError::Unauthorized)
    ));
}

#[test]
fn token_comparison_is_case_sensitive() {
    assert!(matches!(
        verify_token("Tok-123", "tok-123"),
        Err(AppError::Unauthorized)
    ));
    assert!(matches!(
        verify_token("TOK-123", "tok-123"),
        Err(AppError::Unauthorized)
    ));
}
