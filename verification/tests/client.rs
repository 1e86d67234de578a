use meili::client::{fido_registration, FIDO_TIMEOUT_MS};
use sha2::Digest;

#[test]
fn fido_registration_hashes_challenge_and_application() {
    let r = fido_registration();
    let challenge = "{\"challenge\": \"1vQ9mxionq0ngCnjD-wTsv1zUSrGRtFqG2xP09SbZ70\", \"version\": \"U2F_V2\", \"appId\": \"http://demo.yubico.com\"}";
    let mut h = sha2::Sha256::default();
    h.input(challenge.as_bytes());
    assert_eq!(r.challenge, h.result().to_vec());
    let mut h = sha2::Sha256::default();
    h.input(b"http://demo.yubico.com");
    assert_eq!(r.application, h.result().to_vec());
    assert_eq!(r.challenge.len(), 32);
    assert_ne!(r.application, b"http://demo.yubico.com".to_vec());
    assert_eq!(r.register_flags, 0);
    assert!(r.key_handles.is_empty());
    assert_eq!(r.timeout_ms, 32000);
    assert_eq!(FIDO_TIMEOUT_MS, 32000);
}
