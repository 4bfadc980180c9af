use blog::nonce::{missing_header, policy, CSPNonce, Nonce, NonceInner, NONCE_BYTES};
use std::rc::Rc;

#[test]
fn policy_names_the_nonce_twice() {
    assert_eq!(
        policy("abc123"),
        "default-src: 'self'; script-src: nonce-abc123; style-src: 'unsafe-inline' nonce-abc123, connect-src: 'self' ws: wss:;"
    );
}

#[test]
fn policy_for_an_empty_nonce() {
    assert_eq!(
        policy(""),
        "default-src: 'self'; script-src: nonce-; style-src: 'unsafe-inline' nonce-, connect-src: 'self' ws: wss:;"
    );
}

#[test]
fn nonce_of_zero_bytes() {
    let nonce = NonceInner::from_bytes(&[0u8; 32]);
    assert_eq!(nonce.as_str(), "AAAAAAAAAAAAAAAAAAAAAAAAAAAAAAAAAAAAAAAAAAA=");
}

#[test]
fn nonce_of_set_bytes() {
    let nonce = NonceInner::from_bytes(&[0xffu8; 32]);
    assert_eq!(nonce.as_str(), "//////////////////////////////////////////8=");
}

#[test]
fn nonce_of_counting_bytes() {
    let mut bytes = [0u8; 32];
    for (i, byte) in bytes.iter_mut().enumerate() {
        *byte = i as u8;
    }
    let nonce = NonceInner::from_bytes(&bytes);
    assert_eq!(nonce.as_str(), "AAECAwQFBgcICQoLDA0ODxAREhMUFRYXGBkaGxwdHh8=");
}

#[test]
fn fresh_nonce_encodes_thirty_two_bytes() {
    let nonce = NonceInner::default();
    let bytes = base64::decode(nonce.as_str()).unwrap();
    assert_eq!(bytes.len(), NONCE_BYTES);
    assert_eq!(nonce.as_str().len(), 44);
}

#[test]
fn fresh_nonces_differ() {
    let first = NonceInner::default();
    let second = NonceInner::default();
    assert_ne!(first.as_str(), second.as_str());
}

#[test]
fn nonce_handle_shows_the_shared_text() {
    let inner = Rc::new(NonceInner::from_bytes(&[0u8; 32]));
    let nonce = Nonce::get_nonce(Some(&inner)).unwrap();
    assert_eq!(nonce.to_string(), "AAAAAAAAAAAAAAAAAAAAAAAAAAAAAAAAAAAAAAAAAAA=");
    assert_eq!(Rc::strong_count(&inner), 2);
}

#[test]
fn request_without_nonce_has_none() {
    assert!(Nonce::get_nonce(None).is_none());
}

#[test]
fn header_is_added_only_when_missing() {
    assert_eq!(missing_header(false, "p".to_string()), Some("p".to_string()));
    assert_eq!(missing_header(true, "p".to_string()), None);
}

#[test]
fn middleware_keeps_the_service_and_issues_matching_policy() {
    let middleware = CSPNonce.new_transform(5u8);
    assert_eq!(middleware.service, 5);
    let (nonce, text) = middleware.call();
    assert_eq!(text, policy(nonce.as_str()));
    assert_eq!(base64::decode(nonce.as_str()).unwrap().len(), 32);
    let (other, _) = middleware.call();
    assert_ne!(nonce.as_str(), other.as_str());
}
