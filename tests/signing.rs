use coinbase_client::signing::{decode_secret, prehash, sign_with_key};
use coinbase_client::PrivateClient;

fn client() -> PrivateClient {
    PrivateClient::new(
        "c2VjcmV0LWtleQ==".to_string(),
        "pass".to_string(),
        "key".to_string(),
    )
}

#[test]
fn prehash_concatenates_in_order() {
    assert_eq!(
        prehash("/orders", Some("{}"), "1600000000", "POST"),
        "1600000000POST/orders{}"
    );
    assert_eq!(
        prehash("/accounts", None, "1600000000", "GET"),
        "1600000000GET/accounts"
    );
}

#[test]
fn hmac_known_vector() {
    // Published HMAC-SHA256 vector for the key "Jefe", base64 encoded.
    assert_eq!(
        sign_with_key(b"Jefe", "what do ya want for nothing?"),
        "W9zBRr9gdU5qBCQmCJV1x1oAPwidJzmDnexYuWTsOEM="
    );
}

#[test]
fn decode_secret_valid_and_invalid() {
    assert_eq!(decode_secret("c2VjcmV0LWtleQ=="), Some(b"secret-key".to_vec()));
    assert_eq!(decode_secret("not base64!"), None);
}

#[test]
fn sign_message_golden() {
    let c = client();
    assert_eq!(
        c.sign_message("/accounts", None, "1600000000", "GET"),
        Some("wDn+HaHCMdhW7JS/pZY8P1axk1gjJ/sacxpSiAfHLW4=".to_string())
    );
    assert_eq!(
        c.sign_message("/orders", Some("{}"), "1600000000", "POST"),
        Some("G8ijbn64IvVWQCy0Yj2gv+VQTyvoigXpB9Fp5XSLqWU=".to_string())
    );
}

#[test]
fn sign_message_is_deterministic() {
    let c = client();
    let a = c.sign_message("/orders", Some("{\"size\":\"1\"}"), "1600000001", "POST");
    let b = c.sign_message("/orders", Some("{\"size\":\"1\"}"), "1600000001", "POST");
    assert_eq!(a, b);
    let other = PrivateClient::new_sandbox(
        "c2VjcmV0LWtleQ==".to_string(),
        "other".to_string(),
        "other".to_string(),
    );
    assert_eq!(
        other.sign_message("/orders", Some("{\"size\":\"1\"}"), "1600000001", "POST"),
        a
    );
}

#[test]
fn omitted_body_differs_from_present_body() {
    let c = client();
    let without = c.sign_message("/orders", None, "1600000000", "POST");
    let with = c.sign_message("/orders", Some("{}"), "1600000000", "POST");
    assert_ne!(without, with);
    assert_eq!(
        without,
        Some("QhJOdn2e2AS2V9xMjUrmzqIS6E3vJ7KDzlkF/xe3IFU=".to_string())
    );
}

#[test]
fn omitted_body_and_empty_body_sign_alike() {
    // An empty body adds no byte to the signed message.
    let c = client();
    assert_eq!(
        c.sign_message("/orders", None, "1600000000", "POST"),
        c.sign_message("/orders", Some(""), "1600000000", "POST")
    );
}

#[test]
fn sign_message_rejects_non_base64_secret() {
    let c = PrivateClient::new("%%%".to_string(), "p".to_string(), "k".to_string());
    assert_eq!(c.sign_message("/accounts", None, "1", "GET"), None);
}
