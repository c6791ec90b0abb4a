use coinbase_client::client::{
    COINBASE_API_URL, COINBASE_SANDBOX_API_URL, USER_AGENT,
};
use coinbase_client::{ConfigError, Method, PrivateClient};

fn client() -> PrivateClient {
    PrivateClient::new(
        "c2VjcmV0LWtleQ==".to_string(),
        "pass".to_string(),
        "key".to_string(),
    )
}

#[test]
fn endpoints() {
    assert_eq!(client().base_url(), COINBASE_API_URL);
    let s = PrivateClient::new_sandbox("a".to_string(), "b".to_string(), "c".to_string());
    assert_eq!(s.base_url(), COINBASE_SANDBOX_API_URL);
}

#[test]
fn header_timestamp_is_the_signed_timestamp() {
    let c = client();
    let h = c.access_headers("/accounts", None, "GET", 1600000000).ok().unwrap();
    assert_eq!(h.timestamp, "1600000000");
    assert_eq!(
        Some(h.signature.clone()),
        c.sign_message("/accounts", None, &h.timestamp, "GET")
    );
    assert_eq!(h.signature, "wDn+HaHCMdhW7JS/pZY8P1axk1gjJ/sacxpSiAfHLW4=");
    assert_eq!(h.user_agent, USER_AGENT);
    assert_eq!(h.key, "key");
    assert_eq!(h.passphrase, "pass");
}

#[test]
fn access_headers_config_errors() {
    let bad_secret = PrivateClient::new("%%%".to_string(), "p\n".to_string(), "k\n".to_string());
    assert_eq!(
        bad_secret.access_headers("/a", None, "GET", 1).err(),
        Some(ConfigError::SecretNotBase64)
    );
    let bad_key = PrivateClient::new("c2VjcmV0LWtleQ==".to_string(), "p\n".to_string(), "k\n".to_string());
    assert_eq!(
        bad_key.access_headers("/a", None, "GET", 1).err(),
        Some(ConfigError::InvalidKey)
    );
    let bad_pass = PrivateClient::new("c2VjcmV0LWtleQ==".to_string(), "p\u{7f}".to_string(), "k\t".to_string());
    assert_eq!(
        bad_pass.access_headers("/a", None, "GET", 1).err(),
        Some(ConfigError::InvalidPassphrase)
    );
    let non_ascii = PrivateClient::new("c2VjcmV0LWtleQ==".to_string(), "pässe".to_string(), "clé".to_string());
    assert!(non_ascii.access_headers("/a", None, "GET", 1).is_ok());
}

#[test]
fn prepared_post_sends_the_signed_body() {
    let c = client();
    let body = serde_json::to_string(&serde_json::Value::from(vec![1, 2])).unwrap();
    let p = c
        .prepare_request(Method::Post, "/orders", Some(body.clone()), 1600000000)
        .ok()
        .unwrap();
    assert_eq!(p.body, Some(body.clone()));
    assert_eq!(p.url, "https://api.pro.coinbase.com/orders");
    assert_eq!(p.method, Method::Post);
    assert_eq!(
        Some(p.headers.signature.clone()),
        c.sign_message("/orders", p.body.as_deref(), &p.headers.timestamp, "POST")
    );
}

#[test]
fn prepared_get_has_no_body() {
    let c = client();
    let p = c.prepare_request(Method::Get, "/accounts", None, 1600000000).ok().unwrap();
    assert_eq!(p.body, None);
    assert_eq!(p.headers.signature, "wDn+HaHCMdhW7JS/pZY8P1axk1gjJ/sacxpSiAfHLW4=");
    let d = c.prepare_request(Method::Delete, "/orders", None, 5).ok().unwrap();
    assert_eq!(d.headers.timestamp, "5");
    assert_eq!(Method::Delete.as_str(), "DELETE");
}

#[test]
fn prepare_request_reports_config_error() {
    let c = PrivateClient::new("@@".to_string(), "p".to_string(), "k".to_string());
    assert_eq!(
        c.prepare_request(Method::Get, "/accounts", None, 1).err(),
        Some(ConfigError::SecretNotBase64)
    );
}
