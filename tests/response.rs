use coinbase_client::{
    classify_response, is_success, ConfigError, DecodedBody, Error, ErrorKind, ErrorMessage,
};

fn decode_u64(body: &str) -> Result<u64, String> {
    serde_json::from_str::<u64>(body).map_err(|e| e.to_string())
}

fn decode_message(body: &str) -> Result<ErrorMessage, String> {
    let v: serde_json::Value = serde_json::from_str(body).map_err(|e| e.to_string())?;
    match v.get("message").and_then(|m| m.as_str()) {
        Some(m) => Ok(ErrorMessage { message: m.to_string() }),
        None => Err("missing field `message`".to_string()),
    }
}

#[test]
fn success_statuses() {
    assert!(is_success(200));
    assert!(is_success(204));
    assert!(is_success(299));
    assert!(!is_success(199));
    assert!(!is_success(300));
    assert!(!is_success(400));
    assert!(!is_success(500));
}

#[test]
fn success_body_decodes_to_value() {
    let r = classify_response(200, DecodedBody::Success(decode_u64("42")));
    assert_eq!(r.ok(), Some(42));
}

#[test]
fn malformed_success_body_is_decode_failure() {
    let r = classify_response(200, DecodedBody::Success(decode_u64("{not json")));
    let e = r.err().unwrap();
    assert!(e.is_decode_failure());
    assert!(matches!(e.kind(), ErrorKind::JSON(_)));
    assert_eq!(e.status_code(), None);
}

#[test]
fn failure_with_message_is_status_failure() {
    let r = classify_response::<u64>(
        400,
        DecodedBody::Failure(decode_message("{\"message\": \"Insufficient funds\"}")),
    );
    let e = r.err().unwrap();
    assert_eq!(e.status_code(), Some(400));
    assert!(!e.is_decode_failure());
    match e.kind() {
        ErrorKind::Status(s) => {
            assert_eq!(s.code, 400);
            assert_eq!(s.message, "Insufficient funds");
        }
        _ => panic!("expected a status failure"),
    }
    assert_eq!(e.describe(), "status error 400: Insufficient funds");
}

#[test]
fn server_error_with_message_is_status_failure() {
    let r = classify_response::<u64>(
        503,
        DecodedBody::Failure(decode_message("{\"message\": \"Insufficient funds\"}")),
    );
    assert_eq!(r.err().unwrap().status_code(), Some(503));
}

#[test]
fn failure_with_unparseable_body_is_decode_failure() {
    let r = classify_response::<u64>(500, DecodedBody::Failure(decode_message("<html>")));
    let e = r.err().unwrap();
    assert!(e.is_decode_failure());
    assert!(matches!(e.kind(), ErrorKind::ErrorPayload(_)));
    assert_eq!(e.status_code(), None);
}

#[test]
fn error_descriptions() {
    assert_eq!(Error::new(ErrorKind::HTTP("refused".to_string())).describe(), "http error");
    assert_eq!(Error::new(ErrorKind::JSON("x".to_string())).describe(), "json error");
    assert_eq!(
        Error::new(ErrorKind::ErrorPayload("x".to_string())).describe(),
        "json error in error response"
    );
    assert_eq!(
        Error::new(ErrorKind::Config(ConfigError::InvalidKey)).describe(),
        "configuration error"
    );
}
