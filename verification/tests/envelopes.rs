use basket::ApiResponse;
use basket::BasketError;
use basket::Status;
use basket::read_response;
use basket::write_response;

#[test]
fn ok_envelope_with_payload_yields_payload() {
    let data = read_response(r#"{"status":"ok","token":"abc","email":"x@example.com"}"#).unwrap();
    let expected: serde_json::Value =
        serde_json::from_str(r#"{"token":"abc","email":"x@example.com"}"#).unwrap();
    assert_eq!(data, expected);
}

#[test]
fn ok_envelope_with_payload_renders_as_payload_json() {
    let env = ApiResponse::parse(r#"{"status":"ok","token":"abc"}"#).unwrap();
    assert_eq!(env.status, Status::Okay);
    assert_eq!(env.render(), r#"{"token":"abc"}"#);
}

#[test]
fn bare_ok_envelope_renders_as_status_word() {
    let env = ApiResponse::parse(r#"{"status":"ok"}"#).unwrap();
    assert_eq!(env.status, Status::Okay);
    assert_eq!(env.render(), "ok");
}

#[test]
fn error_envelope_without_payload_renders_as_error_word() {
    let env = ApiResponse::parse(r#"{"status":"error"}"#).unwrap();
    assert_eq!(env.status, Status::Error);
    assert_eq!(env.render(), "error");
}

#[test]
fn error_envelope_with_payload_renders_as_payload_json() {
    let env = ApiResponse::parse(r#"{"status":"error","desc":"Token not found"}"#).unwrap();
    assert_eq!(env.status, Status::Error);
    assert_eq!(env.render(), r#"{"desc":"Token not found"}"#);
}

#[test]
fn error_envelope_is_a_domain_failure() {
    let err = read_response(r#"{"status":"error","desc":"Token not found"}"#).unwrap_err();
    match err {
        BasketError::Api(env) => {
            assert_eq!(env.status, Status::Error);
            assert_eq!(env.render(), r#"{"desc":"Token not found"}"#);
        },
        _ => panic!("expected a domain failure"),
    }
}

#[test]
fn error_envelope_fails_write_operations_too() {
    let err = write_response(r#"{"status":"error"}"#).unwrap_err();
    assert!(matches!(err, BasketError::Api(_)));
    assert_eq!(err.describe(), "error");
}

#[test]
fn ok_envelope_succeeds_write_operations() {
    assert!(write_response(r#"{"status":"ok"}"#).is_ok());
}

#[test]
fn missing_status_is_a_decode_failure() {
    let err = read_response(r#"{"desc":"no status here"}"#).unwrap_err();
    match err {
        BasketError::Envelope(found) => assert_eq!(found, None),
        _ => panic!("expected a decode failure, not a domain failure"),
    }
}

#[test]
fn unrecognized_status_word_is_a_decode_failure() {
    let err = read_response(r#"{"status":"bogus"}"#).unwrap_err();
    match err {
        BasketError::Envelope(found) => assert_eq!(found, Some("bogus".to_string())),
        _ => panic!("expected a decode failure, not a domain failure"),
    }
}

#[test]
fn uppercase_status_word_is_a_decode_failure() {
    let err = write_response(r#"{"status":"OK"}"#).unwrap_err();
    assert!(matches!(err, BasketError::Envelope(_)));
}

#[test]
fn non_string_status_is_a_decode_failure() {
    let err = read_response(r#"{"status":5}"#).unwrap_err();
    match err {
        BasketError::Envelope(found) => assert_eq!(found, None),
        _ => panic!("expected a decode failure, not a domain failure"),
    }
}

#[test]
fn non_object_body_is_a_decode_failure() {
    let err = read_response("[1,2,3]").unwrap_err();
    assert!(matches!(err, BasketError::Envelope(None)));
}

#[test]
fn invalid_json_body_is_a_json_failure() {
    let err = read_response("not json at all").unwrap_err();
    assert!(matches!(err, BasketError::Json(_)));
    assert_eq!(err.describe(), "response body is not valid JSON");
}

#[test]
fn payload_keeps_every_key_but_status() {
    let data = read_response(r#"{"b":2,"status":"ok","a":1}"#).unwrap();
    let expected: serde_json::Value = serde_json::from_str(r#"{"a":1,"b":2}"#).unwrap();
    assert_eq!(data, expected);
    assert!(data.get("status").is_none());
}

#[test]
fn invalid_token_failure_describes_itself() {
    assert_eq!(BasketError::InvalidTokenFormat.describe(), "token must be a uuid");
}
