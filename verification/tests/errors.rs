use axum::extract::rejection::{JsonRejection, MissingJsonContentType};
use pay_worker::http::{PayError, PayErrorResponse, PayJson};

fn parts(error: PayError) -> (u16, PayErrorResponse) {
    let (status, PayJson(body)) = error.into_response();
    (status, body)
}

#[test]
fn not_found_is_404() {
    let (status, body) = parts(PayError::NotFound("invoice INV-1 not found".to_string()));
    assert_eq!(status, 404);
    assert_eq!(body.code, 404);
    assert_eq!(body.message, "invoice INV-1 not found");
}

#[test]
fn bad_request_is_400() {
    let (status, body) = parts(PayError::BadRequest("invalid payment method".to_string()));
    assert_eq!(status, 400);
    assert_eq!(body.code, 400);
    assert_eq!(body.message, "invalid payment method");
}

#[test]
fn deserialize_error_is_500() {
    let (status, body) =
        parts(PayError::DeserializeError("failed to deserialize invoice array".to_string()));
    assert_eq!(status, 500);
    assert_eq!(body.code, 500);
    assert_eq!(body.message, "failed to deserialize invoice array");
}

#[test]
fn internal_error_is_500() {
    let (status, body) =
        parts(PayError::InternalError("failed to create payment intent".to_string()));
    assert_eq!(status, 500);
    assert_eq!(body.code, 500);
    assert_eq!(body.message, "failed to create payment intent");
}

#[test]
fn rejection_keeps_the_transport_status_and_text() {
    let rejection = JsonRejection::from(MissingJsonContentType::default());
    let (status, body) = parts(PayError::from(rejection));
    assert_eq!(status, 415);
    assert_eq!(body.code, 415);
    assert_eq!(body.message, "Expected request with `Content-Type: application/json`");
}

#[test]
fn rejection_becomes_its_own_variant() {
    let rejection = JsonRejection::from(MissingJsonContentType::default());
    assert!(matches!(PayError::from(rejection), PayError::JsonRejection(_)));
}

#[test]
fn respond_repeats_the_status_as_code() {
    let (status, PayJson(body)) = PayError::respond(418, "teapot".to_string());
    assert_eq!(status, 418);
    assert_eq!(body.code, 418);
    assert_eq!(body.message, "teapot");
}

#[test]
fn client_error_becomes_an_internal_error() {
    let err = reqwest::Client::new().get("not a url").build().unwrap_err();
    let debug = format!("{:?}", err);
    match PayError::from(err) {
        PayError::InternalError(message) => {
            assert!(message.starts_with("reqwest error: "));
            assert_eq!(message, format!("reqwest error: {}", debug));
        }
        other => panic!("unexpected {:?}", other),
    }
}

#[test]
fn client_error_is_answered_with_500() {
    let err = reqwest::Client::new().get("not a url").build().unwrap_err();
    let (status, body) = parts(PayError::from(err));
    assert_eq!(status, 500);
    assert_eq!(body.code, 500);
    assert!(body.message.starts_with("reqwest error: "));
}

#[test]
fn client_error_carries_the_diagnostic_text() {
    match PayError::client_error("connection refused".to_string()) {
        PayError::InternalError(message) => {
            assert_eq!(message, "reqwest error: connection refused")
        }
        other => panic!("unexpected {:?}", other),
    }
    match PayError::client_error(String::new()) {
        PayError::InternalError(message) => assert_eq!(message, "reqwest error: "),
        other => panic!("unexpected {:?}", other),
    }
}

#[test]
fn client_error_names_its_kind_and_source() {
    let err = reqwest::Client::new().get("not a url").build().unwrap_err();
    match PayError::from(err) {
        PayError::InternalError(message) => {
            assert!(message.starts_with("reqwest error: reqwest::Error {"));
            assert!(message.contains("Builder"));
            assert!(message.len() > "reqwest error: ".len());
        }
        other => panic!("unexpected {:?}", other),
    }
}
