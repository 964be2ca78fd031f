use paygate::{
    classify_response, decode_success_body, handle_transport_event, Error, TransportEvent,
};

fn response(status: u16, body: &str) -> TransportEvent {
    TransportEvent::Response { status, body: Some(body.to_string()) }
}

#[test]
fn success_body_decodes_into_its_fields() {
    let outcome = handle_transport_event(response(200, "{\"id\":\"abc\"}"));
    let text = outcome.expect("a 200 response must pass classification");
    let value = decode_success_body(text).expect("the body is well-formed JSON");
    assert_eq!(value.get("id").and_then(|v| v.as_str()), Some("abc"));
}

#[test]
fn declined_payment_surfaces_code_and_source() {
    let body = "{\"meta\":{\"action\":{\"code\":\"declined\",\"source\":\"issuer\"}}}";
    let outcome = handle_transport_event(response(402, body));
    match outcome {
        Err(Error::ApiError(f)) => {
            assert_eq!(f.status, 402);
            assert_eq!(f.code, "declined");
            assert_eq!(f.source, "issuer");
            assert_eq!(f.enduser_message, "unknown");
            assert_eq!(f.merchant_message, "unknown");
            assert_eq!(f.raw, body);
        }
        other => panic!("expected an API error, got {:?}", other),
    }
}

#[test]
fn unparseable_success_body_is_a_serialization_error() {
    let outcome = handle_transport_event(response(200, "not json"));
    let text = outcome.expect("a 200 response must pass classification");
    match decode_success_body(text) {
        Err(Error::SerializationError(detail, raw)) => {
            assert_eq!(raw, "not json");
            assert!(!detail.is_empty());
        }
        other => panic!("expected a serialization error, got {:?}", other),
    }
}

#[test]
fn transport_failure_is_a_network_error() {
    let outcome = handle_transport_event(TransportEvent::Failure {
        detail: "operation timed out".to_string(),
    });
    assert_eq!(outcome, Err(Error::NetworkError("operation timed out".to_string())));
}

#[test]
fn unreadable_body_keeps_the_placeholder_text() {
    let outcome = handle_transport_event(TransportEvent::Response { status: 500, body: None });
    match outcome {
        Err(Error::ApiError(f)) => {
            assert_eq!(f.status, 500);
            assert_eq!(f.raw, "Could not retrieve body text.");
            assert_eq!(f.code, "unknown");
            assert_eq!(f.source, "unknown");
        }
        other => panic!("expected an API error, got {:?}", other),
    }
}

#[test]
fn envelope_without_action_defaults_every_field() {
    let body = "{\"meta\":{}}";
    match handle_transport_event(response(404, body)) {
        Err(Error::ApiError(f)) => {
            assert_eq!(f.status, 404);
            assert_eq!(f.code, "unknown");
            assert_eq!(f.source, "unknown");
            assert_eq!(f.enduser_message, "unknown");
            assert_eq!(f.merchant_message, "unknown");
            assert_eq!(f.raw, body);
        }
        other => panic!("expected an API error, got {:?}", other),
    }
}

#[test]
fn envelope_messages_are_surfaced_individually() {
    let body = "{\"meta\":{\"action\":{\"code\":\"declined\"},\"message\":{\"enduser\":\"card declined\",\"merchant\":\"do not retry\"}}}";
    match handle_transport_event(response(402, body)) {
        Err(Error::ApiError(f)) => {
            assert_eq!(f.code, "declined");
            assert_eq!(f.source, "unknown");
            assert_eq!(f.enduser_message, "card declined");
            assert_eq!(f.merchant_message, "do not retry");
        }
        other => panic!("expected an API error, got {:?}", other),
    }
}

#[test]
fn non_object_error_body_still_classifies() {
    match handle_transport_event(response(503, "[1,2,3]")) {
        Err(Error::ApiError(f)) => {
            assert_eq!(f.status, 503);
            assert_eq!(f.code, "unknown");
            assert_eq!(f.raw, "[1,2,3]");
        }
        other => panic!("expected an API error, got {:?}", other),
    }
}

#[test]
fn status_boundaries_divide_success_from_failure() {
    assert!(classify_response(199, "x".to_string()).is_err());
    assert_eq!(classify_response(200, "x".to_string()), Ok("x".to_string()));
    assert_eq!(classify_response(299, "x".to_string()), Ok("x".to_string()));
    assert!(classify_response(300, "x".to_string()).is_err());
}

#[test]
fn envelope_fields_of_wrong_kind_default() {
    // The action's code is a number, not a string: it defaults to unknown.
    let body = "{\"meta\":{\"action\":{\"code\":7,\"source\":\"issuer\"}}}";
    match handle_transport_event(response(400, body)) {
        Err(Error::ApiError(f)) => {
            assert_eq!(f.code, "unknown");
            assert_eq!(f.source, "issuer");
        }
        other => panic!("expected an API error, got {:?}", other),
    }
}
