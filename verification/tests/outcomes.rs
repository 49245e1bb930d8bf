use lichess::classify::{
    classify, decode_document, ApiError, ClassifiedResponse, StatusPolicy, TransportError,
};
use lichess::extract::{bool_field_of, rejection_of, text_field_of, ExtractError};

#[test]
fn accepted_status_is_success_with_the_body_untouched() {
    let policy = StatusPolicy::default_policy();
    let body = b"{\"id\":\"abc\"}".to_vec();
    match classify(&policy, 200, body.clone()) {
        ClassifiedResponse::Success(b) => assert_eq!(b, body),
        _ => panic!("status 200 must be success"),
    }
    match classify(&policy, 201, b"anything at all".to_vec()) {
        ClassifiedResponse::Success(b) => assert_eq!(b, b"anything at all".to_vec()),
        _ => panic!("status 201 must be success"),
    }
}

#[test]
fn rejected_status_with_body_carries_the_payload() {
    let policy = StatusPolicy::default_policy();
    match classify(&policy, 404, b"{\"error\":\"not found\"}".to_vec()) {
        ClassifiedResponse::ApplicationError(code, Some(payload)) => {
            assert_eq!(code, 404);
            assert_eq!(
                payload,
                serde_json::from_str::<serde_json::Value>("{\"error\":\"not found\"}").unwrap()
            );
        }
        _ => panic!("status 404 with a JSON body must carry the payload"),
    }
}

#[test]
fn rejected_status_with_empty_body_carries_none() {
    let policy = StatusPolicy::default_policy();
    match classify(&policy, 500, Vec::new()) {
        ClassifiedResponse::ApplicationError(code, payload) => {
            assert_eq!(code, 500);
            assert!(payload.is_none());
        }
        _ => panic!("status 500 with an empty body must be an application error"),
    }
}

#[test]
fn malformed_error_body_is_a_transport_failure() {
    let policy = StatusPolicy::default_policy();
    assert!(matches!(
        classify(&policy, 503, b"<html>gateway</html>".to_vec()),
        ClassifiedResponse::TransportFailure(TransportError::MalformedBody)
    ));
}

#[test]
fn the_accepted_set_is_an_explicit_policy() {
    let lenient = StatusPolicy::new(vec![200, 201, 404]);
    assert!(matches!(
        classify(&lenient, 404, b"{\"error\":\"not found\"}".to_vec()),
        ClassifiedResponse::Success(_)
    ));
    let strict = StatusPolicy::new(vec![200]);
    assert!(matches!(
        classify(&strict, 201, Vec::new()),
        ClassifiedResponse::ApplicationError(201, None)
    ));
}

#[test]
fn round_trip_of_an_encoded_body_is_byte_identical() {
    let policy = StatusPolicy::default_policy();
    let body = lichess::endpoints::ai_body(
        3,
        &lichess::endpoints::Color::White,
        &lichess::endpoints::ClockSettings {
            is_correspondence: false,
            days: 0,
            limit: 300,
            increment: 5,
        },
        &None,
    );
    match classify(&policy, 200, body.clone()) {
        ClassifiedResponse::Success(echoed) => assert_eq!(echoed, body),
        _ => panic!("an accepted echo must come back unchanged"),
    }
}

#[test]
fn success_body_decodes_or_faults() {
    let v = decode_document(b"{\"ok\":true}").unwrap();
    assert_eq!(
        v,
        serde_json::from_str::<serde_json::Value>("{\"ok\":true}").unwrap()
    );
    assert!(matches!(
        decode_document(b"nonsense"),
        Err(TransportError::MalformedBody)
    ));
}

#[test]
fn api_error_keeps_code_and_payload() {
    let payload = serde_json::from_str::<serde_json::Value>("{\"why\":\"rate\"}").unwrap();
    let e = ApiError::new(429, Some(payload.clone()));
    assert_eq!(e.code, 429);
    assert_eq!(e.msg, Some(payload));
}

fn doc(text: &str) -> serde_json::Value {
    serde_json::from_str(text).unwrap()
}

#[test]
fn a_text_field_is_read_out() {
    let v = doc("{\"email\":\"someone@example.org\"}");
    assert_eq!(
        text_field_of(&v, "email").unwrap(),
        String::from("someone@example.org")
    );
}

#[test]
fn an_error_object_is_a_rejection() {
    let v = doc("{\"error\":{\"reason\":\"no\"},\"email\":\"x@y\"}");
    match text_field_of(&v, "email") {
        Err(ExtractError::Rejected(e)) => assert_eq!(e, doc("{\"reason\":\"no\"}")),
        _ => panic!("an error object must win over the field"),
    }
    assert_eq!(rejection_of(&v), Some(doc("{\"reason\":\"no\"}")));
}

#[test]
fn an_error_string_is_no_rejection() {
    let v = doc("{\"error\":\"plain\",\"id\":\"g1\"}");
    assert_eq!(rejection_of(&v), None);
    assert_eq!(text_field_of(&v, "id").unwrap(), String::from("g1"));
}

#[test]
fn an_unexpected_shape_is_a_typed_failure_not_a_crash() {
    let v = doc("{\"unrelated\":1}");
    assert!(matches!(
        text_field_of(&v, "email"),
        Err(ExtractError::UnexpectedShape)
    ));
    assert!(matches!(
        text_field_of(&doc("[1,2]"), "email"),
        Err(ExtractError::UnexpectedShape)
    ));
    assert!(matches!(
        bool_field_of(&doc("{\"ok\":\"yes\"}"), "ok"),
        Err(ExtractError::UnexpectedShape)
    ));
}

#[test]
fn a_bool_field_is_read_out() {
    assert_eq!(bool_field_of(&doc("{\"ok\":true}"), "ok").unwrap(), true);
    assert_eq!(bool_field_of(&doc("{\"ok\":false}"), "ok").unwrap(), false);
}
