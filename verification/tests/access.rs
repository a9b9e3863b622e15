use admin_api::access::{
    admit_request, check_admin_token, default_admin_token, token_refusal_answer, Admission, TokenRefusal,
};
use admin_api::body::{
    array_body_check, body_error_message, object_body_check, optional_object_check, BodyError, JsonShape,
};
use admin_api::provider::{provider_reference_of_body, reference_error_message, ReferenceBody, ReferenceError};
use admin_api::route::{Decision, HttpMethod, RouteKind};

#[test]
fn default_token_is_dev_admin_token() {
    assert_eq!(default_admin_token(), "dev-admin-token");
    assert_eq!(check_admin_token(Some(Some("dev-admin-token")), None), Ok(()));
    assert_eq!(check_admin_token(Some(Some("dev-admin-token")), Some("s3cret")), Err(TokenRefusal::Mismatch));
    assert_eq!(check_admin_token(Some(Some("s3cret")), Some("s3cret")), Ok(()));
}

#[test]
fn missing_or_wrong_tokens_are_refused() {
    assert_eq!(check_admin_token(None, None), Err(TokenRefusal::Missing));
    assert_eq!(check_admin_token(Some(None), None), Err(TokenRefusal::Mismatch));
    assert_eq!(check_admin_token(Some(Some("")), None), Err(TokenRefusal::Mismatch));
    assert_eq!(check_admin_token(Some(Some("dev-admin-token ")), None), Err(TokenRefusal::Mismatch));
    assert_eq!(token_refusal_answer(TokenRefusal::Missing), (401, "admin token required"));
    assert_eq!(token_refusal_answer(TokenRefusal::Mismatch), (403, "invalid admin token"));
}

#[test]
fn only_admitted_requests_are_routed() {
    assert!(matches!(
        admit_request("/admin/realms", HttpMethod::Get, None, None),
        Admission::Refused(TokenRefusal::Missing)
    ));
    assert!(matches!(
        admit_request("/admin/realms", HttpMethod::Get, Some(Some("nope")), None),
        Admission::Refused(TokenRefusal::Mismatch)
    ));
    match admit_request("/admin/realms", HttpMethod::Get, Some(Some("dev-admin-token")), None) {
        Admission::Decided(Decision::Dispatch(r)) => assert_eq!(r.kind, RouteKind::Realms),
        _ => panic!("expected a dispatch"),
    }
    assert!(matches!(
        admit_request("/admin/realms", HttpMethod::Patch, Some(Some("dev-admin-token")), None),
        Admission::Decided(Decision::MethodNotAllowed)
    ));
    assert!(matches!(
        admit_request("/nowhere", HttpMethod::Get, Some(Some("dev-admin-token")), None),
        Admission::Decided(Decision::NotImplemented)
    ));
}

#[test]
fn bodies_are_checked_for_presence_json_and_kind() {
    assert_eq!(object_body_check(b"", None), Err(BodyError::Required));
    assert_eq!(object_body_check(b"{", None), Err(BodyError::NotJson));
    assert_eq!(object_body_check(b"[]", Some(JsonShape::Array)), Err(BodyError::NotObject));
    assert_eq!(object_body_check(b"{}", Some(JsonShape::Object)), Ok(()));
    assert_eq!(array_body_check(b"", None), Err(BodyError::Required));
    assert_eq!(array_body_check(b"{}", Some(JsonShape::Object)), Err(BodyError::NotArray));
    assert_eq!(array_body_check(b"[]", Some(JsonShape::Array)), Ok(()));
    assert_eq!(optional_object_check(b"", None), Ok(false));
    assert_eq!(optional_object_check(b"{}", Some(JsonShape::Object)), Ok(true));
    assert_eq!(optional_object_check(b"1", Some(JsonShape::Other)), Err(BodyError::NotObject));
    assert_eq!(body_error_message(BodyError::Required), "request body is required");
    assert_eq!(body_error_message(BodyError::NotJson), "parse request body");
    assert_eq!(body_error_message(BodyError::NotObject), "request body must be an object");
    assert_eq!(body_error_message(BodyError::NotArray), "request body must be an array");
}

#[test]
fn provider_reference_of_whole_bodies() {
    assert_eq!(provider_reference_of_body(b"", None), Err(ReferenceError::BodyRequired));
    assert_eq!(provider_reference_of_body(b"", Some(ReferenceBody::Text("x".into()))), Err(ReferenceError::BodyRequired));
    assert_eq!(provider_reference_of_body(b"not json", None), Err(ReferenceError::NotJson));
    assert_eq!(provider_reference_of_body(b"\"gh\"", Some(ReferenceBody::Text("gh".into()))), Ok("gh".to_string()));
    assert_eq!(provider_reference_of_body(b"3", Some(ReferenceBody::Other)), Err(ReferenceError::WrongShape));
    assert_eq!(reference_error_message(ReferenceError::BodyRequired), "request body is required");
    assert_eq!(reference_error_message(ReferenceError::NotJson), "parse request body");
    assert_eq!(reference_error_message(ReferenceError::MissingName), "id or alias is required");
    assert_eq!(reference_error_message(ReferenceError::WrongShape), "request body must be a string or object");
}
