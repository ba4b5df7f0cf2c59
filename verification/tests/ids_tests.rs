use purchase_core::errors::ServiceError;
use purchase_core::ids::{parse_uuid, string_to_uuid};

#[test]
fn well_formed_uuid_text_parses_to_its_value() {
    let r = string_to_uuid("550e8400-e29b-41d4-a716-446655440000");
    assert_eq!(r.ok(), Some(0x550e8400_e29b_41d4_a716_446655440000u128));
}

#[test]
fn nil_uuid_parses_to_zero() {
    assert_eq!(parse_uuid("00000000-0000-0000-0000-000000000000"), Some(0));
}

#[test]
fn malformed_uuid_text_is_a_bad_request() {
    let r = string_to_uuid("not-a-uuid");
    assert!(matches!(r, Err(ServiceError::BadRequest(_))));
    assert!(parse_uuid("").is_none());
    assert!(parse_uuid("550e8400").is_none());
}

#[test]
fn service_errors_carry_their_reason() {
    assert_eq!(ServiceError::internal_error("a").message(), "a");
    assert_eq!(ServiceError::not_found("b").message(), "b");
    assert_eq!(ServiceError::already_exist("c").message(), "c");
    assert_eq!(ServiceError::bad_request("d").message(), "d");
    assert!(matches!(ServiceError::not_found("x"), ServiceError::NotFound(_)));
    assert!(matches!(ServiceError::already_exist("x"), ServiceError::AlreadyExists(_)));
    assert!(matches!(ServiceError::internal_error("x"), ServiceError::InternalError(_)));
}
