use profiles::id::{Id, IdError};

#[test]
fn when_call_generate_method_shoul_return_valid_uuid() {
    let id1 = Id::generate();
    let id2 = Id::generate();
    assert_ne!(id1, id2);
}

#[test]
fn when_str_as_valid_uuid_should_return_id_object_value() {
    let id_str = "550e8400-e29b-41d4-a716-446655440000";
    let id = Id::from_str(id_str).unwrap();
    assert_eq!(id.to_string(), id_str);
}

#[test]
fn when_str_is_not_valid_uuid_should_invalid_error() {
    let id_str = "invalid-uuid";
    let result = Id::from_str(id_str);
    assert!(matches!(result, Err(IdError::Invalid(_))))
}

#[test]
fn id_value_and_version() {
    let id = Id::from_str("550E8400-E29B-41D4-A716-446655440000").unwrap();
    assert_eq!(id.into_inner(), 0x550e8400_e29b_41d4_a716_446655440000u128);
    assert_eq!(*id.as_ref(), id.into_inner());
    assert_eq!(Id::from_uuid(id.into_inner()), id);
    let generated = Id::generate();
    assert_eq!((generated.into_inner() >> 76) & 0xf, 7);
}

#[test]
fn id_error_message_names_the_reason() {
    let err = Id::try_from("nope".to_string()).unwrap_err();
    assert!(err.message().starts_with("invalid id: "));
    assert!(err.message().len() > "invalid id: ".len());
}

#[test]
fn id_text_is_hyphenated_lower_case() {
    let id = Id::from_str("550E8400E29B41D4A716446655440000").unwrap();
    assert_eq!(id.to_string(), "550e8400-e29b-41d4-a716-446655440000");
    let id = Id::try_from("{550e8400-e29b-41d4-a716-446655440000}".to_string()).unwrap();
    assert_eq!(id.to_string(), "550e8400-e29b-41d4-a716-446655440000");
    let generated = Id::generate();
    assert_eq!((generated.into_inner() >> 62) & 3, 2);
}
