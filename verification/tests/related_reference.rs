use mt940_fields::related_reference::{
    RelatedReference, RelatedReferenceParseError, RELATED_REFERENCE_MAX_LENGTH,
};

#[test]
fn test_empty_related_reference() {
    let result = RelatedReference::try_from("");
    assert_eq!(result, Err(RelatedReferenceParseError::Empty));
}

#[test]
fn test_related_reference_too_long() {
    let result =
        RelatedReference::try_from("1".repeat(RELATED_REFERENCE_MAX_LENGTH + 1).as_str());
    assert_eq!(result, Err(RelatedReferenceParseError::TooLong));
}

#[test]
fn test_invalid_related_reference() {
    let result = RelatedReference::try_from("/12345678901");
    assert_eq!(result, Err(RelatedReferenceParseError::InvalidFormat));

    let result = RelatedReference::try_from("12345678901/");
    assert_eq!(result, Err(RelatedReferenceParseError::InvalidFormat));

    let result = RelatedReference::try_from("12//345678901");
    assert_eq!(result, Err(RelatedReferenceParseError::InvalidFormat));
}

#[test]
fn test_valid_related_reference() {
    let result = RelatedReference::try_from("1234567890");
    assert_eq!(result, Ok(RelatedReference("1234567890".to_string())));
}
