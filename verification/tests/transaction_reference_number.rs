use mt940_fields::transaction_reference_number::{
    TransactionReferenceNumber, TransactionReferenceNumberParseError,
    TRANSACTION_REFERENCE_NUMBER_MAX_LENGTH,
};

#[test]
fn test_empty_transaction_reference_number() {
    let result = TransactionReferenceNumber::try_from("");
    assert_eq!(result, Err(TransactionReferenceNumberParseError::Empty));
    assert_eq!(
        result.unwrap_err().message(),
        "Transaction reference number cannot be empty"
    );
}

#[test]
fn test_long_transaction_reference_number() {
    let result = TransactionReferenceNumber::try_from(
        "1".repeat(TRANSACTION_REFERENCE_NUMBER_MAX_LENGTH + 1)
            .as_str(),
    );
    assert_eq!(result, Err(TransactionReferenceNumberParseError::TooLong));
    assert_eq!(
        result.unwrap_err().message(),
        format!(
            "Transaction reference number exceeds {} character length",
            TRANSACTION_REFERENCE_NUMBER_MAX_LENGTH
        )
    );
}

#[test]
fn test_invalid_transaction_reference_number() {
    let result = TransactionReferenceNumber::try_from("/12345678901");
    assert_eq!(
        result,
        Err(TransactionReferenceNumberParseError::InvalidFormat)
    );

    let result = TransactionReferenceNumber::try_from("12345678901/");
    assert_eq!(
        result,
        Err(TransactionReferenceNumberParseError::InvalidFormat)
    );

    let result = TransactionReferenceNumber::try_from("12345678//901");
    assert_eq!(
        result,
        Err(TransactionReferenceNumberParseError::InvalidFormat)
    );
    assert_eq!(
        result.unwrap_err().message(),
        "Transaction reference number has invalid format"
    );
}

#[test]
fn test_valid_transaction_reference_number() {
    let result = TransactionReferenceNumber::try_from("1234567890");
    assert_eq!(
        result,
        Ok(TransactionReferenceNumber("1234567890".to_string()))
    );
    assert_eq!(result.unwrap().to_text(), "1234567890");
}
