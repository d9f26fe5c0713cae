use mt940_fields::account_identification::{
    AccountIdentification, AccountIdentificationParseError, ACCOUNT_IDENTIFICATION_MAX_LENGTH,
};

#[test]
fn test_empty_account_identification() {
    let result = AccountIdentification::try_from("");
    assert_eq!(result, Err(AccountIdentificationParseError::Empty));
    assert_eq!(
        result.unwrap_err().message(),
        "Account identification cannot be empty"
    );
}

#[test]
fn test_long_account_identification() {
    let result = AccountIdentification::try_from(
        "1".repeat(ACCOUNT_IDENTIFICATION_MAX_LENGTH + 1).as_str(),
    );
    assert_eq!(result, Err(AccountIdentificationParseError::TooLong));
    assert_eq!(
        result.unwrap_err().message(),
        format!(
            "Account identification exceeds maximum length of {} characters",
            ACCOUNT_IDENTIFICATION_MAX_LENGTH
        )
    );
}

#[test]
fn test_valid_account_identification() {
    let result = AccountIdentification::try_from("12345DK");
    assert_eq!(result, Ok(AccountIdentification("12345DK".to_string())));
    assert_eq!(
        result.unwrap().to_text(),
        "Account identification: 12345DK"
    );
}
