use mt940_fields::currency_code::{CurrencyCode, CurrencyCodeParseError, CURRENCY_CODE_LENGTH};

#[test]
fn test_invalid_currency_code_length() {
    let result = CurrencyCode::try_from("ABCD");
    assert_eq!(result, Err(CurrencyCodeParseError::InvalidLength));
    assert_eq!(
        result.unwrap_err().message(),
        format!(
            "Currency code must be {} characters long",
            CURRENCY_CODE_LENGTH
        )
    );

    let result = CurrencyCode::try_from("AB");
    assert_eq!(result, Err(CurrencyCodeParseError::InvalidLength));
    assert_eq!(
        result.unwrap_err().message(),
        format!(
            "Currency code must be {} characters long",
            CURRENCY_CODE_LENGTH
        )
    );
}

#[test]
fn test_invalid_currency_code_format() {
    let result = CurrencyCode::try_from("123");
    assert_eq!(result, Err(CurrencyCodeParseError::InvalidFormat));
    assert_eq!(
        result.unwrap_err().message(),
        "Currency code must be uppercase alphabetic characters"
    );

    let result = CurrencyCode::try_from("usd");
    assert_eq!(result, Err(CurrencyCodeParseError::InvalidFormat));
    assert_eq!(
        result.unwrap_err().message(),
        "Currency code must be uppercase alphabetic characters"
    );
}

#[test]
fn test_valid_currency_code() {
    let result = CurrencyCode::try_from("EUR");
    assert_eq!(result, Ok(CurrencyCode("EUR".to_string())));
    assert_eq!(result.unwrap().to_text(), "EUR");
}
