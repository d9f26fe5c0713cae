use mt940_fields::statement_sequence_number::{
    StatementSequenceNumber, StatementSequenceNumberParseError, SEQUENCE_NUMBER_MAX_LENGTH,
    STATEMENT_NUMBER_MAX_LENGTH,
};

#[test]
fn test_empty_statement_sequence_number() {
    let result = StatementSequenceNumber::try_from("");
    assert_eq!(result, Err(StatementSequenceNumberParseError::Empty));
    assert_eq!(
        result.unwrap_err().message(),
        "Empty statement sequence number"
    );
}

#[test]
fn test_invalid_statement_sequence_number_format() {
    let result = StatementSequenceNumber::try_from("1/2/3");
    assert_eq!(
        result,
        Err(StatementSequenceNumberParseError::InvalidStatementSequenceNumberFormat)
    );
    assert_eq!(
        result.unwrap_err().message(),
        "Invalid statement sequence number format"
    );
}

#[test]
fn test_statement_number_too_long() {
    let result = StatementSequenceNumber::try_from("123456/2");
    assert_eq!(
        result,
        Err(StatementSequenceNumberParseError::StatementNumberTooLong)
    );
    assert_eq!(
        result.unwrap_err().message(),
        format!(
            "Statement number exceeds {} character length",
            STATEMENT_NUMBER_MAX_LENGTH
        )
    );
}

#[test]
fn test_invalid_statement_number_format() {
    let result = StatementSequenceNumber::try_from("123K/2");
    assert_eq!(
        result,
        Err(StatementSequenceNumberParseError::InvalidStatementNumberFormat)
    );
    assert_eq!(
        result.unwrap_err().message(),
        "Invalid statement number format"
    );
}

#[test]
fn test_sequence_number_too_long() {
    let result = StatementSequenceNumber::try_from("12345/123456");
    assert_eq!(
        result,
        Err(StatementSequenceNumberParseError::SequenceNumberTooLong)
    );
    assert_eq!(
        result.unwrap_err().message(),
        format!(
            "Sequence number exceeds {} character length",
            SEQUENCE_NUMBER_MAX_LENGTH
        )
    );
}

#[test]
fn test_invalid_sequence_number_format() {
    let result = StatementSequenceNumber::try_from("12345/2S");
    assert_eq!(
        result,
        Err(StatementSequenceNumberParseError::InvalidSequenceNumberFormat)
    );
    assert_eq!(
        result.unwrap_err().message(),
        "Invalid sequence number format"
    );
}

#[test]
fn test_valid_statement_sequence_number() {
    let result = StatementSequenceNumber::try_from("12345/2");
    assert_eq!(
        result,
        Ok(StatementSequenceNumber {
            statement_number: 12345,
            sequence_number: Some(2)
        })
    );
    assert_eq!(
        result.unwrap().to_text(),
        "Statement number: 12345, Sequence number: 2"
    );

    let result = StatementSequenceNumber::try_from("12345");
    assert_eq!(
        result,
        Ok(StatementSequenceNumber {
            statement_number: 12345,
            sequence_number: None
        })
    );
    assert_eq!(result.unwrap().to_text(), "Statement number: 12345");

    let result = StatementSequenceNumber::try_from("001/002");
    assert_eq!(
        result,
        Ok(StatementSequenceNumber {
            statement_number: 1,
            sequence_number: Some(2)
        })
    );
    assert_eq!(
        result.unwrap().to_text(),
        "Statement number: 1, Sequence number: 2"
    );
}
