use mt940_fields::account_identification::{
    AccountIdentification, AccountIdentificationParseError,
};
use mt940_fields::amount::{Amount, AmountParseError};
use mt940_fields::currency_code::CurrencyCode;
use mt940_fields::date::{Date, DateParseError};
use mt940_fields::mt_940_customer_statement_message::{
    MessageAssemblyError, Mt940CustomerStatementMessage, StatementLine, StatementLineMark,
};
use mt940_fields::opening_balance::{OpeningBalance, OpeningBalanceParseError};
use mt940_fields::related_reference::{RelatedReference, RelatedReferenceParseError};
use mt940_fields::statement_sequence_number::{
    StatementSequenceNumber, StatementSequenceNumberParseError,
};
use mt940_fields::transaction_reference_number::{
    TransactionReferenceNumber, TransactionReferenceNumberParseError,
};

#[test]
fn over_long_amount_is_a_length_error_even_when_malformed() {
    let result = Amount::try_from("abcdefghijklmn,q");
    assert_eq!(result, Err(AmountParseError::TooLong));
}

#[test]
fn over_long_account_identification_is_a_length_error_even_with_odd_text() {
    let raw = "//".repeat(18);
    let result = AccountIdentification::try_from(raw.as_str());
    assert_eq!(result, Err(AccountIdentificationParseError::TooLong));
}

#[test]
fn date_checks_the_calendar_not_just_digits() {
    assert_eq!(Date::try_from("210230"), Err(DateParseError::InvalidValue));
    assert_eq!(Date::try_from("230229"), Err(DateParseError::InvalidValue));
    assert_eq!(Date::try_from("211301"), Err(DateParseError::InvalidValue));
    assert_eq!(Date::try_from("210100"), Err(DateParseError::InvalidValue));
    assert_eq!(Date::try_from("201231"), Ok(Date::new(2020, 12, 31)));
}

#[test]
fn statement_number_beyond_numeric_range_is_a_format_error() {
    let result = StatementSequenceNumber::try_from("99999");
    assert_eq!(
        result,
        Err(StatementSequenceNumberParseError::InvalidStatementNumberFormat)
    );
}

#[test]
fn empty_split_parts_are_format_errors() {
    assert_eq!(
        StatementSequenceNumber::try_from("1/"),
        Err(StatementSequenceNumberParseError::InvalidSequenceNumberFormat)
    );
    assert_eq!(
        StatementSequenceNumber::try_from("/1"),
        Err(StatementSequenceNumberParseError::InvalidStatementNumberFormat)
    );
}

#[test]
fn leading_zeros_keep_their_numeric_value() {
    let result = StatementSequenceNumber::try_from("00007").unwrap();
    assert_eq!(result.statement_number, 7);
    assert_eq!(result.sequence_number, None);
}

#[test]
fn reference_grammars_reject_the_same_slash_shapes() {
    assert_eq!(
        RelatedReference::try_from("/x"),
        Err(RelatedReferenceParseError::InvalidFormat)
    );
    assert_eq!(
        RelatedReference::try_from("x/"),
        Err(RelatedReferenceParseError::InvalidFormat)
    );
    assert_eq!(
        RelatedReference::try_from("a//b"),
        Err(RelatedReferenceParseError::InvalidFormat)
    );
    assert!(RelatedReference::try_from("x").is_ok());
    assert!(RelatedReference::try_from("ab").is_ok());

    assert_eq!(
        TransactionReferenceNumber::try_from("/x"),
        Err(TransactionReferenceNumberParseError::InvalidFormat)
    );
    assert_eq!(
        TransactionReferenceNumber::try_from("x/"),
        Err(TransactionReferenceNumberParseError::InvalidFormat)
    );
    assert_eq!(
        TransactionReferenceNumber::try_from("a//b"),
        Err(TransactionReferenceNumberParseError::InvalidFormat)
    );
    assert!(TransactionReferenceNumber::try_from("x").is_ok());
    assert!(TransactionReferenceNumber::try_from("ab").is_ok());
}

#[test]
fn wrapped_leaf_failures_keep_their_provenance() {
    let mark_failure = OpeningBalance::try_from("X230306DKK985623,04").unwrap_err();
    let date_failure = OpeningBalance::try_from("D23o306DKK985623,04").unwrap_err();
    let currency_failure = OpeningBalance::try_from("D230306dkk985623,04").unwrap_err();
    let amount_failure = OpeningBalance::try_from("D230306DKK98562304").unwrap_err();
    assert_ne!(mark_failure, date_failure);
    assert_ne!(date_failure, currency_failure);
    assert_ne!(currency_failure, amount_failure);
    assert_ne!(mark_failure, OpeningBalanceParseError::InvalidFormat(None));
    assert_eq!(
        mark_failure.message(),
        "Opening balance has invalid format: Invalid credit/debit mark"
    );
    assert_eq!(
        date_failure.message(),
        "Opening balance has invalid format: Invalid date format"
    );
}

#[test]
fn message_shape_holds_one_opening_and_one_closing_balance() {
    let line = StatementLine {
        value_date: Date::new(2023, 3, 6),
        entry_date: None,
        debit_credit_mark: StatementLineMark::ReversalOfCredit,
        funds_code: Some('K'),
        amount: Amount::try_from("12,5").unwrap(),
        transaction_type_identification_code: "NTRF".to_string(),
        account_owner_ref: "NONREF".to_string(),
        bank_ref: None,
        supplementary_details: None,
        information_to_account_owner: Some(vec!["first line".to_string()]),
    };
    let message = Mt940CustomerStatementMessage {
        transaction_reference_number: TransactionReferenceNumber::try_from("12345").unwrap(),
        related_reference: None,
        account_identification: AccountIdentification::try_from("12345DK").unwrap(),
        statement_sequence_no: StatementSequenceNumber::try_from("001/002").unwrap(),
        opening_balance: OpeningBalance::try_from("D230306DKK985623,04").unwrap(),
        statement_lines: Some(vec![line]),
        closing_balance: OpeningBalance::try_from("C230307DKK985623,04").unwrap(),
        closing_available_balance: None,
        forward_available_balance: None,
        information_to_account_owner: None,
    };
    assert_eq!(message.statement_lines.as_ref().unwrap().len(), 1);
    assert_eq!(
        message.opening_balance.to_text(),
        "- Is intermediate: false\n- Debit/Credit: Debit\n- Date: 2023-03-06\n- Currency code: DKK\n- Amount: 985623.04\n"
    );
    assert_eq!(
        CurrencyCode::try_from("DKK").unwrap(),
        message.closing_balance.currency_code
    );
}

#[test]
fn message_assembly_requires_both_mandatory_balances() {
    let result = Mt940CustomerStatementMessage::new(
        TransactionReferenceNumber::try_from("12345").unwrap(),
        None,
        AccountIdentification::try_from("12345DK").unwrap(),
        StatementSequenceNumber::try_from("1").unwrap(),
        None,
        None,
        Some(OpeningBalance::try_from("C230307DKK985623,04").unwrap()),
        None,
        None,
        None,
    );
    assert_eq!(result, Err(MessageAssemblyError::MissingOpeningBalance));
    assert_eq!(result.unwrap_err().message(), "Missing opening balance");

    let result = Mt940CustomerStatementMessage::new(
        TransactionReferenceNumber::try_from("12345").unwrap(),
        None,
        AccountIdentification::try_from("12345DK").unwrap(),
        StatementSequenceNumber::try_from("1").unwrap(),
        Some(OpeningBalance::try_from("D230306DKK985623,04").unwrap()),
        None,
        None,
        None,
        None,
        None,
    );
    assert_eq!(result, Err(MessageAssemblyError::MissingClosingBalance));
    assert_eq!(result.unwrap_err().message(), "Missing closing balance");

    let result = Mt940CustomerStatementMessage::new(
        TransactionReferenceNumber::try_from("12345").unwrap(),
        None,
        AccountIdentification::try_from("12345DK").unwrap(),
        StatementSequenceNumber::try_from("1").unwrap(),
        Some(OpeningBalance::try_from("D230306DKK985623,04").unwrap()),
        None,
        Some(OpeningBalance::try_from("C230307DKK985623,04").unwrap()),
        None,
        None,
        None,
    );
    let message = result.unwrap();
    assert_eq!(message.statement_sequence_no.statement_number, 1);
    assert!(message.statement_lines.is_none());
}
