use mt940_fields::amount::Amount;
use mt940_fields::credit_debit_mark::CreditDebitMark;
use mt940_fields::currency_code::CurrencyCode;
use mt940_fields::date::Date;
use mt940_fields::opening_balance::{
    OpeningBalance, OpeningBalanceParseError, OPENING_BALANCE_MAX_LENGTH,
};

#[test]
fn test_empty_opening_balance() {
    let result = OpeningBalance::try_from("");
    assert_eq!(result, Err(OpeningBalanceParseError::Empty));
    assert_eq!(result.unwrap_err().message(), "Opening balance is empty");
}

#[test]
fn test_opening_balance_too_long() {
    let result = OpeningBalance::try_from("1".repeat(OPENING_BALANCE_MAX_LENGTH + 1).as_str());
    assert_eq!(result, Err(OpeningBalanceParseError::TooLong));
    assert_eq!(
        result.unwrap_err().message(),
        format!(
            "Opening balance exceeds {} character length",
            OPENING_BALANCE_MAX_LENGTH
        )
    );
}

#[test]
fn test_opening_balance_invalid_format() {
    let result = OpeningBalance::try_from("invalid");
    assert_eq!(result, Err(OpeningBalanceParseError::InvalidFormat(None)));
    assert_eq!(
        result.unwrap_err().message(),
        "Opening balance has invalid format"
    );
}

#[test]
fn test_valid_opening_balance() {
    let result = OpeningBalance::try_from("D230306DKK985623,04");
    assert_eq!(
        result,
        Ok(OpeningBalance {
            is_intermediate: false,
            debit_credit_mark: CreditDebitMark::Debit,
            date: Date::new(2023, 3, 6),
            currency_code: CurrencyCode::try_from("DKK").unwrap(),
            amount: Amount::try_from("985623,04").unwrap(),
        })
    );
    assert_eq!(
        result.unwrap().to_text(),
        "- Is intermediate: false\n- Debit/Credit: Debit\n- Date: 2023-03-06\n- Currency code: DKK\n- Amount: 985623.04\n"
    );
}
