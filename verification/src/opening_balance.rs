//! Balance record: one fixed-layout field holding a credit/debit mark, a
//! date, a currency code and an amount at fixed positions. The opening,
//! closing, closing-available and forward-available balances all share
//! this shape; the intermediate flag is set by the tag-scanning caller,
//! never read from the field body.

use crate::amount::{amount_parse, Amount, AmountParseError};
use crate::credit_debit_mark::{
    credit_debit_mark_display, credit_debit_mark_parse, CreditDebitMark, CreditDebitMarkParseError,
};
use crate::currency_code::{currency_code_parse, CurrencyCode, CurrencyCodeParseError};
use crate::date::{date_display, date_parse, Date, DateParseError};
use crate::text::{bool_str, bool_text, spec_trim, trim_str};
use vstd::prelude::*;
use vstd::string::StringExecFns;

verus! {

pub const OPENING_BALANCE_MAX_LENGTH: usize = 25;

pub const OPENING_BALANCE_MIN_LENGTH: usize = 12;

/// Offset of the date inside the trimmed field: one mark character first.
pub const BALANCE_DATE_OFFSET: usize = 1;

/// Offset of the currency code inside the trimmed field.
pub const BALANCE_CURRENCY_OFFSET: usize = 7;

/// Offset of the amount inside the trimmed field.
pub const BALANCE_AMOUNT_OFFSET: usize = 10;

#[derive(Debug, PartialEq, Eq)]
pub struct OpeningBalance {
    pub is_intermediate: bool,
    pub debit_credit_mark: CreditDebitMark,
    pub date: Date,
    pub currency_code: CurrencyCode,
    pub amount: Amount,
}

/// The failing leaf parser's own error, kept whole so that two different
/// leaf failures wrapped by the same record never compare equal.
#[derive(Debug, PartialEq, Eq, Clone, Copy)]
pub enum BalanceLeafError {
    Mark(CreditDebitMarkParseError),
    Date(DateParseError),
    Currency(CurrencyCodeParseError),
    Amount(AmountParseError),
}

#[derive(Debug, PartialEq, Eq, Clone, Copy)]
pub enum OpeningBalanceParseError {
    Empty,
    TooLong,
    InvalidFormat(Option<BalanceLeafError>),
}

/// The error a balance field parse reports, `None` where the field is
/// accepted. Length classes are decided in order — empty, too short, too
/// long — before any slicing; then the leaf parsers decide in field order.
pub open spec fn opening_balance_parse_err(s: Seq<char>) -> Option<OpeningBalanceParseError> {
    let t = spec_trim(s);
    if t.len() == 0 {
        Some(OpeningBalanceParseError::Empty)
    } else if t.len() < OPENING_BALANCE_MIN_LENGTH {
        Some(OpeningBalanceParseError::InvalidFormat(None))
    } else if t.len() > OPENING_BALANCE_MAX_LENGTH {
        Some(OpeningBalanceParseError::TooLong)
    } else {
        match credit_debit_mark_parse(t[0]) {
            Err(e) => Some(
                OpeningBalanceParseError::InvalidFormat(Some(BalanceLeafError::Mark(e))),
            ),
            Ok(_) => match date_parse(
                t.subrange(BALANCE_DATE_OFFSET as int, BALANCE_CURRENCY_OFFSET as int),
            ) {
                Err(e) => Some(
                    OpeningBalanceParseError::InvalidFormat(Some(BalanceLeafError::Date(e))),
                ),
                Ok(_) => match currency_code_parse(
                    t.subrange(BALANCE_CURRENCY_OFFSET as int, BALANCE_AMOUNT_OFFSET as int),
                ) {
                    Err(e) => Some(
                        OpeningBalanceParseError::InvalidFormat(
                            Some(BalanceLeafError::Currency(e)),
                        ),
                    ),
                    Ok(_) => match amount_parse(
                        t.subrange(BALANCE_AMOUNT_OFFSET as int, t.len() as int),
                    ) {
                        Err(e) => Some(
                            OpeningBalanceParseError::InvalidFormat(
                                Some(BalanceLeafError::Amount(e)),
                            ),
                        ),
                        Ok(_) => None,
                    },
                },
            },
        }
    }
}

impl OpeningBalance {
    pub fn try_from(value: &str) -> (r: Result<Self, OpeningBalanceParseError>)
        ensures
            r matches Err(e) ==> opening_balance_parse_err(value@) == Some(e),
            r matches Ok(b) ==> ({
                let t = spec_trim(value@);
                &&& opening_balance_parse_err(value@) is None
                &&& b.is_intermediate == false
                &&& credit_debit_mark_parse(t[0]) == Ok::<_, CreditDebitMarkParseError>(
                    b.debit_credit_mark,
                )
                &&& date_parse(t.subrange(BALANCE_DATE_OFFSET as int, BALANCE_CURRENCY_OFFSET as int))
                    == Ok::<_, DateParseError>(b.date)
                &&& currency_code_parse(
                    t.subrange(BALANCE_CURRENCY_OFFSET as int, BALANCE_AMOUNT_OFFSET as int),
                ) == Ok::<Seq<char>, CurrencyCodeParseError>(b.currency_code.0@)
                &&& amount_parse(t.subrange(BALANCE_AMOUNT_OFFSET as int, t.len() as int)) == Ok::<
                    Seq<char>,
                    AmountParseError,
                >(b.amount.0@)
            }),
    {
        let t = trim_str(value);
        let n = t.unicode_len();
        if n == 0 {
            return Err(OpeningBalanceParseError::Empty);
        }
        if n < OPENING_BALANCE_MIN_LENGTH {
            return Err(OpeningBalanceParseError::InvalidFormat(None));
        }
        if n > OPENING_BALANCE_MAX_LENGTH {
            return Err(OpeningBalanceParseError::TooLong);
        }
        let mark_char = t.get_char(0);
        let debit_credit_mark = match CreditDebitMark::try_from(&mark_char) {
            Ok(m) => m,
            Err(e) => {
                return Err(
                    OpeningBalanceParseError::InvalidFormat(Some(BalanceLeafError::Mark(e))),
                );
            },
        };
        let date = match Date::try_from(t.substring_char(BALANCE_DATE_OFFSET, BALANCE_CURRENCY_OFFSET)) {
            Ok(d) => d,
            Err(e) => {
                return Err(
                    OpeningBalanceParseError::InvalidFormat(Some(BalanceLeafError::Date(e))),
                );
            },
        };
        let currency_code = match CurrencyCode::try_from(
            t.substring_char(BALANCE_CURRENCY_OFFSET, BALANCE_AMOUNT_OFFSET),
        ) {
            Ok(c) => c,
            Err(e) => {
                return Err(
                    OpeningBalanceParseError::InvalidFormat(Some(BalanceLeafError::Currency(e))),
                );
            },
        };
        let amount = match Amount::try_from(t.substring_char(BALANCE_AMOUNT_OFFSET, n)) {
            Ok(a) => a,
            Err(e) => {
                return Err(
                    OpeningBalanceParseError::InvalidFormat(Some(BalanceLeafError::Amount(e))),
                );
            },
        };
        Ok(
            OpeningBalance {
                is_intermediate: false,
                debit_credit_mark,
                date,
                currency_code,
                amount,
            },
        )
    }

    /// Rendering of the record for a reader, one line per field.
    pub fn to_text(&self) -> (r: String)
        ensures
            r@ == opening_balance_display(*self),
    {
        let r = "- Is intermediate: ".to_owned().concat(bool_str(self.is_intermediate));
        let r = r.concat("\n- Debit/Credit: ");
        let r = r.concat(self.debit_credit_mark.to_text().as_str());
        let r = r.concat("\n- Date: ");
        let r = r.concat(self.date.to_text().as_str());
        let r = r.concat("\n- Currency code: ");
        let r = r.concat(self.currency_code.0.as_str());
        let r = r.concat("\n- Amount: ");
        let r = r.concat(self.amount.0.as_str());
        let r = r.concat("\n");
        proof {
            assert(r@ =~= opening_balance_display(*self));
        }
        r
    }
}

/// Rendering of the record for a reader, one line per field.
pub open spec fn opening_balance_display(b: OpeningBalance) -> Seq<char> {
    "- Is intermediate: "@ + bool_text(b.is_intermediate) + "\n- Debit/Credit: "@
        + credit_debit_mark_display(b.debit_credit_mark) + "\n- Date: "@ + date_display(b.date)
        + "\n- Currency code: "@ + b.currency_code.0@ + "\n- Amount: "@ + b.amount.0@ + "\n"@
}

pub open spec fn balance_leaf_error_message(e: BalanceLeafError) -> Seq<char> {
    match e {
        BalanceLeafError::Mark(inner) => crate::credit_debit_mark::credit_debit_mark_error_message(
            inner,
        ),
        BalanceLeafError::Date(inner) => crate::date::date_error_message(inner),
        BalanceLeafError::Currency(inner) => crate::currency_code::currency_code_error_message(
            inner,
        ),
        BalanceLeafError::Amount(inner) => crate::amount::amount_error_message(inner),
    }
}

impl BalanceLeafError {
    pub fn message(&self) -> (r: String)
        ensures
            r@ == balance_leaf_error_message(*self),
    {
        match self {
            BalanceLeafError::Mark(inner) => inner.message(),
            BalanceLeafError::Date(inner) => inner.message(),
            BalanceLeafError::Currency(inner) => inner.message(),
            BalanceLeafError::Amount(inner) => inner.message(),
        }
    }
}

pub open spec fn opening_balance_error_message(e: OpeningBalanceParseError) -> Seq<char> {
    match e {
        OpeningBalanceParseError::Empty => "Opening balance is empty"@,
        OpeningBalanceParseError::TooLong => "Opening balance exceeds 25 character length"@,
        OpeningBalanceParseError::InvalidFormat(None) => "Opening balance has invalid format"@,
        OpeningBalanceParseError::InvalidFormat(Some(le)) => "Opening balance has invalid format: "@
            + balance_leaf_error_message(le),
    }
}

impl OpeningBalanceParseError {
    pub fn message(&self) -> (r: String)
        ensures
            r@ == opening_balance_error_message(*self),
    {
        match self {
            OpeningBalanceParseError::Empty => "Opening balance is empty".to_owned(),
            OpeningBalanceParseError::TooLong => "Opening balance exceeds 25 character length"
                .to_owned(),
            OpeningBalanceParseError::InvalidFormat(None) => "Opening balance has invalid format"
                .to_owned(),
            OpeningBalanceParseError::InvalidFormat(Some(le)) => {
                let r = "Opening balance has invalid format: ".to_owned().concat(
                    le.message().as_str(),
                );
                r
            },
        }
    }
}

/// The three length classes are reported by their own kinds, in order:
/// empty, then too short (a malformed record, not a length complaint),
/// then too long — all before any slicing.
pub proof fn lemma_opening_balance_length_errors(s: Seq<char>)
    ensures
        spec_trim(s).len() == 0 ==> opening_balance_parse_err(s) == Some(
            OpeningBalanceParseError::Empty,
        ),
        0 < spec_trim(s).len() < OPENING_BALANCE_MIN_LENGTH ==> opening_balance_parse_err(s)
            == Some(OpeningBalanceParseError::InvalidFormat(None)),
        spec_trim(s).len() > OPENING_BALANCE_MAX_LENGTH ==> opening_balance_parse_err(s) == Some(
            OpeningBalanceParseError::TooLong,
        ),
{
}

} // verus!
