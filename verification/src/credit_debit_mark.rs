//! Credit/debit mark of a balance record: exactly one of the two SWIFT
//! codes `C` and `D`.

use vstd::prelude::*;

verus! {

#[derive(Debug, PartialEq, Eq, Clone, Copy)]
pub enum CreditDebitMark {
    Credit,
    Debit,
}

#[derive(Debug, PartialEq, Eq, Clone, Copy)]
pub enum CreditDebitMarkParseError {
    InvalidValue,
}

pub open spec fn credit_debit_mark_parse(c: char) -> Result<
    CreditDebitMark,
    CreditDebitMarkParseError,
> {
    if c == 'C' {
        Ok(CreditDebitMark::Credit)
    } else if c == 'D' {
        Ok(CreditDebitMark::Debit)
    } else {
        Err(CreditDebitMarkParseError::InvalidValue)
    }
}

pub open spec fn credit_debit_mark_display(m: CreditDebitMark) -> Seq<char> {
    match m {
        CreditDebitMark::Credit => "Credit"@,
        CreditDebitMark::Debit => "Debit"@,
    }
}

impl CreditDebitMark {
    pub fn try_from(value: &char) -> (r: Result<Self, CreditDebitMarkParseError>)
        ensures
            r == credit_debit_mark_parse(*value),
    {
        if *value == 'C' {
            Ok(CreditDebitMark::Credit)
        } else if *value == 'D' {
            Ok(CreditDebitMark::Debit)
        } else {
            Err(CreditDebitMarkParseError::InvalidValue)
        }
    }

    /// Rendering of the value for a reader.
    pub fn to_text(&self) -> (r: String)
        ensures
            r@ == credit_debit_mark_display(*self),
    {
        match self {
            CreditDebitMark::Credit => "Credit".to_owned(),
            CreditDebitMark::Debit => "Debit".to_owned(),
        }
    }
}

pub open spec fn credit_debit_mark_error_message(e: CreditDebitMarkParseError) -> Seq<char> {
    match e {
        CreditDebitMarkParseError::InvalidValue => "Invalid credit/debit mark"@,
    }
}

impl CreditDebitMarkParseError {
    pub fn message(&self) -> (r: String)
        ensures
            r@ == credit_debit_mark_error_message(*self),
    {
        match self {
            CreditDebitMarkParseError::InvalidValue => "Invalid credit/debit mark".to_owned(),
        }
    }
}

} // verus!
