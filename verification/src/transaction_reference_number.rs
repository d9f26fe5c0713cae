//! Transaction reference number: non-empty bounded text obeying the slash
//! rule, a distinct type from the related reference on purpose.

use crate::reference_format::{has_slash_misuse, slash_misuse};
use crate::related_reference::{related_reference_parse, RelatedReferenceParseError};
use crate::text::{lemma_trim_idempotent, spec_trim, trim_str};
use vstd::prelude::*;

verus! {

pub const TRANSACTION_REFERENCE_NUMBER_MAX_LENGTH: usize = 16;

#[derive(Debug, PartialEq, Eq)]
pub struct TransactionReferenceNumber(pub String);

#[derive(Debug, PartialEq, Eq, Clone, Copy)]
pub enum TransactionReferenceNumberParseError {
    Empty,
    TooLong,
    InvalidFormat,
}

pub open spec fn transaction_reference_number_parse(s: Seq<char>) -> Result<
    Seq<char>,
    TransactionReferenceNumberParseError,
> {
    let t = spec_trim(s);
    if t.len() == 0 {
        Err(TransactionReferenceNumberParseError::Empty)
    } else if t.len() > TRANSACTION_REFERENCE_NUMBER_MAX_LENGTH {
        Err(TransactionReferenceNumberParseError::TooLong)
    } else if slash_misuse(t) {
        Err(TransactionReferenceNumberParseError::InvalidFormat)
    } else {
        Ok(t)
    }
}

impl TransactionReferenceNumber {
    pub fn try_from(value: &str) -> (r: Result<Self, TransactionReferenceNumberParseError>)
        ensures
            r matches Ok(v) ==> transaction_reference_number_parse(value@) == Ok::<
                _,
                TransactionReferenceNumberParseError,
            >(v.0@),
            r matches Err(e) ==> transaction_reference_number_parse(value@) == Err::<
                Seq<char>,
                _,
            >(e),
    {
        let t = trim_str(value);
        let n = t.unicode_len();
        if n == 0 {
            Err(TransactionReferenceNumberParseError::Empty)
        } else if n > TRANSACTION_REFERENCE_NUMBER_MAX_LENGTH {
            Err(TransactionReferenceNumberParseError::TooLong)
        } else if has_slash_misuse(t) {
            Err(TransactionReferenceNumberParseError::InvalidFormat)
        } else {
            Ok(TransactionReferenceNumber(t.to_owned()))
        }
    }

    /// Rendering of the value for a reader: the reference itself.
    pub fn to_text(&self) -> (r: String)
        ensures
            r@ == self.0@,
    {
        self.0.clone()
    }
}

pub open spec fn transaction_reference_number_error_message(
    e: TransactionReferenceNumberParseError,
) -> Seq<char> {
    match e {
        TransactionReferenceNumberParseError::Empty
            => "Transaction reference number cannot be empty"@,
        TransactionReferenceNumberParseError::TooLong
            => "Transaction reference number exceeds 16 character length"@,
        TransactionReferenceNumberParseError::InvalidFormat
            => "Transaction reference number has invalid format"@,
    }
}

impl TransactionReferenceNumberParseError {
    pub fn message(&self) -> (r: String)
        ensures
            r@ == transaction_reference_number_error_message(*self),
    {
        match self {
            TransactionReferenceNumberParseError::Empty
                => "Transaction reference number cannot be empty".to_owned(),
            TransactionReferenceNumberParseError::TooLong
                => "Transaction reference number exceeds 16 character length".to_owned(),
            TransactionReferenceNumberParseError::InvalidFormat
                => "Transaction reference number has invalid format".to_owned(),
        }
    }
}

/// Re-parsing an accepted value's own text yields the same value.
pub proof fn lemma_transaction_reference_number_reparse(s: Seq<char>)
    requires
        transaction_reference_number_parse(s) is Ok,
    ensures
        transaction_reference_number_parse(transaction_reference_number_parse(s)->Ok_0)
            == transaction_reference_number_parse(s),
{
    lemma_trim_idempotent(s);
}

/// Inputs outside the length bounds fail with the length-specific error
/// kind, never the format kind.
pub proof fn lemma_transaction_reference_number_length_errors(s: Seq<char>)
    ensures
        spec_trim(s).len() == 0 ==> transaction_reference_number_parse(s) == Err::<Seq<char>, _>(
            TransactionReferenceNumberParseError::Empty,
        ),
        spec_trim(s).len() > TRANSACTION_REFERENCE_NUMBER_MAX_LENGTH
            ==> transaction_reference_number_parse(s) == Err::<Seq<char>, _>(
            TransactionReferenceNumberParseError::TooLong,
        ),
{
}

/// The two reference grammars accept and reject exactly alike: the same
/// inputs succeed with the same text, and each error kind corresponds.
pub proof fn lemma_reference_grammars_agree(s: Seq<char>)
    ensures
        related_reference_parse(s) is Ok <==> transaction_reference_number_parse(s) is Ok,
        related_reference_parse(s) matches Ok(t) ==> transaction_reference_number_parse(s) == Ok::<
            Seq<char>,
            TransactionReferenceNumberParseError,
        >(t),
        related_reference_parse(s) == Err::<Seq<char>, _>(RelatedReferenceParseError::Empty)
            <==> transaction_reference_number_parse(s) == Err::<Seq<char>, _>(
            TransactionReferenceNumberParseError::Empty,
        ),
        related_reference_parse(s) == Err::<Seq<char>, _>(RelatedReferenceParseError::TooLong)
            <==> transaction_reference_number_parse(s) == Err::<Seq<char>, _>(
            TransactionReferenceNumberParseError::TooLong,
        ),
        related_reference_parse(s) == Err::<Seq<char>, _>(
            RelatedReferenceParseError::InvalidFormat,
        ) <==> transaction_reference_number_parse(s) == Err::<Seq<char>, _>(
            TransactionReferenceNumberParseError::InvalidFormat,
        ),
{
}

} // verus!
