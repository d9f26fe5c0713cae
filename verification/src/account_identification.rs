//! Account identification: the trimmed, non-empty account field of bounded
//! length.

use crate::text::{spec_trim, trim_str, lemma_trim_idempotent};
use vstd::prelude::*;
use vstd::string::StringExecFns;

verus! {

/// Maximum number of characters an account identification may hold after
/// trimming.
pub const ACCOUNT_IDENTIFICATION_MAX_LENGTH: usize = 35;

#[derive(Debug, PartialEq, Eq)]
pub struct AccountIdentification(pub String);

#[derive(Debug, PartialEq, Eq, Clone, Copy)]
pub enum AccountIdentificationParseError {
    Empty,
    TooLong,
}

/// What parsing yields on any raw input: the trimmed text, or the one error
/// its length class forces.
pub open spec fn account_identification_parse(s: Seq<char>) -> Result<
    Seq<char>,
    AccountIdentificationParseError,
> {
    let t = spec_trim(s);
    if t.len() == 0 {
        Err(AccountIdentificationParseError::Empty)
    } else if t.len() > ACCOUNT_IDENTIFICATION_MAX_LENGTH {
        Err(AccountIdentificationParseError::TooLong)
    } else {
        Ok(t)
    }
}

pub open spec fn account_identification_display(t: Seq<char>) -> Seq<char> {
    "Account identification: "@ + t
}

impl AccountIdentification {
    pub fn try_from(value: &str) -> (r: Result<Self, AccountIdentificationParseError>)
        ensures
            r matches Ok(v) ==> account_identification_parse(value@) == Ok::<
                _,
                AccountIdentificationParseError,
            >(v.0@),
            r matches Err(e) ==> account_identification_parse(value@) == Err::<Seq<char>, _>(e),
    {
        let t = trim_str(value);
        let n = t.unicode_len();
        if n == 0 {
            Err(AccountIdentificationParseError::Empty)
        } else if n > ACCOUNT_IDENTIFICATION_MAX_LENGTH {
            Err(AccountIdentificationParseError::TooLong)
        } else {
            Ok(AccountIdentification(t.to_owned()))
        }
    }

    /// Rendering of the value for a reader.
    pub fn to_text(&self) -> (r: String)
        ensures
            r@ == account_identification_display(self.0@),
    {
        "Account identification: ".to_owned().concat(self.0.as_str())
    }
}

pub open spec fn account_identification_error_message(e: AccountIdentificationParseError) -> Seq<
    char,
> {
    match e {
        AccountIdentificationParseError::Empty => "Account identification cannot be empty"@,
        AccountIdentificationParseError::TooLong
            => "Account identification exceeds maximum length of 35 characters"@,
    }
}

impl AccountIdentificationParseError {
    pub fn message(&self) -> (r: String)
        ensures
            r@ == account_identification_error_message(*self),
    {
        match self {
            AccountIdentificationParseError::Empty => "Account identification cannot be empty"
                .to_owned(),
            AccountIdentificationParseError::TooLong
                => "Account identification exceeds maximum length of 35 characters".to_owned(),
        }
    }
}

/// Re-parsing an accepted value's own text yields the same value.
pub proof fn lemma_account_identification_reparse(s: Seq<char>)
    requires
        account_identification_parse(s) is Ok,
    ensures
        account_identification_parse(account_identification_parse(s)->Ok_0)
            == account_identification_parse(s),
{
    lemma_trim_idempotent(s);
}

/// Inputs outside the length bounds fail with the length-specific error kind.
pub proof fn lemma_account_identification_length_errors(s: Seq<char>)
    ensures
        spec_trim(s).len() == 0 ==> account_identification_parse(s) == Err::<Seq<char>, _>(
            AccountIdentificationParseError::Empty,
        ),
        spec_trim(s).len() > ACCOUNT_IDENTIFICATION_MAX_LENGTH ==> account_identification_parse(s)
            == Err::<Seq<char>, _>(AccountIdentificationParseError::TooLong),
{
}

} // verus!
