//! Currency code: exactly three ASCII uppercase letters. Syntactic
//! validation only; no ISO-4217 membership check.

use crate::text::{spec_trim, trim_str, lemma_trim_idempotent};
use vstd::prelude::*;

verus! {

pub const CURRENCY_CODE_LENGTH: usize = 3;

#[derive(Debug, PartialEq, Eq)]
pub struct CurrencyCode(pub String);

#[derive(Debug, PartialEq, Eq, Clone, Copy)]
pub enum CurrencyCodeParseError {
    InvalidLength,
    InvalidFormat,
}

pub open spec fn is_uppercase_ascii_letter(c: char) -> bool {
    'A' <= c && c <= 'Z'
}

pub open spec fn currency_code_parse(s: Seq<char>) -> Result<Seq<char>, CurrencyCodeParseError> {
    let t = spec_trim(s);
    if t.len() != CURRENCY_CODE_LENGTH {
        Err(CurrencyCodeParseError::InvalidLength)
    } else if !(forall|i: int| 0 <= i < t.len() ==> is_uppercase_ascii_letter(t[i])) {
        Err(CurrencyCodeParseError::InvalidFormat)
    } else {
        Ok(t)
    }
}

impl CurrencyCode {
    pub fn try_from(value: &str) -> (r: Result<Self, CurrencyCodeParseError>)
        ensures
            r matches Ok(v) ==> currency_code_parse(value@) == Ok::<_, CurrencyCodeParseError>(
                v.0@,
            ),
            r matches Err(e) ==> currency_code_parse(value@) == Err::<Seq<char>, _>(e),
    {
        let t = trim_str(value);
        let n = t.unicode_len();
        if n != CURRENCY_CODE_LENGTH {
            return Err(CurrencyCodeParseError::InvalidLength);
        }
        let mut i: usize = 0;
        while i < n
            invariant
                t@ == spec_trim(value@),
                n == t@.len(),
                n == CURRENCY_CODE_LENGTH,
                0 <= i <= n,
                forall|j: int| 0 <= j < i ==> is_uppercase_ascii_letter(t@[j]),
            decreases n - i,
        {
            let c = t.get_char(i);
            if !('A' <= c && c <= 'Z') {
                proof {
                    assert(!(forall|j: int| 0 <= j < t@.len() ==> is_uppercase_ascii_letter(t@[j])))
                        by {
                        assert(!is_uppercase_ascii_letter(t@[i as int]));
                    }
                }
                return Err(CurrencyCodeParseError::InvalidFormat);
            }
            i = i + 1;
        }
        Ok(CurrencyCode(t.to_owned()))
    }

    /// Rendering of the value for a reader: the code itself.
    pub fn to_text(&self) -> (r: String)
        ensures
            r@ == self.0@,
    {
        self.0.clone()
    }
}

pub open spec fn currency_code_error_message(e: CurrencyCodeParseError) -> Seq<char> {
    match e {
        CurrencyCodeParseError::InvalidLength => "Currency code must be 3 characters long"@,
        CurrencyCodeParseError::InvalidFormat
            => "Currency code must be uppercase alphabetic characters"@,
    }
}

impl CurrencyCodeParseError {
    pub fn message(&self) -> (r: String)
        ensures
            r@ == currency_code_error_message(*self),
    {
        match self {
            CurrencyCodeParseError::InvalidLength => "Currency code must be 3 characters long"
                .to_owned(),
            CurrencyCodeParseError::InvalidFormat
                => "Currency code must be uppercase alphabetic characters".to_owned(),
        }
    }
}

/// Re-parsing an accepted value's own text yields the same value.
pub proof fn lemma_currency_code_reparse(s: Seq<char>)
    requires
        currency_code_parse(s) is Ok,
    ensures
        currency_code_parse(currency_code_parse(s)->Ok_0) == currency_code_parse(s),
{
    lemma_trim_idempotent(s);
}

/// A trimmed input whose length is not the exact code length fails with the
/// length-specific error kind, never the format kind.
pub proof fn lemma_currency_code_length_error(s: Seq<char>)
    ensures
        spec_trim(s).len() != CURRENCY_CODE_LENGTH ==> currency_code_parse(s) == Err::<
            Seq<char>,
            _,
        >(CurrencyCodeParseError::InvalidLength),
{
}

} // verus!
