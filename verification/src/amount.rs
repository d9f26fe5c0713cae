//! Amount: a bounded decimal figure with a mandatory decimal separator.
//! A comma separator is accepted and normalized to a period before the
//! numeric parse; the value keeps the canonical decimal rendering.

use crate::text::{contains_char, push_char, spec_trim, trim_str};
use vstd::prelude::*;

verus! {

pub const AMOUNT_MAX_LENGTH: usize = 15;

#[derive(Debug, PartialEq, Eq)]
pub struct Amount(pub String);

#[derive(Debug, PartialEq, Eq, Clone, Copy)]
pub enum AmountParseError {
    Empty,
    TooLong,
    InvalidFormat,
}

/// Comma-to-period normalization applied before the numeric parse.
pub open spec fn normalize_separators(s: Seq<char>) -> Seq<char> {
    s.map_values(
        |c: char|
            (if c == ',' {
                '.'
            } else {
                c
            }),
    )
}

/// Which strings the exact-decimal parser accepts.
pub uninterp spec fn decimal_accepts(s: Seq<char>) -> bool;

/// The canonical text of the decimal a string parses to.
pub uninterp spec fn decimal_render(s: Seq<char>) -> Seq<char>;

/// Relies on rust_decimal::Decimal: its string parse (strict radix-10 with
/// a scientific-notation fallback) and its default Display rendering are
/// both functions of the input characters alone.
#[verifier::external_body]
fn decimal_canonical(s: &str) -> (r: Option<String>)
    ensures
        r is Some <==> decimal_accepts(s@),
        r matches Some(t) ==> t@ == decimal_render(s@),
{
    match <rust_decimal::Decimal as core::str::FromStr>::from_str(s) {
        Ok(d) => Some(d.to_string()),
        Err(_) => None,
    }
}

/// What parsing an amount field yields on any raw input: the canonical
/// decimal text, or the one error its shape forces.
pub open spec fn amount_parse(s: Seq<char>) -> Result<Seq<char>, AmountParseError> {
    let n = normalize_separators(spec_trim(s));
    if n.len() == 0 {
        Err(AmountParseError::Empty)
    } else if n.len() > AMOUNT_MAX_LENGTH {
        Err(AmountParseError::TooLong)
    } else if !n.contains('.') {
        Err(AmountParseError::InvalidFormat)
    } else if !decimal_accepts(n) {
        Err(AmountParseError::InvalidFormat)
    } else {
        Ok(decimal_render(n))
    }
}

impl Amount {
    pub fn try_from(value: &str) -> (r: Result<Self, AmountParseError>)
        ensures
            r matches Ok(v) ==> amount_parse(value@) == Ok::<_, AmountParseError>(v.0@),
            r matches Err(e) ==> amount_parse(value@) == Err::<Seq<char>, _>(e),
    {
        let t = trim_str(value);
        let n = t.unicode_len();
        let mut w = String::new();
        let mut i: usize = 0;
        while i < n
            invariant
                n == t@.len(),
                0 <= i <= n,
                w@ == normalize_separators(t@.subrange(0, i as int)),
            decreases n - i,
        {
            let c = t.get_char(i);
            let c2 = if c == ',' {
                '.'
            } else {
                c
            };
            push_char(&mut w, c2);
            proof {
                assert(w@ =~= normalize_separators(t@.subrange(0, i + 1)));
            }
            i = i + 1;
        }
        proof {
            assert(t@.subrange(0, n as int) =~= t@);
        }
        if n == 0 {
            return Err(AmountParseError::Empty);
        }
        if n > AMOUNT_MAX_LENGTH {
            return Err(AmountParseError::TooLong);
        }
        if !contains_char(w.as_str(), '.') {
            return Err(AmountParseError::InvalidFormat);
        }
        match decimal_canonical(w.as_str()) {
            Some(text) => Ok(Amount(text)),
            None => Err(AmountParseError::InvalidFormat),
        }
    }

    /// Rendering of the value for a reader: the canonical decimal text.
    pub fn to_text(&self) -> (r: String)
        ensures
            r@ == self.0@,
    {
        self.0.clone()
    }
}

pub open spec fn amount_error_message(e: AmountParseError) -> Seq<char> {
    match e {
        AmountParseError::Empty => "Amount cannot be empty"@,
        AmountParseError::TooLong => "Amount exceeds maximum length of 15 characters"@,
        AmountParseError::InvalidFormat => "Invalid amount format"@,
    }
}

impl AmountParseError {
    pub fn message(&self) -> (r: String)
        ensures
            r@ == amount_error_message(*self),
    {
        match self {
            AmountParseError::Empty => "Amount cannot be empty".to_owned(),
            AmountParseError::TooLong => "Amount exceeds maximum length of 15 characters"
                .to_owned(),
            AmountParseError::InvalidFormat => "Invalid amount format".to_owned(),
        }
    }
}

/// Inputs outside the length bounds fail with the length-specific error
/// kind, never the format kind.
pub proof fn lemma_amount_length_errors(s: Seq<char>)
    ensures
        spec_trim(s).len() == 0 ==> amount_parse(s) == Err::<Seq<char>, _>(AmountParseError::Empty),
        spec_trim(s).len() > AMOUNT_MAX_LENGTH ==> amount_parse(s) == Err::<Seq<char>, _>(
            AmountParseError::TooLong,
        ),
{
}

} // verus!
