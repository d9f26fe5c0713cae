//! Related reference: non-empty bounded text obeying the slash rule. Kept
//! as a type of its own so it can never be confused with a transaction
//! reference number, though the grammars coincide.

use crate::reference_format::{has_slash_misuse, slash_misuse};
use crate::text::{lemma_trim_idempotent, spec_trim, trim_str};
use vstd::prelude::*;

verus! {

pub const RELATED_REFERENCE_MAX_LENGTH: usize = 16;

#[derive(Debug, PartialEq, Eq)]
pub struct RelatedReference(pub String);

#[derive(Debug, PartialEq, Eq, Clone, Copy)]
pub enum RelatedReferenceParseError {
    Empty,
    TooLong,
    InvalidFormat,
}

pub open spec fn related_reference_parse(s: Seq<char>) -> Result<
    Seq<char>,
    RelatedReferenceParseError,
> {
    let t = spec_trim(s);
    if t.len() == 0 {
        Err(RelatedReferenceParseError::Empty)
    } else if t.len() > RELATED_REFERENCE_MAX_LENGTH {
        Err(RelatedReferenceParseError::TooLong)
    } else if slash_misuse(t) {
        Err(RelatedReferenceParseError::InvalidFormat)
    } else {
        Ok(t)
    }
}

impl RelatedReference {
    pub fn try_from(value: &str) -> (r: Result<Self, RelatedReferenceParseError>)
        ensures
            r matches Ok(v) ==> related_reference_parse(value@) == Ok::<
                _,
                RelatedReferenceParseError,
            >(v.0@),
            r matches Err(e) ==> related_reference_parse(value@) == Err::<Seq<char>, _>(e),
    {
        let t = trim_str(value);
        let n = t.unicode_len();
        if n == 0 {
            Err(RelatedReferenceParseError::Empty)
        } else if n > RELATED_REFERENCE_MAX_LENGTH {
            Err(RelatedReferenceParseError::TooLong)
        } else if has_slash_misuse(t) {
            Err(RelatedReferenceParseError::InvalidFormat)
        } else {
            Ok(RelatedReference(t.to_owned()))
        }
    }
}

pub open spec fn related_reference_error_message(e: RelatedReferenceParseError) -> Seq<char> {
    match e {
        RelatedReferenceParseError::Empty => "Related reference cannot be empty"@,
        RelatedReferenceParseError::TooLong => "Related reference exceeds 16 character length"@,
        RelatedReferenceParseError::InvalidFormat => "Related reference has invalid format"@,
    }
}

impl RelatedReferenceParseError {
    pub fn message(&self) -> (r: String)
        ensures
            r@ == related_reference_error_message(*self),
    {
        match self {
            RelatedReferenceParseError::Empty => "Related reference cannot be empty".to_owned(),
            RelatedReferenceParseError::TooLong => "Related reference exceeds 16 character length"
                .to_owned(),
            RelatedReferenceParseError::InvalidFormat => "Related reference has invalid format"
                .to_owned(),
        }
    }
}

/// Re-parsing an accepted value's own text yields the same value.
pub proof fn lemma_related_reference_reparse(s: Seq<char>)
    requires
        related_reference_parse(s) is Ok,
    ensures
        related_reference_parse(related_reference_parse(s)->Ok_0) == related_reference_parse(s),
{
    lemma_trim_idempotent(s);
}

/// Inputs outside the length bounds fail with the length-specific error
/// kind, never the format kind.
pub proof fn lemma_related_reference_length_errors(s: Seq<char>)
    ensures
        spec_trim(s).len() == 0 ==> related_reference_parse(s) == Err::<Seq<char>, _>(
            RelatedReferenceParseError::Empty,
        ),
        spec_trim(s).len() > RELATED_REFERENCE_MAX_LENGTH ==> related_reference_parse(s) == Err::<
            Seq<char>,
            _,
        >(RelatedReferenceParseError::TooLong),
{
}

} // verus!
