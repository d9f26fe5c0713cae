//! Statement/sequence number: a statement number of at most five digits,
//! optionally followed by one `/` and a sequence number of at most five
//! digits. Leading zeros are accepted; the numeric value is kept.

use crate::text::{
    all_digits, count_char, dec_rep, digits_val, first_index, lemma_count_push, lemma_count_zero,
    lemma_first_index_at, parse_number_part, spec_trim, trim_str, u16_str,
};
use vstd::prelude::*;
use vstd::string::StringExecFns;

verus! {

pub const STATEMENT_NUMBER_MAX_LENGTH: usize = 5;

pub const SEQUENCE_NUMBER_MAX_LENGTH: usize = 5;

#[derive(Debug, PartialEq, Eq, Clone, Copy)]
pub struct StatementSequenceNumber {
    pub statement_number: u16,
    pub sequence_number: Option<u16>,
}

#[derive(Debug, PartialEq, Eq, Clone, Copy)]
pub enum StatementSequenceNumberParseError {
    Empty,
    InvalidStatementSequenceNumberFormat,
    StatementNumberTooLong,
    InvalidStatementNumberFormat,
    SequenceNumberTooLong,
    InvalidSequenceNumberFormat,
}

/// Whether a digit run is a readable number within the `u16` range.
pub open spec fn numeric_part(a: Seq<char>) -> bool {
    a.len() > 0 && all_digits(a) && digits_val(a) <= u16::MAX
}

/// What parsing a statement/sequence field yields on any raw input.
pub open spec fn statement_sequence_number_parse(s: Seq<char>) -> Result<
    StatementSequenceNumber,
    StatementSequenceNumberParseError,
> {
    let t = spec_trim(s);
    if t.len() == 0 {
        Err(StatementSequenceNumberParseError::Empty)
    } else if count_char(t, '/') >= 2 {
        Err(StatementSequenceNumberParseError::InvalidStatementSequenceNumberFormat)
    } else {
        let split = count_char(t, '/') == 1;
        let i = if split {
            first_index(t, '/')
        } else {
            t.len() as int
        };
        let a = t.subrange(0, i);
        if a.len() > STATEMENT_NUMBER_MAX_LENGTH {
            Err(StatementSequenceNumberParseError::StatementNumberTooLong)
        } else if !numeric_part(a) {
            Err(StatementSequenceNumberParseError::InvalidStatementNumberFormat)
        } else if !split {
            Ok(
                StatementSequenceNumber {
                    statement_number: digits_val(a) as u16,
                    sequence_number: None,
                },
            )
        } else {
            let b = t.subrange(i + 1, t.len() as int);
            if b.len() > SEQUENCE_NUMBER_MAX_LENGTH {
                Err(StatementSequenceNumberParseError::SequenceNumberTooLong)
            } else if !numeric_part(b) {
                Err(StatementSequenceNumberParseError::InvalidSequenceNumberFormat)
            } else {
                Ok(
                    StatementSequenceNumber {
                        statement_number: digits_val(a) as u16,
                        sequence_number: Some(digits_val(b) as u16),
                    },
                )
            }
        }
    }
}

impl StatementSequenceNumber {
    pub fn try_from(value: &str) -> (r: Result<Self, StatementSequenceNumberParseError>)
        ensures
            r == statement_sequence_number_parse(value@),
    {
        let t = trim_str(value);
        let n = t.unicode_len();
        if n == 0 {
            return Err(StatementSequenceNumberParseError::Empty);
        }
        let mut cnt: usize = 0;
        let mut first: usize = n;
        let mut i: usize = 0;
        while i < n
            invariant
                n == t@.len(),
                0 <= i <= n,
                cnt <= i,
                cnt == count_char(t@.subrange(0, i as int), '/'),
                first == n ==> forall|j: int| 0 <= j < i ==> t@[j] != '/',
                first < n ==> first < i && t@[first as int] == '/' && (forall|j: int|
                    0 <= j < first ==> t@[j] != '/'),
                first <= n,
            decreases n - i,
        {
            proof {
                lemma_count_push(t@.subrange(0, i as int), t@[i as int], '/');
                assert(t@.subrange(0, i as int).push(t@[i as int]) =~= t@.subrange(0, i + 1));
            }
            if t.get_char(i) == '/' {
                cnt = cnt + 1;
                if first == n {
                    first = i;
                }
            }
            i = i + 1;
        }
        proof {
            assert(t@.subrange(0, n as int) =~= t@);
        }
        if cnt >= 2 {
            return Err(StatementSequenceNumberParseError::InvalidStatementSequenceNumberFormat);
        }
        proof {
            lemma_count_zero(t@, '/');
            if cnt == 1 {
                lemma_first_index_at(t@, '/', first as int);
            }
        }
        let stmt_end = if cnt == 1 {
            first
        } else {
            n
        };
        let a = t.substring_char(0, stmt_end);
        if a.unicode_len() > STATEMENT_NUMBER_MAX_LENGTH {
            return Err(StatementSequenceNumberParseError::StatementNumberTooLong);
        }
        let statement_number = match parse_number_part(a) {
            Some(v) => v,
            None => {
                return Err(StatementSequenceNumberParseError::InvalidStatementNumberFormat);
            },
        };
        if cnt == 0 {
            return Ok(StatementSequenceNumber { statement_number, sequence_number: None });
        }
        let b = t.substring_char(first + 1, n);
        if b.unicode_len() > SEQUENCE_NUMBER_MAX_LENGTH {
            return Err(StatementSequenceNumberParseError::SequenceNumberTooLong);
        }
        let sequence_number = match parse_number_part(b) {
            Some(v) => v,
            None => {
                return Err(StatementSequenceNumberParseError::InvalidSequenceNumberFormat);
            },
        };
        Ok(StatementSequenceNumber { statement_number, sequence_number: Some(sequence_number) })
    }

    /// Rendering of the value for a reader.
    pub fn to_text(&self) -> (r: String)
        ensures
            r@ == statement_sequence_number_display(*self),
    {
        match self.sequence_number {
            None => {
                let r = "Statement number: ".to_owned().concat(
                    u16_str(self.statement_number).as_str(),
                );
                r
            },
            Some(q) => {
                let r = "Statement number: ".to_owned().concat(
                    u16_str(self.statement_number).as_str(),
                );
                let r = r.concat(", Sequence number: ");
                let r = r.concat(u16_str(q).as_str());
                proof {
                    assert(r@ =~= statement_sequence_number_display(*self));
                }
                r
            },
        }
    }
}

/// Rendering of the value for a reader: the statement number, and the
/// sequence number where one is present.
pub open spec fn statement_sequence_number_display(v: StatementSequenceNumber) -> Seq<char> {
    match v.sequence_number {
        None => "Statement number: "@ + dec_rep(v.statement_number as nat),
        Some(q) => "Statement number: "@ + dec_rep(v.statement_number as nat)
            + ", Sequence number: "@ + dec_rep(q as nat),
    }
}

pub open spec fn statement_sequence_number_error_message(
    e: StatementSequenceNumberParseError,
) -> Seq<char> {
    match e {
        StatementSequenceNumberParseError::Empty => "Empty statement sequence number"@,
        StatementSequenceNumberParseError::InvalidStatementSequenceNumberFormat
            => "Invalid statement sequence number format"@,
        StatementSequenceNumberParseError::StatementNumberTooLong
            => "Statement number exceeds 5 character length"@,
        StatementSequenceNumberParseError::InvalidStatementNumberFormat
            => "Invalid statement number format"@,
        StatementSequenceNumberParseError::SequenceNumberTooLong
            => "Sequence number exceeds 5 character length"@,
        StatementSequenceNumberParseError::InvalidSequenceNumberFormat
            => "Invalid sequence number format"@,
    }
}

impl StatementSequenceNumberParseError {
    pub fn message(&self) -> (r: String)
        ensures
            r@ == statement_sequence_number_error_message(*self),
    {
        match self {
            StatementSequenceNumberParseError::Empty => "Empty statement sequence number"
                .to_owned(),
            StatementSequenceNumberParseError::InvalidStatementSequenceNumberFormat
                => "Invalid statement sequence number format".to_owned(),
            StatementSequenceNumberParseError::StatementNumberTooLong
                => "Statement number exceeds 5 character length".to_owned(),
            StatementSequenceNumberParseError::InvalidStatementNumberFormat
                => "Invalid statement number format".to_owned(),
            StatementSequenceNumberParseError::SequenceNumberTooLong
                => "Sequence number exceeds 5 character length".to_owned(),
            StatementSequenceNumberParseError::InvalidSequenceNumberFormat
                => "Invalid sequence number format".to_owned(),
        }
    }
}

/// The statement-number part of the trimmed field: up to the first slash,
/// or the whole field without one.
pub open spec fn statement_part(s: Seq<char>) -> Seq<char> {
    let t = spec_trim(s);
    if count_char(t, '/') == 1 {
        t.subrange(0, first_index(t, '/'))
    } else {
        t
    }
}

/// The sequence-number part of the trimmed field: what follows the first
/// slash.
pub open spec fn sequence_part(s: Seq<char>) -> Seq<char> {
    let t = spec_trim(s);
    t.subrange(first_index(t, '/') + 1, t.len() as int)
}

/// An over-long part fails with its own too-long error kind, never the
/// numeric-format kind.
pub proof fn lemma_statement_sequence_number_length_errors(s: Seq<char>)
    ensures
        spec_trim(s).len() == 0 ==> statement_sequence_number_parse(s) == Err::<
            StatementSequenceNumber,
            _,
        >(StatementSequenceNumberParseError::Empty),
        (count_char(spec_trim(s), '/') < 2 && spec_trim(s).len() > 0 && statement_part(s).len()
            > STATEMENT_NUMBER_MAX_LENGTH) ==> statement_sequence_number_parse(s) == Err::<
            StatementSequenceNumber,
            _,
        >(StatementSequenceNumberParseError::StatementNumberTooLong),
        (count_char(spec_trim(s), '/') == 1 && spec_trim(s).len() > 0 && statement_part(s).len()
            <= STATEMENT_NUMBER_MAX_LENGTH && numeric_part(statement_part(s)) && sequence_part(
            s,
        ).len() > SEQUENCE_NUMBER_MAX_LENGTH) ==> statement_sequence_number_parse(s) == Err::<
            StatementSequenceNumber,
            _,
        >(StatementSequenceNumberParseError::SequenceNumberTooLong),
{
}

} // verus!
