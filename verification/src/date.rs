//! Calendar date: six digits after trimming, a two-digit year read as an
//! offset from the year 2000, and a month and day validated against the
//! Gregorian calendar.

use crate::text::{
    all_digits, char_digit, dec_rep, dec_rep2, digit_char, digit_value, is_digit,
    lemma_digit_char_value, lemma_trim_of_unpadded, spec_trim, trim_str, u16_str, u16_str2,
};
use vstd::prelude::*;
use vstd::string::StringExecFns;

verus! {

pub const DATE_LENGTH: usize = 6;

#[derive(Debug, PartialEq, Eq, Clone, Copy)]
pub struct Date {
    pub year: u16,
    pub month: u8,
    pub day: u8,
}

#[derive(Debug, PartialEq, Eq, Clone, Copy)]
pub enum DateParseError {
    InvalidLength,
    InvalidFormat,
    InvalidValue,
}

pub open spec fn is_leap_year(y: nat) -> bool {
    y % 4 == 0 && (y % 100 != 0 || y % 400 == 0)
}

pub open spec fn days_in_month(y: nat, m: nat) -> nat {
    if m == 2 {
        if is_leap_year(y) {
            29
        } else {
            28
        }
    } else if m == 4 || m == 6 || m == 9 || m == 11 {
        30
    } else {
        31
    }
}

pub open spec fn is_valid_date(y: nat, m: nat, d: nat) -> bool {
    1 <= m <= 12 && 1 <= d <= days_in_month(y, m)
}

/// Well-formedness of a date value: a calendar-valid day in the century
/// the two-digit-year convention covers.
pub open spec fn date_wf(d: Date) -> bool {
    &&& 2000 <= d.year <= 2099
    &&& is_valid_date(d.year as nat, d.month as nat, d.day as nat)
}

/// What parsing a date field yields on any raw input.
pub open spec fn date_parse(s: Seq<char>) -> Result<Date, DateParseError> {
    let t = spec_trim(s);
    if t.len() != DATE_LENGTH {
        Err(DateParseError::InvalidLength)
    } else if !all_digits(t) {
        Err(DateParseError::InvalidFormat)
    } else {
        let y = 2000 + digit_value(t[0]) * 10 + digit_value(t[1]);
        let m = digit_value(t[2]) * 10 + digit_value(t[3]);
        let d = digit_value(t[4]) * 10 + digit_value(t[5]);
        if is_valid_date(y, m, d) {
            Ok(Date { year: y as u16, month: m as u8, day: d as u8 })
        } else {
            Err(DateParseError::InvalidValue)
        }
    }
}

/// Rendering of a date for a reader: year, month and day separated by
/// hyphens, month and day zero-padded to two digits.
pub open spec fn date_display(d: Date) -> Seq<char> {
    dec_rep(d.year as nat) + "-"@ + dec_rep2(d.month as nat) + "-"@ + dec_rep2(d.day as nat)
}

/// The six-digit raw form that parses back to the same date.
pub open spec fn date_raw(d: Date) -> Seq<char> {
    dec_rep2((d.year - 2000) as nat) + dec_rep2(d.month as nat) + dec_rep2(d.day as nat)
}

fn days_in_month_exec(y: u16, m: u8) -> (r: u8)
    ensures
        r as nat == days_in_month(y as nat, m as nat),
{
    if m == 2 {
        if y % 4 == 0 && (y % 100 != 0 || y % 400 == 0) {
            29
        } else {
            28
        }
    } else if m == 4 || m == 6 || m == 9 || m == 11 {
        30
    } else {
        31
    }
}

impl Date {
    /// Assembles a date that is already known to be calendar-valid and
    /// inside the covered century.
    pub fn new(year: u16, month: u8, day: u8) -> (r: Date)
        requires
            2000 <= year <= 2099,
            is_valid_date(year as nat, month as nat, day as nat),
        ensures
            r.year == year && r.month == month && r.day == day,
            date_wf(r),
    {
        Date { year, month, day }
    }

    pub fn try_from(value: &str) -> (r: Result<Date, DateParseError>)
        ensures
            r == date_parse(value@),
            r matches Ok(d) ==> date_wf(d),
    {
        let t = trim_str(value);
        let n = t.unicode_len();
        if n != DATE_LENGTH {
            return Err(DateParseError::InvalidLength);
        }
        let mut i: usize = 0;
        while i < n
            invariant
                t@ == spec_trim(value@),
                n == t@.len(),
                n == DATE_LENGTH,
                0 <= i <= n,
                forall|j: int| 0 <= j < i ==> is_digit(t@[j]),
            decreases n - i,
        {
            let c = t.get_char(i);
            if !('0' <= c && c <= '9') {
                proof {
                    assert(!all_digits(t@)) by {
                        assert(!is_digit(t@[i as int]));
                    }
                }
                return Err(DateParseError::InvalidFormat);
            }
            i = i + 1;
        }
        let year: u16 = 2000 + (char_digit(t.get_char(0)) * 10 + char_digit(t.get_char(1))) as u16;
        let month: u8 = (char_digit(t.get_char(2)) * 10 + char_digit(t.get_char(3))) as u8;
        let day: u8 = (char_digit(t.get_char(4)) * 10 + char_digit(t.get_char(5))) as u8;
        if month < 1 || month > 12 {
            return Err(DateParseError::InvalidValue);
        }
        if day < 1 || day > days_in_month_exec(year, month) {
            return Err(DateParseError::InvalidValue);
        }
        Ok(Date { year, month, day })
    }

    /// Rendering of the value for a reader.
    pub fn to_text(&self) -> (r: String)
        ensures
            r@ == date_display(*self),
    {
        let r = u16_str(self.year);
        let r = r.concat("-");
        let r = r.concat(u16_str2(self.month as u16).as_str());
        let r = r.concat("-");
        let r = r.concat(u16_str2(self.day as u16).as_str());
        proof {
            assert(r@ =~= date_display(*self));
        }
        r
    }

    /// The six-digit raw field form of the date.
    pub fn to_raw(&self) -> (r: String)
        requires
            date_wf(*self),
        ensures
            r@ == date_raw(*self),
    {
        let r = u16_str2(self.year - 2000);
        let r = r.concat(u16_str2(self.month as u16).as_str());
        let r = r.concat(u16_str2(self.day as u16).as_str());
        proof {
            assert(r@ =~= date_raw(*self));
        }
        r
    }
}

pub open spec fn date_error_message(e: DateParseError) -> Seq<char> {
    match e {
        DateParseError::InvalidLength => "Invalid date length"@,
        DateParseError::InvalidFormat => "Invalid date format"@,
        DateParseError::InvalidValue => "Invalid date"@,
    }
}

impl DateParseError {
    pub fn message(&self) -> (r: String)
        ensures
            r@ == date_error_message(*self),
    {
        match self {
            DateParseError::InvalidLength => "Invalid date length".to_owned(),
            DateParseError::InvalidFormat => "Invalid date format".to_owned(),
            DateParseError::InvalidValue => "Invalid date".to_owned(),
        }
    }
}

/// A two-character zero-padded rendering holds exactly the two digits of
/// its number.
proof fn lemma_dec_rep2_digits(n: nat)
    requires
        n < 100,
    ensures
        dec_rep2(n).len() == 2,
        is_digit(dec_rep2(n)[0]),
        is_digit(dec_rep2(n)[1]),
        digit_value(dec_rep2(n)[0]) * 10 + digit_value(dec_rep2(n)[1]) == n,
{
    if n < 10 {
        lemma_digit_char_value(n);
        assert(dec_rep2(n) =~= seq!['0', digit_char(n)]);
    } else {
        lemma_digit_char_value(n / 10);
        lemma_digit_char_value(n % 10);
        assert(dec_rep(n / 10) =~= seq![digit_char(n / 10)]);
        assert(dec_rep2(n) =~= seq![digit_char(n / 10), digit_char(n % 10)]);
    }
}

/// Re-parsing a date's own six-digit raw form yields the same date.
pub proof fn lemma_date_reparse(d: Date)
    requires
        date_wf(d),
    ensures
        date_parse(date_raw(d)) == Ok::<Date, DateParseError>(d),
{
    let t = date_raw(d);
    lemma_dec_rep2_digits((d.year - 2000) as nat);
    lemma_dec_rep2_digits(d.month as nat);
    lemma_dec_rep2_digits(d.day as nat);
    assert(t.len() == 6);
    assert(t[0] == dec_rep2((d.year - 2000) as nat)[0]);
    assert(t[1] == dec_rep2((d.year - 2000) as nat)[1]);
    assert(t[2] == dec_rep2(d.month as nat)[0]);
    assert(t[3] == dec_rep2(d.month as nat)[1]);
    assert(t[4] == dec_rep2(d.day as nat)[0]);
    assert(t[5] == dec_rep2(d.day as nat)[1]);
    assert(all_digits(t));
    lemma_trim_of_unpadded(t);
    assert(digit_value(t[0]) * 10 + digit_value(t[1]) == (d.year - 2000) as nat);
    assert(digit_value(t[2]) * 10 + digit_value(t[3]) == d.month as nat);
    assert(digit_value(t[4]) * 10 + digit_value(t[5]) == d.day as nat);
}

/// A trimmed input of any other length fails with the length-specific
/// error kind, never the format kind.
pub proof fn lemma_date_length_error(s: Seq<char>)
    ensures
        spec_trim(s).len() != DATE_LENGTH ==> date_parse(s) == Err::<Date, _>(
            DateParseError::InvalidLength,
        ),
{
}

} // verus!
