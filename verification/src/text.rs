//! Shared text utilities: whitespace trimming, digit runs, and decimal
//! renderings of small numbers, each tied to a spec-level model.

use vstd::prelude::*;

verus! {

/// ASCII-range whitespace that surrounding-whitespace trimming removes.
pub open spec fn is_space(c: char) -> bool {
    c == ' ' || c == '\t' || c == '\n' || c == '\r' || c == '\u{000B}' || c == '\u{000C}'
}

pub open spec fn drop_leading_spaces(s: Seq<char>) -> Seq<char>
    decreases s.len(),
{
    if s.len() > 0 && is_space(s[0]) {
        drop_leading_spaces(s.drop_first())
    } else {
        s
    }
}

pub open spec fn drop_trailing_spaces(s: Seq<char>) -> Seq<char>
    decreases s.len(),
{
    if s.len() > 0 && is_space(s.last()) {
        drop_trailing_spaces(s.drop_last())
    } else {
        s
    }
}

/// The trimmed form of a raw field: surrounding whitespace removed.
pub open spec fn spec_trim(s: Seq<char>) -> Seq<char> {
    drop_trailing_spaces(drop_leading_spaces(s))
}

proof fn lemma_drop_leading_subrange(s: Seq<char>, i: int)
    requires
        0 <= i <= s.len(),
        forall|k: int| 0 <= k < i ==> is_space(s[k]),
        i == s.len() || !is_space(s[i]),
    ensures
        drop_leading_spaces(s) == s.subrange(i, s.len() as int),
    decreases i,
{
    if i == 0 {
        assert(s.subrange(0, s.len() as int) =~= s);
    } else {
        lemma_drop_leading_subrange(s.drop_first(), i - 1);
        assert(s.drop_first().subrange(i - 1, s.drop_first().len() as int) =~= s.subrange(
            i,
            s.len() as int,
        ));
    }
}

proof fn lemma_drop_trailing_subrange(s: Seq<char>, j: int)
    requires
        0 <= j <= s.len(),
        forall|k: int| j <= k < s.len() ==> is_space(s[k]),
        j == 0 || !is_space(s[j - 1]),
    ensures
        drop_trailing_spaces(s) == s.subrange(0, j),
    decreases s.len() - j,
{
    if j == s.len() {
        assert(s.subrange(0, j) =~= s);
    } else {
        assert(is_space(s.last()));
        lemma_drop_trailing_subrange(s.drop_last(), j);
        assert(s.drop_last().subrange(0, j) =~= s.subrange(0, j));
    }
}

/// Characterizes the trimmed form by the first and last non-whitespace
/// positions of the raw text.
proof fn lemma_trim_via_bounds(s: Seq<char>, i: int, j: int)
    requires
        0 <= i <= j <= s.len(),
        forall|k: int| 0 <= k < i ==> is_space(s[k]),
        forall|k: int| j <= k < s.len() ==> is_space(s[k]),
        i < j ==> !is_space(s[i]) && !is_space(s[j - 1]),
        i == j ==> i == s.len(),
    ensures
        spec_trim(s) == s.subrange(i, j),
{
    if i == j {
        lemma_drop_leading_subrange(s, i);
        assert(drop_leading_spaces(s) =~= Seq::<char>::empty());
        assert(s.subrange(i, j) =~= Seq::<char>::empty());
    } else {
        lemma_drop_leading_subrange(s, i);
        let u = s.subrange(i, s.len() as int);
        lemma_drop_trailing_subrange(u, j - i);
        assert(u.subrange(0, j - i) =~= s.subrange(i, j));
    }
}

proof fn lemma_drop_leading_head(s: Seq<char>)
    ensures
        drop_leading_spaces(s).len() > 0 ==> !is_space(drop_leading_spaces(s)[0]),
    decreases s.len(),
{
    if s.len() > 0 && is_space(s[0]) {
        lemma_drop_leading_head(s.drop_first());
    }
}

proof fn lemma_drop_trailing_last(s: Seq<char>)
    ensures
        drop_trailing_spaces(s).len() > 0 ==> !is_space(drop_trailing_spaces(s).last()),
    decreases s.len(),
{
    if s.len() > 0 && is_space(s.last()) {
        lemma_drop_trailing_last(s.drop_last());
    }
}

proof fn lemma_drop_trailing_prefix(s: Seq<char>)
    ensures
        drop_trailing_spaces(s).len() <= s.len(),
        forall|k: int|
            0 <= k < drop_trailing_spaces(s).len() ==> drop_trailing_spaces(s)[k] == s[k],
    decreases s.len(),
{
    if s.len() > 0 && is_space(s.last()) {
        lemma_drop_trailing_prefix(s.drop_last());
        assert(forall|k: int| 0 <= k < s.len() - 1 ==> s.drop_last()[k] == s[k]);
    }
}

pub proof fn lemma_trim_len(s: Seq<char>)
    ensures
        spec_trim(s).len() <= s.len(),
{
    lemma_drop_leading_len(s);
    lemma_drop_trailing_prefix(drop_leading_spaces(s));
}

proof fn lemma_drop_leading_len(s: Seq<char>)
    ensures
        drop_leading_spaces(s).len() <= s.len(),
    decreases s.len(),
{
    if s.len() > 0 && is_space(s[0]) {
        lemma_drop_leading_len(s.drop_first());
    }
}

/// Trimming is idempotent: a trimmed field trims to itself.
pub proof fn lemma_trim_idempotent(s: Seq<char>)
    ensures
        spec_trim(spec_trim(s)) == spec_trim(s),
{
    let u = drop_leading_spaces(s);
    let t = spec_trim(s);
    lemma_drop_leading_head(s);
    lemma_drop_trailing_last(u);
    lemma_drop_trailing_prefix(u);
    if t.len() > 0 {
        assert(t[0] == u[0]);
        assert(!is_space(t[0]));
        assert(drop_leading_spaces(t) == t);
        assert(!is_space(t.last()));
        assert(drop_trailing_spaces(t) == t);
    } else {
        assert(drop_leading_spaces(t) == t);
        assert(drop_trailing_spaces(t) == t);
    }
}

/// Text that neither starts nor ends with whitespace trims to itself.
pub proof fn lemma_trim_of_unpadded(s: Seq<char>)
    requires
        s.len() > 0 ==> (!is_space(s[0]) && !is_space(s[s.len() - 1])),
    ensures
        spec_trim(s) == s,
{
    if s.len() == 0 {
        lemma_trim_via_bounds(s, 0, 0);
    } else {
        lemma_trim_via_bounds(s, 0, s.len() as int);
    }
    assert(s.subrange(0, s.len() as int) =~= s);
}

pub fn is_space_char(c: char) -> (r: bool)
    ensures
        r == is_space(c),
{
    c == ' ' || c == '\t' || c == '\n' || c == '\r' || c == '\u{000B}' || c == '\u{000C}'
}

/// Removes surrounding whitespace, the first step of every field parser.
pub fn trim_str<'a>(s: &'a str) -> (r: &'a str)
    ensures
        r@ == spec_trim(s@),
        r@.len() <= s@.len(),
{
    let n = s.unicode_len();
    let mut start: usize = 0;
    while start < n && is_space_char(s.get_char(start))
        invariant
            n == s@.len(),
            0 <= start <= n,
            forall|k: int| 0 <= k < start ==> is_space(s@[k]),
        decreases n - start,
    {
        start = start + 1;
    }
    let mut end: usize = n;
    while end > start && is_space_char(s.get_char(end - 1))
        invariant
            n == s@.len(),
            start <= end <= n,
            forall|k: int| end <= k < n ==> is_space(s@[k]),
            start == n || !is_space(s@[start as int]),
        decreases end,
    {
        end = end - 1;
    }
    proof {
        lemma_trim_via_bounds(s@, start as int, end as int);
        lemma_trim_len(s@);
    }
    s.substring_char(start, end)
}

/// Relies on String::push: appends exactly one character.
#[verifier::external_body]
pub fn push_char(s: &mut String, c: char)
    ensures
        final(s)@ == old(s)@.push(c),
{
    s.push(c)
}

/// Whether the text holds the given character anywhere.
pub fn contains_char(t: &str, c: char) -> (r: bool)
    ensures
        r == t@.contains(c),
{
    let n = t.unicode_len();
    let mut i: usize = 0;
    while i < n
        invariant
            n == t@.len(),
            0 <= i <= n,
            forall|j: int| 0 <= j < i ==> t@[j] != c,
        decreases n - i,
    {
        if t.get_char(i) == c {
            proof {
                assert(t@.contains(c)) by {
                    assert(t@[i as int] == c);
                }
            }
            return true;
        }
        i = i + 1;
    }
    false
}

pub open spec fn is_digit(c: char) -> bool {
    '0' <= c && c <= '9'
}

pub open spec fn digit_value(c: char) -> nat {
    (c as u32 - '0' as u32) as nat
}

pub open spec fn all_digits(s: Seq<char>) -> bool {
    forall|i: int| 0 <= i < s.len() ==> is_digit(s[i])
}

/// Numeric value of a run of decimal digits, leading zeros accepted.
pub open spec fn digits_val(s: Seq<char>) -> nat
    decreases s.len(),
{
    if s.len() == 0 {
        0
    } else {
        digits_val(s.drop_last()) * 10 + digit_value(s.last())
    }
}

pub open spec fn pow10(n: nat) -> nat
    decreases n,
{
    if n == 0 {
        1
    } else {
        10 * pow10((n - 1) as nat)
    }
}

pub proof fn lemma_digits_val_bound(s: Seq<char>)
    requires
        all_digits(s),
    ensures
        digits_val(s) < pow10(s.len()),
    decreases s.len(),
{
    if s.len() > 0 {
        assert(all_digits(s.drop_last())) by {
            assert(forall|i: int| 0 <= i < s.len() - 1 ==> s.drop_last()[i] == s[i]);
        }
        lemma_digits_val_bound(s.drop_last());
        assert(is_digit(s.last()));
        assert(digit_value(s.last()) <= 9);
    }
}

proof fn lemma_pow10_small()
    ensures
        pow10(0) == 1,
        pow10(1) == 10,
        pow10(2) == 100,
        pow10(3) == 1000,
        pow10(4) == 10000,
        pow10(5) == 100000,
{
    assert(pow10(0) == 1);
    assert(pow10(1) == 10);
    assert(pow10(2) == 100);
    assert(pow10(3) == 1000);
    assert(pow10(4) == 10000);
    assert(pow10(5) == 100000);
}

proof fn lemma_digits_val_push(s: Seq<char>, c: char)
    ensures
        digits_val(s.push(c)) == digits_val(s) * 10 + digit_value(c),
{
    assert(s.push(c).drop_last() =~= s);
    assert(s.push(c).last() == c);
}

pub(crate) fn char_digit(c: char) -> (d: u32)
    requires
        is_digit(c),
    ensures
        d as nat == digit_value(c),
        d <= 9,
{
    (c as u32) - 48
}

/// Reads a bounded run of decimal digits as a number no larger than `u16`
/// holds, the way statement and sequence numbers are read. `None` on an
/// empty run, a non-digit, or a value past the `u16` range.
pub fn parse_number_part(t: &str) -> (r: Option<u16>)
    requires
        t@.len() <= 5,
    ensures
        r is Some <==> (t@.len() > 0 && all_digits(t@) && digits_val(t@) <= u16::MAX),
        r matches Some(v) ==> v as nat == digits_val(t@),
{
    let n = t.unicode_len();
    if n == 0 {
        return None;
    }
    let mut acc: u32 = 0;
    let mut i: usize = 0;
    while i < n
        invariant
            t@.len() == n,
            n <= 5,
            0 <= i <= n,
            all_digits(t@.subrange(0, i as int)),
            acc as nat == digits_val(t@.subrange(0, i as int)),
        decreases n - i,
    {
        let c = t.get_char(i);
        if !('0' <= c && c <= '9') {
            proof {
                assert(!all_digits(t@)) by {
                    assert(!is_digit(t@[i as int]));
                }
            }
            return None;
        }
        let d = char_digit(c);
        proof {
            lemma_digits_val_bound(t@.subrange(0, i as int));
            lemma_pow10_le(i as nat, 4);
            lemma_pow10_small();
            lemma_digits_val_push(t@.subrange(0, i as int), t@[i as int]);
            assert(t@.subrange(0, i as int).push(t@[i as int]) =~= t@.subrange(0, i + 1));
        }
        acc = acc * 10 + d;
        i = i + 1;
    }
    proof {
        assert(t@.subrange(0, n as int) =~= t@);
    }
    if acc <= 65535 {
        Some(acc as u16)
    } else {
        None
    }
}

proof fn lemma_pow10_le(a: nat, b: nat)
    requires
        a <= b,
    ensures
        pow10(a) <= pow10(b),
    decreases b,
{
    if a < b && b > 0 {
        lemma_pow10_le(a, (b - 1) as nat);
    }
}

/// How often a character occurs in the text.
pub open spec fn count_char(s: Seq<char>, c: char) -> nat
    decreases s.len(),
{
    if s.len() == 0 {
        0
    } else {
        count_char(s.drop_last(), c) + (if s.last() == c {
            1nat
        } else {
            0nat
        })
    }
}

/// Position of the first occurrence of a character; the length if absent.
pub open spec fn first_index(s: Seq<char>, c: char) -> int
    decreases s.len(),
{
    if s.len() == 0 {
        0
    } else if s[0] == c {
        0
    } else {
        1 + first_index(s.drop_first(), c)
    }
}

pub proof fn lemma_count_push(s: Seq<char>, x: char, c: char)
    ensures
        count_char(s.push(x), c) == count_char(s, c) + (if x == c {
            1nat
        } else {
            0nat
        }),
{
    assert(s.push(x).drop_last() =~= s);
    assert(s.push(x).last() == x);
}

pub proof fn lemma_count_zero(s: Seq<char>, c: char)
    ensures
        (count_char(s, c) == 0) <==> (forall|j: int| 0 <= j < s.len() ==> s[j] != c),
    decreases s.len(),
{
    if s.len() > 0 {
        lemma_count_zero(s.drop_last(), c);
        assert(forall|j: int| 0 <= j < s.len() - 1 ==> s.drop_last()[j] == s[j]);
    }
}

pub proof fn lemma_first_index_at(s: Seq<char>, c: char, i: int)
    requires
        0 <= i < s.len(),
        s[i] == c,
        forall|j: int| 0 <= j < i ==> s[j] != c,
    ensures
        first_index(s, c) == i,
    decreases i,
{
    if i > 0 {
        lemma_first_index_at(s.drop_first(), c, i - 1);
    }
}

pub open spec fn digit_char(d: nat) -> char {
    if d == 0 {
        '0'
    } else if d == 1 {
        '1'
    } else if d == 2 {
        '2'
    } else if d == 3 {
        '3'
    } else if d == 4 {
        '4'
    } else if d == 5 {
        '5'
    } else if d == 6 {
        '6'
    } else if d == 7 {
        '7'
    } else if d == 8 {
        '8'
    } else {
        '9'
    }
}

pub proof fn lemma_digit_char_value(d: nat)
    requires
        d <= 9,
    ensures
        is_digit(digit_char(d)),
        digit_value(digit_char(d)) == d,
{
}

/// Decimal rendering of a number, most significant digit first, no sign
/// and no padding.
pub open spec fn dec_rep(n: nat) -> Seq<char>
    decreases n,
{
    if n < 10 {
        seq![digit_char(n)]
    } else {
        dec_rep(n / 10).push(digit_char(n % 10))
    }
}

/// Rendering of a number zero-padded to at least two characters.
pub open spec fn dec_rep2(n: nat) -> Seq<char> {
    if n < 10 {
        seq!['0'].push(digit_char(n))
    } else {
        dec_rep(n)
    }
}

fn digit_str(d: u16) -> (r: &'static str)
    requires
        d < 10,
    ensures
        r@ =~= seq![digit_char(d as nat)],
{
    proof {
        reveal_strlit("0");
        reveal_strlit("1");
        reveal_strlit("2");
        reveal_strlit("3");
        reveal_strlit("4");
        reveal_strlit("5");
        reveal_strlit("6");
        reveal_strlit("7");
        reveal_strlit("8");
        reveal_strlit("9");
    }
    match d {
        0 => "0",
        1 => "1",
        2 => "2",
        3 => "3",
        4 => "4",
        5 => "5",
        6 => "6",
        7 => "7",
        8 => "8",
        _ => "9",
    }
}

/// Renders a number in decimal, as it appears in statement-number and date
/// renderings.
pub fn u16_str(n: u16) -> (r: String)
    ensures
        r@ == dec_rep(n as nat),
    decreases n,
{
    if n < 10 {
        digit_str(n).to_owned()
    } else {
        let s = u16_str(n / 10);
        let r = s.concat(digit_str(n % 10));
        proof {
            assert(r@ =~= dec_rep((n / 10) as nat).push(digit_char((n % 10) as nat)));
        }
        r
    }
}

/// Renders a number in decimal, zero-padded to at least two characters.
pub fn u16_str2(n: u16) -> (r: String)
    ensures
        r@ == dec_rep2(n as nat),
{
    if n < 10 {
        let r = "0".to_owned().concat(digit_str(n));
        proof {
            reveal_strlit("0");
            assert(r@ =~= seq!['0'].push(digit_char(n as nat)));
        }
        r
    } else {
        u16_str(n)
    }
}

pub open spec fn bool_text(b: bool) -> Seq<char> {
    if b {
        "true"@
    } else {
        "false"@
    }
}

pub fn bool_str(b: bool) -> (r: &'static str)
    ensures
        r@ == bool_text(b),
{
    if b {
        "true"
    } else {
        "false"
    }
}

} // verus!
