//! Calendar dates of the data source.
//!
//! The API writes every date as exactly eight ASCII digits, `YYYYMMDD`, and
//! the library renders dates back as ISO `YYYY-MM-DD` text in its tables.
//! Dates are plain calendar dates of the proleptic Gregorian calendar; no
//! timezone is attached.

use vstd::prelude::*;
use crate::num::{all_digits, digit_val, digits_val, is_digit_char, is_sentinel};

verus! {

/// A valid calendar date with a four-digit year.
#[derive(Debug, Clone, Copy, PartialEq, Eq, Structural)]
pub struct Date {
    pub year: u16,
    pub month: u8,
    pub day: u8,
}

/// Gregorian leap-year rule, for any year of the proleptic calendar.
pub open spec fn is_leap_year(y: int) -> bool {
    (y % 4 == 0 && y % 100 != 0) || y % 400 == 0
}

/// Length of month `m` of year `y`.
pub open spec fn days_in_month(y: int, m: int) -> int {
    if m == 2 {
        if is_leap_year(y) {
            29
        } else {
            28
        }
    } else if m == 4 || m == 6 || m == 9 || m == 11 {
        30
    } else {
        31
    }
}

/// Whether year/month/day name a real calendar date.
pub open spec fn valid_ymd(y: int, m: int, d: int) -> bool {
    1 <= m <= 12 && 1 <= d <= days_in_month(y, m)
}

/// What decoding an eight-digit `YYYYMMDD` string yields: the date, or
/// nothing when the shape or the calendar rejects it.
pub open spec fn date_result(s: Seq<char>) -> Option<Date> {
    if s.len() == 8 && all_digits(s) {
        let y = digits_val(s.subrange(0, 4));
        let m = digits_val(s.subrange(4, 6));
        let d = digits_val(s.subrange(6, 8));
        if valid_ymd(y, m, d) {
            Some(Date { year: y as u16, month: m as u8, day: d as u8 })
        } else {
            None
        }
    } else {
        None
    }
}

/// As `date_result`, but the sentinels `""` and `"-"` yield an absent value.
pub open spec fn opt_date_result(s: Seq<char>) -> Option<Option<Date>> {
    if is_sentinel(s) {
        Some(None)
    } else {
        match date_result(s) {
            Some(d) => Some(Some(d)),
            None => None,
        }
    }
}

/// The character of one decimal digit.
pub open spec fn digit_char(v: int) -> char {
    if v == 0 {
        '0'
    } else if v == 1 {
        '1'
    } else if v == 2 {
        '2'
    } else if v == 3 {
        '3'
    } else if v == 4 {
        '4'
    } else if v == 5 {
        '5'
    } else if v == 6 {
        '6'
    } else if v == 7 {
        '7'
    } else if v == 8 {
        '8'
    } else {
        '9'
    }
}

/// The eight characters `YYYYMMDD` of a date given as plain numbers.
pub open spec fn compact_of(y: int, m: int, d: int) -> Seq<char> {
    seq![
        digit_char(y / 1000 % 10),
        digit_char(y / 100 % 10),
        digit_char(y / 10 % 10),
        digit_char(y % 10),
        digit_char(m / 10 % 10),
        digit_char(m % 10),
        digit_char(d / 10 % 10),
        digit_char(d % 10),
    ]
}

/// The ten characters `YYYY-MM-DD` of a date.
pub open spec fn iso_of(date: Date) -> Seq<char> {
    seq![
        digit_char(date.year as int / 1000 % 10),
        digit_char(date.year as int / 100 % 10),
        digit_char(date.year as int / 10 % 10),
        digit_char(date.year as int % 10),
        '-',
        digit_char(date.month as int / 10 % 10),
        digit_char(date.month as int % 10),
        '-',
        digit_char(date.day as int / 10 % 10),
        digit_char(date.day as int % 10),
    ]
}

/// ISO text of an optional date: absent stays absent.
pub open spec fn opt_iso(d: Option<Date>) -> Option<Seq<char>> {
    match d {
        Some(x) => Some(iso_of(x)),
        None => None,
    }
}

/// The calendar day right before `(y, m, d)`.
pub open spec fn prev_ymd(y: int, m: int, d: int) -> (int, int, int) {
    if d > 1 {
        (y, m, d - 1)
    } else if m > 1 {
        (y, m - 1, days_in_month(y, m - 1))
    } else {
        (y - 1, 12, 31)
    }
}

/// Appends the character of digit `v` to `s`.
fn push_digit(s: &mut String, v: u32)
    requires
        v < 10,
    ensures
        final(s)@ == old(s)@.push(digit_char(v as int)),
{
    proof {
        reveal_strlit("0123456789");
    }
    let digits = "0123456789";
    proof {
        assert forall|i: int| 0 <= i < digits@.len() implies (#[trigger] digits@[i]) < 128 as char by {
            assert(digits@[i] == digit_char(i));
        }
        assert(digits.is_ascii());
    }
    let t = digits.substring_ascii(v as usize, v as usize + 1);
    s.append(t);
    proof {
        assert(t@[0] == digits@[v as int]);
        assert(digits@[v as int] == digit_char(v as int));
        assert(final(s)@ =~= old(s)@.push(digit_char(v as int)));
    }
}

/// Renders `(y, m, d)` as the eight digits `YYYYMMDD`, zero padded.
pub fn format_compact(y: u32, m: u32, d: u32) -> (r: String)
    requires
        y <= 9999,
        m <= 99,
        d <= 99,
    ensures
        r@ == compact_of(y as int, m as int, d as int),
{
    let mut s = String::new();
    push_digit(&mut s, y / 1000 % 10);
    push_digit(&mut s, y / 100 % 10);
    push_digit(&mut s, y / 10 % 10);
    push_digit(&mut s, y % 10);
    push_digit(&mut s, m / 10 % 10);
    push_digit(&mut s, m % 10);
    push_digit(&mut s, d / 10 % 10);
    push_digit(&mut s, d % 10);
    proof {
        assert(s@ =~= compact_of(y as int, m as int, d as int));
    }
    s
}

impl Date {
    /// Builds the date when `(year, month, day)` is a real calendar day, as
    /// the calendar rule `valid_ymd` says.
    pub fn from_ymd_opt(year: u16, month: u8, day: u8) -> (r: Option<Date>)
        ensures
            r is Some <==> valid_ymd(year as int, month as int, day as int),
            r matches Some(d) ==> d == (Date { year, month, day }),
    {
        if 1 <= month && month <= 12 && 1 <= day && day as u32 <= days_in_month_exec(
            year as u32,
            month as u32,
        ) {
            Some(Date { year, month, day })
        } else {
            None
        }
    }

    /// Renders the date as ISO `YYYY-MM-DD` text.
    pub fn to_iso_string(&self) -> (r: String)
        ensures
            r@ == iso_of(*self),
    {
        let mut s = String::new();
        let y = self.year as u32;
        let m = self.month as u32;
        let d = self.day as u32;
        push_digit(&mut s, y / 1000 % 10);
        push_digit(&mut s, y / 100 % 10);
        push_digit(&mut s, y / 10 % 10);
        push_digit(&mut s, y % 10);
        proof {
            reveal_strlit("-");
        }
        s.append("-");
        push_digit(&mut s, m / 10 % 10);
        push_digit(&mut s, m % 10);
        s.append("-");
        push_digit(&mut s, d / 10 % 10);
        push_digit(&mut s, d % 10);
        proof {
            assert(s@ =~= iso_of(*self));
        }
        s
    }
}

/// Length of month `m` of year `y`, executable form of `days_in_month`.
pub fn days_in_month_exec(y: u32, m: u32) -> (r: u32)
    requires
        1 <= m <= 12,
    ensures
        r == days_in_month(y as int, m as int),
{
    if m == 2 {
        if (y % 4 == 0 && y % 100 != 0) || y % 400 == 0 {
            29
        } else {
            28
        }
    } else if m == 4 || m == 6 || m == 9 || m == 11 {
        30
    } else {
        31
    }
}

/// Decodes eight `YYYYMMDD` characters into a date, rejecting both malformed
/// text and impossible calendar days.
pub(crate) fn parse_ymd_chars(v: &Vec<char>) -> (r: Option<Date>)
    ensures
        r == date_result(v@),
{
    if v.len() != 8 {
        return None;
    }
    let mut i: usize = 0;
    while i < 8
        invariant
            v@.len() == 8,
            0 <= i <= 8,
            forall|k: int| 0 <= k < i ==> is_digit_char(#[trigger] v@[k]),
        decreases 8 - i,
    {
        let c = v[i];
        if !('0' <= c && c <= '9') {
            proof {
                assert(!is_digit_char(v@[i as int]));
                assert(!all_digits(v@));
            }
            return None;
        }
        i += 1;
    }
    proof {
        assert(all_digits(v@));
    }
    let y: u32 = digit_u32(v[0]) * 1000 + digit_u32(v[1]) * 100 + digit_u32(v[2]) * 10 + digit_u32(
        v[3],
    );
    let m: u32 = digit_u32(v[4]) * 10 + digit_u32(v[5]);
    let d: u32 = digit_u32(v[6]) * 10 + digit_u32(v[7]);
    proof {
        lemma_fixed_digits(v@);
        assert(y == digits_val(v@.subrange(0, 4)));
        assert(m == digits_val(v@.subrange(4, 6)));
        assert(d == digits_val(v@.subrange(6, 8)));
    }
    if 1 <= m && m <= 12 && 1 <= d && d <= days_in_month_exec(y, m) {
        Some(Date { year: y as u16, month: m as u8, day: d as u8 })
    } else {
        None
    }
}

/// Numeric value of an ASCII digit character.
fn digit_u32(c: char) -> (r: u32)
    requires
        is_digit_char(c),
    ensures
        r == digit_val(c),
{
    c as u32 - 48
}

/// The leap-year rule repeats every 400 years.
proof fn lemma_leap_shift(y: int)
    ensures
        is_leap_year(y + 400000) == is_leap_year(y),
        days_in_month(y + 400000, 2) == days_in_month(y, 2),
{
    vstd::arithmetic::div_mod::lemma_mod_multiples_vanish(100000, y, 4);
    vstd::arithmetic::div_mod::lemma_mod_multiples_vanish(4000, y, 100);
    vstd::arithmetic::div_mod::lemma_mod_multiples_vanish(1000, y, 400);
    assert(4 * 100000 + y == y + 400000);
    assert(100 * 4000 + y == y + 400000);
    assert(400 * 1000 + y == y + 400000);
}

/// Length of month `m` of year `y`, for years on either side of year zero.
pub fn days_in_month_wide(y: i32, m: u32) -> (r: u32)
    requires
        1 <= m <= 12,
        -400000 <= y <= 400000,
    ensures
        r == days_in_month(y as int, m as int),
{
    let yp = (y + 400000) as u32;
    proof {
        lemma_leap_shift(y as int);
        assert(yp as int == y as int + 400000);
    }
    days_in_month_exec(yp, m)
}

/// The calendar day right before `(y, m, d)`, executable form of `prev_ymd`.
pub fn previous_day(y: i32, m: u32, d: u32) -> (r: (i32, u32, u32))
    requires
        valid_ymd(y as int, m as int, d as int),
        -400000 <= y <= 400000,
    ensures
        (r.0 as int, r.1 as int, r.2 as int) == prev_ymd(y as int, m as int, d as int),
        valid_ymd(r.0 as int, r.1 as int, r.2 as int),
{
    if d > 1 {
        (y, m, d - 1)
    } else if m > 1 {
        let dm = days_in_month_wide(y, m - 1);
        (y, m - 1, dm)
    } else {
        (y - 1, 12, 31)
    }
}

/// Expands `digits_val` over the three digit groups of an eight-digit date.
proof fn lemma_fixed_digits(s: Seq<char>)
    requires
        s.len() == 8,
    ensures
        digits_val(s.subrange(0, 4)) == ((digit_val(s[0]) * 10 + digit_val(s[1])) * 10 + digit_val(
            s[2],
        )) * 10 + digit_val(s[3]),
        digits_val(s.subrange(4, 6)) == digit_val(s[4]) * 10 + digit_val(s[5]),
        digits_val(s.subrange(6, 8)) == digit_val(s[6]) * 10 + digit_val(s[7]),
{
    let q4 = s.subrange(0, 4);
    let q3 = s.subrange(0, 3);
    let q2 = s.subrange(0, 2);
    let q1 = s.subrange(0, 1);
    assert(q4.drop_last() =~= q3);
    assert(q3.drop_last() =~= q2);
    assert(q2.drop_last() =~= q1);
    assert(q1.drop_last() =~= Seq::<char>::empty());
    assert(digits_val(Seq::<char>::empty()) == 0);
    assert(digits_val(q1) == digit_val(s[0]));
    assert(digits_val(q2) == digits_val(q1) * 10 + digit_val(s[1]));
    assert(digits_val(q3) == digits_val(q2) * 10 + digit_val(s[2]));
    assert(digits_val(q4) == digits_val(q3) * 10 + digit_val(s[3]));
    let m2 = s.subrange(4, 6);
    let m1 = s.subrange(4, 5);
    assert(m2.drop_last() =~= m1);
    assert(m1.drop_last() =~= Seq::<char>::empty());
    assert(digits_val(m1) == digit_val(s[4]));
    assert(digits_val(m2) == digits_val(m1) * 10 + digit_val(s[5]));
    let d2 = s.subrange(6, 8);
    let d1 = s.subrange(6, 7);
    assert(d2.drop_last() =~= d1);
    assert(d1.drop_last() =~= Seq::<char>::empty());
    assert(digits_val(d1) == digit_val(s[6]));
    assert(digits_val(d2) == digits_val(d1) * 10 + digit_val(s[7]));
}

} // verus!
