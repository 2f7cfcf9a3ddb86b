//! Date validation and the latest-workday rule shared by every builder.

use vstd::prelude::*;
use chrono::Datelike;
use crate::date::{compact_of, digit_char, format_compact, previous_day, valid_ymd};
use crate::error::Error;
use crate::num::{all_digits, is_digit_char};

verus! {

/// The syntactic date rule of every builder: exactly eight ASCII digits.
/// The check is purely syntactic; an impossible calendar day such as
/// `"20231301"` passes here and is left for the server to judge.
pub open spec fn spec_valid_date_format(s: Seq<char>) -> bool {
    s.len() == 8 && all_digits(s)
}

/// Whether `date` is exactly eight ASCII digits.
pub fn is_valid_date_format(date: &str) -> (r: bool)
    ensures
        r == spec_valid_date_format(date@),
{
    let n = date.unicode_len();
    if n != 8 {
        return false;
    }
    let mut i: usize = 0;
    while i < 8
        invariant
            date@.len() == 8,
            0 <= i <= 8,
            forall|k: int| 0 <= k < i ==> is_digit_char(#[trigger] date@[k]),
        decreases 8 - i,
    {
        let c = date.get_char(i);
        if !('0' <= c && c <= '9') {
            proof {
                assert(!is_digit_char(date@[i as int]));
            }
            return false;
        }
        i += 1;
    }
    proof {
        assert(all_digits(date@));
    }
    true
}

/// Validates a builder's stored date: it must be present and pass the
/// syntactic eight-digit rule; each failure is an `InvalidInput` with its
/// fixed message, and nothing here ever touches the network.
pub fn validate_base_date(base_date: Option<String>) -> (r: Result<String, Error>)
    ensures
        r is Ok <==> (base_date matches Some(d) && spec_valid_date_format(d@)),
        r matches Ok(v) ==> (base_date matches Some(d) && v@ == d@),
        base_date is None ==> (r matches Err(e) && e matches Error::InvalidInput(m) && m@
            == "date is required, call `date()` or `latest()`"@),
        (base_date matches Some(d) && !spec_valid_date_format(d@)) ==> (r matches Err(e)
            && e matches Error::InvalidInput(m) && m@ == "date must be in YYYYMMDD format"@),
{
    match base_date {
        None => Err(
            Error::InvalidInput(String::from_str("date is required, call `date()` or `latest()`")),
        ),
        Some(date) => {
            if !is_valid_date_format(date.as_str()) {
                Err(Error::InvalidInput(String::from_str("date must be in YYYYMMDD format")))
            } else {
                Ok(date)
            }
        },
    }
}

/// One prepared request: the endpoint path and its single query
/// parameter, the base date, sent as `basDd`.
#[derive(Debug)]
pub struct ApiRequest {
    pub path: String,
    pub base_date: String,
}

/// Relies on chrono: `Local::now().date_naive()` is a valid calendar date in
/// the local timezone, and chrono bounds `NaiveDate` years to about
/// ±262,000.
#[verifier::external_body]
fn today_ymd() -> (r: (i32, u32, u32))
    ensures
        valid_ymd(r.0 as int, r.1 as int, r.2 as int),
        -262144 <= r.0 <= 262143,
{
    let now = chrono::Local::now().date_naive();
    (now.year(), now.month(), now.day())
}

/// Every character the compact date format emits is a digit.
proof fn lemma_compact_is_digits(y: int, m: int, d: int)
    ensures
        spec_valid_date_format(compact_of(y, m, d)),
{
    let s = compact_of(y, m, d);
    assert forall|k: int| 0 <= k < s.len() implies is_digit_char(#[trigger] s[k]) by {
        assert(s.len() == 8);
        assert(is_digit_char(digit_char(y / 1000 % 10)));
        assert(is_digit_char(digit_char(y / 100 % 10)));
        assert(is_digit_char(digit_char(y / 10 % 10)));
        assert(is_digit_char(digit_char(y % 10)));
        assert(is_digit_char(digit_char(m / 10 % 10)));
        assert(is_digit_char(digit_char(m % 10)));
        assert(is_digit_char(digit_char(d / 10 % 10)));
        assert(is_digit_char(digit_char(d % 10)));
    }
}

/// The base date the API can newest serve: the calendar day before today in
/// local time, as eight digits.  A clock so far off that the year has no
/// four-digit form yields a syntactically valid placeholder date instead.
pub fn latest_workday_string() -> (r: String)
    ensures
        spec_valid_date_format(r@),
{
    let (y, m, d) = today_ymd();
    let (py, pm, pd) = previous_day(y, m, d);
    if 0 <= py && py <= 9999 {
        let s = format_compact(py as u32, pm, pd);
        proof {
            lemma_compact_is_digits(py as int, pm as int, pd as int);
        }
        s
    } else {
        let s = String::from_str("00000000");
        proof {
            reveal_strlit("00000000");
            assert forall|k: int| 0 <= k < s@.len() implies is_digit_char(#[trigger] s@[k]) by {
                assert(s@[k] == '0');
            }
        }
        s
    }
}

} // verus!
