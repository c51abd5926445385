use vstd::prelude::*;

use crate::errors::SortError;

verus! {

/// An ASCII decimal digit.
pub open spec fn is_digit(c: char) -> bool {
    48 <= c as u32 <= 57
}

/// The numeric value of an ASCII decimal digit.
pub open spec fn digit_val(c: char) -> int {
    c as u32 - 48
}

/// Whether `s` is literally of the shape `YYYY-MM-DD`: ten characters,
/// digits everywhere but for the two `-` separators.
pub open spec fn format_char_ok(s: Seq<char>, k: int) -> bool {
    if k == 4 || k == 7 {
        s[k] == '-'
    } else {
        is_digit(s[k])
    }
}

pub open spec fn date_format_ok(s: Seq<char>) -> bool {
    s.len() == 10 && forall|k: int| 0 <= k < 10 ==> #[trigger] format_char_ok(s, k)
}

pub open spec fn spec_year(s: Seq<char>) -> int {
    digit_val(s[0]) * 1000 + digit_val(s[1]) * 100 + digit_val(s[2]) * 10 + digit_val(s[3])
}

pub open spec fn spec_month(s: Seq<char>) -> int {
    digit_val(s[5]) * 10 + digit_val(s[6])
}

pub open spec fn spec_day(s: Seq<char>) -> int {
    digit_val(s[8]) * 10 + digit_val(s[9])
}

/// A leap year of the proleptic Gregorian calendar.
pub open spec fn is_leap_year(y: int) -> bool {
    (y % 4 == 0 && y % 100 != 0) || y % 400 == 0
}

pub open spec fn days_in_month(y: int, m: int) -> int {
    if m == 2 {
        if is_leap_year(y) {
            29
        } else {
            28
        }
    } else if m == 4 || m == 6 || m == 9 || m == 11 {
        30
    } else {
        31
    }
}

/// A valid calendar date within the years the `YYYY-MM-DD` shape can write.
pub open spec fn valid_ymd(y: int, m: int, d: int) -> bool {
    &&& 0 <= y <= 9999
    &&& 1 <= m <= 12
    &&& 1 <= d <= days_in_month(y, m)
}

/// A date literal that parses: strict `YYYY-MM-DD` shape naming a valid
/// calendar date.
pub open spec fn spec_date_valid(s: Seq<char>) -> bool {
    date_format_ok(s) && valid_ymd(spec_year(s), spec_month(s), spec_day(s))
}

/// The number of non-leap seconds from the Unix epoch to midnight (UTC) of
/// the given calendar date; meaningful on valid dates.
pub uninterp spec fn epoch_secs_of(y: int, m: int, d: int) -> i64;

/// Relies on chrono's `NaiveDate::from_ymd_opt`, which returns `Some`
/// exactly for valid proleptic-Gregorian calendar dates (every year in
/// 0..=9999 is inside chrono's year range), on `NaiveDate::and_hms_opt`
/// with the always-valid time 00:00:00, and on `DateTime::timestamp`,
/// which returns the number of non-leap seconds since the Unix epoch.
#[verifier::external_body]
fn ymd_to_epoch_secs(y: i32, m: u32, d: u32) -> (r: Option<i64>)
    requires
        0 <= y <= 9999,
    ensures
        (r is Some) == valid_ymd(y as int, m as int, d as int),
        r matches Some(t) ==> t == epoch_secs_of(y as int, m as int, d as int),
{
    match chrono::NaiveDate::from_ymd_opt(y, m, d) {
        Some(date) => match date.and_hms_opt(0, 0, 0) {
            Some(dt) => Some(dt.and_utc().timestamp()),
            None => None,
        },
        None => None,
    }
}

/// The numeric value of the digit at position `i`.
fn digit_at(s: &str, i: usize) -> (r: u32)
    requires
        i < s@.len(),
        is_digit(s@[i as int]),
    ensures
        r == digit_val(s@[i as int]),
{
    let c: char = s.get_char(i);
    c as u32 - 48
}

/// Parse a strict `YYYY-MM-DD` literal into the timestamp of that day's
/// midnight (UTC). Returns `DateParseError` for anything that is not such a
/// literal or does not name a valid calendar date, such as a thirtieth of
/// February.
pub fn parse_date(s: &str) -> (r: Result<i64, SortError>)
    ensures
        (r is Ok) == spec_date_valid(s@),
        r matches Ok(t) ==> t == epoch_secs_of(spec_year(s@), spec_month(s@), spec_day(s@)),
        r matches Err(e) ==> e == SortError::DateParseError,
{
    let n: usize = s.unicode_len();
    if n != 10 {
        return Err(SortError::DateParseError);
    }
    let mut i: usize = 0;
    while i < 10
        invariant
            s@.len() == 10,
            i <= 10,
            forall|k: int| 0 <= k < i ==> #[trigger] format_char_ok(s@, k),
        decreases 10 - i,
    {
        let c: char = s.get_char(i);
        if i == 4 || i == 7 {
            if c != '-' {
                proof {
                    assert(!format_char_ok(s@, i as int));
                }
                return Err(SortError::DateParseError);
            }
        } else {
            let v: u32 = c as u32;
            if v < 48 || v > 57 {
                proof {
                    assert(!format_char_ok(s@, i as int));
                }
                return Err(SortError::DateParseError);
            }
        }
        i = i + 1;
    }
    proof {
        assert(format_char_ok(s@, 0));
        assert(format_char_ok(s@, 1));
        assert(format_char_ok(s@, 2));
        assert(format_char_ok(s@, 3));
        assert(format_char_ok(s@, 5));
        assert(format_char_ok(s@, 6));
        assert(format_char_ok(s@, 8));
        assert(format_char_ok(s@, 9));
    }
    let y: u32 = digit_at(s, 0) * 1000 + digit_at(s, 1) * 100 + digit_at(s, 2) * 10 + digit_at(
        s,
        3,
    );
    let m: u32 = digit_at(s, 5) * 10 + digit_at(s, 6);
    let d: u32 = digit_at(s, 8) * 10 + digit_at(s, 9);
    match ymd_to_epoch_secs(y as i32, m, d) {
        Some(t) => Ok(t),
        None => Err(SortError::DateParseError),
    }
}

} // verus!
