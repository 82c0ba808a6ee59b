//! The compact time layout `[[CC]YY]MMDDhhmm[.ss]`.
use vstd::prelude::*;

use crate::time::{days_in_month, days_in_month_exec, valid_civil, CivilTime, MAX_YEAR};

verus! {

pub open spec fn is_digit(c: char) -> bool {
    '0' <= c && c <= '9'
}

pub open spec fn digit_value(c: char) -> int {
    (c as u32) as int - 48
}

/// Every character of `s` in `lo .. hi` is a decimal digit.
pub open spec fn digits_in(s: Seq<char>, lo: int, hi: int) -> bool {
    forall|i: int| lo <= i < hi ==> is_digit(#[trigger] s[i])
}

/// The two-digit number at positions `i` and `i + 1` of `s`.
pub open spec fn two_at(s: Seq<char>, i: int) -> int {
    10 * digit_value(s[i]) + digit_value(s[i + 1])
}

/// The layout ends in `.ss`.
pub open spec fn has_seconds(s: Seq<char>) -> bool {
    s.len() >= 3 && s[s.len() - 3] == '.'
}

/// The length of the part before `.ss`.
pub open spec fn date_len(s: Seq<char>) -> int {
    if has_seconds(s) {
        s.len() - 3
    } else {
        s.len() as int
    }
}

/// `s` has the shape of the layout: 8, 10 or 12 digits, then optionally a
/// dot and two digits.
pub open spec fn compact_shape(s: Seq<char>) -> bool {
    let n = date_len(s);
    &&& n == 8 || n == 10 || n == 12
    &&& digits_in(s, 0, n)
    &&& has_seconds(s) ==> digits_in(s, s.len() - 2, s.len() as int)
}

/// A two-digit year: 69 to 99 in the 1900s, 00 to 68 in the 2000s.
pub open spec fn expand_year(yy: int) -> int {
    if yy >= 69 {
        1900 + yy
    } else {
        2000 + yy
    }
}

/// The year that `s` gives: four digits, two digits, or else `current_year`.
pub open spec fn compact_year(s: Seq<char>, current_year: Option<i64>) -> Option<int> {
    if date_len(s) == 12 {
        Some(100 * two_at(s, 0) + two_at(s, 2))
    } else if date_len(s) == 10 {
        Some(expand_year(two_at(s, 0)))
    } else {
        match current_year {
            Some(y) => Some(y as int),
            None => None,
        }
    }
}

/// The date and time that `s` spells in the layout `[[CC]YY]MMDDhhmm[.ss]`,
/// where the year is `current_year` when `s` gives none; `None` when `s` is
/// not of that shape or names no real time of a year 0 to 9999.
pub open spec fn compact_fields(s: Seq<char>, current_year: Option<i64>) -> Option<
    (int, int, int, int, int, int),
> {
    if !compact_shape(s) {
        None
    } else {
        let k = date_len(s) - 8;
        match compact_year(s, current_year) {
            None => None,
            Some(y) => {
                let c = (
                    y,
                    two_at(s, k),
                    two_at(s, k + 2),
                    two_at(s, k + 4),
                    two_at(s, k + 6),
                    if has_seconds(s) {
                        two_at(s, s.len() - 2)
                    } else {
                        0
                    },
                );
                if valid_civil(c) {
                    Some(c)
                } else {
                    None
                }
            },
        }
    }
}

/// Whether characters `lo .. hi` of `s` are all decimal digits.
fn all_digits(s: &str, lo: usize, hi: usize) -> (r: bool)
    requires
        lo <= hi <= s@.len(),
    ensures
        r == digits_in(s@, lo as int, hi as int),
{
    let mut i = lo;
    while i < hi
        invariant
            lo <= i <= hi <= s@.len(),
            digits_in(s@, lo as int, i as int),
        decreases hi - i,
    {
        let c = s.get_char(i);
        if !('0' <= c && c <= '9') {
            return false;
        }
        i = i + 1;
    }
    true
}

/// The two-digit number at position `i` of `s`.
fn two_digits(s: &str, i: usize) -> (r: u8)
    requires
        i + 1 < s@.len() <= usize::MAX,
        is_digit(s@[i as int]),
        is_digit(s@[i + 1]),
    ensures
        r == two_at(s@, i as int),
        r < 100,
{
    let hi = s.get_char(i) as u32 - 48;
    let lo = s.get_char(i + 1) as u32 - 48;
    (hi * 10 + lo) as u8
}

/// Reads `s` in the layout `[[CC]YY]MMDDhhmm[.ss]`; without a year in `s`
/// the year is `current_year`.
pub fn parse_compact(s: &str, current_year: Option<i64>) -> (r: Option<CivilTime>)
    ensures
        r matches Some(c) ==> compact_fields(s@, current_year) == Some(c@),
        r is None ==> compact_fields(s@, current_year) is None,
{
    let len = s.unicode_len();
    let secs = len >= 3 && s.get_char(len - 3) == '.';
    let n = if secs { len - 3 } else { len };
    if !(n == 8 || n == 10 || n == 12) || !all_digits(s, 0, n) {
        return None;
    }
    if secs && !all_digits(s, len - 2, len) {
        return None;
    }
    let k = n - 8;
    let year: i64 = if n == 12 {
        two_digits(s, 0) as i64 * 100 + two_digits(s, 2) as i64
    } else if n == 10 {
        let yy = two_digits(s, 0) as i64;
        if yy >= 69 {
            1900 + yy
        } else {
            2000 + yy
        }
    } else {
        match current_year {
            Some(y) => y,
            None => return None,
        }
    };
    let month = two_digits(s, k);
    let day = two_digits(s, k + 2);
    let hour = two_digits(s, k + 4);
    let minute = two_digits(s, k + 6);
    let second = if secs {
        two_digits(s, len - 2)
    } else {
        0
    };
    if year < 0 || year > MAX_YEAR || month < 1 || month > 12 {
        return None;
    }
    if day < 1 || day as i64 > days_in_month_exec(year, month) || hour >= 24 || minute >= 60
        || second >= 60 {
        return None;
    }
    Some(CivilTime { year, month, day, hour, minute, second })
}

} // verus!
