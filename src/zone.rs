//! Zone offsets: the machine's local offset, and offsets written at the end of
//! a date string.
use vstd::prelude::*;

use crate::compact::{is_digit, two_at};

verus! {

/// An offset from UTC that a fixed zone can have: under a day either way.
pub open spec fn is_offset(o: int) -> bool {
    -86400 < o < 86400
}

/// The first position at or after `i` that is not a colon.
pub open spec fn colons_end(s: Seq<char>, i: int) -> int
    decreases s.len() - i,
{
    if 0 <= i < s.len() && s[i] == ':' {
        colons_end(s, i + 1)
    } else {
        i
    }
}

/// At position `k` of `s` stands a sign, an hour of 24 or more, any colons,
/// then valid minutes: a written offset of a day or more.
pub open spec fn overlong_offset_at(s: Seq<char>, k: int) -> bool {
    &&& 0 <= k
    &&& k + 3 <= s.len()
    &&& s[k] == '+' || s[k] == '-'
    &&& is_digit(s[k + 1])
    &&& is_digit(s[k + 2])
    &&& two_at(s, k + 1) >= 24
    &&& colons_end(s, k + 3) + 1 < s.len()
    &&& '0' <= s[colons_end(s, k + 3)] <= '5'
    &&& is_digit(s[colons_end(s, k + 3) + 1])
}

/// `s` ends in a zone offset of a day or more: one that starts three to six
/// characters from the end.
pub open spec fn overlong_offset(s: Seq<char>) -> bool {
    exists|k: int| s.len() - 6 <= k <= s.len() - 3 && #[trigger] overlong_offset_at(s, k)
}

/// Whether `s` ends in a zone offset of a day or more, such as `+24:00` or
/// `-9900`.
pub fn has_overlong_offset(s: &str) -> (r: bool)
    ensures
        r == overlong_offset(s@),
{
    let n = s.unicode_len();
    if n < 3 {
        return false;
    }
    let mut k: usize = if n >= 6 {
        n - 6
    } else {
        0
    };
    while k < n - 2
        invariant
            n == s@.len(),
            n >= 3,
            k <= n - 2,
            n >= 6 ==> k >= n - 6,
            forall|j: int| n - 6 <= j < k ==> !overlong_offset_at(s@, j),
        decreases n - k,
    {
        let c = s.get_char(k);
        let h1 = s.get_char(k + 1);
        let h2 = s.get_char(k + 2);
        if (c == '+' || c == '-') && '0' <= h1 && h1 <= '9' && '0' <= h2 && h2 <= '9' && (h1 as u32
            - 48) * 10 + (h2 as u32 - 48) >= 24 {
            let mut j = k + 3;
            while j < n && s.get_char(j) == ':'
                invariant
                    k + 3 <= j <= n,
                    n == s@.len(),
                    colons_end(s@, k + 3) == colons_end(s@, j as int),
                decreases n - j,
            {
                j = j + 1;
            }
            if j < n - 1 {
                let m1 = s.get_char(j);
                let m2 = s.get_char(j + 1);
                if '0' <= m1 && m1 <= '5' && '0' <= m2 && m2 <= '9' {
                    assert(overlong_offset_at(s@, k as int));
                    return true;
                }
            }
        }
        k = k + 1;
    }
    false
}

/// The seconds, either side of the epoch, within which the zone lookup is
/// made: about 250,000 years, inside the range of chrono's zone rules.
pub const LOOKUP_LIMIT: i64 = 8_000_000_000_000;

/// Relies on chrono's `DateTime::from_timestamp` and `with_timezone(&Local)`:
/// the offset of the machine's zone at the given second, `None` where chrono
/// cannot represent that second. A fixed offset lies within a day either way
/// (`FixedOffset::east_opt`). The lookup fails, and panics, only out of the
/// range of its year arithmetic, which `requires` leaves out.
#[verifier::external_body]
pub(crate) fn local_offset_at(secs: i64) -> (r: Option<i32>)
    requires
        -LOOKUP_LIMIT <= secs <= LOOKUP_LIMIT,
    ensures
        r matches Some(o) ==> is_offset(o as int),
{
    match chrono::DateTime::from_timestamp(secs, 0) {
        Some(t) => Some(t.with_timezone(&chrono::Local).offset().local_minus_utc()),
        None => None,
    }
}

} // verus!
