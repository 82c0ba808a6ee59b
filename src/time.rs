use vstd::prelude::*;

verus! {

/// A point in time: whole seconds since 1970-01-01T00:00:00 UTC (negative
/// before it) and the nanoseconds past that second.
#[derive(Clone, Copy, Debug, PartialEq, Eq, Structural)]
pub struct Instant {
    pub secs: i64,
    pub nanos: u32,
}

/// Where the new timestamps come from.
#[derive(Clone, Copy, Debug, PartialEq, Eq, Structural)]
pub enum TimeSource {
    /// One instant, for both attributes.
    Single(Instant),
    /// Access and modification instants, copied from a reference file.
    Pair(Instant, Instant),
}

/// A calendar date and time of day in the proleptic Gregorian calendar, UTC.
#[derive(Clone, Copy, Debug, PartialEq, Eq, Structural)]
pub struct CivilTime {
    pub year: i64,
    pub month: u8,
    pub day: u8,
    pub hour: u8,
    pub minute: u8,
    pub second: u8,
}

/// The years that a civil time may carry: four decimal digits.
pub const MAX_YEAR: i64 = 9999;

pub const SECS_PER_DAY: i64 = 86400;

pub open spec fn is_leap(y: int) -> bool {
    (y % 4 == 0 && y % 100 != 0) || y % 400 == 0
}

pub open spec fn days_in_month(y: int, m: int) -> int {
    if m == 2 {
        if is_leap(y) {
            29
        } else {
            28
        }
    } else if m == 4 || m == 6 || m == 9 || m == 11 {
        30
    } else {
        31
    }
}

/// Days in the months of year `y` before month `m`.
pub open spec fn days_before_month(y: int, m: int) -> int
    decreases m,
{
    if m <= 1 {
        0
    } else {
        days_before_month(y, m - 1) + days_in_month(y, m - 1)
    }
}

/// Leap years among 1 .. y-1 (counted backwards, so negative, for y < 1).
pub open spec fn leaps_before(y: int) -> int {
    (y - 1) / 4 - (y - 1) / 100 + (y - 1) / 400
}

/// Days from 1970-01-01 to January 1 of year `y`.
pub open spec fn days_before_year(y: int) -> int {
    365 * (y - 1970) + leaps_before(y) - leaps_before(1970)
}

/// Days from 1970-01-01 to the given date.
pub open spec fn days_from_civil(y: int, m: int, d: int) -> int {
    days_before_year(y) + days_before_month(y, m) + d - 1
}

impl View for CivilTime {
    type V = (int, int, int, int, int, int);

    open spec fn view(&self) -> (int, int, int, int, int, int) {
        (
            self.year as int,
            self.month as int,
            self.day as int,
            self.hour as int,
            self.minute as int,
            self.second as int,
        )
    }
}

/// A real date and time of day with a four-digit year.
pub open spec fn valid_civil(c: (int, int, int, int, int, int)) -> bool {
    &&& 0 <= c.0 <= MAX_YEAR
    &&& 1 <= c.1 <= 12
    &&& 1 <= c.2 <= days_in_month(c.0, c.1)
    &&& 0 <= c.3 < 24
    &&& 0 <= c.4 < 60
    &&& 0 <= c.5 < 60
}

/// Seconds from the epoch to the civil time `c`.
pub open spec fn civil_seconds(c: (int, int, int, int, int, int)) -> int {
    days_from_civil(c.0, c.1, c.2) * 86400 + c.3 * 3600 + c.4 * 60 + c.5
}

/// The year, among 0 ..= 9999, whose days hold day `d` since the epoch.
pub open spec fn year_holds(y: int, d: int) -> bool {
    0 <= y <= MAX_YEAR && days_before_year(y) <= d < days_before_year(y + 1)
}

pub proof fn lemma_year_length(y: int)
    ensures
        days_before_year(y + 1) == days_before_year(y) + 365 + (if is_leap(y) { 1int } else { 0 }),
{
    assert(y / 4 - (y - 1) / 4 == (if y % 4 == 0 { 1int } else { 0 }));
    assert(y / 100 - (y - 1) / 100 == (if y % 100 == 0 { 1int } else { 0 }));
    assert(y / 400 - (y - 1) / 400 == (if y % 400 == 0 { 1int } else { 0 }));
}

pub proof fn lemma_years_increase(y1: int, y2: int)
    requires
        y1 < y2,
    ensures
        days_before_year(y1) < days_before_year(y2),
    decreases y2 - y1,
{
    lemma_year_length(y2 - 1);
    if y1 < y2 - 1 {
        lemma_years_increase(y1, y2 - 1);
    }
}

/// The year of the day `d` since the epoch, where it lies in 0 ..= 9999.
pub open spec fn year_of_day_spec(d: int) -> Option<int> {
    if exists|y: int| year_holds(y, d) {
        Some(choose|y: int| year_holds(y, d))
    } else {
        None
    }
}

pub proof fn lemma_year_unique(y1: int, y2: int, d: int)
    requires
        year_holds(y1, d),
        year_holds(y2, d),
    ensures
        y1 == y2,
{
    if y1 < y2 {
        if y1 + 1 < y2 {
            lemma_years_increase(y1 + 1, y2);
        }
    } else if y2 < y1 {
        if y2 + 1 < y1 {
            lemma_years_increase(y2 + 1, y1);
        }
    }
}

pub proof fn lemma_months_increase(y: int, m1: int, m2: int)
    requires
        1 <= m1 <= m2,
    ensures
        days_before_month(y, m1) <= days_before_month(y, m2),
        m1 < m2 ==> days_before_month(y, m1) + days_in_month(y, m1) <= days_before_month(y, m2),
    decreases m2 - m1,
{
    if m1 < m2 {
        lemma_months_increase(y, m1, m2 - 1);
    }
}

pub proof fn lemma_year_of_months(y: int)
    ensures
        days_before_month(y, 13) == days_before_year(y + 1) - days_before_year(y),
{
    reveal_with_fuel(days_before_month, 13);
    lemma_year_length(y);
}

/// Distinct valid civil times are distinct instants: the seconds since the
/// epoch name the date and time of day they came from, and no other.
pub proof fn lemma_civil_seconds_injective(c1: (int, int, int, int, int, int), c2: (
    int,
    int,
    int,
    int,
    int,
    int,
))
    requires
        valid_civil(c1),
        valid_civil(c2),
        civil_seconds(c1) == civil_seconds(c2),
    ensures
        c1 == c2,
{
    let days1 = days_from_civil(c1.0, c1.1, c1.2);
    let days2 = days_from_civil(c2.0, c2.1, c2.2);
    let tod1 = c1.3 * 3600 + c1.4 * 60 + c1.5;
    let tod2 = c2.3 * 3600 + c2.4 * 60 + c2.5;
    assert(0 <= tod1 < 86400 && 0 <= tod2 < 86400) by (nonlinear_arith)
        requires
            valid_civil(c1),
            valid_civil(c2),
            tod1 == c1.3 * 3600 + c1.4 * 60 + c1.5,
            tod2 == c2.3 * 3600 + c2.4 * 60 + c2.5,
    ;
    assert(days1 == days2) by (nonlinear_arith)
        requires
            days1 * 86400 + tod1 == days2 * 86400 + tod2,
            0 <= tod1 < 86400,
            0 <= tod2 < 86400,
    ;
    assert(c1.3 == c2.3 && c1.4 == c2.4 && c1.5 == c2.5) by (nonlinear_arith)
        requires
            tod1 == tod2,
            tod1 == c1.3 * 3600 + c1.4 * 60 + c1.5,
            tod2 == c2.3 * 3600 + c2.4 * 60 + c2.5,
            0 <= c1.4 < 60,
            0 <= c1.5 < 60,
            0 <= c2.4 < 60,
            0 <= c2.5 < 60,
    ;
    lemma_months_increase(c1.0, c1.1, 13);
    lemma_months_increase(c2.0, c2.1, 13);
    lemma_year_of_months(c1.0);
    lemma_year_of_months(c2.0);
    if c1.0 < c2.0 {
        if c1.0 + 1 < c2.0 {
            lemma_years_increase(c1.0 + 1, c2.0);
        }
        lemma_months_increase(c2.0, 1, c2.1);
    } else if c2.0 < c1.0 {
        if c2.0 + 1 < c1.0 {
            lemma_years_increase(c2.0 + 1, c1.0);
        }
        lemma_months_increase(c1.0, 1, c1.1);
    }
    assert(c1.0 == c2.0);
    if c1.1 < c2.1 {
        lemma_months_increase(c1.0, c1.1, c2.1);
    } else if c2.1 < c1.1 {
        lemma_months_increase(c1.0, c2.1, c1.1);
    }
}

/// A valid civil time lies between the years 0 and 9999 in seconds too.
pub proof fn lemma_civil_seconds_range(c: (int, int, int, int, int, int))
    requires
        valid_civil(c),
    ensures
        -100_000_000_000 <= civil_seconds(c) <= 300_000_000_000,
{
    assert(days_before_year(0) == -719528);
    assert(days_before_year(MAX_YEAR + 1) == 2932897);
    if 0 < c.0 {
        lemma_years_increase(0, c.0);
    }
    lemma_years_increase(c.0, MAX_YEAR + 1);
    lemma_months_increase(c.0, 1, c.1);
    lemma_months_increase(c.0, c.1, 13);
    lemma_year_of_months(c.0);
    let days = days_from_civil(c.0, c.1, c.2);
    assert(-719528 <= days <= 2932897);
    assert(-100_000_000_000 <= civil_seconds(c) <= 300_000_000_000) by (nonlinear_arith)
        requires
            -719528 <= days <= 2932897,
            civil_seconds(c) == days * 86400 + c.3 * 3600 + c.4 * 60 + c.5,
            0 <= c.3 < 24,
            0 <= c.4 < 60,
            0 <= c.5 < 60,
    ;
}

/// Days from 1970-01-01 to January 1 of year `y`.
fn days_before_year_exec(y: i64) -> (r: i64)
    requires
        0 <= y <= MAX_YEAR + 1,
    ensures
        r == days_before_year(y as int),
        -800000 <= r <= 3000000,
{
    let z = (y + 399) as u64;
    let leaps = (z / 4) as i64 - (z / 100) as i64 + (z / 400) as i64 - 100 + 4 - 1;
    assert((y - 1) / 4 == (y + 399) / 4 - 100);
    assert((y - 1) / 100 == (y + 399) / 100 - 4);
    assert((y - 1) / 400 == (y + 399) / 400 - 1);
    assert(leaps_before(1970) == 477);
    365 * (y - 1970) + leaps - 477
}

/// Days in month `m` of year `y`.
pub(crate) fn days_in_month_exec(y: i64, m: u8) -> (r: i64)
    requires
        0 <= y <= MAX_YEAR,
    ensures
        r == days_in_month(y as int, m as int),
{
    if m == 2 {
        if (y % 4 == 0 && y % 100 != 0) || y % 400 == 0 {
            29
        } else {
            28
        }
    } else if m == 4 || m == 6 || m == 9 || m == 11 {
        30
    } else {
        31
    }
}

/// Days from 1970-01-01 to the given date.
fn days_from_civil_exec(y: i64, m: u8, d: u8) -> (r: i64)
    requires
        0 <= y <= MAX_YEAR,
        1 <= m <= 12,
    ensures
        r == days_from_civil(y as int, m as int, d as int),
        -800000 <= r <= 3001000,
{
    let mut before: i64 = 0;
    let mut k: u8 = 1;
    while k < m
        invariant
            1 <= k <= m <= 12,
            0 <= y <= MAX_YEAR,
            before == days_before_month(y as int, k as int),
            0 <= before <= 31 * k,
        decreases m - k,
    {
        before = before + days_in_month_exec(y, k);
        k = k + 1;
    }
    days_before_year_exec(y) + before + d as i64 - 1
}

/// The year, among 0 ..= 9999, of the day `d` since the epoch; `None` when
/// the day lies outside those years.
pub fn year_of_day(d: i64) -> (r: Option<i64>)
    ensures
        r matches Some(y) ==> year_of_day_spec(d as int) == Some(y as int) && year_holds(y as int, d as int),
        r is None ==> year_of_day_spec(d as int) is None,
{
    if d < days_before_year_exec(0) {
        assert forall|y: int| !year_holds(y, d as int) by {
            if 0 < y {
                lemma_years_increase(0, y);
            }
        }
        return None;
    }
    let mut y: i64 = 0;
    while y < MAX_YEAR + 1 && days_before_year_exec(y + 1) <= d
        invariant
            0 <= y <= MAX_YEAR + 1,
            days_before_year(y as int) <= d,
        decreases MAX_YEAR + 1 - y,
    {
        y = y + 1;
    }
    if y > MAX_YEAR {
        assert forall|k: int| !year_holds(k, d as int) by {
            if k <= MAX_YEAR && k + 1 < y {
                lemma_years_increase(k + 1, y as int);
            }
        }
        None
    } else {
        assert(year_holds(y as int, d as int));
        assert forall|k: int| year_holds(k, d as int) implies k == y by {
            lemma_year_unique(k, y as int, d as int);
        }
        Some(y)
    }
}

/// Seconds from the epoch to a valid civil time.
pub fn civil_to_seconds(c: &CivilTime) -> (r: i64)
    requires
        valid_civil(c@),
    ensures
        r == civil_seconds(c@),
        -100_000_000_000 <= r <= 300_000_000_000,
{
    let days = days_from_civil_exec(c.year, c.month, c.day);
    proof {
        lemma_civil_seconds_range(c@);
    }
    days * 86400 + c.hour as i64 * 3600 + c.minute as i64 * 60 + c.second as i64
}

/// The day since the epoch on which the instant falls, on a clock running
/// `offset` seconds ahead of UTC.
pub fn local_day(t: Instant, offset: i32) -> (r: i64)
    ensures
        r == (t.secs + offset) / 86400,
{
    let x: i128 = t.secs as i128 + offset as i128;
    if x >= 0 {
        ((x as u128) / 86400) as i64
    } else {
        let back = (-(x + 1)) as u128;
        -((back / 86400) as i64) - 1
    }
}

} // verus!
