//! Choosing the one source of the new timestamps.
use vstd::prelude::*;

use crate::compact::{compact_fields, parse_compact};
use crate::time::{
    civil_seconds, civil_to_seconds, lemma_civil_seconds_injective, lemma_civil_seconds_range,
    local_day, valid_civil, year_of_day, year_of_day_spec, Instant, TimeSource,
};
use crate::zone::{has_overlong_offset, is_offset, local_offset_at, overlong_offset, LOOKUP_LIMIT};

verus! {

/// What reading a reference file's metadata gave.
#[derive(Clone, Debug, PartialEq, Eq)]
pub enum ReferenceTimes {
    /// Its access and modification times.
    Read { access: Instant, modify: Instant },
    /// The file at `path` is missing or its times could not be read.
    Unreadable { path: String },
}

/// The time-source options: `-d`, `-t` and `-r`; at most one may be given.
#[derive(Clone, Debug)]
pub struct TimeOptions {
    pub date: Option<String>,
    pub compact: Option<String>,
    pub reference: Option<ReferenceTimes>,
}

#[derive(Clone, Debug, PartialEq, Eq)]
pub enum ResolveError {
    /// More than one of date, compact time and reference was given.
    ConflictingTimeSource,
    /// The date string could not be parsed.
    InvalidDateString(String),
    /// The compact time string is not a valid `[[CC]YY]MMDDhhmm[.ss]`.
    InvalidTimeString(String),
    /// The reference file's times could not be read.
    ReferenceUnreadable(String),
}

/// The local year of `now` on a clock `offset` seconds ahead of UTC, where it
/// lies in 0 ..= 9999.
pub open spec fn current_year(now: Instant, offset: int) -> Option<i64> {
    match year_of_day_spec((now.secs + offset) / 86400) {
        Some(y) => Some(y as i64),
        None => None,
    }
}

/// The instant that the compact time `s` names as local time: the year, where
/// `s` omits it, is that of `now` under the offset `now_offset`, and the
/// local time is `offset` seconds ahead of UTC.
pub open spec fn compact_instant(s: Seq<char>, now: Instant, now_offset: int, offset: int) -> Option<
    Instant,
> {
    match compact_fields(s, current_year(now, now_offset)) {
        Some(c) => Some(Instant { secs: (civil_seconds(c) - offset) as i64, nanos: 0 }),
        None => None,
    }
}

/// How many of the three time-source options are given.
pub open spec fn sources_given(opts: TimeOptions) -> int {
    (if opts.date is Some { 1int } else { 0 }) + (if opts.compact is Some { 1int } else { 0 }) + (
    if opts.reference is Some {
        1int
    } else {
        0
    })
}

/// The outcome of resolving `opts`, where the date string, if any, parsed to
/// `parsed_date`, and compact times are read with the offsets `now_offset`
/// and `offset` (see `compact_instant`).
pub open spec fn resolve_spec(
    opts: TimeOptions,
    parsed_date: Option<Instant>,
    now: Instant,
    now_offset: int,
    offset: int,
) -> Result<TimeSource, ResolveError> {
    if sources_given(opts) > 1 {
        Err(ResolveError::ConflictingTimeSource)
    } else if opts.date is Some {
        match parsed_date {
            Some(t) => Ok(TimeSource::Single(t)),
            None => Err(ResolveError::InvalidDateString(opts.date.unwrap())),
        }
    } else if opts.compact is Some {
        match compact_instant(opts.compact.unwrap()@, now, now_offset, offset) {
            Some(t) => Ok(TimeSource::Single(t)),
            None => Err(ResolveError::InvalidTimeString(opts.compact.unwrap())),
        }
    } else {
        match opts.reference {
            Some(ReferenceTimes::Read { access, modify }) => Ok(TimeSource::Pair(access, modify)),
            Some(ReferenceTimes::Unreadable { path }) => Err(ResolveError::ReferenceUnreadable(path)),
            None => Ok(TimeSource::Single(now)),
        }
    }
}

/// Relies on dateparser::parse, which reads free-form date strings; where the
/// string has no zone or no time of day it takes the machine's zone and the
/// current time, so nothing is stated of the result. It panics on a trailing
/// zone offset of a day or more (chrono's `FixedOffset::east`), which
/// `requires` leaves out.
#[verifier::external_body]
fn parse_date(s: &str) -> (r: Option<Instant>)
    requires
        !overlong_offset(s@),
{
    match dateparser::parse(s) {
        Ok(t) => Some(Instant { secs: t.timestamp(), nanos: t.timestamp_subsec_nanos() }),
        Err(_) => None,
    }
}

/// Parses a free-form date string; one that ends in a zone offset of a day or
/// more is refused without calling the parser.
pub fn parse_date_checked(s: &str) -> (r: Option<Instant>)
    ensures
        overlong_offset(s@) ==> r is None,
{
    if has_overlong_offset(s) {
        None
    } else {
        parse_date(s)
    }
}

/// The instant that the compact time `s` names, as local time under the
/// given offsets (see `compact_instant`).
pub fn resolve_compact_at(s: &str, now: Instant, now_offset: i32, offset: i32) -> (r: Option<Instant>)
    ensures
        r == compact_instant(s@, now, now_offset as int, offset as int),
        r matches Some(t) ==> -200_000_000_000 <= t.secs <= 400_000_000_000,
{
    let year = year_of_day(local_day(now, now_offset));
    match parse_compact(s, year) {
        Some(c) => Some(Instant { secs: civil_to_seconds(&c) - offset as i64, nanos: 0 }),
        None => None,
    }
}

/// The machine's offsets for reading the compact time `s`: the one in force
/// at `now`, and the one in force at the time `s` names (UTC where the zone
/// gives none, or `now` lies beyond the range of the zone lookup).
fn local_offsets(s: &str, now: Instant) -> (r: (i32, i32))
    ensures
        is_offset(r.0 as int),
        is_offset(r.1 as int),
{
    let now_offset = if -LOOKUP_LIMIT <= now.secs && now.secs <= LOOKUP_LIMIT {
        match local_offset_at(now.secs) {
            Some(o) => o,
            None => 0,
        }
    } else {
        0
    };
    let offset = match resolve_compact_at(s, now, now_offset, now_offset) {
        Some(guess) => match local_offset_at(guess.secs) {
            Some(o) => o,
            None => now_offset,
        },
        None => now_offset,
    };
    (now_offset, offset)
}

/// The instant that the compact time `s` names in the machine's zone;
/// without a year in `s`, the local year of `now`.
pub fn resolve_compact(s: &str, now: Instant) -> (r: Option<Instant>)
    ensures
        exists|o1: int, o2: int|
            is_offset(o1) && is_offset(o2) && r == compact_instant(s@, now, o1, o2),
{
    let (o1, o2) = local_offsets(s, now);
    let r = resolve_compact_at(s, now, o1, o2);
    assert(is_offset(o1 as int) && is_offset(o2 as int) && r == compact_instant(
        s@,
        now,
        o1 as int,
        o2 as int,
    ));
    r
}

/// Resolves the time source, given what the date string (if any) parsed to
/// and the offsets for a compact time.
///
/// No option gives `now`; exactly one gives the instant it names, or the
/// reference file's pair of times; two or more are a conflict.
pub fn resolve_with(
    opts: &TimeOptions,
    parsed_date: Option<Instant>,
    now: Instant,
    now_offset: i32,
    offset: i32,
) -> (r: Result<TimeSource, ResolveError>)
    ensures
        r == resolve_spec(*opts, parsed_date, now, now_offset as int, offset as int),
{
    match (&opts.date, &opts.compact, &opts.reference) {
        (None, None, None) => Ok(TimeSource::Single(now)),
        (Some(d), None, None) => match parsed_date {
            Some(t) => Ok(TimeSource::Single(t)),
            None => Err(ResolveError::InvalidDateString(d.clone())),
        },
        (None, Some(c), None) => match resolve_compact_at(c.as_str(), now, now_offset, offset) {
            Some(t) => Ok(TimeSource::Single(t)),
            None => Err(ResolveError::InvalidTimeString(c.clone())),
        },
        (None, None, Some(ReferenceTimes::Read { access, modify })) => Ok(
            TimeSource::Pair(*access, *modify),
        ),
        (None, None, Some(ReferenceTimes::Unreadable { path })) => Err(
            ResolveError::ReferenceUnreadable(path.clone()),
        ),
        _ => Err(ResolveError::ConflictingTimeSource),
    }
}

/// Resolves the time source: parses the date string, or reads the compact
/// time in the machine's zone, where that is the one option given.
pub fn resolve(opts: &TimeOptions, now: Instant) -> (r: Result<TimeSource, ResolveError>)
    ensures
        exists|p: Option<Instant>, o1: int, o2: int|
            is_offset(o1) && is_offset(o2) && r == resolve_spec(*opts, p, now, o1, o2),
        opts.date matches Some(d) && overlong_offset(d@) ==> r == resolve_spec(
            *opts,
            None,
            now,
            0,
            0,
        ),
        (opts.date is None && opts.compact is None) || sources_given(*opts) > 1 ==> r
            == resolve_spec(*opts, None, now, 0, 0),
{
    let (parsed, o1, o2) = match (&opts.date, &opts.compact, &opts.reference) {
        (Some(d), None, None) => (parse_date_checked(d.as_str()), 0, 0),
        (None, Some(c), None) => {
            let (o1, o2) = local_offsets(c.as_str(), now);
            (None, o1, o2)
        },
        _ => (None, 0, 0),
    };
    let r = resolve_with(opts, parsed, now, o1, o2);
    assert(is_offset(o1 as int) && is_offset(o2 as int) && r == resolve_spec(
        *opts,
        parsed,
        now,
        o1 as int,
        o2 as int,
    ));
    r
}

/// Two or more time-source options always conflict, whatever they hold: no
/// option silently wins.
pub proof fn lemma_two_sources_conflict(
    opts: TimeOptions,
    parsed_date: Option<Instant>,
    now: Instant,
    now_offset: int,
    offset: int,
)
    requires
        sources_given(opts) >= 2,
    ensures
        resolve_spec(opts, parsed_date, now, now_offset, offset) == Err::<TimeSource, ResolveError>(
            ResolveError::ConflictingTimeSource,
        ),
{
}

/// A single time-source option resolves to exactly what it names: the parsed
/// date, the reference file's two times, or the instant of a valid compact
/// time. That instant, shifted by the local offset, is the seconds of the
/// date and time of day written, and of no other valid one: formatting it back
/// in the same zone gives the fields that were read.
pub proof fn lemma_single_source(
    opts: TimeOptions,
    parsed_date: Option<Instant>,
    now: Instant,
    now_offset: int,
    offset: int,
)
    requires
        sources_given(opts) == 1,
        is_offset(offset),
    ensures
        opts.date is Some ==> resolve_spec(opts, parsed_date, now, now_offset, offset)
            == match parsed_date {
            Some(t) => Ok(TimeSource::Single(t)),
            None => Err(ResolveError::InvalidDateString(opts.date.unwrap())),
        },
        opts.reference matches Some(ReferenceTimes::Read { access, modify }) ==> resolve_spec(
            opts,
            parsed_date,
            now,
            now_offset,
            offset,
        ) == Ok::<TimeSource, ResolveError>(TimeSource::Pair(access, modify)),
        opts.compact matches Some(s) ==> match compact_fields(s@, current_year(now, now_offset)) {
            Some(c) => {
                &&& resolve_spec(opts, parsed_date, now, now_offset, offset) matches Ok(
                    TimeSource::Single(t),
                ) && t.nanos == 0 && t.secs + offset == civil_seconds(c)
                &&& forall|c2: (int, int, int, int, int, int)|
                    valid_civil(c2) && #[trigger] civil_seconds(c2) == civil_seconds(c) ==> c2 == c
            },
            None => resolve_spec(opts, parsed_date, now, now_offset, offset) == Err::<
                TimeSource,
                ResolveError,
            >(ResolveError::InvalidTimeString(s)),
        },
{
    if let Some(s) = opts.compact {
        if let Some(c) = compact_fields(s@, current_year(now, now_offset)) {
            assert(-100_000_000_000 <= civil_seconds(c) <= 300_000_000_000) by {
                lemma_civil_seconds_range(c);
            }
            assert forall|c2: (int, int, int, int, int, int)|
                valid_civil(c2) && #[trigger] civil_seconds(c2) == civil_seconds(c) implies c2 == c by {
                lemma_civil_seconds_injective(c2, c);
            }
        }
    }
}

} // verus!
