use tick::source::{
    parse_date_checked, resolve, resolve_compact, resolve_compact_at, resolve_with, ReferenceTimes, ResolveError,
    TimeOptions,
};
use tick::zone::has_overlong_offset;
use tick::time::{Instant, TimeSource};

fn at(secs: i64) -> Instant {
    Instant { secs, nanos: 0 }
}

fn opts(date: Option<&str>, compact: Option<&str>, reference: Option<ReferenceTimes>) -> TimeOptions {
    TimeOptions {
        date: date.map(|s| s.to_string()),
        compact: compact.map(|s| s.to_string()),
        reference,
    }
}

const NOW_2024: i64 = 1_704_110_400;

#[test]
fn compact_time_round_trip() {
    let r = resolve_with(&opts(None, Some("202401011200"), None), None, at(0), 0, 0);
    assert_eq!(r, Ok(TimeSource::Single(at(1_704_110_400))));
}

#[test]
fn compact_time_with_seconds() {
    assert_eq!(resolve_compact_at("202401011200.30", at(0), 0, 0), Some(at(1_704_110_430)));
}

#[test]
fn compact_two_digit_years() {
    assert_eq!(resolve_compact_at("2401011200", at(0), 0, 0), Some(at(1_704_110_400)));
    assert_eq!(resolve_compact_at("6901011200", at(0), 0, 0), Some(at(-31_492_800)));
    assert_eq!(resolve_compact_at("6801010000", at(0), 0, 0), Some(at(3_092_601_600)));
}

#[test]
fn compact_without_year_takes_current_year() {
    assert_eq!(resolve_compact_at("07041530", at(NOW_2024), 0, 0), Some(at(1_720_107_000)));
}

#[test]
fn compact_leap_days() {
    assert_eq!(resolve_compact_at("202402290000", at(0), 0, 0), Some(at(1_709_164_800)));
    assert_eq!(resolve_compact_at("202302290000", at(0), 0, 0), None);
    assert_eq!(resolve_compact_at("200002290000", at(0), 0, 0), Some(at(951_782_400)));
    assert_eq!(resolve_compact_at("190002290000", at(0), 0, 0), None);
}

#[test]
fn compact_rejects_bad_input() {
    for s in ["", "abc", "2024010112", "202401011", "202413011200", "202401011260", "202401012400",
        "202401011200.60", "202401011200.5", "2024-01-01", "202401011200.3x", "1200"] {
        assert_eq!(resolve_compact_at(s, at(0), 0, 0), None, "{}", s);
        assert_eq!(resolve_compact(s, at(0)), None, "{}", s);
    }
}

#[test]
fn invalid_compact_time_is_an_error() {
    let r = resolve(&opts(None, Some("202402301200"), None), at(0));
    assert_eq!(r, Err(ResolveError::InvalidTimeString("202402301200".to_string())));
}

#[test]
fn no_option_gives_now() {
    let now = Instant { secs: 42, nanos: 7 };
    assert_eq!(resolve(&opts(None, None, None), now), Ok(TimeSource::Single(now)));
}

#[test]
fn reference_gives_pair() {
    let read = ReferenceTimes::Read { access: at(10), modify: at(20) };
    assert_eq!(resolve(&opts(None, None, Some(read.clone())), at(0)), Ok(TimeSource::Pair(at(10), at(20))));
    let gone = ReferenceTimes::Unreadable { path: "gone.txt".to_string() };
    let r = resolve(&opts(None, None, Some(gone)), at(0));
    assert_eq!(r, Err(ResolveError::ReferenceUnreadable("gone.txt".to_string())));
}

#[test]
fn date_string_is_parsed() {
    let r = resolve(&opts(Some("2021-05-01T01:17:02.604456Z"), None, None), at(0));
    assert_eq!(r, Ok(TimeSource::Single(Instant { secs: 1_619_831_822, nanos: 604_456_000 })));
}

#[test]
fn bad_date_string_is_an_error() {
    let r = resolve(&opts(Some("not a date at all"), None, None), at(0));
    assert_eq!(r, Err(ResolveError::InvalidDateString("not a date at all".to_string())));
}

#[test]
fn date_with_given_parse() {
    let o = opts(Some("whatever"), None, None);
    assert_eq!(resolve_with(&o, Some(at(5)), at(0), 0, 0), Ok(TimeSource::Single(at(5))));
    let e = ResolveError::InvalidDateString("whatever".to_string());
    assert_eq!(resolve_with(&o, None, at(0), 0, 0), Err(e));
}

#[test]
fn two_sources_conflict() {
    let read = ReferenceTimes::Read { access: at(10), modify: at(20) };
    let cases = vec![
        opts(Some("2021-05-01"), Some("202401011200"), None),
        opts(Some("2021-05-01"), None, Some(read.clone())),
        opts(None, Some("202401011200"), Some(read.clone())),
        opts(Some("2021-05-01"), Some("202401011200"), Some(read.clone())),
        opts(Some("bad"), Some("bad"), Some(ReferenceTimes::Unreadable { path: "x".to_string() })),
    ];
    for o in cases.iter() {
        assert_eq!(resolve(o, at(0)), Err(ResolveError::ConflictingTimeSource));
        assert_eq!(resolve_with(o, Some(at(1)), at(0), 3600, 7200), Err(ResolveError::ConflictingTimeSource));
    }
}

#[test]
fn compact_time_in_a_zone() {
    // Noon at one hour east of UTC is 11:00 UTC.
    assert_eq!(resolve_compact_at("202401011200", at(0), 3600, 3600), Some(at(1_704_106_800)));
    // West of UTC, just after midnight UTC on 1 January 2024 is still 2023 locally.
    assert_eq!(resolve_compact_at("06011200", at(1_704_067_300), -3600, 0), Some(at(1_685_620_800)));
    assert_eq!(resolve_compact_at("06011200", at(1_704_067_300), 0, 0), Some(at(1_717_243_200)));
}

#[test]
fn compact_time_in_the_machine_zone() {
    let r = resolve_compact("202401011200", at(NOW_2024)).unwrap();
    assert_eq!(r.nanos, 0);
    assert!((r.secs - 1_704_110_400).abs() < 86_400);
    let via = resolve(&opts(None, Some("202401011200"), None), at(NOW_2024));
    assert_eq!(via, Ok(TimeSource::Single(r)));
}

#[test]
fn overlong_zone_offsets_are_refused() {
    for s in ["2021-01-01+9900", "2021-01-01 10:00:00 +2400", "10:00 +99:00", "2021-01-01 -24:00"] {
        assert!(has_overlong_offset(s), "{}", s);
        assert_eq!(parse_date_checked(s), None, "{}", s);
        let r = resolve(&opts(Some(s), None, None), at(0));
        assert_eq!(r, Err(ResolveError::InvalidDateString(s.to_string())));
    }
}

#[test]
fn ordinary_dates_are_not_overlong() {
    for s in ["2021-12-25", "2021-01-01 10:00:00 +2359", "10:00 -23:59", "+24", "+24:6x", "", "ab"] {
        assert!(!has_overlong_offset(s), "{}", s);
    }
    let r = parse_date_checked("2021-01-01 10:00:00 +0100");
    assert_eq!(r, Some(at(1_609_491_600)));
}
