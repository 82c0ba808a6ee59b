use tick::policy::{decide, pick, Attribute, Category, SelectionFlags, TimestampInstruction, Word};
use tick::time::{Instant, TimeSource};

fn at(secs: i64) -> Instant {
    Instant { secs, nanos: 0 }
}

fn flags(access_only: bool, modify_only: bool, category: Option<&str>) -> SelectionFlags {
    SelectionFlags { access_only, modify_only, category: category.map(|s| s.to_string()) }
}

#[test]
fn both_flags_set_both_times() {
    let t = at(1_000);
    let r = decide(&TimeSource::Single(t), &flags(true, true, None));
    assert_eq!(r, TimestampInstruction { access: Some(t), modify: Some(t) });
}

#[test]
fn both_flags_ignore_the_word() {
    let t = at(1_000);
    let r = decide(&TimeSource::Single(t), &flags(true, true, Some("mtime")));
    assert_eq!(r, TimestampInstruction { access: Some(t), modify: Some(t) });
}

#[test]
fn access_flag_sets_access_only() {
    let t = at(1_000);
    let r = decide(&TimeSource::Single(t), &flags(true, false, None));
    assert_eq!(r, TimestampInstruction { access: Some(t), modify: None });
}

#[test]
fn mtime_word_sets_modify_only() {
    let t = at(1_000);
    let r = decide(&TimeSource::Single(t), &flags(false, false, Some("mtime")));
    assert_eq!(r, TimestampInstruction { access: None, modify: Some(t) });
}

#[test]
fn word_wins_over_access_flag() {
    let t = at(1_000);
    let r = decide(&TimeSource::Single(t), &flags(true, false, Some("modify")));
    assert_eq!(r, TimestampInstruction { access: None, modify: Some(t) });
}

#[test]
fn pair_without_flags_sets_each_time_apart() {
    let a = at(100);
    let m = at(200);
    let r = decide(&TimeSource::Pair(a, m), &flags(false, false, None));
    assert_eq!(r, TimestampInstruction { access: Some(a), modify: Some(m) });
}

#[test]
fn modify_flag_sets_modify_only() {
    let a = at(100);
    let m = at(200);
    let r = decide(&TimeSource::Pair(a, m), &flags(false, true, None));
    assert_eq!(r, TimestampInstruction { access: None, modify: Some(m) });
}

#[test]
fn modify_flag_with_access_word_sets_both() {
    let a = at(100);
    let m = at(200);
    let r = decide(&TimeSource::Pair(a, m), &flags(false, true, Some("atime")));
    assert_eq!(r, TimestampInstruction { access: Some(a), modify: Some(m) });
}

#[test]
fn modify_flag_with_modify_word_sets_modify() {
    let t = at(7);
    let r = decide(&TimeSource::Single(t), &flags(false, true, Some("modify")));
    assert_eq!(r, TimestampInstruction { access: None, modify: Some(t) });
}

#[test]
fn unknown_word_reads_as_access() {
    let a = at(100);
    let m = at(200);
    let src = TimeSource::Pair(a, m);
    let bogus = decide(&src, &flags(false, false, Some("bogus")));
    assert_eq!(bogus, TimestampInstruction { access: Some(a), modify: None });
    assert_eq!(bogus, decide(&src, &flags(false, false, Some("use"))));
    assert_eq!(bogus, decide(&src, &flags(false, false, Some("access"))));
    let with_m = decide(&src, &flags(false, true, Some("bogus")));
    assert_eq!(with_m, decide(&src, &flags(false, true, Some("use"))));
    assert_eq!(with_m, TimestampInstruction { access: Some(a), modify: Some(m) });
}

#[test]
fn words_ignore_case() {
    assert_eq!(Word::parse("MTIME"), Word::Mtime);
    assert_eq!(Word::parse("Access"), Word::Access);
    assert_eq!(Word::parse("aTiMe"), Word::Atime);
    assert_eq!(Word::parse("USE"), Word::Use);
    assert_eq!(Word::parse("modify"), Word::Modify);
    assert_eq!(Word::parse("modif"), Word::Use);
    assert_eq!(Word::parse(""), Word::Use);
    assert_eq!(Word::from(String::from("MODIFY")), Word::Modify);
}

#[test]
fn word_categories() {
    assert_eq!(Word::Access.category(), Category::AccessClass);
    assert_eq!(Word::Atime.category(), Category::AccessClass);
    assert_eq!(Word::Use.category(), Category::AccessClass);
    assert_eq!(Word::Modify.category(), Category::ModifyClass);
    assert_eq!(Word::Mtime.category(), Category::ModifyClass);
}

#[test]
fn pick_takes_the_matching_half() {
    let a = at(1);
    let m = at(2);
    assert_eq!(pick(&TimeSource::Pair(a, m), Attribute::Access), a);
    assert_eq!(pick(&TimeSource::Pair(a, m), Attribute::Modify), m);
    assert_eq!(pick(&TimeSource::Single(a), Attribute::Modify), a);
}

#[test]
fn instruction_builders() {
    let a = at(1);
    let m = at(2);
    let src = TimeSource::Pair(a, m);
    let mut r = TimestampInstruction::none();
    assert_eq!(r, TimestampInstruction { access: None, modify: None });
    r.set_modified(&src);
    assert_eq!(r, TimestampInstruction { access: None, modify: Some(m) });
    r.on_time("use", &src);
    assert_eq!(r, TimestampInstruction { access: Some(a), modify: Some(m) });
    let mut s = TimestampInstruction::none();
    s.set_access(&src);
    assert_eq!(s, TimestampInstruction { access: Some(a), modify: None });
}
