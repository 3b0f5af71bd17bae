use chrono::{DateTime, TimeDelta, Utc};
use crates_io_logic::deleted::State;
use crates_io_logic::semver::SemVer;
use crates_io_logic::time::UtcTime;

fn time(dt: DateTime<Utc>) -> UtcTime {
    UtcTime::from_parts(dt.timestamp(), dt.timestamp_subsec_nanos()).unwrap()
}

fn parse_time(s: &str) -> DateTime<Utc> {
    s.parse().unwrap()
}

fn version(s: &str) -> SemVer {
    SemVer::parse(s).unwrap()
}

fn state(available_at: &[DateTime<Utc>], min_versions: &[&str]) -> State {
    let mut state = State::new();
    for a in available_at {
        state.observe_available_at(time(*a));
    }
    for v in min_versions {
        state.observe_min_version(version(v));
    }
    state
}

const PREFIX: &str = "A crate with the name `foo` was previously deleted.\n\n* ";

#[test]
fn empty_state() {
    // Any combination of values should result in Ok, since there are no
    // deleted crates.
    for (name, version_text, now) in [
        ("foo", "0.0.0", "2024-11-20T01:00:00Z"),
        ("bar", "1.0.0", "1970-01-01T00:00:00Z"),
    ] {
        assert!(State::new()
            .into_result(name, &version(version_text), &time(parse_time(now)))
            .is_ok());
    }
}

#[test]
fn available_at_only() {
    let available_at = parse_time("2024-11-20T00:00:00Z");
    let v = version("0.0.0");
    let s = || state(&[available_at], &[]);

    // There should be no error for a crate after available_at.
    assert!(s()
        .into_result("foo", &v, &time(available_at + TimeDelta::seconds(60)))
        .is_ok());

    // Similarly, a crate actually _at_ available_at should be fine.
    assert!(s().into_result("foo", &v, &time(available_at)).is_ok());

    // But a crate one second earlier should error.
    let text = s()
        .into_result("foo", &v, &time(available_at - TimeDelta::seconds(1)))
        .unwrap_err();
    assert_eq!(
        text,
        format!("{PREFIX}Reuse of this name will be available after 2024-11-20T00:00:00Z.")
    );
}

#[test]
fn min_version_only() {
    let available_at = parse_time("2024-11-20T00:00:00Z");

    // Test the versions that we expect to pass.
    for (min_version, publish_version) in [
        ("0.1.0", "0.1.0"),
        ("0.1.0", "0.1.1"),
        ("0.1.0", "0.2.0"),
        ("0.1.0", "1.0.0"),
        ("1.0.0", "1.0.0"),
        ("1.0.0", "1.0.1"),
        ("1.0.0", "2.0.0"),
    ] {
        let s = state(&[available_at], &[min_version]);
        assert!(s
            .into_result("foo", &version(publish_version), &time(available_at))
            .is_ok());
    }

    // Now test the versions that we expect to fail.
    for (min_version, publish_version) in [("0.1.0", "0.0.0"), ("1.0.0", "0.1.0")] {
        let s = state(&[available_at], &[min_version]);
        let text = s
            .into_result("foo", &version(publish_version), &time(available_at))
            .unwrap_err();
        assert_eq!(
            text,
            format!("{PREFIX}To avoid conflicts with previously published versions of this crate, the minimum version that can be published is {min_version}.")
        );
    }
}

#[test]
fn multiple_deleted() {
    // The most restrictive available_at and min_version are used when
    // multiple deleted crates are observed.
    let earlier_available_at = parse_time("2024-11-20T00:00:00Z");
    let later_available_at = parse_time("2024-11-21T12:00:00Z");
    let s = || {
        state(
            &[earlier_available_at, later_available_at, earlier_available_at],
            &["0.1.0", "1.0.0", "0.1.0"],
        )
    };
    let first_version = version("0.1.0");
    let second_version = version("1.0.0");

    assert!(s()
        .into_result("foo", &second_version, &time(later_available_at))
        .is_ok());

    let reuse = "Reuse of this name will be available after 2024-11-21T12:00:00Z.";
    let minimum = "To avoid conflicts with previously published versions of this crate, the minimum version that can be published is 1.0.0.";

    // Now the bad cases.
    for (name, v, now, expected) in [
        (
            "min_version",
            &first_version,
            later_available_at,
            format!("{PREFIX}{minimum}"),
        ),
        (
            "available_at",
            &second_version,
            earlier_available_at,
            format!("{PREFIX}{reuse}"),
        ),
        (
            "both",
            &first_version,
            earlier_available_at,
            format!("{PREFIX}{reuse}\n* {minimum}"),
        ),
    ] {
        let text = s().into_result("foo", v, &time(now)).unwrap_err();
        assert_eq!(text, expected, "{name}");
    }
}

#[test]
fn state_from_deleted_rows_skips_unparsable_versions() {
    let t1 = time(parse_time("2024-11-20T00:00:00Z"));
    let t2 = time(parse_time("2024-11-22T00:00:00Z"));
    let rows = vec![
        (t2, Some("not a version".to_string())),
        (t1, Some("2.0.0".to_string())),
        (t1, None),
    ];
    let s = State::from_deleted_crates(&rows);
    assert_eq!(s.available_at, Some(t2));
    assert_eq!(s.min_version.as_ref().map(|v| v.as_str()), Some("2.0.0"));
}

#[test]
fn later_reuse_time_wins_in_any_order() {
    let t1 = time(parse_time("2024-11-20T00:00:00Z"));
    let t2 = time(parse_time("2024-11-21T00:00:00Z"));
    let mut a = State::new();
    a.observe_available_at(t2);
    a.observe_available_at(t1);
    let mut b = State::new();
    b.observe_available_at(t1);
    b.observe_available_at(t2);
    assert_eq!(a.available_at, Some(t2));
    assert_eq!(b.available_at, Some(t2));
}
