use chrono::DateTime;
use crates_io_logic::semver::{is_wildcard_requirement, SemVer};
use crates_io_logic::time::{to_rfc3339_secs, UtcTime, MAX_SECS, MIN_SECS};

#[test]
fn time_range_is_that_of_chrono() {
    assert!(DateTime::from_timestamp(MAX_SECS, 999_999_999).is_some());
    assert!(DateTime::from_timestamp(MIN_SECS, 0).is_some());
    assert!(DateTime::from_timestamp(MAX_SECS + 1, 0).is_none());
    assert!(DateTime::from_timestamp(MIN_SECS - 1, 999_999_999).is_none());

    assert!(UtcTime::from_parts(MAX_SECS, 999_999_999).is_some());
    assert!(UtcTime::from_parts(MIN_SECS, 0).is_some());
    assert!(UtcTime::from_parts(MAX_SECS + 1, 0).is_none());
    assert!(UtcTime::from_parts(MIN_SECS - 1, 0).is_none());
    assert!(UtcTime::from_parts(0, 1_000_000_000).is_none());
}

#[test]
fn time_arithmetic_and_order() {
    let a = UtcTime::from_parts(10, 5).unwrap();
    let b = UtcTime::from_parts(12, 0).unwrap();
    assert_eq!(a.secs(), 10);
    assert_eq!(a.nanos(), 5);
    assert_eq!(a.as_nanos(), 10_000_000_005);
    assert!(a.before(&b));
    assert!(!b.before(&a));
    assert!(!a.before(&a));
    assert_eq!(b.nanos_since(&a), 1_999_999_995);
    assert_eq!(a.nanos_since(&b), -1_999_999_995);
}

#[test]
fn rfc3339_rendering_with_whole_seconds() {
    let t = UtcTime::from_parts(1_732_060_800, 123).unwrap();
    assert_eq!(to_rfc3339_secs(&t), "2024-11-20T00:00:00Z");
    let epoch = UtcTime::from_parts(0, 0).unwrap();
    assert_eq!(to_rfc3339_secs(&epoch), "1970-01-01T00:00:00Z");
}

#[test]
fn semver_parsing_order_and_display() {
    assert!(SemVer::parse("1.0.0").is_some());
    assert!(SemVer::parse("1.0").is_none());
    assert!(SemVer::parse("not a version").is_none());
    let a = SemVer::parse("1.0.0-alpha").unwrap();
    let b = SemVer::parse("1.0.0").unwrap();
    let c = SemVer::parse("1.10.0").unwrap();
    let d = SemVer::parse("1.9.0").unwrap();
    assert!(a.less_than(&b));
    assert!(!b.less_than(&a));
    assert!(d.less_than(&c));
    assert!(!b.less_than(&b.clone()));
    assert_eq!(c.to_display_string(), "1.10.0");
    assert_eq!(c.as_str(), "1.10.0");
}

#[test]
fn wildcard_requirements() {
    assert!(is_wildcard_requirement("*"));
    assert!(!is_wildcard_requirement("1.0"));
    assert!(!is_wildcard_requirement("^1"));
    assert!(!is_wildcard_requirement("not a requirement"));
}
