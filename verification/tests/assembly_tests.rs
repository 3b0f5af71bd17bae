use crates_io_logic::invitations::{invitation_page, select_invitations, InvitationRow};
use crates_io_logic::listings::{admin_list_response, DatabaseCrateInfo};
use crates_io_logic::publish::{index_entry, tarball_checksum, DependencyKind, IndexDependency};
use crates_io_logic::session::{check_oauth_state, sign_in_edits, SessionEdit};
use crates_io_logic::time::UtcTime;

fn inv(c: i32, u: i32) -> InvitationRow {
    InvitationRow { crate_id: c, invited_user_id: u, invited_by_user_id: 99 }
}

fn at(secs: i64) -> UtcTime {
    UtcTime::from_parts(secs, 0).unwrap()
}

const DAY: i128 = 86_400_000_000_000;

#[test]
fn invitation_pages_are_ordered_unexpired_and_after_the_key() {
    let now = at(100 * 86_400);
    let fresh = at(99 * 86_400);
    let stale = at(60 * 86_400);
    let stored = vec![
        (inv(2, 1), fresh),
        (inv(1, 7), fresh),
        (inv(1, 3), stale),
        (inv(1, 5), fresh),
        (inv(3, 2), fresh),
    ];
    // Expired invitations are left out; the rest come by crate, then invitee.
    let rows = select_invitations(&stored, &now, 30 * DAY, None, 10);
    assert_eq!(rows, vec![inv(1, 5), inv(1, 7), inv(2, 1), inv(3, 2)]);

    let (page, next) = invitation_page(&stored, &now, 30 * DAY, None, 2);
    assert_eq!(page, vec![inv(1, 5), inv(1, 7)]);
    assert_eq!(next, Some((1, 7)));

    let (page, next) = invitation_page(&stored, &now, 30 * DAY, Some((1, 7)), 2);
    assert_eq!(page, vec![inv(2, 1), inv(3, 2)]);
    assert_eq!(next, None);

    let (page, next) = invitation_page(&stored, &now, 30 * DAY, Some((3, 2)), 2);
    assert!(page.is_empty());
    assert_eq!(next, None);
}

#[test]
fn sign_in_session_edits() {
    let (edits, r) = check_oauth_state(&Some("abc".to_string()), "abc");
    assert_eq!(edits, vec![SessionEdit::Remove("github_oauth_state".to_string())]);
    assert!(r.is_ok());
    let (edits, r) = check_oauth_state(&Some("abc".to_string()), "xyz");
    assert_eq!(edits, vec![SessionEdit::Remove("github_oauth_state".to_string())]);
    assert_eq!(r, Err("invalid state parameter".to_string()));
    let (_, r) = check_oauth_state(&None, "abc");
    assert_eq!(r, Err("invalid state parameter".to_string()));

    assert_eq!(
        sign_in_edits(Some(42)),
        vec![
            SessionEdit::Remove("pending_signup".to_string()),
            SessionEdit::Insert("user_id".to_string(), "42".to_string()),
        ]
    );
    assert_eq!(
        sign_in_edits(None),
        vec![SessionEdit::Remove("user_id".to_string()), SessionEdit::InsertPendingSignup]
    );
}

fn dep(name: &str) -> IndexDependency {
    IndexDependency {
        name: name.to_string(),
        req: "^1".to_string(),
        features: vec![],
        optional: false,
        default_features: true,
        target: None,
        kind: DependencyKind::Normal,
        package: None,
    }
}

fn feature(name: &str, values: &[&str]) -> (String, Vec<String>) {
    (name.to_string(), values.iter().map(|v| v.to_string()).collect())
}

#[test]
fn index_entries() {
    let tarball = b"tarball bytes".to_vec();
    let plain = vec![feature("default", &["std"]), feature("std", &[])];
    let e = index_entry(
        "foo".to_string(),
        "1.0.0".to_string(),
        vec![dep("bar")],
        &tarball,
        plain.clone(),
        None,
    );
    assert_eq!(e.name, "foo");
    assert_eq!(e.vers, "1.0.0");
    assert_eq!(e.deps, vec![dep("bar")]);
    assert_eq!(e.cksum, tarball_checksum(&tarball));
    assert_eq!(e.features, plain);
    assert_eq!(e.features2, None);
    assert_eq!(e.yanked, Some(false));
    assert_eq!(e.v, None);

    let newer = vec![feature("serde", &["dep:serde"]), feature("std", &[])];
    let e = index_entry(
        "foo".to_string(),
        "1.0.0".to_string(),
        vec![],
        &tarball,
        newer.clone(),
        Some("z".to_string()),
    );
    assert!(e.features.is_empty());
    assert_eq!(e.features2, Some(newer));
    assert_eq!(e.v, Some(2));
    assert_eq!(e.yanked, Some(false));
    assert_eq!(e.links, Some("z".to_string()));

    let weak = vec![feature("x", &["a?/b"])];
    assert_eq!(
        index_entry("a".into(), "0.1.0".into(), vec![], &tarball, weak, None).v,
        Some(2)
    );
}

fn stored_crate(name: &str, downloads: Option<i64>, recent: Option<i64>, versions: Option<i32>) -> DatabaseCrateInfo {
    DatabaseCrateInfo {
        name: name.to_string(),
        description: None,
        updated_at: at(0),
        downloads,
        recent_crate_downloads: recent,
        num_versions: versions,
        yanked: false,
        default_version_num: "1.0.0".to_string(),
        crate_size: 10,
        bin_names: None,
        num_rev_deps: 0,
    }
}

#[test]
fn admin_listing() {
    let r = admin_list_response(
        Some("a@example.com".to_string()),
        None,
        vec![
            stored_crate("a", Some(10), Some(5), Some(3)),
            stored_crate("b", None, None, None),
        ],
    );
    assert_eq!(r.user_email.as_deref(), Some("a@example.com"));
    assert!(!r.user_email_verified);
    assert_eq!(r.crates.len(), 2);
    assert_eq!(r.crates[0].name, "a");
    assert_eq!(r.crates[0].downloads, 15);
    assert_eq!(r.crates[0].num_versions, 3);
    assert_eq!(r.crates[1].downloads, 0);
    assert_eq!(r.crates[1].num_versions, 0);
    let r = admin_list_response(None, Some(true), vec![]);
    assert!(r.user_email_verified && r.crates.is_empty());
}
