use crates_io_logic::downloads::{split_latest_versions, VersionRef};
use crates_io_logic::legacy::{legacy_pagination, parse_usize, wants_json, LegacyPageError};
use crates_io_logic::owners::{
    check_individual_owner_remains, invalid_email_message, is_user_owner, owners_removed_message,
    OwnerRef,
};
use crates_io_logic::session::{signup_account, GitHubUser, PendingSignup, SignupDetails};
use crates_io_logic::time::UtcTime;

#[test]
fn accept_header_mentions_json() {
    assert!(wants_json(&vec!["text/html".to_string(), "application/json".to_string()]));
    assert!(!wants_json(&vec!["text/html".to_string()]));
    assert!(!wants_json(&vec![]));
}

#[test]
fn parse_usize_agrees_with_std() {
    let samples = [
        "0",
        "5",
        "+5",
        "+",
        "",
        "-1",
        "1.0",
        "12a",
        "007",
        "18446744073709551615",
        "18446744073709551616",
        "99999999999999999999999",
        " 1",
    ];
    for s in samples {
        assert_eq!(parse_usize(s), s.parse::<usize>().ok(), "input {:?}", s);
    }
}

#[test]
fn legacy_pagination_defaults_and_offsets() {
    assert_eq!(legacy_pagination(None, None, 10, 100), Ok((0, 10)));
    assert_eq!(legacy_pagination(Some("3"), Some("20"), 10, 100), Ok((40, 20)));
    // A parameter that does not parse counts as absent.
    assert_eq!(legacy_pagination(Some("abc"), Some("x"), 10, 100), Ok((0, 10)));
    assert_eq!(legacy_pagination(Some("2"), Some("0"), 10, 100), Ok((0, 0)));
}

#[test]
fn legacy_pagination_errors() {
    let too_many = legacy_pagination(None, Some("101"), 10, 100);
    assert_eq!(too_many, Err(LegacyPageError::TooManyItems(100)));
    assert_eq!(too_many.unwrap_err().message(), "cannot request more than 100 items");
    let zero = legacy_pagination(Some("0"), None, 10, 100);
    assert_eq!(zero, Err(LegacyPageError::PageZero));
    assert_eq!(zero.unwrap_err().message(), "page indexing starts from 1, page 0 is invalid");
    // The size is checked before the page.
    assert_eq!(
        legacy_pagination(Some("0"), Some("500"), 10, 100),
        Err(LegacyPageError::TooManyItems(100))
    );
}

fn version(id: i32, num: &str) -> VersionRef {
    VersionRef { id, num: num.to_string() }
}

#[test]
fn latest_versions_split_after_five() {
    let versions = vec![
        version(1, "0.1.0"),
        version(2, "0.3.0"),
        version(3, "0.2.0"),
        version(4, "1.0.0"),
        version(5, "0.10.0"),
        version(6, "0.9.0"),
        version(7, "0.4.0"),
    ];
    let (latest, rest) = split_latest_versions(versions);
    let latest: Vec<&str> = latest.iter().map(|v| v.num.as_str()).collect();
    let rest: Vec<&str> = rest.iter().map(|v| v.num.as_str()).collect();
    // Ordered as text, greatest first.
    assert_eq!(latest, vec!["1.0.0", "0.9.0", "0.4.0", "0.3.0", "0.2.0"]);
    assert_eq!(rest, vec!["0.10.0", "0.1.0"]);
}

#[test]
fn few_versions_are_all_shown() {
    let (latest, rest) = split_latest_versions(vec![version(1, "1.0.0"), version(2, "2.0.0")]);
    assert_eq!(latest, vec![version(2, "2.0.0"), version(1, "1.0.0")]);
    assert!(rest.is_empty());
    let (latest, rest) = split_latest_versions(vec![]);
    assert!(latest.is_empty() && rest.is_empty());
}

#[test]
fn owner_removal_helpers() {
    let owners = vec![OwnerRef::Team { org_id: 9, github_id: 3 }, OwnerRef::User(7)];
    assert!(is_user_owner(&owners, 7));
    assert!(!is_user_owner(&owners, 3));
    assert_eq!(
        invalid_email_message("foo"),
        "user `foo` has an invalid email address"
    );
    assert!(check_individual_owner_remains(1).is_ok());
    assert_eq!(
        check_individual_owner_remains(0).unwrap_err(),
        "cannot remove all individual owners of a crate. Team member don't have permission to modify owners, so at least one individual owner is required."
    );
    assert_eq!(owners_removed_message(), "owners successfully removed");
}

fn github_user(email: Option<&str>) -> GitHubUser {
    GitHubUser {
        avatar_url: None,
        email: email.map(|e| e.to_string()),
        id: 42,
        login: "ghost".into(),
        name: Some("Ghost".into()),
    }
}

#[test]
fn signup_details_and_account() {
    let now = UtcTime::from_parts(1_700_000_000, 0).unwrap();
    let pending = PendingSignup::new(github_user(Some("gh@example.com")), vec![1, 2, 3], now);
    let details = SignupDetails::from_pending(&pending);
    assert_eq!(details.login, "ghost");
    assert_eq!(details.email.as_deref(), Some("gh@example.com"));

    let account = signup_account(pending, "chosen@example.com".to_string());
    assert_eq!(account.email.as_deref(), Some("chosen@example.com"));
    assert_eq!(account.login, "ghost");
    assert_eq!(account.id, 42);

    let without = PendingSignup::new(github_user(None), vec![], now);
    assert_eq!(SignupDetails::from_pending(&without).email, None);
}
