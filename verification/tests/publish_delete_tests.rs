use crates_io_logic::delete::{
    check_deletion, downloads_as_u64, max_downloads, DeleteQueryParams, DeleteRefusal,
    GRACE_PERIOD_NANOS, NANOS_PER_DAY,
};
use crates_io_logic::owners::Rights;
use crates_io_logic::publish::{
    can_publish, check_dependency_registry, check_dependency_version_req,
    daily_version_limit_message, daily_version_limit_reached, index_dependency_kind,
    index_dependency_names, max_upload_size_message, missing_metadata_error_message,
    missing_metadata_fields, renamed_crate_message, split_body, uses_features2_syntax,
    DependencyError, DependencyKind, InvalidLength, WILDCARD_ERROR_MESSAGE,
    check_tarball_entry, TarballError,
};

#[test]
fn missing_metadata_error_message_test() {
    assert_eq!(missing_metadata_error_message(&["a"]), "missing or empty metadata fields: a. Please see https://doc.rust-lang.org/cargo/reference/manifest.html for how to upload metadata");
    assert_eq!(missing_metadata_error_message(&["a", "b"]), "missing or empty metadata fields: a, b. Please see https://doc.rust-lang.org/cargo/reference/manifest.html for how to upload metadata");
    assert_eq!(missing_metadata_error_message(&["a", "b", "c"]), "missing or empty metadata fields: a, b, c. Please see https://doc.rust-lang.org/cargo/reference/manifest.html for how to upload metadata");
}

#[test]
fn missing_metadata_fields_of_uploads() {
    let some = |s: &str| Some(s.to_string());
    assert_eq!(missing_metadata_fields(&None, &None, &None), vec!["description", "license"]);
    assert_eq!(
        missing_metadata_fields(&some(""), &None, &some("LICENSE")),
        vec!["description"]
    );
    assert!(missing_metadata_fields(&some("d"), &some("MIT"), &None).is_empty());
}

fn body(json: &[u8], tarball: &[u8]) -> Vec<u8> {
    let mut b = (json.len() as u32).to_le_bytes().to_vec();
    b.extend_from_slice(json);
    b.extend_from_slice(&(tarball.len() as u32).to_le_bytes());
    b.extend_from_slice(tarball);
    b
}

#[test]
fn publish_body_is_split_into_metadata_and_tarball() {
    let b = body(b"{\"name\":\"foo\"}", b"tarball bytes");
    let (json, tarball) = split_body(&b).unwrap();
    assert_eq!(json, b"{\"name\":\"foo\"}");
    assert_eq!(tarball, b"tarball bytes");

    // trailing bytes after the tarball are ignored
    let mut longer = body(b"{}", b"t");
    longer.push(0);
    assert_eq!(split_body(&longer).unwrap().1, b"t");
}

#[test]
fn publish_body_with_lengths_beyond_the_payload() {
    let mut b = 100u32.to_le_bytes().to_vec();
    b.extend_from_slice(b"{}");
    let e = split_body(&b).unwrap_err();
    assert_eq!(e, InvalidLength(100));
    assert_eq!(e.message(), "invalid metadata length for remaining payload: 100");

    let mut b = body(b"{}", b"");
    let n = b.len();
    b[n - 4..].copy_from_slice(&7u32.to_le_bytes());
    assert_eq!(split_body(&b).unwrap_err(), InvalidLength(7));
}

#[test]
fn publish_rights_and_limits() {
    assert!(can_publish(Rights::Full));
    assert!(can_publish(Rights::Publish));
    assert!(!can_publish(Rights::NoRights));
    assert_eq!(renamed_crate_message("Foo"), "crate was previously named `Foo`");
    assert!(daily_version_limit_reached(10, Some(10)));
    assert!(!daily_version_limit_reached(9, Some(10)));
    assert!(!daily_version_limit_reached(1000, None));
    assert_eq!(
        daily_version_limit_message(),
        "You have published too many versions of this crate in the last 24 hours"
    );
    assert_eq!(max_upload_size_message(10485760), "max upload size is: 10485760");
}

#[test]
fn features2_syntax_detection() {
    let f = |name: &str, values: &[&str]| {
        (name.to_string(), values.iter().map(|v| v.to_string()).collect::<Vec<_>>())
    };
    assert!(!uses_features2_syntax(&vec![f("default", &["std", "serde/std"])]));
    assert!(uses_features2_syntax(&vec![f("a", &[]), f("b", &["dep:serde"])]));
    assert!(uses_features2_syntax(&vec![f("c", &["serde?/std"])]));
}

#[test]
fn dependency_checks() {
    let e = check_dependency_registry("foo", &Some("other".to_string())).unwrap_err();
    assert_eq!(e, DependencyError::OtherRegistry("foo".to_string()));
    assert_eq!(
        e.message(),
        "Dependency `foo` is hosted on another registry. Cross-registry dependencies are not permitted on crates.io."
    );
    assert!(check_dependency_registry("foo", &Some(String::new())).is_ok());
    assert!(check_dependency_registry("foo", &None).is_ok());

    let e = check_dependency_version_req("*").unwrap_err();
    assert_eq!(e.message(), WILDCARD_ERROR_MESSAGE);
    assert!(check_dependency_version_req("^1.0").is_ok());
    assert_eq!(
        DependencyError::UnknownCrate("bar".to_string()).message(),
        "no known crate named `bar`"
    );

    let (name, package) = index_dependency_names("serde", &Some("serde1".to_string()));
    assert_eq!((name.as_str(), package.as_deref()), ("serde1", Some("serde")));
    let (name, package) = index_dependency_names("serde", &None);
    assert_eq!((name.as_str(), package), ("serde", None));
    assert_eq!(index_dependency_kind(None), DependencyKind::Normal);
    assert_eq!(index_dependency_kind(Some(DependencyKind::Dev)), DependencyKind::Dev);
}

#[test]
fn deletion_download_allowance() {
    assert_eq!(max_downloads(0), 0);
    assert_eq!(max_downloads(NANOS_PER_DAY), 1000);
    assert_eq!(max_downloads(30 * NANOS_PER_DAY), 1000);
    assert_eq!(max_downloads(31 * NANOS_PER_DAY), 2000);
    // partial days do not count
    assert_eq!(max_downloads(NANOS_PER_DAY - 1), 0);
    assert_eq!(downloads_as_u64(None), 0);
    assert_eq!(downloads_as_u64(Some(42)), 42);
    assert_eq!(downloads_as_u64(Some(-1)), u64::MAX);
}

#[test]
fn deletion_rules() {
    let old = 100 * NANOS_PER_DAY;
    assert_eq!(check_deletion(Rights::Full, old, 1, 3999, false), Ok(()));
    assert_eq!(
        check_deletion(Rights::Publish, 0, 1, 0, false),
        Err(DeleteRefusal::TeamMember)
    );
    assert_eq!(
        check_deletion(Rights::NoRights, 0, 1, 0, false),
        Err(DeleteRefusal::NotOwner)
    );
    assert_eq!(
        check_deletion(Rights::Full, old, 2, 0, false),
        Err(DeleteRefusal::MultipleOwners)
    );
    assert_eq!(
        check_deletion(Rights::Full, old, 1, 4000, false),
        Err(DeleteRefusal::TooManyDownloads)
    );
    // fewer than 1000 per started month: 2000 over two started months is too many
    assert_eq!(
        check_deletion(Rights::Full, 40 * NANOS_PER_DAY, 1, 2000, false),
        Err(DeleteRefusal::TooManyDownloads)
    );
    assert_eq!(
        check_deletion(Rights::Full, 40 * NANOS_PER_DAY, 1, 1999, false),
        Ok(())
    );
    assert_eq!(
        check_deletion(Rights::Full, old, 1, 0, true),
        Err(DeleteRefusal::HasReverseDependencies)
    );
    // within the grace period, owners, downloads and dependents do not matter
    assert_eq!(
        check_deletion(Rights::Full, GRACE_PERIOD_NANOS, 5, u64::MAX, true),
        Ok(())
    );
    assert_eq!(
        check_deletion(Rights::Full, 3_600_000_000_000, 1, 0, true),
        Ok(())
    );
    assert!(DeleteRefusal::NotOwner.is_forbidden());
    assert!(!DeleteRefusal::TooManyDownloads.is_forbidden());
    assert_eq!(
        DeleteRefusal::TooManyDownloads.message(),
        "only crates with less than 1000 downloads per month can be deleted after 72 hours"
    );
}

#[test]
fn deletion_message_parameter() {
    let p = DeleteQueryParams { message: Some(String::new()) };
    assert_eq!(p.message(), None);
    let p = DeleteQueryParams { message: Some("gone".to_string()) };
    assert_eq!(p.message(), Some("gone"));
    assert_eq!(DeleteQueryParams { message: None }.message(), None);
}

fn components(p: &str) -> Vec<String> {
    std::path::Path::new(p)
        .components()
        .map(|c| c.as_os_str().to_string_lossy().into_owned())
        .collect()
}

#[test]
fn tarball_entries_must_lie_in_the_package_directory() {
    let pkg = components("foo-0.0.1");
    assert_eq!(check_tarball_entry(&components("foo-0.0.1/Cargo.toml"), &pkg, false), Ok(false));
    assert_eq!(
        check_tarball_entry(&components("foo-0.0.1/.cargo_vcs_info.json"), &pkg, false),
        Ok(true)
    );
    assert_eq!(
        check_tarball_entry(&components("foo-0.0.1/src/.cargo_vcs_info.json"), &pkg, false),
        Ok(false)
    );
    // path prefixes compare by components, not by characters
    assert_eq!(
        check_tarball_entry(&components("foo-0.0.10/Cargo.toml"), &pkg, false),
        Err(TarballError::Invalid)
    );
    assert_eq!(
        check_tarball_entry(&components("bar-0.0.1/Cargo.toml"), &pkg, false),
        Err(TarballError::Invalid)
    );
    let e = check_tarball_entry(&components("foo-0.0.1/link"), &pkg, true).unwrap_err();
    assert_eq!(e.message(), "invalid tarball uploaded");
    assert_eq!(
        TarballError::Malformed.message(),
        "uploaded tarball is malformed or too large when decompressed"
    );
}
