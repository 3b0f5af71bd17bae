use crates_io_logic::badges::{badge_text_and_color, generate_badge, MaintenanceStatus};
use crates_io_logic::crate_settings::{plan_settings_update, NotOwner, UserOwner};
use crates_io_logic::invitations::{
    check_crate_filter_access, check_invitee_access, comes_after_key, expired_invitation_message,
    invitation_crate_name, invitation_pagination, inviter_login, is_unexpired, list_filter, referenced_user_ids,
    seek_key_from_json, seek_key_json, take_page, InvitationListError, InvitationRow, ListFilter,
};
use crates_io_logic::listings::{
    category_sort, check_admin, keyword_order, page_offset, slug_may_exist, version_after_date_key,
    version_seek_payload, version_sort, versions_are_paginated, versions_total, AdminCrateInfo,
    DatabaseCrateInfo, KeywordOrder, Slug, VersionSeekPayload, VersionSort,
};
use crates_io_logic::metrics::{check_metrics_request, MetricsAccessError, MetricsKind};
use crates_io_logic::owners::Rights;
use crates_io_logic::pagination::{encode_seek, Page, PaginationOptions, PaginationQueryParams};
use crates_io_logic::response_parts::{
    downloads_include_versions, versions_include_release_tracks, CrateInclude,
};
use crates_io_logic::responses::{CratePath, MetadataResponse, OkResponse};
use crates_io_logic::time::UtcTime;
use crates_io_logic::tokens::{
    check_token_creation, check_token_name, check_token_scopes, current_token_id, is_listed,
    GetParams, TokenCreationError, NANOS_PER_DAY,
};
use crates_io_logic::username::{check_username, is_cooling_down, UsernameErr};

fn some(s: &str) -> Option<String> {
    Some(s.to_string())
}

/// Checks the refusal of an unknown component, which lists the expected ones.
fn assert_refusal(message: String, expected: &str) {
    assert!(message.starts_with("invalid component for ?"), "{message}");
    assert!(message.ends_with(&format!("= (expected {expected})")), "{message}");
}

#[test]
fn crate_parts_parameter() {
    let all = CrateInclude::from_param(&None).unwrap();
    assert_eq!(all, CrateInclude::full());
    let m = CrateInclude::parse("versions,,keywords").unwrap();
    assert!(m.versions && m.keywords);
    assert!(!m.categories && !m.badges && !m.downloads && !m.default_version);
    assert_eq!(CrateInclude::parse("keywords,full").unwrap(), CrateInclude::full());
    assert_eq!(CrateInclude::parse("").unwrap(), CrateInclude::parse(",").unwrap());
    assert!(!CrateInclude::parse("").unwrap().versions);
    let e = CrateInclude::parse("versions,owners").unwrap_err();
    assert_refusal(
        e.message(),
        "'versions', 'keywords', 'categories', 'badges', 'downloads', 'default_version', or 'full'",
    );
    // `versions` and `default_version` share one key of the response
    let both = CrateInclude::parse("versions,default_version").unwrap();
    assert!(!both.loads_default_version(true));
    let only_default = CrateInclude::parse("default_version").unwrap();
    assert!(only_default.loads_default_version(true));
    assert!(!only_default.loads_default_version(false));
}

#[test]
fn versions_and_downloads_parts_parameters() {
    assert_eq!(versions_include_release_tracks(&None), Ok(false));
    assert_eq!(versions_include_release_tracks(&some("release_tracks")), Ok(true));
    assert_eq!(versions_include_release_tracks(&some("")), Ok(false));
    assert_refusal(
        versions_include_release_tracks(&some("versions")).unwrap_err().message(),
        "'release_tracks'",
    );
    assert_eq!(downloads_include_versions(&some("versions,")), Ok(true));
    assert_eq!(downloads_include_versions(&None), Ok(false));
    assert_refusal(
        downloads_include_versions(&some("full")).unwrap_err().message(),
        "'versions'",
    );
}

#[test]
fn small_responses() {
    assert!(OkResponse::new().ok);
    assert!(OkResponse::default().ok);
    let p = CratePath { name: "serde".to_string() };
    assert_eq!(p.name, "serde");
    let m = MetadataResponse::from_values(None, true);
    assert_eq!(m.deployed_sha, "unknown");
    assert_eq!(m.commit, "unknown");
    assert!(m.read_only);
    let m = MetadataResponse::from_values(Some("0aebe2cd"), false);
    assert_eq!((m.deployed_sha, m.commit, m.read_only), ("0aebe2cd", "0aebe2cd", false));
}

#[test]
fn invitation_listing_access() {
    assert_eq!(
        list_filter(some("serde"), Some(3)),
        Ok(ListFilter::CrateName("serde".to_string()))
    );
    assert_eq!(list_filter(None, Some(3)), Ok(ListFilter::InviteeId(3)));
    let e = list_filter(None, None).unwrap_err();
    assert_eq!(e.message(), "missing or invalid filter");
    assert!(!e.is_forbidden());
    assert_eq!(check_crate_filter_access(Rights::Full), Ok(()));
    let e = check_crate_filter_access(Rights::Publish).unwrap_err();
    assert_eq!(e, InvitationListError::NotCrateOwner);
    assert_eq!(
        e.message(),
        "only crate owners can query pending invitations for their crate"
    );
    assert!(e.is_forbidden());
    assert_eq!(check_invitee_access(4, 4), Ok(()));
    assert_eq!(
        check_invitee_access(4, 5).unwrap_err().message(),
        "only the invitee can query their pending invitations"
    );
    let b = invitation_pagination();
    assert!(!b.enable_pages && b.enable_seek && !b.enable_seek_backward);
}

fn row(c: i32, u: i32, by: i32) -> InvitationRow {
    InvitationRow { crate_id: c, invited_user_id: u, invited_by_user_id: by }
}

#[test]
fn invitation_pages() {
    let rows = vec![row(1, 5, 9), row(1, 6, 9), row(2, 1, 5)];
    let (page, next) = take_page(rows.clone(), 2);
    assert_eq!(page, vec![row(1, 5, 9), row(1, 6, 9)]);
    assert_eq!(next, Some((1, 6)));
    let (page, next) = take_page(rows.clone(), 3);
    assert_eq!(page.len(), 3);
    assert_eq!(next, None);
    let (page, next) = take_page(vec![row(1, 1, 1)], 0);
    assert!(page.is_empty());
    assert_eq!(next, None);

    assert!(comes_after_key(&row(2, 0, 0), (1, 6)));
    assert!(comes_after_key(&row(1, 7, 0), (1, 6)));
    assert!(!comes_after_key(&row(1, 6, 0), (1, 6)));
    assert!(!comes_after_key(&row(0, 9, 0), (1, 6)));

    let json = seek_key_json((1, 6));
    assert_eq!(json, b"[1,6]");
    assert_eq!(encode_seek(&json), "WzEsNl0");
    assert_eq!(seek_key_from_json(&json), Some((1, 6)));
    assert_eq!(seek_key_from_json(b"[-3,2147483647]"), Some((-3, 2147483647)));
    assert_eq!(seek_key_from_json(b"98"), None);
}

#[test]
fn invitation_users_and_messages() {
    let rows = vec![row(1, 5, 9), row(1, 6, 9), row(2, 1, 5)];
    assert_eq!(referenced_user_ids(&rows), vec![1, 5, 6, 9]);
    assert!(referenced_user_ids(&vec![]).is_empty());

    let users = vec![(9, "alice".to_string()), (5, "bob".to_string())];
    assert_eq!(inviter_login(&users, 5), Ok("bob".to_string()));
    assert_eq!(inviter_login(&users, 7), Err("missing user 7".to_string()));
    assert_eq!(inviter_login(&users, -7), Err("missing user -7".to_string()));
    assert_eq!(
        expired_invitation_message("serde"),
        "The invitation to become an owner of the serde crate expired. Please reach out to an owner of the crate to request a new invitation."
    );

    let now = UtcTime::from_parts(100 * 86_400, 0).unwrap();
    let recent = UtcTime::from_parts(80 * 86_400, 0).unwrap();
    let old = UtcTime::from_parts(70 * 86_400, 0).unwrap();
    let thirty_days = 30 * 86_400_000_000_000i128;
    assert!(is_unexpired(&recent, &now, thirty_days));
    assert!(!is_unexpired(&old, &now, thirty_days));
}

#[test]
fn token_rules() {
    assert_eq!(GetParams { expired_days: Some(3) }.expired_days_interval(), 3);
    assert_eq!(GetParams { expired_days: Some(-3) }.expired_days_interval(), 0);
    assert_eq!(GetParams { expired_days: None }.expired_days_interval(), 0);

    let now = UtcTime::from_parts(10 * 86_400, 0).unwrap();
    let day8 = UtcTime::from_parts(8 * 86_400, 0).unwrap();
    assert!(is_listed(false, None, &now, 0));
    assert!(!is_listed(true, None, &now, 5));
    assert!(!is_listed(false, Some(day8), &now, 0));
    assert!(is_listed(false, Some(day8), &now, 3));
    assert!(!is_listed(false, Some(day8), &now, 2));
    assert_eq!(NANOS_PER_DAY, 86_400_000_000_000);

    assert_eq!(check_token_name(""), Err(TokenCreationError::EmptyName));
    assert_eq!(TokenCreationError::EmptyName.message(), "name must have a value");
    assert_eq!(check_token_name("ci"), Ok(()));
    assert_eq!(
        check_token_creation(true, &None, 0).unwrap_err().message(),
        "cannot use an API token to create a new API token"
    );
    let e = check_token_creation(false, &some("maintenance"), 0).unwrap_err();
    assert!(e.is_unavailable());
    assert_eq!(e.message(), "maintenance");
    assert_eq!(
        check_token_creation(false, &None, 500).unwrap_err().message(),
        "maximum tokens per user is: 500"
    );
    assert_eq!(check_token_creation(false, &None, 499), Ok(()));
    assert_eq!(
        check_token_scopes(Some(false), Some(false)),
        Err(TokenCreationError::InvalidCrateScope)
    );
    assert_eq!(
        check_token_scopes(None, Some(false)).unwrap_err().message(),
        "invalid endpoint scope"
    );
    assert_eq!(check_token_scopes(Some(true), None), Ok(()));
    assert_eq!(current_token_id(Some(4)), Ok(4));
    assert_eq!(current_token_id(None), Err("token not provided".to_string()));
}

fn owner(id: i32, verified: bool) -> UserOwner {
    UserOwner {
        id,
        login: format!("user{id}"),
        email: format!("user{id}@example.com"),
        email_verified: verified,
    }
}

#[test]
fn crate_settings_updates() {
    let owners = vec![owner(1, true), owner(2, false), owner(3, true)];
    let e = plan_settings_update(9, &owners, Some(true), false).unwrap_err();
    assert_eq!(e, NotOwner);
    assert_eq!(e.message(), "only owners have permission to modify crate settings");
    assert_eq!(plan_settings_update(2, &owners, Some(false), false), Ok(None));
    assert_eq!(plan_settings_update(2, &owners, None, false), Ok(None));
    let change = plan_settings_update(2, &owners, Some(true), false).unwrap().unwrap();
    assert!(change.trustpub_only);
    assert_eq!(change.notify, vec![0, 2]);
}

#[test]
fn maintenance_badges() {
    assert_eq!(
        badge_text_and_color(Some(MaintenanceStatus::ActivelyDeveloped)),
        ("actively-developed", "brightgreen")
    );
    assert_eq!(badge_text_and_color(None), ("unknown", "lightgrey"));
    assert_eq!(
        badge_text_and_color(Some(MaintenanceStatus::NotSpecified)),
        ("unknown", "lightgrey")
    );
    assert_eq!(
        badge_text_and_color(Some(MaintenanceStatus::Deprecated)),
        ("deprecated", "red")
    );
    let svg = generate_badge(Some(MaintenanceStatus::Experimental));
    assert!(svg.starts_with("<svg"));
    assert!(svg.contains(">maintenance<"));
    assert!(svg.contains(">experimental<"));
    assert!(svg.contains("fill=\"blue\""));
}

#[test]
fn metrics_access() {
    let token = some("secret");
    assert_eq!(
        check_metrics_request(&None, Some("Bearer secret"), "service"),
        Err(MetricsAccessError::Disabled)
    );
    assert_eq!(
        MetricsAccessError::Disabled.message().unwrap(),
        "Metrics are disabled on this crates.io instance"
    );
    assert_eq!(
        check_metrics_request(&token, Some("Bearer secret"), "service"),
        Ok(MetricsKind::Service)
    );
    assert_eq!(
        check_metrics_request(&token, Some("Bearer secret"), "instance"),
        Ok(MetricsKind::Instance)
    );
    assert_eq!(
        check_metrics_request(&token, Some("Bearer secret"), "other"),
        Err(MetricsAccessError::UnknownKind)
    );
    for header in [None, Some("secret"), Some("Bearer other"), Some("bearer secret")] {
        let e = check_metrics_request(&token, header, "service").unwrap_err();
        assert_eq!(e, MetricsAccessError::Forbidden);
        assert_eq!(e.message().unwrap(), "invalid or missing authorization token");
    }
}

#[test]
fn username_checks() {
    let available = UtcTime::from_parts(1_732_060_800, 0).unwrap();
    assert_eq!(check_username("ferris", None, false, false, None), Ok(()));
    let e = check_username("ferris", some("invalid"), true, true, None).unwrap_err();
    assert_eq!(e.message(), "invalid");
    let e = check_username("ferris", None, true, true, None).unwrap_err();
    assert_eq!(e.message(), "the username `ferris` is reserved");
    let e = check_username("ferris", None, false, true, Some(available)).unwrap_err();
    assert_eq!(e.message(), "the username `ferris` is not available");
    let e = check_username("ferris", None, false, false, Some(available)).unwrap_err();
    assert_eq!(e, UsernameErr::Cooldown("ferris".to_string(), available));
    assert_eq!(
        e.message(),
        "The username `ferris` was recently in use. This username will be available after 2024-11-20T00:00:00Z."
    );
    let before = UtcTime::from_parts(1_732_060_799, 0).unwrap();
    assert!(is_cooling_down(&available, &before));
    assert!(!is_cooling_down(&available, &available));
}

#[test]
fn keyword_category_and_version_listings() {
    assert_eq!(keyword_order(&some("crates")), KeywordOrder::ByCrateCount);
    assert_eq!(keyword_order(&some("alpha")), KeywordOrder::Alphabetical);
    assert_eq!(keyword_order(&None), KeywordOrder::Alphabetical);
    assert_eq!(category_sort(&None), "alpha");
    assert_eq!(category_sort(&some("crates")), "crates");
    assert!(slug_may_exist("web-programming::http-server"));
    assert!(!slug_may_exist("web\0"));
    let s = Slug::new("net".to_string(), "Networking".to_string());
    assert_eq!((s.id.as_str(), s.slug.as_str()), ("net", "net"));

    let params = PaginationQueryParams { page: Some(3), per_page: Some(10), seek: None };
    let options = PaginationOptions::builder().gather(&params, 200, false).unwrap();
    assert_eq!(page_offset(&options), 20);
    let unspecified = PaginationOptions { page: Page::Unspecified, per_page: 10 };
    assert_eq!(page_offset(&unspecified), 0);

    assert_eq!(version_sort(&some("DATE")), VersionSort::Date);
    assert_eq!(version_sort(&some("semver")), VersionSort::Semver);
    assert_eq!(version_sort(&None), VersionSort::Semver);
    assert!(versions_are_paginated(Some(5)));
    assert!(!versions_are_paginated(None));
    assert_eq!(versions_total(true, None), 0);
    assert_eq!(versions_total(false, Some(7)), 7);
    assert_eq!(
        version_seek_payload(VersionSort::Semver, "1.0.0", 5, 2),
        VersionSeekPayload::Semver { num: "1.0.0".to_string(), id: 2 }
    );
    assert_eq!(
        version_seek_payload(VersionSort::Date, "1.0.0", 5, 2),
        VersionSeekPayload::Date { created_at: 5, id: 2 }
    );
    assert!(version_after_date_key(5, 1, 5, 2));
    assert!(version_after_date_key(4, 9, 5, 2));
    assert!(!version_after_date_key(5, 2, 5, 2));
}

#[test]
fn admin_crate_listing() {
    assert!(check_admin(true).is_ok());
    assert_eq!(
        check_admin(false),
        Err("must be an admin to use this route".to_string())
    );
    let info = DatabaseCrateInfo {
        name: "foo".to_string(),
        description: None,
        updated_at: UtcTime::from_parts(0, 0).unwrap(),
        downloads: Some(10),
        recent_crate_downloads: None,
        num_versions: None,
        yanked: false,
        default_version_num: "1.0.0".to_string(),
        crate_size: 512,
        bin_names: Some(vec![Some("foo".to_string())]),
        num_rev_deps: 2,
    };
    let a = AdminCrateInfo::from_database(info);
    assert_eq!(a.downloads, 10);
    assert_eq!(a.num_versions, 0);
    assert_eq!(a.name, "foo");
    assert_eq!(a.bin_names, Some(vec![Some("foo".to_string())]));
}

#[test]
fn invitation_crate_names_come_from_the_loaded_names() {
    let names = vec![(3, "foo".to_string()), (8, "bar".to_string())];
    assert_eq!(invitation_crate_name(&names, 8), Ok("bar".to_string()));
    assert_eq!(
        invitation_crate_name(&names, 4),
        Err("missing crate with id 4".to_string())
    );
    assert_eq!(
        invitation_crate_name(&names, -2),
        Err("missing crate with id -2".to_string())
    );
}

#[test]
fn seek_key_json_of_extreme_pairs() {
    let json = seek_key_json((i32::MIN, i32::MIN));
    assert_eq!(json, b"[-2147483648,-2147483648]".to_vec());
    assert_eq!(json.len(), 25);
    assert_eq!(seek_key_from_json(&json), Some((i32::MIN, i32::MIN)));
}
