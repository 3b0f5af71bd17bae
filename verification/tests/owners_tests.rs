use crates_io_logic::owners::{
    add_owners_message, already_owner_message, check_org_name, check_owner_permissions,
    check_team_membership, invites_within_limit, is_existing_owner_login, last_owner_message,
    owner_not_found_message, too_many_invites_message, unknown_user_message, GitHubTeamLogin,
    InviteOutcome, Login, LoginError, OwnerPermissionError, OwnerRef, Rights, RightsScan,
    RightsStep, TeamOwnerError,
};

#[test]
fn parses_github_team_login() {
    let login = GitHubTeamLogin::parse("github:rust-lang:owners").unwrap();

    assert_eq!(login.login, "github:rust-lang:owners");
    assert_eq!(login.org, "rust-lang");
    assert_eq!(login.team, "owners");
}

#[test]
fn parses_unprefixed_login() {
    let login = Login::parse("octocat").unwrap();

    let Login::Unprefixed(username) = login else {
        panic!("expected unprefixed login");
    };
    assert_eq!(username, "octocat");
}

#[test]
fn parses_github_team_as_login() {
    let login = Login::parse("github:rust-lang:owners").unwrap();

    let Login::GitHubTeam(team) = login else {
        panic!("expected GitHub team login");
    };
    assert_eq!(team.org, "rust-lang");
    assert_eq!(team.team, "owners");
}

#[test]
fn team_login_errors() {
    let e = Login::parse("gitlab:org:team").unwrap_err();
    assert_eq!(e, LoginError::UnknownOrganizationHandler);
    assert_eq!(
        e.message(),
        "unknown organization handler, only 'github:org:team' is supported"
    );
    let e = Login::parse("github:rust-lang").unwrap_err();
    assert_eq!(e, LoginError::MissingTeam);
    assert_eq!(e.message(), "missing github team argument; format is github:org:team");
    // further pieces are ignored
    let t = GitHubTeamLogin::parse("github:a:b:c").unwrap();
    assert_eq!((t.org.as_str(), t.team.as_str()), ("a", "b"));
}

/// Runs the scan to its end, answering team membership with `member`.
fn scan(user_id: i32, owners: &Vec<OwnerRef>, member: impl Fn(usize) -> bool) -> Rights {
    let mut s = RightsScan::start();
    loop {
        match s.next(user_id, owners) {
            RightsStep::Decided(r) => return r,
            RightsStep::CheckTeam(i) => s = s.record_membership(i, member(i)),
        }
    }
}

#[test]
fn rights_of_owners_and_team_members() {
    let team = OwnerRef::Team { org_id: 1, github_id: 2 };
    let owners = vec![OwnerRef::User(5), team, OwnerRef::User(7)];
    assert_eq!(scan(7, &owners, |_| false), Rights::Full);
    assert_eq!(scan(8, &owners, |_| true), Rights::Publish);
    assert_eq!(scan(8, &owners, |_| false), Rights::NoRights);
    assert_eq!(scan(1, &vec![], |_| true), Rights::NoRights);
    // a user owner decides at once, before any team is asked about
    assert_eq!(
        RightsScan::start().next(5, &owners),
        RightsStep::Decided(Rights::Full)
    );
    assert_eq!(RightsScan::start().next(9, &owners), RightsStep::CheckTeam(1));
}

#[test]
fn owner_permission_checks() {
    assert_eq!(check_owner_permissions(Rights::Full), Ok(()));
    let e = check_owner_permissions(Rights::Publish).unwrap_err();
    assert_eq!(e, OwnerPermissionError::TeamMember);
    assert_eq!(e.message(), "team members don't have permission to modify owners");
    let e = check_owner_permissions(Rights::NoRights).unwrap_err();
    assert_eq!(e.message(), "only owners have permission to modify owners");
    assert!(Rights::NoRights < Rights::Publish && Rights::Publish < Rights::Full);
}

#[test]
fn owner_request_messages() {
    assert!(invites_within_limit(10));
    assert!(!invites_within_limit(11));
    assert_eq!(too_many_invites_message(), "too many invites for this request - maximum 10");
    assert!(last_owner_message().starts_with("cannot remove all individual owners"));
    assert_eq!(already_owner_message("foo"), "`foo` is already an owner");
    assert_eq!(unknown_user_message("foo"), "could not find user with login `foo`");
    assert_eq!(owner_not_found_message("foo"), "could not find owner with login `foo`");
}

#[test]
fn existing_owner_logins_compare_in_lower_case() {
    let logins = vec!["github:Rust-Lang:Owners".to_string(), "alice".to_string()];
    assert!(is_existing_owner_login(&logins, "github:rust-lang:owners"));
    assert!(is_existing_owner_login(&logins, "ALICE"));
    assert!(!is_existing_owner_login(&logins, "bob"));
}

#[test]
fn add_owners_message_joins_outcomes() {
    let outcomes = vec![
        InviteOutcome::UserInvited { username: "alice".to_string() },
        InviteOutcome::TeamAdded { login: "github:org:team".to_string() },
        InviteOutcome::AlreadyInvited { username: "bob".to_string() },
    ];
    assert_eq!(
        add_owners_message(&outcomes, "foo"),
        "Crates.io user alice has been invited to be an owner of crate foo,\
team github:org:team has been added as an owner of crate foo,\
Crates.io user bob already has a pending invitation to be an owner of crate foo"
    );
    assert_eq!(add_owners_message(&vec![], "foo"), "");
}

#[test]
fn organization_names_and_team_membership() {
    assert_eq!(check_org_name("rust-lang_2"), Ok(()));
    let e = check_org_name("rust lang!").unwrap_err();
    assert_eq!(e, TeamOwnerError::SpecialCharacter(' '));
    assert_eq!(e.message(), "organization cannot contain special characters like  ");
    assert_eq!(check_team_membership(false, true), Ok(()));
    let e = check_team_membership(false, false).unwrap_err();
    assert_eq!(
        e.message(),
        "only members of a team or organization owners can add it as an owner"
    );
    assert_eq!(
        TeamOwnerError::NoGitHubAccount.message(),
        "Cannot add a GitHub team as an owner without a connected GitHub account"
    );
}
