//! Crate ownership: owner logins, the rights a user holds over a crate, and
//! the checks of the owner-management endpoints.
use crate::text::{
    chars_of, contains_str, has_substring, join, join_strings, owned, push_char, push_str,
    split_by, split_on, str_eq, string_of,
};
use vstd::prelude::*;

verus! {

// ---------------------------------------------------------------------------
// Lower case
// ---------------------------------------------------------------------------

/// What `str::to_lowercase` returns for this text (Unicode lower case).
pub uninterp spec fn lowercase(s: Seq<char>) -> Seq<char>;

/// `str::to_lowercase`.
#[verifier::external_body]
pub(crate) fn to_lowercase(s: &str) -> (r: String)
    ensures
        r@ == lowercase(s@),
{
    s.to_lowercase()
}

// ---------------------------------------------------------------------------
// Logins
// ---------------------------------------------------------------------------

/// A GitHub organization team login, such as `github:rust-lang:owners`.
#[derive(Debug, Clone, PartialEq, Eq)]
pub struct GitHubTeamLogin {
    pub login: String,
    pub org: String,
    pub team: String,
}

/// An owner login as the owner endpoints accept it.
#[derive(Debug, Clone, PartialEq, Eq)]
pub enum Login {
    /// GitHub organization team, such as `github:rust-lang:owners`.
    GitHubTeam(GitHubTeamLogin),
    /// User login without a service prefix.
    Unprefixed(String),
}

/// Why an owner login was refused (a `400 Bad Request`).
#[derive(Debug, Clone, Copy, PartialEq, Eq)]
pub enum LoginError {
    UnknownOrganizationHandler,
    MissingTeam,
}

pub open spec fn login_error_message(e: LoginError) -> Seq<char> {
    match e {
        LoginError::UnknownOrganizationHandler =>
            "unknown organization handler, only 'github:org:team' is supported"@,
        LoginError::MissingTeam => "missing github team argument; format is github:org:team"@,
    }
}

impl LoginError {
    pub fn message(&self) -> (s: String)
        ensures
            s@ == login_error_message(*self),
    {
        match self {
            LoginError::UnknownOrganizationHandler => owned(
                "unknown organization handler, only 'github:org:team' is supported",
            ),
            LoginError::MissingTeam => owned("missing github team argument; format is github:org:team"),
        }
    }
}

/// The parts of a team login: the `:`-separated pieces must start with
/// `github`; the organization is the second piece (empty if absent) and the
/// team the third, which must be present. Further pieces are ignored.
pub open spec fn team_login_parts(login: Seq<char>) -> Result<(Seq<char>, Seq<char>), LoginError> {
    let pieces = split_on(login, ':');
    if pieces[0] != "github"@ {
        Err(LoginError::UnknownOrganizationHandler)
    } else if pieces.len() < 3 {
        Err(LoginError::MissingTeam)
    } else {
        Ok((pieces[1], pieces[2]))
    }
}

impl GitHubTeamLogin {
    /// Parses a GitHub organization team login.
    pub fn parse(login: &str) -> (r: Result<Self, LoginError>)
        ensures
            match (r, team_login_parts(login@)) {
                (Ok(t), Ok((org, team))) => t.login@ == login@ && t.org@ == org && t.team@ == team,
                (Err(e), Err(f)) => e == f,
                _ => false,
            },
    {
        let pieces = split_by(login, ':');
        proof {
            crate::text::lemma_split_on_nonempty(login@, ':');
        }
        if !str_eq(pieces[0].as_str(), "github") {
            return Err(LoginError::UnknownOrganizationHandler);
        }
        if pieces.len() < 3 {
            return Err(LoginError::MissingTeam);
        }
        Ok(GitHubTeamLogin {
            login: owned(login),
            org: owned(pieces[1].as_str()),
            team: owned(pieces[2].as_str()),
        })
    }
}

impl Login {
    /// Parses an owner login: without a `:` it is a user login, otherwise a
    /// GitHub team login.
    pub fn parse(login: &str) -> (r: Result<Self, LoginError>)
        ensures
            !login@.contains(':') ==> (r matches Ok(Login::Unprefixed(u)) && u@ == login@),
            login@.contains(':') ==> match (r, team_login_parts(login@)) {
                (Ok(Login::GitHubTeam(t)), Ok((org, team))) => t.login@ == login@ && t.org@
                    == org && t.team@ == team,
                (Err(e), Err(f)) => e == f,
                _ => false,
            },
    {
        let v = chars_of(login);
        let mut i: usize = 0;
        while i < v.len()
            invariant
                i <= v.len(),
                v@ == login@,
                forall|j: int| 0 <= j < i ==> v@[j] != ':',
            decreases v.len() - i,
        {
            if v[i] == ':' {
                assert(login@[i as int] == ':');
                return match GitHubTeamLogin::parse(login) {
                    Ok(t) => Ok(Login::GitHubTeam(t)),
                    Err(e) => Err(e),
                };
            }
            i = i + 1;
        }
        Ok(Login::Unprefixed(owned(login)))
    }
}

// ---------------------------------------------------------------------------
// Rights
// ---------------------------------------------------------------------------

/// Access rights to a crate (publishing and ownership management), weakest first.
#[derive(PartialEq, Eq, PartialOrd, Ord, Debug, Clone, Copy)]
pub enum Rights {
    NoRights,
    Publish,
    Full,
}

/// An owner of a crate: a user, by id, or a GitHub team.
#[derive(Debug, Clone, Copy, PartialEq, Eq)]
pub enum OwnerRef {
    User(i32),
    Team { org_id: i32, github_id: i32 },
}

/// The strongest rights a user holds, given the owners of a crate and, for
/// each team owner at index `i`, whether GitHub reports the user as an active
/// member (`member(i)`): full rights as an owner, publishing rights as a
/// member of an owning team, none otherwise.
pub open spec fn rights_of(user_id: i32, owners: Seq<OwnerRef>, member: spec_fn(int) -> bool) -> Rights {
    if exists|i: int| 0 <= i < owners.len() && owners[i] == OwnerRef::User(user_id) {
        Rights::Full
    } else if exists|i: int| 0 <= i < owners.len() && (#[trigger] owners[i]) is Team && member(i) {
        Rights::Publish
    } else {
        Rights::NoRights
    }
}

/// The rights that scanning the owners from `pos` on decides, having seen
/// `best` so far: a matching user owner decides full rights at once; a team
/// owner whose membership is confirmed raises the rights to publishing.
pub open spec fn scan_outcome(
    user_id: i32,
    owners: Seq<OwnerRef>,
    pos: int,
    best: Rights,
    member: spec_fn(int) -> bool,
) -> Rights
    decreases owners.len() - pos,
{
    if pos < 0 || pos >= owners.len() {
        best
    } else {
        match owners[pos] {
            OwnerRef::User(id) => if id == user_id {
                Rights::Full
            } else {
                scan_outcome(user_id, owners, pos + 1, best, member)
            },
            OwnerRef::Team { .. } => scan_outcome(
                user_id,
                owners,
                pos + 1,
                if member(pos) { Rights::Publish } else { best },
                member,
            ),
        }
    }
}

/// The progress of deciding a user's rights over a crate: the owners before
/// `position` have been looked at, and `best` is the strongest right found.
#[derive(Debug, Clone, Copy, PartialEq, Eq)]
pub struct RightsScan {
    pub position: usize,
    pub best: Rights,
}

/// What the scan needs next: the decided rights, or GitHub's answer whether
/// the user is an active member of the team owner at this index.
#[derive(Debug, Clone, Copy, PartialEq, Eq)]
pub enum RightsStep {
    Decided(Rights),
    CheckTeam(usize),
}

impl RightsScan {
    /// A scan that has looked at no owner.
    pub fn start() -> (s: Self)
        ensures
            s.position == 0,
            s.best == Rights::NoRights,
    {
        RightsScan { position: 0, best: Rights::NoRights }
    }

    /// The next step: user owners that are not this user are passed over; a
    /// matching user owner decides full rights; a team owner needs GitHub's
    /// answer; at the end the best right found is decided.
    pub fn next(&self, user_id: i32, owners: &Vec<OwnerRef>) -> (step: RightsStep)
        ensures
            match step {
                RightsStep::Decided(r) => forall|member: spec_fn(int) -> bool|
                    #[trigger] scan_outcome(user_id, owners@, self.position as int, self.best, member)
                        == r,
                RightsStep::CheckTeam(i) => {
                    &&& self.position <= i < owners.len()
                    &&& owners@[i as int] is Team
                    &&& forall|member: spec_fn(int) -> bool|
                        #[trigger] scan_outcome(
                            user_id,
                            owners@,
                            self.position as int,
                            self.best,
                            member,
                        ) == scan_outcome(user_id, owners@, i as int, self.best, member)
                },
            },
    {
        let mut i = self.position;
        while i < owners.len()
            invariant
                self.position <= i,
                forall|member: spec_fn(int) -> bool|
                    #[trigger] scan_outcome(user_id, owners@, self.position as int, self.best, member)
                        == scan_outcome(user_id, owners@, i as int, self.best, member),
            decreases owners.len() - i,
        {
            match owners[i] {
                OwnerRef::User(id) => {
                    if id == user_id {
                        return RightsStep::Decided(Rights::Full);
                    }
                },
                OwnerRef::Team { .. } => {
                    return RightsStep::CheckTeam(i);
                },
            }
            i = i + 1;
        }
        RightsStep::Decided(self.best)
    }

    /// The scan after GitHub answered for the team owner at `team_index`
    /// (the index of a `CheckTeam` step): it goes on after that owner.
    pub fn record_membership(self, team_index: usize, is_member: bool) -> (s: Self)
        requires
            team_index < usize::MAX,
        ensures
            s.position == team_index + 1,
            s.best == (if is_member { Rights::Publish } else { self.best }),
    {
        RightsScan {
            position: team_index + 1,
            best: if is_member { Rights::Publish } else { self.best },
        }
    }
}

/// Stepping the scan over a team owner with the answer for it keeps the
/// outcome.
pub proof fn lemma_record_membership_keeps_outcome(
    user_id: i32,
    owners: Seq<OwnerRef>,
    pos: int,
    best: Rights,
    member: spec_fn(int) -> bool,
)
    requires
        0 <= pos < owners.len(),
        owners[pos] is Team,
    ensures
        scan_outcome(user_id, owners, pos, best, member) == scan_outcome(
            user_id,
            owners,
            pos + 1,
            if member(pos) { Rights::Publish } else { best },
            member,
        ),
{
}

proof fn lemma_scan_outcome_from(
    user_id: i32,
    owners: Seq<OwnerRef>,
    pos: int,
    best: Rights,
    member: spec_fn(int) -> bool,
)
    requires
        0 <= pos <= owners.len(),
        best == Rights::NoRights || best == Rights::Publish,
        best == Rights::Publish ==> exists|i: int|
            0 <= i < pos && (#[trigger] owners[i]) is Team && member(i),
        best == Rights::NoRights ==> forall|i: int|
            0 <= i < pos ==> !((#[trigger] owners[i]) is Team && member(i)),
        forall|i: int| 0 <= i < pos ==> owners[i] != OwnerRef::User(user_id),
    ensures
        scan_outcome(user_id, owners, pos, best, member) == rights_of(user_id, owners, member),
    decreases owners.len() - pos,
{
    if pos < owners.len() {
        match owners[pos] {
            OwnerRef::User(id) => {
                if id != user_id {
                    lemma_scan_outcome_from(user_id, owners, pos + 1, best, member);
                }
            },
            OwnerRef::Team { .. } => {
                let nb = if member(pos) { Rights::Publish } else { best };
                lemma_scan_outcome_from(user_id, owners, pos + 1, nb, member);
            },
        }
    }
}

/// Scanning the owners from the start decides exactly the rights the user
/// holds: full rights as an owner, publishing rights as a member of an
/// owning team, none otherwise.
pub proof fn lemma_scan_decides_rights(
    user_id: i32,
    owners: Seq<OwnerRef>,
    member: spec_fn(int) -> bool,
)
    ensures
        scan_outcome(user_id, owners, 0, Rights::NoRights, member) == rights_of(
            user_id,
            owners,
            member,
        ),
{
    lemma_scan_outcome_from(user_id, owners, 0, Rights::NoRights, member);
}

// ---------------------------------------------------------------------------
// Permission checks of the owner endpoints
// ---------------------------------------------------------------------------

/// Why a user may not modify a crate's owners (a `403 Forbidden`).
#[derive(Debug, Clone, Copy, PartialEq, Eq)]
pub enum OwnerPermissionError {
    TeamMember,
    NotOwner,
}

impl OwnerPermissionError {
    pub fn message(&self) -> (s: String)
        ensures
            s@ == match self {
                OwnerPermissionError::TeamMember =>
                    "team members don't have permission to modify owners"@,
                OwnerPermissionError::NotOwner => "only owners have permission to modify owners"@,
            },
    {
        match self {
            OwnerPermissionError::TeamMember => owned(
                "team members don't have permission to modify owners",
            ),
            OwnerPermissionError::NotOwner => owned("only owners have permission to modify owners"),
        }
    }
}

/// Only full owners may modify a crate's owners.
pub fn check_owner_permissions(rights: Rights) -> (r: Result<(), OwnerPermissionError>)
    ensures
        r == match rights {
            Rights::Full => Ok(()),
            Rights::Publish => Err(OwnerPermissionError::TeamMember),
            Rights::NoRights => Err(OwnerPermissionError::NotOwner),
        },
{
    match rights {
        Rights::Full => Ok(()),
        Rights::Publish => Err(OwnerPermissionError::TeamMember),
        Rights::NoRights => Err(OwnerPermissionError::NotOwner),
    }
}

/// The most invites one request may carry.
pub const MAX_INVITES_PER_REQUEST: usize = 10;

/// Whether a request to add these many owners is within the bound; the
/// refusal reads "too many invites for this request - maximum 10".
pub fn invites_within_limit(count: usize) -> (r: bool)
    ensures
        r == (count <= 10),
{
    count <= MAX_INVITES_PER_REQUEST
}

pub fn too_many_invites_message() -> (s: String)
    ensures
        s@ == "too many invites for this request - maximum 10"@,
{
    owned("too many invites for this request - maximum 10")
}

/// The refusal when no individual owner would remain.
pub fn last_owner_message() -> (s: String)
    ensures
        s@ == "cannot remove all individual owners of a crate. Team member don't have permission to modify owners, so at least one individual owner is required."@,
{
    owned(
        "cannot remove all individual owners of a crate. Team member don't have permission to modify owners, so at least one individual owner is required.",
    )
}

/// Whether a team login names an existing owner: their logins agree in
/// lower case.
pub fn is_existing_owner_login(owner_logins: &Vec<String>, login: &str) -> (r: bool)
    ensures
        r == exists|i: int|
            0 <= i < owner_logins.len() && lowercase(#[trigger] owner_logins@[i]@) == lowercase(
                login@,
            ),
{
    let wanted = to_lowercase(login);
    let mut i: usize = 0;
    while i < owner_logins.len()
        invariant
            i <= owner_logins.len(),
            wanted@ == lowercase(login@),
            forall|j: int|
                0 <= j < i ==> lowercase(#[trigger] owner_logins@[j]@) != lowercase(login@),
        decreases owner_logins.len() - i,
    {
        let l = to_lowercase(owner_logins[i].as_str());
        if str_eq(l.as_str(), wanted.as_str()) {
            return true;
        }
        i = i + 1;
    }
    false
}

/// The refusal for a login that already owns the crate: "`{login}` is already an owner".
pub fn already_owner_message(login: &str) -> (s: String)
    ensures
        s@ == "`"@ + login@ + "` is already an owner"@,
{
    let mut s = owned("`");
    push_str(&mut s, login);
    push_str(&mut s, "` is already an owner");
    s
}

/// The refusal for an unknown user login.
pub fn unknown_user_message(login: &str) -> (s: String)
    ensures
        s@ == "could not find user with login `"@ + login@ + "`"@,
{
    let mut s = owned("could not find user with login `");
    push_str(&mut s, login);
    push_str(&mut s, "`");
    s
}

/// The refusal for an owner to remove who is not one.
pub fn owner_not_found_message(login: &str) -> (s: String)
    ensures
        s@ == "could not find owner with login `"@ + login@ + "`"@,
{
    let mut s = owned("could not find owner with login `");
    push_str(&mut s, login);
    push_str(&mut s, "`");
    s
}

/// The outcome of inviting one login, as the response message reports it.
pub enum InviteOutcome {
    /// A user was invited and must accept.
    UserInvited { username: String },
    /// A team was added at once.
    TeamAdded { login: String },
    /// The user already has a pending invitation.
    AlreadyInvited { username: String },
}

pub open spec fn invite_message(o: InviteOutcome, krate: Seq<char>) -> Seq<char> {
    match o {
        InviteOutcome::UserInvited { username } => "Crates.io user "@ + username@
            + " has been invited to be an owner of crate "@ + krate,
        InviteOutcome::TeamAdded { login } => "team "@ + login@
            + " has been added as an owner of crate "@ + krate,
        InviteOutcome::AlreadyInvited { username } => "Crates.io user "@ + username@
            + " already has a pending invitation to be an owner of crate "@ + krate,
    }
}

/// The message that reports the outcome of one invitation.
pub fn invite_outcome_message(o: &InviteOutcome, krate: &str) -> (s: String)
    ensures
        s@ == invite_message(*o, krate@),
{
    match o {
        InviteOutcome::UserInvited { username } => {
            let mut s = owned("Crates.io user ");
            push_str(&mut s, username.as_str());
            push_str(&mut s, " has been invited to be an owner of crate ");
            push_str(&mut s, krate);
            s
        },
        InviteOutcome::TeamAdded { login } => {
            let mut s = owned("team ");
            push_str(&mut s, login.as_str());
            push_str(&mut s, " has been added as an owner of crate ");
            push_str(&mut s, krate);
            s
        },
        InviteOutcome::AlreadyInvited { username } => {
            let mut s = owned("Crates.io user ");
            push_str(&mut s, username.as_str());
            push_str(&mut s, " already has a pending invitation to be an owner of crate ");
            push_str(&mut s, krate);
            s
        },
    }
}

/// The response message of an add-owners request: the messages of its
/// invitations, in order, separated by commas.
pub fn add_owners_message(outcomes: &Vec<InviteOutcome>, krate: &str) -> (s: String)
    ensures
        s@ == join(outcomes@.map_values(|o: InviteOutcome| invite_message(o, krate@)), ","@),
{
    let mut msgs: Vec<String> = Vec::new();
    let mut i: usize = 0;
    while i < outcomes.len()
        invariant
            i <= outcomes.len(),
            msgs.deep_view() == outcomes@.take(i as int).map_values(
                |o: InviteOutcome| invite_message(o, krate@),
            ),
        decreases outcomes.len() - i,
    {
        let m = invite_outcome_message(&outcomes[i], krate);
        let ghost before = msgs.deep_view();
        msgs.push(m);
        assert(msgs.deep_view() =~= before.push(m@));
        assert(outcomes@.take(i + 1) =~= outcomes@.take(i as int).push(outcomes@[i as int]));
        assert(msgs.deep_view() =~= outcomes@.take(i + 1).map_values(
            |o: InviteOutcome| invite_message(o, krate@),
        ));
        i = i + 1;
    }
    assert(outcomes@.take(outcomes.len() as int) =~= outcomes@);
    join_strings(&msgs, ",")
}

// ---------------------------------------------------------------------------
// GitHub teams
// ---------------------------------------------------------------------------

/// The characters an organization name may hold: ASCII letters, digits, `-`
/// and `_`.
pub open spec fn is_allowed_org_char(c: char) -> bool {
    ('a' <= c && c <= 'z') || ('A' <= c && c <= 'Z') || ('0' <= c && c <= '9') || c == '-' || c
        == '_'
}

/// Why a GitHub team may not be added.
#[derive(Debug, Clone, Copy, PartialEq, Eq)]
pub enum TeamOwnerError {
    /// The organization name holds a character other than letters, digits,
    /// `-` and `_` (the first such character).
    SpecialCharacter(char),
    /// The requesting user has no connected GitHub account.
    NoGitHubAccount,
    /// The requesting user is neither a team member nor an organization owner.
    NotMemberOrOwner,
}

impl TeamOwnerError {
    pub fn message(&self) -> (s: String)
        ensures
            s@ == match self {
                TeamOwnerError::SpecialCharacter(c) =>
                    "organization cannot contain special characters like "@.push(*c),
                TeamOwnerError::NoGitHubAccount =>
                    "Cannot add a GitHub team as an owner without a connected GitHub account"@,
                TeamOwnerError::NotMemberOrOwner =>
                    "only members of a team or organization owners can add it as an owner"@,
            },
    {
        match self {
            TeamOwnerError::SpecialCharacter(c) => {
                let mut s = owned("organization cannot contain special characters like ");
                push_char(&mut s, *c);
                s
            },
            TeamOwnerError::NoGitHubAccount => owned(
                "Cannot add a GitHub team as an owner without a connected GitHub account",
            ),
            TeamOwnerError::NotMemberOrOwner => owned(
                "only members of a team or organization owners can add it as an owner",
            ),
        }
    }
}

fn is_allowed_char(c: char) -> (r: bool)
    ensures
        r == is_allowed_org_char(c),
{
    ('a' <= c && c <= 'z') || ('A' <= c && c <= 'Z') || ('0' <= c && c <= '9') || c == '-' || c
        == '_'
}

/// Checks an organization name: refused at its first character that is not
/// an ASCII letter, digit, `-` or `_`.
pub fn check_org_name(org: &str) -> (r: Result<(), TeamOwnerError>)
    ensures
        match r {
            Ok(()) => forall|i: int| 0 <= i < org@.len() ==> is_allowed_org_char(#[trigger] org@[i]),
            Err(e) => exists|i: int|
                0 <= i < org@.len() && e == TeamOwnerError::SpecialCharacter(org@[i])
                    && !is_allowed_org_char(org@[i]) && forall|j: int|
                    0 <= j < i ==> is_allowed_org_char(#[trigger] org@[j]),
        },
{
    let v = chars_of(org);
    let mut i: usize = 0;
    while i < v.len()
        invariant
            i <= v.len(),
            v@ == org@,
            forall|j: int| 0 <= j < i ==> is_allowed_org_char(#[trigger] org@[j]),
        decreases v.len() - i,
    {
        if !is_allowed_char(v[i]) {
            return Err(TeamOwnerError::SpecialCharacter(v[i]));
        }
        i = i + 1;
    }
    Ok(())
}

/// A team may be added by its members and by owners of its organization.
pub fn check_team_membership(is_team_member: bool, is_org_owner: bool) -> (r: Result<
    (),
    TeamOwnerError,
>)
    ensures
        r is Ok <==> (is_team_member || is_org_owner),
        r is Err ==> r == Err::<(), TeamOwnerError>(TeamOwnerError::NotMemberOrOwner),
{
    if is_team_member || is_org_owner {
        Ok(())
    } else {
        Err(TeamOwnerError::NotMemberOrOwner)
    }
}

// ---------------------------------------------------------------------------
// Adding and removing owners
// ---------------------------------------------------------------------------

/// Whether a user is already an owner of the crate.
pub fn is_user_owner(owners: &Vec<OwnerRef>, user_id: i32) -> (r: bool)
    ensures
        r == owners@.contains(OwnerRef::User(user_id)),
{
    let mut i: usize = 0;
    while i < owners.len()
        invariant
            i <= owners.len(),
            forall|j: int| 0 <= j < i ==> owners@[j] != OwnerRef::User(user_id),
        decreases owners.len() - i,
    {
        match owners[i] {
            OwnerRef::User(id) => {
                if id == user_id {
                    assert(owners@[i as int] == OwnerRef::User(user_id));
                    return true;
                }
            },
            OwnerRef::Team { .. } => {},
        }
        i = i + 1;
    }
    proof {
        if owners@.contains(OwnerRef::User(user_id)) {
            let k = choose|k: int| 0 <= k < owners@.len() && owners@[k] == OwnerRef::User(user_id);
            assert(owners@[k] != OwnerRef::User(user_id));
        }
    }
    false
}

/// The refusal of an invitee whose verified email address does not parse.
pub fn invalid_email_message(username: &str) -> (s: String)
    ensures
        s@ == "user `"@ + username@ + "` has an invalid email address"@,
{
    let mut s = owned("user `");
    push_str(&mut s, username);
    push_str(&mut s, "` has an invalid email address");
    s
}

/// After removing owners, at least one individual (user) owner must remain:
/// team members may not modify owners.
pub fn check_individual_owner_remains(remaining_user_owners: usize) -> (r: Result<(), String>)
    ensures
        remaining_user_owners > 0 ==> r is Ok,
        remaining_user_owners == 0 ==> (r matches Err(m) && m@ == "cannot remove all individual owners of a crate. Team member don't have permission to modify owners, so at least one individual owner is required."@),
{
    if remaining_user_owners > 0 {
        Ok(())
    } else {
        Err(last_owner_message())
    }
}

/// The message of a successful removal.
pub fn owners_removed_message() -> (s: String)
    ensures
        s@ == "owners successfully removed"@,
{
    owned("owners successfully removed")
}

} // verus!
