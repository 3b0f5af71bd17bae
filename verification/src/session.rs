//! Sign-in with GitHub: the OAuth state check, pending signups and their
//! expiry, and the decisions of saving a GitHub user.
use crate::invitations::{int_decimal, push_int};
use crate::text::{owned, str_eq};
use crate::time::UtcTime;
use vstd::prelude::*;

verus! {

/// Session key containing serialized pending-signup state.
pub const PENDING_SIGNUP_KEY: &'static str = "pending_signup";

/// How long a pending signup stays valid: 30 minutes, in nanoseconds.
pub const PENDING_SIGNUP_LIFETIME_NANOS: i128 = 1_800_000_000_000;

pub const PENDING_SIGNUP_ERROR: &'static str =
    "Your signup session is missing or has expired. Please authenticate with GitHub again.";

/// GitHub account details, as the GitHub API reports them.
#[derive(Debug, Clone, PartialEq, Eq)]
pub struct GitHubUser {
    pub avatar_url: Option<String>,
    pub email: Option<String>,
    pub id: i32,
    pub login: String,
    pub name: Option<String>,
}

/// GitHub account details retained while a user completes signup.
#[derive(Debug, Clone)]
pub struct PendingSignup {
    /// GitHub-controlled account details captured during OAuth authorization.
    pub github_user: GitHubUser,
    /// Encrypted GitHub access token used when the account is created.
    pub encrypted_token: Vec<u8>,
    /// Creation time used to determine when this pending signup expires.
    pub created_at: UtcTime,
}

impl PendingSignup {
    /// Pending signup state created at `now`.
    pub fn new(github_user: GitHubUser, encrypted_token: Vec<u8>, now: UtcTime) -> (p: Self)
        ensures
            p.github_user == github_user,
            p.encrypted_token == encrypted_token,
            p.created_at == now,
    {
        PendingSignup { github_user, encrypted_token, created_at: now }
    }

    /// Whether this pending signup has reached its absolute expiry: 30
    /// minutes or more have passed since it was created.
    pub fn is_expired(&self, now: &UtcTime) -> (r: bool)
        ensures
            r == (now.total_nanos() - self.created_at.total_nanos() >= PENDING_SIGNUP_LIFETIME_NANOS),
    {
        now.nanos_since(&self.created_at) >= PENDING_SIGNUP_LIFETIME_NANOS
    }
}

/// A change to the session's values.
#[derive(Debug, Clone, PartialEq, Eq)]
pub enum SessionEdit {
    /// Removes the value under this key.
    Remove(String),
    /// Stores a value under a key.
    Insert(String, String),
    /// Stores the pending signup, in its JSON form, under [`PENDING_SIGNUP_KEY`].
    InsertPendingSignup,
}

/// A session edit as the contracts speak of it.
pub enum SessionEditView {
    Remove(Seq<char>),
    Insert(Seq<char>, Seq<char>),
    InsertPendingSignup,
}

pub open spec fn edit_view(e: SessionEdit) -> SessionEditView {
    match e {
        SessionEdit::Remove(k) => SessionEditView::Remove(k@),
        SessionEdit::Insert(k, v) => SessionEditView::Insert(k@, v@),
        SessionEdit::InsertPendingSignup => SessionEditView::InsertPendingSignup,
    }
}

pub open spec fn edits_view(v: Vec<SessionEdit>) -> Seq<SessionEditView> {
    v@.map_values(|e: SessionEdit| edit_view(e))
}

/// Checks the `state` returned by GitHub against the one the session holds.
/// The session's state is removed in any case (the first edit); a missing
/// or different state is refused with "invalid state parameter".
pub fn check_oauth_state(session_state: &Option<String>, body_state: &str) -> (r: (
    Vec<SessionEdit>,
    Result<(), String>,
))
    ensures
        edits_view(r.0) == seq![SessionEditView::Remove("github_oauth_state"@)],
        oauth_state_matches_spec(*session_state, body_state@) ==> r.1 is Ok,
        !oauth_state_matches_spec(*session_state, body_state@) ==> (r.1 matches Err(m) && m@
            == "invalid state parameter"@),
{
    let edits = vec![SessionEdit::Remove(owned("github_oauth_state"))];
    proof {
        assert(edits_view(edits) =~= seq![SessionEditView::Remove("github_oauth_state"@)]);
    }
    if oauth_state_matches(session_state, body_state) {
        (edits, Ok(()))
    } else {
        (edits, Err(invalid_state_message()))
    }
}

/// The session edits of a completed sign-in, given the user that saving the
/// GitHub account gave: a user is signed in (the pending signup is removed
/// and the user's id stored under `user_id`); without one, signup is
/// required (`user_id` is removed and the pending signup stored).
pub fn sign_in_edits(user_id: Option<i32>) -> (v: Vec<SessionEdit>)
    ensures
        edits_view(v) == match user_id {
            Some(id) => seq![
                SessionEditView::Remove(PENDING_SIGNUP_KEY@),
                SessionEditView::Insert("user_id"@, int_decimal(id as int)),
            ],
            None => seq![
                SessionEditView::Remove("user_id"@),
                SessionEditView::InsertPendingSignup,
            ],
        },
{
    match user_id {
        Some(id) => {
            let mut value = owned("");
            proof {
                reveal_strlit("");
                assert(value@ =~= Seq::<char>::empty());
            }
            push_int(&mut value, id);
            assert(value@ =~= int_decimal(id as int));
            let v = vec![
                SessionEdit::Remove(owned(PENDING_SIGNUP_KEY)),
                SessionEdit::Insert(owned("user_id"), value),
            ];
            proof {
                assert(edits_view(v) =~= seq![
                    SessionEditView::Remove(PENDING_SIGNUP_KEY@),
                    SessionEditView::Insert("user_id"@, int_decimal(id as int)),
                ]);
            }
            v
        },
        None => {
            let v = vec![SessionEdit::Remove(owned("user_id")), SessionEdit::InsertPendingSignup];
            proof {
                assert(edits_view(v) =~= seq![
                    SessionEditView::Remove("user_id"@),
                    SessionEditView::InsertPendingSignup,
                ]);
            }
            v
        },
    }
}

/// Whether the session's state matches the one GitHub returned.
pub open spec fn oauth_state_matches_spec(session_state: Option<String>, body_state: Seq<char>) -> bool {
    match session_state {
        Some(s) => s@ == body_state,
        None => false,
    }
}

/// Whether the `state` returned by GitHub matches the one stored in the
/// session when the flow began; a session without one never matches.
pub fn oauth_state_matches(session_state: &Option<String>, body_state: &str) -> (r: bool)
    ensures
        r == oauth_state_matches_spec(*session_state, body_state@),
{
    match session_state {
        Some(s) => str_eq(body_state, s.as_str()),
        None => false,
    }
}

pub fn invalid_state_message() -> (s: String)
    ensures
        s@ == "invalid state parameter"@,
{
    owned("invalid state parameter")
}

/// Why a pending signup cannot be shown or completed.
#[derive(Debug, Clone, Copy, PartialEq, Eq)]
pub enum SignupRefusal {
    /// `404`: explicit signup is not enabled.
    Disabled,
    /// `400`: the session already holds a signed-in user.
    AlreadySignedIn,
    /// `400`: the pending signup is missing, malformed or expired.
    Missing,
}

impl SignupRefusal {
    /// The text of a `400` refusal; a `404` carries the generic not-found body.
    pub fn message(&self) -> (s: Option<String>)
        ensures
            match self {
                SignupRefusal::Disabled => s is None,
                SignupRefusal::AlreadySignedIn => s matches Some(t) && t@
                    == "You are already signed in."@,
                SignupRefusal::Missing => s matches Some(t) && t@ == PENDING_SIGNUP_ERROR@,
            },
    {
        match self {
            SignupRefusal::Disabled => None,
            SignupRefusal::AlreadySignedIn => Some(owned("You are already signed in.")),
            SignupRefusal::Missing => Some(owned(PENDING_SIGNUP_ERROR)),
        }
    }
}

/// What the session holds under the pending-signup key.
pub enum StoredSignup {
    /// No value.
    Absent,
    /// A value that does not deserialize.
    Malformed,
    /// A pending signup.
    Present(PendingSignup),
}

/// What to do with a request to show or complete a pending signup.
pub enum SignupDecision {
    /// Refuse; `clear` tells whether to remove the pending signup from the session.
    Refuse { refusal: SignupRefusal, clear: bool },
    /// Go on with this pending signup.
    Proceed(PendingSignup),
}

/// Decides on a request to show or complete a pending signup: explicit signup
/// must be enabled, no user may be signed in, and the session must hold a
/// well-formed pending signup that has not expired; malformed and expired
/// ones are removed from the session.
pub fn decide_pending_signup(
    explicit_signup_enabled: bool,
    signed_in: bool,
    stored: StoredSignup,
    now: &UtcTime,
) -> (d: SignupDecision)
    ensures
        !explicit_signup_enabled ==> d matches SignupDecision::Refuse {
            refusal: SignupRefusal::Disabled,
            clear: false,
        },
        explicit_signup_enabled && signed_in ==> d matches SignupDecision::Refuse {
            refusal: SignupRefusal::AlreadySignedIn,
            clear: false,
        },
        explicit_signup_enabled && !signed_in ==> match stored {
            StoredSignup::Absent => d matches SignupDecision::Refuse {
                refusal: SignupRefusal::Missing,
                clear: false,
            },
            StoredSignup::Malformed => d matches SignupDecision::Refuse {
                refusal: SignupRefusal::Missing,
                clear: true,
            },
            StoredSignup::Present(p) => if now.total_nanos() - p.created_at.total_nanos()
                >= PENDING_SIGNUP_LIFETIME_NANOS {
                d matches SignupDecision::Refuse { refusal: SignupRefusal::Missing, clear: true }
            } else {
                d matches SignupDecision::Proceed(q) && q.github_user == p.github_user
                    && q.encrypted_token == p.encrypted_token && q.created_at == p.created_at
            },
        },
{
    if !explicit_signup_enabled {
        return SignupDecision::Refuse { refusal: SignupRefusal::Disabled, clear: false };
    }
    if signed_in {
        return SignupDecision::Refuse { refusal: SignupRefusal::AlreadySignedIn, clear: false };
    }
    match stored {
        StoredSignup::Absent => SignupDecision::Refuse {
            refusal: SignupRefusal::Missing,
            clear: false,
        },
        StoredSignup::Malformed => SignupDecision::Refuse {
            refusal: SignupRefusal::Missing,
            clear: true,
        },
        StoredSignup::Present(p) => {
            if p.is_expired(now) {
                SignupDecision::Refuse { refusal: SignupRefusal::Missing, clear: true }
            } else {
                SignupDecision::Proceed(p)
            }
        },
    }
}

// ---------------------------------------------------------------------------
// Saving a GitHub user
// ---------------------------------------------------------------------------

/// The result of updating the user linked to a GitHub account.
#[derive(Debug, Clone, Copy, PartialEq, Eq)]
pub enum UpdateResult {
    Updated(i32),
    NotFound,
    Failed,
}

/// What to do after trying to update an existing user.
#[derive(Debug, Clone, Copy, PartialEq, Eq)]
pub enum AfterUpdate {
    /// Done: the user's id, or `None` where a new user must sign up first.
    Done(Option<i32>),
    /// Create the user.
    CreateUser,
    /// Fail with the update's error.
    Fail,
}

/// After updating a GitHub-linked user: an updated user is signed in; a
/// missing one must sign up first under explicit signup, and is created
/// otherwise; other errors fail.
pub open spec fn after_update_of(update: UpdateResult, explicit_signup_enabled: bool) -> AfterUpdate {
    match update {
        UpdateResult::Updated(id) => AfterUpdate::Done(Some(id)),
        UpdateResult::NotFound => if explicit_signup_enabled {
            AfterUpdate::Done(None)
        } else {
            AfterUpdate::CreateUser
        },
        UpdateResult::Failed => AfterUpdate::Fail,
    }
}

/// Decides after an update, as [`after_update_of`] says.
pub fn after_update(update: UpdateResult, explicit_signup_enabled: bool) -> (d: AfterUpdate)
    ensures
        d == after_update_of(update, explicit_signup_enabled),
{
    match update {
        UpdateResult::Updated(id) => AfterUpdate::Done(Some(id)),
        UpdateResult::NotFound => if explicit_signup_enabled {
            AfterUpdate::Done(None)
        } else {
            AfterUpdate::CreateUser
        },
        UpdateResult::Failed => AfterUpdate::Fail,
    }
}

/// What to do after creating or updating a user failed.
#[derive(Debug, Clone, Copy, PartialEq, Eq)]
pub enum AfterFailure {
    /// Look the GitHub account up (the database is read-only).
    LookUp,
    /// Fail with the error.
    Fail,
}

/// A failure in read-only mode falls back to looking the account up.
pub open spec fn after_save_failure_of(is_read_only_error: bool) -> AfterFailure {
    if is_read_only_error { AfterFailure::LookUp } else { AfterFailure::Fail }
}

/// Decides after a failed save, as [`after_save_failure_of`] says.
pub fn after_save_failure(is_read_only_error: bool) -> (d: AfterFailure)
    ensures
        d == after_save_failure_of(is_read_only_error),
{
    if is_read_only_error {
        AfterFailure::LookUp
    } else {
        AfterFailure::Fail
    }
}

/// In read-only mode: an existing user is signed in; a new one must sign up
/// under explicit signup (`Ok(None)`); otherwise the original error stands
/// (`Err(())`).
pub open spec fn after_read_only_lookup_of(found: Option<i32>, explicit_signup_enabled: bool) -> Result<
    Option<i32>,
    (),
> {
    match found {
        Some(id) => Ok(Some(id)),
        None => if explicit_signup_enabled {
            Ok(None)
        } else {
            Err(())
        },
    }
}

/// Decides after a read-only lookup, as [`after_read_only_lookup_of`] says.
pub fn after_read_only_lookup(found: Option<i32>, explicit_signup_enabled: bool) -> (r: Result<
    Option<i32>,
    (),
>)
    ensures
        r == after_read_only_lookup_of(found, explicit_signup_enabled),
{
    match found {
        Some(id) => Ok(Some(id)),
        None => if explicit_signup_enabled {
            Ok(None)
        } else {
            Err(())
        },
    }
}

/// Saving a GitHub user, as the decisions above compose it, over a database
/// modelled as the map from GitHub account ids to user ids: outside
/// read-only mode the linked user is updated, or, where there is none, a new
/// user (`new_user_id`) is created unless explicit signup is enabled; in
/// read-only mode every write fails with a read-only error and the account
/// is looked up. Gives the result and the database afterwards.
pub open spec fn save_user_outcome(
    accounts: Map<i32, i32>,
    read_only: bool,
    explicit_signup_enabled: bool,
    gh_id: i32,
    new_user_id: i32,
) -> (Result<Option<i32>, ()>, Map<i32, i32>) {
    let found = if accounts.contains_key(gh_id) {
        Some(accounts[gh_id])
    } else {
        None
    };
    if read_only {
        match after_save_failure_of(true) {
            AfterFailure::LookUp => (after_read_only_lookup_of(found, explicit_signup_enabled), accounts),
            AfterFailure::Fail => (Err(()), accounts),
        }
    } else {
        let update = match found {
            Some(id) => UpdateResult::Updated(id),
            None => UpdateResult::NotFound,
        };
        match after_update_of(update, explicit_signup_enabled) {
            AfterUpdate::Done(r) => (Ok(r), accounts),
            AfterUpdate::CreateUser => (Ok(Some(new_user_id)), accounts.insert(gh_id, new_user_id)),
            AfterUpdate::Fail => (Err(()), accounts),
        }
    }
}

/// A user saved outside read-only mode signs in again while the database is
/// read-only: the second save gives the same user id and leaves the
/// database as it was (no new user), whether or not explicit signup is
/// enabled for either call.
pub proof fn lemma_read_only_save_finds_saved_user(
    accounts: Map<i32, i32>,
    explicit_first: bool,
    explicit_second: bool,
    gh_id: i32,
    new_id_first: i32,
    new_id_second: i32,
    id: i32,
)
    requires
        save_user_outcome(accounts, false, explicit_first, gh_id, new_id_first).0 == Ok::<
            Option<i32>,
            (),
        >(Some(id)),
    ensures
        ({
            let after = save_user_outcome(accounts, false, explicit_first, gh_id, new_id_first).1;
            save_user_outcome(after, true, explicit_second, gh_id, new_id_second) == (Ok::<
                Option<i32>,
                (),
            >(Some(id)), after)
        }),
{
}

// ---------------------------------------------------------------------------
// Completing a signup
// ---------------------------------------------------------------------------

/// The details of a pending signup that the signup page shows.
#[derive(Debug, Clone, PartialEq, Eq)]
pub struct SignupDetails {
    pub login: String,
    pub email: Option<String>,
}

impl SignupDetails {
    pub fn from_pending(p: &PendingSignup) -> (d: Self)
        ensures
            d.login@ == p.github_user.login@,
            match p.github_user.email {
                Some(e) => d.email matches Some(f) && f@ == e@,
                None => d.email is None,
            },
    {
        SignupDetails {
            login: owned(p.github_user.login.as_str()),
            email: match &p.github_user.email {
                Some(e) => Some(owned(e.as_str())),
                None => None,
            },
        }
    }
}

/// The GitHub account that a completed signup creates a user for: the
/// pending account, with the email address the user chose.
pub fn signup_account(pending: PendingSignup, email: String) -> (u: GitHubUser)
    ensures
        u == (GitHubUser { email: Some(email), ..pending.github_user }),
{
    let mut u = pending.github_user;
    u.email = Some(email);
    u
}

} // verus!
