//! API tokens: which tokens a user's listing shows, and the checks of
//! creating and revoking tokens.
use crate::text::{decimal, owned, push_decimal};
use crate::time::UtcTime;
use vstd::prelude::*;

verus! {

/// The most tokens a user may have.
pub const MAX_TOKENS_PER_USER: i64 = 500;

/// Nanoseconds in a day.
pub const NANOS_PER_DAY: i128 = 86_400_000_000_000;

/// The query parameters of the token listing.
#[derive(Debug, Clone, Copy, PartialEq, Eq)]
pub struct GetParams {
    /// Also list tokens that expired within this many days.
    pub expired_days: Option<i32>,
}

impl GetParams {
    /// The days for which expired tokens are still listed: the parameter
    /// where it is positive, zero otherwise.
    pub fn expired_days_interval(&self) -> (d: i32)
        ensures
            d == match self.expired_days {
                Some(days) => if days > 0 { days } else { 0 },
                None => 0,
            },
    {
        match self.expired_days {
            Some(days) => if days > 0 {
                days
            } else {
                0
            },
            None => 0,
        }
    }
}

/// Whether the listing shows a token: it is not revoked, and it does not
/// expire or expired less than `expired_days` days before `now`.
pub fn is_listed(revoked: bool, expired_at: Option<UtcTime>, now: &UtcTime, expired_days: i32) -> (r:
    bool)
    requires
        0 <= expired_days,
    ensures
        r == (!revoked && match expired_at {
            None => true,
            Some(t) => t.total_nanos() > now.total_nanos() - expired_days * NANOS_PER_DAY,
        }),
{
    if revoked {
        return false;
    }
    match expired_at {
        None => true,
        Some(t) => {
            let window: i128 = expired_days as i128 * NANOS_PER_DAY;
            t.nanos_since(now) > 0 - window
        },
    }
}

/// Why a token may not be created.
#[derive(Debug, Clone, PartialEq, Eq)]
pub enum TokenCreationError {
    /// `400`: the token has no name.
    EmptyName,
    /// `400`: the request was authenticated with an API token.
    CreatedWithToken,
    /// `503`: token creation is disabled, with the configured message.
    Disabled(String),
    /// `400`: the user has as many tokens as allowed.
    TooManyTokens,
    /// `400`: a crate scope does not parse.
    InvalidCrateScope,
    /// `400`: an endpoint scope does not parse.
    InvalidEndpointScope,
}

pub open spec fn token_creation_message(e: TokenCreationError) -> Seq<char> {
    match e {
        TokenCreationError::EmptyName => "name must have a value"@,
        TokenCreationError::CreatedWithToken => "cannot use an API token to create a new API token"@,
        TokenCreationError::Disabled(m) => m@,
        TokenCreationError::TooManyTokens => "maximum tokens per user is: "@ + decimal(500),
        TokenCreationError::InvalidCrateScope => "invalid crate scope"@,
        TokenCreationError::InvalidEndpointScope => "invalid endpoint scope"@,
    }
}

impl TokenCreationError {
    pub fn message(&self) -> (s: String)
        ensures
            s@ == token_creation_message(*self),
    {
        match self {
            TokenCreationError::EmptyName => owned("name must have a value"),
            TokenCreationError::CreatedWithToken => owned(
                "cannot use an API token to create a new API token",
            ),
            TokenCreationError::Disabled(m) => owned(m.as_str()),
            TokenCreationError::TooManyTokens => {
                let mut s = owned("maximum tokens per user is: ");
                push_decimal(&mut s, MAX_TOKENS_PER_USER as u64);
                s
            },
            TokenCreationError::InvalidCrateScope => owned("invalid crate scope"),
            TokenCreationError::InvalidEndpointScope => owned("invalid endpoint scope"),
        }
    }

    /// Whether the refusal is a `503 Service Unavailable` (the others are `400`).
    pub fn is_unavailable(&self) -> (r: bool)
        ensures
            r == (*self is Disabled),
    {
        match self {
            TokenCreationError::Disabled(_) => true,
            _ => false,
        }
    }
}

/// The first check, before the request is authenticated: the token needs a name.
pub fn check_token_name(name: &str) -> (r: Result<(), TokenCreationError>)
    ensures
        r == if name@.len() == 0 {
            Err(TokenCreationError::EmptyName)
        } else {
            Ok::<(), TokenCreationError>(())
        },
{
    if name.is_empty() {
        Err(TokenCreationError::EmptyName)
    } else {
        Ok(())
    }
}

/// The checks after authentication, in order: tokens may not create tokens;
/// creation may be disabled; the user may hold at most 500 tokens.
pub fn check_token_creation(
    authenticated_with_token: bool,
    disable_message: &Option<String>,
    token_count: i64,
) -> (r: Result<(), TokenCreationError>)
    ensures
        authenticated_with_token ==> r == Err::<(), TokenCreationError>(
            TokenCreationError::CreatedWithToken,
        ),
        !authenticated_with_token ==> match disable_message {
            Some(m) => r matches Err(TokenCreationError::Disabled(d)) && d@ == m@,
            None => r == if token_count >= MAX_TOKENS_PER_USER {
                Err(TokenCreationError::TooManyTokens)
            } else {
                Ok::<(), TokenCreationError>(())
            },
        },
{
    if authenticated_with_token {
        return Err(TokenCreationError::CreatedWithToken);
    }
    if let Some(m) = disable_message {
        return Err(TokenCreationError::Disabled(owned(m.as_str())));
    }
    if token_count >= MAX_TOKENS_PER_USER {
        return Err(TokenCreationError::TooManyTokens);
    }
    Ok(())
}

/// The scopes of the new token: crate scopes are checked before endpoint
/// scopes; `None` stands for scopes not given, `Some(false)` for scopes of
/// which one does not parse.
pub fn check_token_scopes(crate_scopes_valid: Option<bool>, endpoint_scopes_valid: Option<bool>) -> (r:
    Result<(), TokenCreationError>)
    ensures
        r == if crate_scopes_valid == Some(false) {
            Err(TokenCreationError::InvalidCrateScope)
        } else if endpoint_scopes_valid == Some(false) {
            Err(TokenCreationError::InvalidEndpointScope)
        } else {
            Ok::<(), TokenCreationError>(())
        },
{
    if let Some(false) = crate_scopes_valid {
        return Err(TokenCreationError::InvalidCrateScope);
    }
    if let Some(false) = endpoint_scopes_valid {
        return Err(TokenCreationError::InvalidEndpointScope);
    }
    Ok(())
}

/// The token to revoke through `DELETE /api/v1/tokens/current`: the one that
/// authenticated the request; a cookie-authenticated request is refused
/// ("token not provided", `400`).
pub fn current_token_id(api_token_id: Option<i32>) -> (r: Result<i32, String>)
    ensures
        match api_token_id {
            Some(id) => r == Ok::<i32, String>(id),
            None => r matches Err(m) && m@ == "token not provided"@,
        },
{
    match api_token_id {
        Some(id) => Ok(id),
        None => Err(owned("token not provided")),
    }
}

} // verus!
