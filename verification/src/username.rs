//! Whether a new username may be adopted.
use crate::text::{owned, push_str};
use crate::time::{rfc3339_secs_text, to_rfc3339_secs, UtcTime};
use vstd::prelude::*;

verus! {

/// Days after a username is given up before it can be used again.
pub const USERNAME_COOLDOWN_DAYS: i64 = 30;

/// Why a username may not be adopted (a `400 Bad Request`).
#[derive(Debug, Clone, PartialEq, Eq)]
pub enum UsernameErr {
    /// The name is not a valid username; the validation's message.
    Invalid(String),
    /// The name is reserved.
    Reserved(String),
    /// Another user has the name.
    InUse(String),
    /// The name was given up recently; it is available from this time on.
    Cooldown(String, UtcTime),
}

pub open spec fn username_err_message(e: UsernameErr) -> Seq<char> {
    match e {
        UsernameErr::Invalid(m) => m@,
        UsernameErr::Reserved(n) => "the username `"@ + n@ + "` is reserved"@,
        UsernameErr::InUse(n) => "the username `"@ + n@ + "` is not available"@,
        UsernameErr::Cooldown(n, t) => "The username `"@ + n@
            + "` was recently in use. This username will be available after "@
            + rfc3339_secs_text(t.seconds() as i64, t.subsec_nanos() as u32) + "."@,
    }
}

impl UsernameErr {
    pub fn message(&self) -> (s: String)
        ensures
            s@ == username_err_message(*self),
    {
        match self {
            UsernameErr::Invalid(m) => owned(m.as_str()),
            UsernameErr::Reserved(n) => {
                let mut s = owned("the username `");
                push_str(&mut s, n.as_str());
                push_str(&mut s, "` is reserved");
                s
            },
            UsernameErr::InUse(n) => {
                let mut s = owned("the username `");
                push_str(&mut s, n.as_str());
                push_str(&mut s, "` is not available");
                s
            },
            UsernameErr::Cooldown(n, t) => {
                let mut s = owned("The username `");
                push_str(&mut s, n.as_str());
                push_str(&mut s, "` was recently in use. This username will be available after ");
                let date = to_rfc3339_secs(t);
                push_str(&mut s, date.as_str());
                push_str(&mut s, ".");
                s
            },
        }
    }
}

/// Decides whether `newname` may be adopted, checking in order: the name
/// must be valid (`validation` holds the validation's refusal, if any); it
/// must not be reserved; no user may have it; and if it was given up, its
/// cooldown must have passed (`cooldown_until` is the time of availability
/// of an abandoned name that is still in the future).
pub fn check_username(
    newname: &str,
    validation: Option<String>,
    reserved: bool,
    in_use: bool,
    cooldown_until: Option<UtcTime>,
) -> (r: Result<(), UsernameErr>)
    ensures
        match validation {
            Some(m) => r matches Err(UsernameErr::Invalid(e)) && e@ == m@,
            None => if reserved {
                r matches Err(UsernameErr::Reserved(n)) && n@ == newname@
            } else if in_use {
                r matches Err(UsernameErr::InUse(n)) && n@ == newname@
            } else {
                match cooldown_until {
                    Some(t) => r matches Err(UsernameErr::Cooldown(n, u)) && n@ == newname@ && u
                        == t,
                    None => r is Ok,
                }
            },
        },
{
    if let Some(m) = validation {
        return Err(UsernameErr::Invalid(m));
    }
    if reserved {
        return Err(UsernameErr::Reserved(owned(newname)));
    }
    if in_use {
        return Err(UsernameErr::InUse(owned(newname)));
    }
    if let Some(t) = cooldown_until {
        return Err(UsernameErr::Cooldown(owned(newname), t));
    }
    Ok(())
}

/// Whether an abandoned name is still cooling down at `now`: its
/// availability lies in the future.
pub fn is_cooling_down(available_at: &UtcTime, now: &UtcTime) -> (r: bool)
    ensures
        r == (available_at.total_nanos() > now.total_nanos()),
{
    now.before(available_at)
}

} // verus!
