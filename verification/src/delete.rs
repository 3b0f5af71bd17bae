//! The rules for deleting a crate.
use crate::owners::Rights;
use crate::text::owned;
use vstd::prelude::*;

verus! {

pub const DOWNLOADS_PER_MONTH_LIMIT: u64 = 1000;

/// Nanoseconds in a day.
pub const NANOS_PER_DAY: i128 = 86_400_000_000_000;

/// Nanoseconds in 72 hours, after which extra conditions apply.
pub const GRACE_PERIOD_NANOS: i128 = 259_200_000_000_000;

/// The largest span `chrono::TimeDelta` holds, in nanoseconds (`i64::MAX` milliseconds).
pub const MAX_TIME_DELTA_NANOS: i128 = 9_223_372_036_854_775_807_000_000;

/// The optional deletion message of the request.
pub struct DeleteQueryParams {
    pub message: Option<String>,
}

impl DeleteQueryParams {
    /// The deletion message, where one was given and it is not empty.
    pub fn message(&self) -> (r: Option<&str>)
        ensures
            match self.message {
                Some(m) => if m@.len() > 0 {
                    r matches Some(s) && s@ == m@
                } else {
                    r is None
                },
                None => r is None,
            },
    {
        match &self.message {
            Some(m) => if m.as_str().is_empty() {
                None
            } else {
                Some(m.as_str())
            },
            None => None,
        }
    }
}

/// The download limit of a crate of this age: 1000 for every started month
/// of 30 days; only a crate with fewer downloads may be deleted.
pub open spec fn max_downloads_spec(age_nanos: int) -> int {
    let days = age_nanos / NANOS_PER_DAY as int;
    let months = (days + 29) / 30;
    DOWNLOADS_PER_MONTH_LIMIT * months
}

/// The download limit of a crate of this age (in nanoseconds): 1000 per
/// started month of 30 days.
pub fn max_downloads(age_nanos: i128) -> (r: u64)
    requires
        0 <= age_nanos <= MAX_TIME_DELTA_NANOS,
    ensures
        r == max_downloads_spec(age_nanos as int),
{
    let days = age_nanos / NANOS_PER_DAY;
    assert(days <= 106_751_991_167_300);
    let days = days as u64;
    let months = (days + 29) / 30;
    DOWNLOADS_PER_MONTH_LIMIT * months
}

/// A stored download count as an unsigned number: zero when there is no
/// record, the largest value when the count is negative.
pub fn downloads_as_u64(downloads: Option<i64>) -> (r: u64)
    ensures
        r == match downloads {
            Some(d) => if d >= 0 { d as int } else { u64::MAX as int },
            None => 0,
        },
{
    match downloads {
        Some(d) => if d >= 0 {
            d as u64
        } else {
            u64::MAX
        },
        None => 0,
    }
}

/// Why a crate may not be deleted.
#[derive(Debug, Clone, Copy, PartialEq, Eq)]
pub enum DeleteRefusal {
    /// `403`: team members may not delete crates.
    TeamMember,
    /// `403`: only owners may delete crates.
    NotOwner,
    /// `422`: after 72 hours only crates with a single owner can be deleted.
    MultipleOwners,
    /// `422`: after 72 hours only crates with few downloads can be deleted.
    TooManyDownloads,
    /// `422`: after 72 hours crates that others depend on cannot be deleted.
    HasReverseDependencies,
}

pub open spec fn delete_refusal_message(r: DeleteRefusal) -> Seq<char> {
    match r {
        DeleteRefusal::TeamMember => "team members don't have permission to delete crates"@,
        DeleteRefusal::NotOwner => "only owners have permission to delete crates"@,
        DeleteRefusal::MultipleOwners =>
            "only crates with a single owner can be deleted after 72 hours"@,
        DeleteRefusal::TooManyDownloads =>
            "only crates with less than 1000 downloads per month can be deleted after 72 hours"@,
        DeleteRefusal::HasReverseDependencies =>
            "only crates without reverse dependencies can be deleted"@,
    }
}

impl DeleteRefusal {
    pub fn message(&self) -> (s: String)
        ensures
            s@ == delete_refusal_message(*self),
    {
        match self {
            DeleteRefusal::TeamMember => owned("team members don't have permission to delete crates"),
            DeleteRefusal::NotOwner => owned("only owners have permission to delete crates"),
            DeleteRefusal::MultipleOwners => owned(
                "only crates with a single owner can be deleted after 72 hours",
            ),
            DeleteRefusal::TooManyDownloads => owned(
                "only crates with less than 1000 downloads per month can be deleted after 72 hours",
            ),
            DeleteRefusal::HasReverseDependencies => owned(
                "only crates without reverse dependencies can be deleted",
            ),
        }
    }

    /// Whether the refusal is a `403 Forbidden` (the others are `422`).
    pub fn is_forbidden(&self) -> (r: bool)
        ensures
            r == (*self == DeleteRefusal::TeamMember || *self == DeleteRefusal::NotOwner),
    {
        match self {
            DeleteRefusal::TeamMember | DeleteRefusal::NotOwner => true,
            _ => false,
        }
    }
}

/// Whether a crate may be deleted, and if not, the first rule it breaks: the
/// user must own it (team members may not); within 72 hours of publishing
/// that is enough; after that it must have a single owner, fewer than 1000
/// downloads per started month, and no other crate may depend on it.
pub open spec fn deletion_check(
    rights: Rights,
    age_nanos: int,
    owner_count: nat,
    downloads: nat,
    has_rev_dep: bool,
) -> Result<(), DeleteRefusal> {
    if rights == Rights::Publish {
        Err(DeleteRefusal::TeamMember)
    } else if rights == Rights::NoRights {
        Err(DeleteRefusal::NotOwner)
    } else if age_nanos > GRACE_PERIOD_NANOS && owner_count > 1 {
        Err(DeleteRefusal::MultipleOwners)
    } else if age_nanos > GRACE_PERIOD_NANOS && downloads >= max_downloads_spec(age_nanos) {
        Err(DeleteRefusal::TooManyDownloads)
    } else if age_nanos > GRACE_PERIOD_NANOS && has_rev_dep {
        Err(DeleteRefusal::HasReverseDependencies)
    } else {
        Ok(())
    }
}

/// Decides whether a crate may be deleted: `age_nanos` is the time since it
/// was created, `downloads` its total download count.
pub fn check_deletion(
    rights: Rights,
    age_nanos: i128,
    owner_count: usize,
    downloads: u64,
    has_rev_dep: bool,
) -> (r: Result<(), DeleteRefusal>)
    requires
        age_nanos <= MAX_TIME_DELTA_NANOS,
    ensures
        r == deletion_check(rights, age_nanos as int, owner_count as nat, downloads as nat, has_rev_dep),
{
    match rights {
        Rights::Full => {},
        Rights::Publish => return Err(DeleteRefusal::TeamMember),
        Rights::NoRights => return Err(DeleteRefusal::NotOwner),
    }
    if age_nanos > GRACE_PERIOD_NANOS {
        if owner_count > 1 {
            return Err(DeleteRefusal::MultipleOwners);
        }
        if downloads >= max_downloads(age_nanos) {
            return Err(DeleteRefusal::TooManyDownloads);
        }
        if has_rev_dep {
            return Err(DeleteRefusal::HasReverseDependencies);
        }
    }
    Ok(())
}

} // verus!
