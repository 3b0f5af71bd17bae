//! Updating a crate's settings (`PATCH /api/v1/crates/{name}`): who may
//! change them, whether anything changes, and whom to notify.
use crate::text::owned;
use vstd::prelude::*;

verus! {

/// A user owner of the crate, with the email address notifications go to.
#[derive(Debug, Clone, PartialEq, Eq)]
pub struct UserOwner {
    pub id: i32,
    pub login: String,
    pub email: String,
    pub email_verified: bool,
}

/// Only user owners may change a crate's settings (`403 Forbidden`).
#[derive(Debug, Clone, Copy, PartialEq, Eq)]
pub struct NotOwner;

impl NotOwner {
    pub fn message(&self) -> (s: String)
        ensures
            s@ == "only owners have permission to modify crate settings"@,
    {
        owned("only owners have permission to modify crate settings")
    }
}

/// A change of the `trustpub_only` setting, and the owners to notify of it
/// (by their index among the owners): those with a verified email address.
#[derive(Debug, Clone, PartialEq, Eq)]
pub struct TrustpubOnlyChange {
    pub trustpub_only: bool,
    pub notify: Vec<usize>,
}

/// Whether the user is one of the owners.
pub open spec fn is_owner(owners: Seq<UserOwner>, user_id: i32) -> bool {
    exists|k: int| 0 <= k < owners.len() && (#[trigger] owners[k]).id == user_id
}

/// Decides an update of the crate's settings: the user must be an owner; the
/// setting changes only where a value is requested that differs from the
/// current one, and then the owners with a verified email are notified, in
/// the order of the owners.
pub fn plan_settings_update(
    user_id: i32,
    owners: &Vec<UserOwner>,
    requested_trustpub_only: Option<bool>,
    current_trustpub_only: bool,
) -> (r: Result<Option<TrustpubOnlyChange>, NotOwner>)
    ensures
        !is_owner(owners@, user_id) ==> r is Err,
        is_owner(owners@, user_id) ==> match requested_trustpub_only {
            Some(v) => if v != current_trustpub_only {
                r matches Ok(Some(c)) && c.trustpub_only == v && (forall|i: int|
                    0 <= i < c.notify.len() ==> (#[trigger] c.notify@[i]) < owners.len()
                        && owners@[c.notify@[i] as int].email_verified) && (forall|k: int|
                    0 <= k < owners.len() && (#[trigger] owners@[k]).email_verified ==> c.notify@.contains(
                        k as usize,
                    )) && (forall|i: int, j: int|
                    0 <= i < j < c.notify.len() ==> c.notify@[i] < c.notify@[j])
            } else {
                r == Ok::<Option<TrustpubOnlyChange>, NotOwner>(None)
            },
            None => r == Ok::<Option<TrustpubOnlyChange>, NotOwner>(None),
        },
{
    let mut k: usize = 0;
    let mut found = false;
    while k < owners.len()
        invariant
            k <= owners.len(),
            found == exists|j: int| 0 <= j < k && (#[trigger] owners@[j]).id == user_id,
        decreases owners.len() - k,
    {
        if owners[k].id == user_id {
            found = true;
        }
        k = k + 1;
    }
    if !found {
        return Err(NotOwner);
    }
    let v = match requested_trustpub_only {
        Some(v) => v,
        None => return Ok(None),
    };
    if v == current_trustpub_only {
        return Ok(None);
    }
    let mut notify: Vec<usize> = Vec::new();
    let mut i: usize = 0;
    while i < owners.len()
        invariant
            i <= owners.len(),
            forall|a: int|
                0 <= a < notify.len() ==> (#[trigger] notify@[a]) < i && owners@[notify@[a] as int].email_verified,
            forall|b: int|
                0 <= b < i && (#[trigger] owners@[b]).email_verified ==> notify@.contains(b as usize),
            forall|a: int, b: int| 0 <= a < b < notify.len() ==> notify@[a] < notify@[b],
        decreases owners.len() - i,
    {
        if owners[i].email_verified {
            let ghost before = notify@;
            notify.push(i);
            assert forall|b: int|
                0 <= b < i + 1 && (#[trigger] owners@[b]).email_verified implies notify@.contains(
                b as usize,
            ) by {
                if b < i {
                    let a = choose|a: int| 0 <= a < before.len() && before[a] == b as usize;
                    assert(notify@[a] == b as usize);
                } else {
                    assert(notify@[notify.len() - 1] == b as usize);
                }
            }
        }
        i = i + 1;
    }
    Ok(Some(TrustpubOnlyChange { trustpub_only: v, notify }))
}

} // verus!
