//! Listing crate owner invitations: which invitations a user may see, how
//! the listing pages, and which users the response describes.
use crate::owners::Rights;
use crate::pagination::{PaginationOptions, PaginationOptionsBuilder};
use crate::text::{decimal, owned, push_decimal, push_str};
use crate::time::UtcTime;
use vstd::prelude::*;

verus! {

/// Which invitations to list.
#[derive(Debug, Clone, PartialEq, Eq)]
pub enum ListFilter {
    /// The pending invitations of a crate.
    CrateName(String),
    /// The pending invitations of a user.
    InviteeId(i32),
}

/// Why a listing of invitations is refused.
#[derive(Debug, Clone, Copy, PartialEq, Eq)]
pub enum InvitationListError {
    /// `400`: neither a crate name nor an invitee was given.
    MissingFilter,
    /// `403`: only owners may list the invitations of a crate.
    NotCrateOwner,
    /// `403`: users may list only their own invitations.
    NotInvitee,
}

pub open spec fn invitation_list_error_message(e: InvitationListError) -> Seq<char> {
    match e {
        InvitationListError::MissingFilter => "missing or invalid filter"@,
        InvitationListError::NotCrateOwner =>
            "only crate owners can query pending invitations for their crate"@,
        InvitationListError::NotInvitee => "only the invitee can query their pending invitations"@,
    }
}

impl InvitationListError {
    pub fn message(&self) -> (s: String)
        ensures
            s@ == invitation_list_error_message(*self),
    {
        match self {
            InvitationListError::MissingFilter => owned("missing or invalid filter"),
            InvitationListError::NotCrateOwner => owned(
                "only crate owners can query pending invitations for their crate",
            ),
            InvitationListError::NotInvitee => owned(
                "only the invitee can query their pending invitations",
            ),
        }
    }

    /// Whether the refusal is a `403 Forbidden` (the other is a `400`).
    pub fn is_forbidden(&self) -> (r: bool)
        ensures
            r == !(*self == InvitationListError::MissingFilter),
    {
        match self {
            InvitationListError::MissingFilter => false,
            _ => true,
        }
    }
}

/// The filter of a listing request: the crate name where one is given,
/// otherwise the invitee.
pub fn list_filter(crate_name: Option<String>, invitee_id: Option<i32>) -> (r: Result<
    ListFilter,
    InvitationListError,
>)
    ensures
        match crate_name {
            Some(name) => r matches Ok(ListFilter::CrateName(n)) && n@ == name@,
            None => match invitee_id {
                Some(id) => r == Ok::<ListFilter, InvitationListError>(ListFilter::InviteeId(id)),
                None => r == Err::<ListFilter, InvitationListError>(
                    InvitationListError::MissingFilter,
                ),
            },
        },
{
    if let Some(name) = crate_name {
        Ok(ListFilter::CrateName(name))
    } else if let Some(id) = invitee_id {
        Ok(ListFilter::InviteeId(id))
    } else {
        Err(InvitationListError::MissingFilter)
    }
}

/// Only full owners of the crate may list its pending invitations.
pub fn check_crate_filter_access(rights: Rights) -> (r: Result<(), InvitationListError>)
    ensures
        r == if rights == Rights::Full {
            Ok::<(), InvitationListError>(())
        } else {
            Err(InvitationListError::NotCrateOwner)
        },
{
    match rights {
        Rights::Full => Ok(()),
        _ => Err(InvitationListError::NotCrateOwner),
    }
}

/// Users may list only the invitations they received.
pub fn check_invitee_access(invitee_id: i32, user_id: i32) -> (r: Result<(), InvitationListError>)
    ensures
        r == if invitee_id == user_id {
            Ok::<(), InvitationListError>(())
        } else {
            Err(InvitationListError::NotInvitee)
        },
{
    if invitee_id != user_id {
        Err(InvitationListError::NotInvitee)
    } else {
        Ok(())
    }
}

/// The pagination of the listing: by seek keys only, without numeric pages.
pub fn invitation_pagination() -> (b: PaginationOptionsBuilder)
    ensures
        !b.limit_page_numbers,
        !b.enable_pages,
        b.enable_seek,
        !b.enable_seek_backward,
{
    PaginationOptions::builder().enable_pages(false).enable_seek(true)
}

/// Whether an invitation created at `created_at` has not expired at `now`,
/// invitations lasting `expiration_nanos`.
pub fn is_unexpired(created_at: &UtcTime, now: &UtcTime, expiration_nanos: i128) -> (r: bool)
    requires
        0 <= expiration_nanos <= i64::MAX,
    ensures
        r == (created_at.total_nanos() > now.total_nanos() - expiration_nanos),
{
    created_at.nanos_since(now) > 0 - expiration_nanos
}

// ---------------------------------------------------------------------------
// Pages
// ---------------------------------------------------------------------------

/// The ids of an invitation that the listing reads.
#[derive(Debug, Clone, Copy, PartialEq, Eq)]
pub struct InvitationRow {
    pub crate_id: i32,
    pub invited_user_id: i32,
    pub invited_by_user_id: i32,
}

/// The seek key of an invitation: its crate and its invitee, the columns
/// the listing is ordered by.
pub open spec fn seek_key(r: InvitationRow) -> (i32, i32) {
    (r.crate_id, r.invited_user_id)
}

/// Whether an invitation comes after the seek key in the listing's order
/// (by crate, then by invitee): the condition of the following page.
pub fn comes_after_key(row: &InvitationRow, key: (i32, i32)) -> (r: bool)
    ensures
        r == (row.crate_id > key.0 || (row.crate_id == key.0 && row.invited_user_id > key.1)),
{
    row.crate_id > key.0 || (row.crate_id == key.0 && row.invited_user_id > key.1)
}

/// The listing loads one invitation beyond the page size to learn whether
/// another page follows. With more than `per_page` rows, the last row is
/// dropped and the page's last invitation gives the key of the next page.
pub fn take_page(rows: Vec<InvitationRow>, per_page: usize) -> (r: (
    Vec<InvitationRow>,
    Option<(i32, i32)>,
))
    requires
        rows.len() <= per_page + 1,
    ensures
        r.0.len() <= per_page,
        rows.len() > per_page ==> {
            &&& r.0@ == rows@.drop_last()
            &&& r.1 == if r.0.len() > 0 {
                Some(seek_key(r.0@.last()))
            } else {
                None::<(i32, i32)>
            }
        },
        rows.len() <= per_page ==> r.0@ == rows@ && r.1 is None,
{
    let mut rows = rows;
    if rows.len() > per_page {
        rows.pop();
        let n = rows.len();
        if n > 0 {
            let last = rows[n - 1];
            (rows, Some((last.crate_id, last.invited_user_id)))
        } else {
            (rows, None)
        }
    } else {
        (rows, None)
    }
}

/// Whether an invitation's key comes no later than another's, in the
/// listing's order (by crate, then by invitee).
pub open spec fn key_le(a: InvitationRow, b: InvitationRow) -> bool {
    a.crate_id < b.crate_id || (a.crate_id == b.crate_id && a.invited_user_id <= b.invited_user_id)
}

/// Whether the invitations are in the listing's order.
pub open spec fn in_key_order(s: Seq<InvitationRow>) -> bool {
    forall|i: int, j: int| 0 <= i < j < s.len() ==> key_le(s[i], s[j])
}

/// Whether a stored invitation belongs on the page: it has not expired at
/// `now`, and it comes after the seek key, if any.
pub open spec fn qualifies(
    stored: (InvitationRow, UtcTime),
    now: UtcTime,
    expiration_nanos: int,
    after: Option<(i32, i32)>,
) -> bool {
    &&& stored.1.total_nanos() > now.total_nanos() - expiration_nanos
    &&& match after {
        Some(k) => stored.0.crate_id > k.0 || (stored.0.crate_id == k.0
            && stored.0.invited_user_id > k.1),
        None => true,
    }
}

/// The invitations that belong on the page, in stored order.
pub open spec fn qualifying_rows(
    stored: Seq<(InvitationRow, UtcTime)>,
    now: UtcTime,
    expiration_nanos: int,
    after: Option<(i32, i32)>,
) -> Seq<InvitationRow>
    decreases stored.len(),
{
    if stored.len() == 0 {
        Seq::empty()
    } else {
        let rest = qualifying_rows(stored.drop_last(), now, expiration_nanos, after);
        if qualifies(stored.last(), now, expiration_nanos, after) {
            rest.push(stored.last().0)
        } else {
            rest
        }
    }
}

/// Inserts `x` into rows in the listing's order, after those that come no
/// later than it.
fn insert_by_key(v: &mut Vec<InvitationRow>, x: InvitationRow)
    requires
        in_key_order(old(v)@),
    ensures
        in_key_order(final(v)@),
        final(v)@.to_multiset() == old(v)@.to_multiset().insert(x),
{
    let ghost before = v@;
    let mut i: usize = 0;
    while i < v.len() && (v[i].crate_id < x.crate_id || (v[i].crate_id == x.crate_id
        && v[i].invited_user_id <= x.invited_user_id))
        invariant
            i <= v.len(),
            v@ == before,
            in_key_order(before),
            forall|j: int| 0 <= j < i ==> key_le(before[j], x),
        decreases v.len() - i,
    {
        i = i + 1;
    }
    v.insert(i, x);
    proof {
        broadcast use vstd::seq_lib::to_multiset_insert;

        let after = v@;
        assert(after == before.insert(i as int, x));
        assert forall|a: int, b: int| 0 <= a < b < after.len() implies key_le(after[a], after[b]) by {
            if b < i {
            } else if a < i && b == i {
            } else if a < i && b > i {
                assert(after[b] == before[b - 1]);
            } else if a == i {
                assert(after[b] == before[b - 1]);
                assert(!key_le(before[i as int], x));
                if b - 1 > i {
                    assert(key_le(before[i as int], before[b - 1]));
                }
            } else {
                assert(after[a] == before[a - 1] && after[b] == before[b - 1]);
            }
        }
    }
}

/// The rows of a page of the listing, as its query loads them: the stored
/// invitations that have not expired and come after the seek key, in the
/// listing's order, at most `limit` of them (the first ones).
pub fn select_invitations(
    stored: &Vec<(InvitationRow, UtcTime)>,
    now: &UtcTime,
    expiration_nanos: i128,
    after: Option<(i32, i32)>,
    limit: usize,
) -> (r: Vec<InvitationRow>)
    requires
        0 <= expiration_nanos <= i64::MAX,
    ensures
        exists|s: Seq<InvitationRow>|
            {
                &&& in_key_order(s)
                &&& s.to_multiset() == qualifying_rows(
                    stored@,
                    *now,
                    expiration_nanos as int,
                    after,
                ).to_multiset()
                &&& r@ == s.take(if s.len() < limit { s.len() as int } else { limit as int })
            },
{
    let mut sorted: Vec<InvitationRow> = Vec::new();
    let mut i: usize = 0;
    while i < stored.len()
        invariant
            i <= stored.len(),
            0 <= expiration_nanos <= i64::MAX,
            in_key_order(sorted@),
            sorted@.to_multiset() == qualifying_rows(
                stored@.take(i as int),
                *now,
                expiration_nanos as int,
                after,
            ).to_multiset(),
        decreases stored.len() - i,
    {
        let (row, created_at) = stored[i];
        assert(stored@.take(i + 1).drop_last() =~= stored@.take(i as int));
        assert(stored@.take(i + 1).last() == stored@[i as int]);
        let keep = is_unexpired(&created_at, now, expiration_nanos) && match after {
            Some(k) => comes_after_key(&row, k),
            None => true,
        };
        if keep {
            proof {
                broadcast use vstd::seq_lib::to_multiset_build;
            }
            insert_by_key(&mut sorted, row);
        }
        i = i + 1;
    }
    assert(stored@.take(stored.len() as int) =~= stored@);
    let n = if sorted.len() < limit { sorted.len() } else { limit };
    let mut r: Vec<InvitationRow> = Vec::new();
    let mut j: usize = 0;
    while j < n
        invariant
            j <= n <= sorted.len(),
            r@ == sorted@.take(j as int),
        decreases n - j,
    {
        r.push(sorted[j]);
        assert(r@ =~= sorted@.take(j + 1));
        j = j + 1;
    }
    r
}

/// A page of the invitation listing: the first `per_page` qualifying
/// invitations in the listing's order (see [`select_invitations`]), and the
/// key of the next page where more qualify than fit on this one: that of
/// the page's last invitation.
pub fn invitation_page(
    stored: &Vec<(InvitationRow, UtcTime)>,
    now: &UtcTime,
    expiration_nanos: i128,
    after: Option<(i32, i32)>,
    per_page: usize,
) -> (r: (Vec<InvitationRow>, Option<(i32, i32)>))
    requires
        0 <= expiration_nanos <= i64::MAX,
        per_page < usize::MAX,
    ensures
        exists|s: Seq<InvitationRow>|
            {
                &&& in_key_order(s)
                &&& s.to_multiset() == qualifying_rows(
                    stored@,
                    *now,
                    expiration_nanos as int,
                    after,
                ).to_multiset()
                &&& r.0@ == s.take(if s.len() < per_page { s.len() as int } else { per_page as int })
                &&& r.1 == if s.len() > per_page && per_page > 0 {
                    Some(seek_key(s[per_page - 1]))
                } else {
                    None::<(i32, i32)>
                }
            },
{
    let rows = select_invitations(stored, now, expiration_nanos, after, per_page + 1);
    let ghost s = choose|s: Seq<InvitationRow>|
        {
            &&& in_key_order(s)
            &&& s.to_multiset() == qualifying_rows(
                stored@,
                *now,
                expiration_nanos as int,
                after,
            ).to_multiset()
            &&& rows@ == s.take(
                if s.len() < per_page + 1 { s.len() as int } else { (per_page + 1) as int },
            )
        };
    let r = take_page(rows, per_page);
    proof {
        assert(r.0@ =~= s.take(if s.len() < per_page { s.len() as int } else { per_page as int }));
    }
    r
}

/// What `serde_json::to_vec` gives for a pair of integers.
pub uninterp spec fn json_of_pair(a: i32, b: i32) -> Seq<u8>;

/// What `serde_json::from_slice::<(i32, i32)>` gives for these bytes, or
/// `None` where it reports an error.
pub uninterp spec fn pair_of_json(bytes: Seq<u8>) -> Option<(i32, i32)>;

/// `serde_json::to_vec(&(a, b))`: names the JSON text of the pair, which
/// deserializes to the same pair. Serializing two integers cannot fail; the
/// text is `[a,b]`, at most 25 bytes (two 11-byte numbers such as
/// `-2147483648`, the brackets and the comma).
#[verifier::external_body]
fn pair_to_json(a: i32, b: i32) -> (r: Vec<u8>)
    ensures
        r@ == json_of_pair(a, b),
        pair_of_json(r@) == Some((a, b)),
        r@.len() <= 25,
{
    serde_json::to_vec(&(a, b)).expect("two integers serialize")
}

/// `serde_json::from_slice::<(i32, i32)>`.
#[verifier::external_body]
fn pair_from_json(bytes: &[u8]) -> (r: Option<(i32, i32)>)
    ensures
        r == pair_of_json(bytes@),
{
    serde_json::from_slice::<(i32, i32)>(bytes).ok()
}

/// The JSON bytes of the seek key of the next page (before base64).
pub fn seek_key_json(key: (i32, i32)) -> (r: Vec<u8>)
    ensures
        r@ == json_of_pair(key.0, key.1),
        pair_of_json(r@) == Some(key),
        r@.len() <= usize::MAX / 2,
{
    pair_to_json(key.0, key.1)
}

/// The seek key in the JSON bytes of a seek page, or `None` where they do not
/// hold a pair of integers ("invalid seek parameter").
pub fn seek_key_from_json(bytes: &[u8]) -> (r: Option<(i32, i32)>)
    ensures
        r == pair_of_json(bytes@),
{
    pair_from_json(bytes)
}

// ---------------------------------------------------------------------------
// Users of the response
// ---------------------------------------------------------------------------

/// Whether a sequence of ids is strictly increasing.
pub open spec fn strictly_increasing(s: Seq<i32>) -> bool {
    forall|i: int, j: int| 0 <= i < j < s.len() ==> s[i] < s[j]
}

/// Whether a user is the invitee or the inviter of one of the invitations.
pub open spec fn is_referenced(rows: Seq<InvitationRow>, id: i32) -> bool {
    exists|k: int|
        0 <= k < rows.len() && (rows[k].invited_user_id == id || rows[k].invited_by_user_id
            == id)
}

/// Inserts `id` into a strictly increasing list, unless it is there.
#[verifier::spinoff_prover]
fn insert_sorted(v: &mut Vec<i32>, id: i32)
    requires
        strictly_increasing(old(v)@),
    ensures
        strictly_increasing(final(v)@),
        forall|x: i32| final(v)@.contains(x) <==> (old(v)@.contains(x) || x == id),
{
    let mut i: usize = 0;
    while i < v.len() && v[i] < id
        invariant
            i <= v.len(),
            v@ == old(v)@,
            strictly_increasing(v@),
            forall|j: int| 0 <= j < i ==> v@[j] < id,
        decreases v.len() - i,
    {
        i = i + 1;
    }
    if i < v.len() && v[i] == id {
        assert(v@[i as int] == id);
        return;
    }
    let ghost before = v@;
    assert(before == old(v)@);
    v.insert(i, id);
    assert(v@ == before.insert(i as int, id));
    assert forall|a: int, b: int| 0 <= a < b < v@.len() implies v@[a] < v@[b] by {
        if b < i {
        } else if a < i && b == i {
        } else if a < i && b > i {
            assert(v@[b] == before[b - 1]);
            assert(before[b - 1] >= id || b - 1 >= i);
        } else if a == i {
            assert(v@[b] == before[b - 1]);
            assert(before[i as int] > id);
        } else {
            assert(v@[a] == before[a - 1] && v@[b] == before[b - 1]);
        }
    }
    assert forall|x: i32| v@.contains(x) <==> (before.contains(x) || x == id) by {
        if v@.contains(x) {
            let k = choose|k: int| 0 <= k < v@.len() && v@[k] == x;
            if k < i {
                assert(before[k] == x);
            } else if k > i {
                assert(before[k - 1] == x);
            }
        }
        if before.contains(x) {
            let k = choose|k: int| 0 <= k < before.len() && before[k] == x;
            if k < i {
                assert(v@[k] == x);
            } else {
                assert(v@[k + 1] == x);
            }
        }
        if x == id {
            assert(v@[i as int] == x);
        }
    }
    assert(forall|x: i32| v@.contains(x) <==> (old(v)@.contains(x) || x == id));
}

/// The users that the response lists: every invitee and inviter of the
/// page's invitations, once each, by increasing id.
pub fn referenced_user_ids(rows: &Vec<InvitationRow>) -> (ids: Vec<i32>)
    ensures
        strictly_increasing(ids@),
        forall|x: i32| ids@.contains(x) <==> is_referenced(rows@, x),
{
    let mut ids: Vec<i32> = Vec::new();
    let mut k: usize = 0;
    while k < rows.len()
        invariant
            k <= rows.len(),
            strictly_increasing(ids@),
            forall|x: i32| ids@.contains(x) <==> is_referenced(rows@.take(k as int), x),
        decreases rows.len() - k,
    {
        let row = rows[k];
        insert_sorted(&mut ids, row.invited_user_id);
        insert_sorted(&mut ids, row.invited_by_user_id);
        assert forall|x: i32| ids@.contains(x) <==> is_referenced(rows@.take(k + 1), x) by {
            let t = rows@.take(k + 1);
            if is_referenced(rows@.take(k as int), x) {
                let j = choose|j: int|
                    0 <= j < k && (rows@.take(k as int)[j].invited_user_id == x
                        || rows@.take(k as int)[j].invited_by_user_id == x);
                assert(t[j] == rows@.take(k as int)[j]);
            }
            if x == row.invited_user_id || x == row.invited_by_user_id {
                assert(t[k as int] == row);
            }
            if is_referenced(t, x) {
                let j = choose|j: int|
                    0 <= j < t.len() && (t[j].invited_user_id == x || t[j].invited_by_user_id == x);
                if j < k {
                    assert(rows@.take(k as int)[j] == t[j]);
                }
            }
        }
        k = k + 1;
    }
    assert(rows@.take(rows.len() as int) =~= rows@);
    ids
}

// ---------------------------------------------------------------------------
// Messages
// ---------------------------------------------------------------------------

/// The login of the inviting user, from the users of the response; a user
/// that is missing there is an internal error ("missing user {id}").
pub fn inviter_login(users: &Vec<(i32, String)>, inviter_id: i32) -> (r: Result<String, String>)
    ensures
        match r {
            Ok(login) => exists|k: int|
                0 <= k < users.len() && users@[k].0 == inviter_id && users@[k].1@ == login@
                    && forall|j: int| 0 <= j < k ==> (#[trigger] users@[j]).0 != inviter_id,
            Err(msg) => msg@ == "missing user "@ + int_decimal(inviter_id as int) && forall|j: int|
                0 <= j < users.len() ==> (#[trigger] users@[j]).0 != inviter_id,
        },
{
    let mut k: usize = 0;
    while k < users.len()
        invariant
            k <= users.len(),
            forall|j: int| 0 <= j < k ==> (#[trigger] users@[j]).0 != inviter_id,
        decreases users.len() - k,
    {
        if users[k].0 == inviter_id {
            return Ok(owned(users[k].1.as_str()));
        }
        k = k + 1;
    }
    let mut msg = owned("missing user ");
    push_int(&mut msg, inviter_id);
    Err(msg)
}

/// The name of an invitation's crate, from the crate names loaded for the
/// listing (the filtered crate and those looked up by id); a crate that is
/// missing there is an internal error ("missing crate with id {id}").
pub fn invitation_crate_name(crate_names: &Vec<(i32, String)>, crate_id: i32) -> (r: Result<
    String,
    String,
>)
    ensures
        match r {
            Ok(name) => exists|k: int|
                0 <= k < crate_names.len() && crate_names@[k].0 == crate_id && crate_names@[k].1@
                    == name@ && forall|j: int| 0 <= j < k ==> (#[trigger] crate_names@[j]).0 != crate_id,
            Err(msg) => msg@ == "missing crate with id "@ + int_decimal(crate_id as int) && forall|
                j: int,
            | 0 <= j < crate_names.len() ==> (#[trigger] crate_names@[j]).0 != crate_id,
        },
{
    let mut k: usize = 0;
    while k < crate_names.len()
        invariant
            k <= crate_names.len(),
            forall|j: int| 0 <= j < k ==> (#[trigger] crate_names@[j]).0 != crate_id,
        decreases crate_names.len() - k,
    {
        if crate_names[k].0 == crate_id {
            return Ok(owned(crate_names[k].1.as_str()));
        }
        k = k + 1;
    }
    let mut msg = owned("missing crate with id ");
    push_int(&mut msg, crate_id);
    Err(msg)
}

/// The decimal notation of an integer, with a leading `-` where it is negative.
pub open spec fn int_decimal(n: int) -> Seq<char> {
    if n < 0 {
        "-"@ + decimal((-n) as nat)
    } else {
        decimal(n as nat)
    }
}

pub(crate) fn push_int(s: &mut String, n: i32)
    ensures
        final(s)@ == old(s)@ + int_decimal(n as int),
{
    if n < 0 {
        push_str(s, "-");
        let m: u64 = (0 - (n as i64)) as u64;
        push_decimal(s, m);
        assert(final(s)@ =~= old(s)@ + int_decimal(n as int));
    } else {
        push_decimal(s, n as u64);
    }
}

/// The refusal (`410 Gone`) of an invitation that expired.
pub fn expired_invitation_message(crate_name: &str) -> (s: String)
    ensures
        s@ == "The invitation to become an owner of the "@ + crate_name@
            + " crate expired. Please reach out to an owner of the crate to request a new invitation."@,
{
    let mut s = owned("The invitation to become an owner of the ");
    push_str(&mut s, crate_name);
    push_str(
        &mut s,
        " crate expired. Please reach out to an owner of the crate to request a new invitation.",
    );
    s
}

} // verus!
