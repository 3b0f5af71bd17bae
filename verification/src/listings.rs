//! The smaller listings: keywords, categories, reverse dependencies, the
//! versions of a crate, and the crates of a user as administrators see them.
use crate::owners::{lowercase, to_lowercase};
use crate::pagination::PaginationOptions;
use crate::text::{owned, str_eq};
use crate::time::UtcTime;
use vstd::prelude::*;

verus! {

// ---------------------------------------------------------------------------
// Keywords and categories
// ---------------------------------------------------------------------------

/// The order of the keyword listing.
#[derive(Debug, Clone, Copy, PartialEq, Eq)]
pub enum KeywordOrder {
    /// By the number of crates, most first.
    ByCrateCount,
    /// Alphabetically.
    Alphabetical,
}

/// Keywords are listed by crate count with `sort=crates`, alphabetically otherwise.
pub fn keyword_order(sort: &Option<String>) -> (r: KeywordOrder)
    ensures
        r == match sort {
            Some(s) => if s@ == "crates"@ {
                KeywordOrder::ByCrateCount
            } else {
                KeywordOrder::Alphabetical
            },
            None => KeywordOrder::Alphabetical,
        },
{
    match sort {
        Some(s) => if str_eq(s.as_str(), "crates") {
            KeywordOrder::ByCrateCount
        } else {
            KeywordOrder::Alphabetical
        },
        None => KeywordOrder::Alphabetical,
    }
}

/// The sort of the category listing: the parameter, `alpha` by default.
pub fn category_sort(sort: &Option<String>) -> (r: &str)
    ensures
        r@ == match sort {
            Some(s) => s@,
            None => "alpha"@,
        },
{
    match sort {
        Some(s) => s.as_str(),
        None => "alpha",
    }
}

/// The row offset of a listing that pages by number: that of the page, or
/// zero for an unspecified or seek page.
pub fn page_offset(options: &PaginationOptions) -> (r: i64)
    requires
        options.page is Numeric ==> options.page->Numeric_0 >= 1 && i64::MIN <= (
        options.page->Numeric_0 - 1) * options.per_page <= i64::MAX,
    ensures
        r == match options.page {
            crate::pagination::Page::Numeric(p) => ((p - 1) * options.per_page) as i64,
            _ => 0,
        },
{
    match options.offset() {
        Some(o) => o,
        None => 0,
    }
}

/// Whether a category slug can name a category: slugs never hold a NUL
/// character, so such requests are answered "not found" without a lookup.
pub fn slug_may_exist(slug: &str) -> (r: bool)
    ensures
        r == !slug@.contains('\0'),
{
    let mut it: usize = 0;
    let v = crate::text::chars_of(slug);
    while it < v.len()
        invariant
            it <= v.len(),
            v@ == slug@,
            forall|j: int| 0 <= j < it ==> v@[j] != '\0',
        decreases v.len() - it,
    {
        if v[it] == '\0' {
            assert(slug@[it as int] == '\0');
            return false;
        }
        it = it + 1;
    }
    proof {
        if slug@.contains('\0') {
            let k = choose|k: int| 0 <= k < slug@.len() && slug@[k] == '\0';
            assert(v@[k] != '\0');
        }
    }
    true
}

/// A category in the list of category slugs: its slug serves as its id.
#[derive(Debug, Clone, PartialEq, Eq)]
pub struct Slug {
    pub id: String,
    pub slug: String,
    pub description: String,
}

impl Slug {
    pub fn new(slug: String, description: String) -> (s: Self)
        ensures
            s.id@ == slug@,
            s.slug == slug,
            s.description == description,
    {
        Slug { id: owned(slug.as_str()), slug, description }
    }
}

// ---------------------------------------------------------------------------
// Versions of a crate
// ---------------------------------------------------------------------------

/// The order of a crate's versions, and the key of their seek pages.
#[derive(Debug, Clone, Copy, PartialEq, Eq)]
pub enum VersionSort {
    /// By publication date, newest first (ties by id, highest first).
    Date,
    /// By semantic version, highest first (ties by id, highest first).
    Semver,
}

/// `date` (in any case) sorts by date; any other value, or none, by semver.
pub fn version_sort(sort: &Option<String>) -> (r: VersionSort)
    ensures
        r == match sort {
            Some(s) => if lowercase(s@) == "date"@ {
                VersionSort::Date
            } else {
                VersionSort::Semver
            },
            None => VersionSort::Semver,
        },
{
    match sort {
        Some(s) => {
            let l = to_lowercase(s.as_str());
            if str_eq(l.as_str(), "date") {
                VersionSort::Date
            } else {
                VersionSort::Semver
            }
        },
        None => VersionSort::Semver,
    }
}

/// The versions are paginated only where `per_page` is given, to keep the
/// unpaginated response of older clients.
pub fn versions_are_paginated(per_page: Option<u32>) -> (r: bool)
    ensures
        r == per_page is Some,
{
    per_page.is_some()
}

/// The versions listing counts the matching versions only where the page
/// holds some; an empty page reports a total of zero.
pub fn versions_total(page_is_empty: bool, count: Option<i64>) -> (r: i64)
    requires
        !page_is_empty ==> count is Some,
    ensures
        r == if page_is_empty { 0 } else { count->0 },
{
    if page_is_empty {
        0
    } else {
        match count {
            Some(c) => c,
            None => 0,
        }
    }
}

/// The seek key of a version page: the semver text or the creation time
/// (microseconds since the Unix epoch), and the version's id.
#[derive(Debug, Clone, PartialEq, Eq)]
pub enum VersionSeekPayload {
    Semver { num: String, id: i32 },
    Date { created_at: i64, id: i32 },
}

/// The seek key of a listed version, from which the next page continues.
pub fn version_seek_payload(sort: VersionSort, num: &str, created_at: i64, id: i32) -> (p:
    VersionSeekPayload)
    ensures
        match sort {
            VersionSort::Semver => p matches VersionSeekPayload::Semver { num: n, id: i } && n@
                == num@ && i == id,
            VersionSort::Date => p == (VersionSeekPayload::Date { created_at, id }),
        },
{
    match sort {
        VersionSort::Semver => VersionSeekPayload::Semver { num: owned(num), id },
        VersionSort::Date => VersionSeekPayload::Date { created_at, id },
    }
}

/// Whether a version comes after the key of a date seek page (newest first,
/// ties by highest id first).
pub fn version_after_date_key(created_at: i64, id: i32, key_created_at: i64, key_id: i32) -> (r:
    bool)
    ensures
        r == ((created_at == key_created_at && id < key_id) || created_at < key_created_at),
{
    (created_at == key_created_at && id < key_id) || created_at < key_created_at
}

// ---------------------------------------------------------------------------
// The crates of a user, for administrators
// ---------------------------------------------------------------------------

/// Only administrators may list a user's crates (`403 Forbidden`).
pub fn check_admin(is_admin: bool) -> (r: Result<(), String>)
    ensures
        is_admin ==> r is Ok,
        !is_admin ==> (r matches Err(m) && m@ == "must be an admin to use this route"@),
{
    if is_admin {
        Ok(())
    } else {
        Err(owned("must be an admin to use this route"))
    }
}

/// A crate of the user, as stored.
pub struct DatabaseCrateInfo {
    pub name: String,
    pub description: Option<String>,
    pub updated_at: UtcTime,
    pub downloads: Option<i64>,
    pub recent_crate_downloads: Option<i64>,
    pub num_versions: Option<i32>,
    pub yanked: bool,
    pub default_version_num: String,
    pub crate_size: i32,
    pub bin_names: Option<Vec<Option<String>>>,
    pub num_rev_deps: i64,
}

/// A crate of the user, as the listing shows it.
pub struct AdminCrateInfo {
    pub name: String,
    pub description: Option<String>,
    pub updated_at: UtcTime,
    pub downloads: i64,
    pub num_rev_deps: i64,
    pub num_versions: usize,
    pub yanked: bool,
    pub default_version_num: String,
    pub crate_size: i32,
    pub bin_names: Option<Vec<Option<String>>>,
}

/// The sum of the stored download counts, absent ones counting zero.
pub open spec fn total_downloads(info: DatabaseCrateInfo) -> int {
    info.downloads.unwrap_or(0) + info.recent_crate_downloads.unwrap_or(0)
}

impl AdminCrateInfo {
    /// The listed crate: downloads add the total and the recent count
    /// (absent counts are zero); an absent version count is zero.
    pub fn from_database(info: DatabaseCrateInfo) -> (a: Self)
        requires
            i64::MIN <= total_downloads(info) <= i64::MAX,
        ensures
            a.name == info.name,
            a.description == info.description,
            a.updated_at == info.updated_at,
            a.downloads == total_downloads(info),
            a.num_rev_deps == info.num_rev_deps,
            a.num_versions == info.num_versions.unwrap_or(0) as usize,
            a.yanked == info.yanked,
            a.default_version_num == info.default_version_num,
            a.crate_size == info.crate_size,
            a.bin_names == info.bin_names,
    {
        let DatabaseCrateInfo {
            name,
            description,
            updated_at,
            downloads,
            recent_crate_downloads,
            num_versions,
            yanked,
            default_version_num,
            crate_size,
            bin_names,
            num_rev_deps,
        } = info;
        AdminCrateInfo {
            name,
            description,
            updated_at,
            downloads: downloads.unwrap_or(0) + recent_crate_downloads.unwrap_or(0),
            num_rev_deps,
            num_versions: num_versions.unwrap_or(0) as usize,
            yanked,
            default_version_num,
            crate_size,
            bin_names,
        }
    }
}

/// The admin listing of a user: their email address, whether it is
/// verified (not where there is none), and their crates.
pub struct AdminListResponse {
    pub user_email: Option<String>,
    pub user_email_verified: bool,
    pub crates: Vec<AdminCrateInfo>,
}

/// Whether every crate's download counts add up within `i64`.
pub open spec fn totals_fit(crates: Seq<DatabaseCrateInfo>) -> bool {
    forall|i: int| 0 <= i < crates.len() ==> i64::MIN <= #[trigger] total_downloads(crates[i]) <= i64::MAX
}

/// Whether a listed crate is the one made from a stored crate, as
/// [`AdminCrateInfo::from_database`] makes it.
pub open spec fn listed_from(a: AdminCrateInfo, info: DatabaseCrateInfo) -> bool {
    &&& a.name == info.name
    &&& a.description == info.description
    &&& a.updated_at == info.updated_at
    &&& a.downloads == total_downloads(info)
    &&& a.num_rev_deps == info.num_rev_deps
    &&& a.num_versions == info.num_versions.unwrap_or(0) as usize
    &&& a.yanked == info.yanked
    &&& a.default_version_num == info.default_version_num
    &&& a.crate_size == info.crate_size
    &&& a.bin_names == info.bin_names
}

/// The response of the admin listing, from the user's email row and the
/// crates they own (as loaded, ordered by name): each crate is listed as
/// [`AdminCrateInfo::from_database`] makes it, in the same order.
pub fn admin_list_response(
    user_email: Option<String>,
    email_verified: Option<bool>,
    crates: Vec<DatabaseCrateInfo>,
) -> (r: AdminListResponse)
    requires
        totals_fit(crates@),
    ensures
        r.user_email == user_email,
        r.user_email_verified == email_verified.unwrap_or(false),
        r.crates.len() == crates.len(),
        forall|i: int| 0 <= i < crates.len() ==> listed_from(#[trigger] r.crates@[i], crates@[i]),
{
    let ghost original = crates@;
    let mut rest = crates;
    let mut listed: Vec<AdminCrateInfo> = Vec::new();
    while rest.len() > 0
        invariant
            listed.len() + rest.len() == original.len(),
            rest@ == original.skip(listed.len() as int),
            totals_fit(original),
            forall|i: int| 0 <= i < listed.len() ==> listed_from(#[trigger] listed@[i], original[i]),
        decreases rest.len(),
    {
        let info = rest.remove(0);
        assert(info == original[listed.len() as int]);
        assert(rest@ =~= original.skip(listed.len() + 1));
        assert(i64::MIN <= total_downloads(original[listed.len() as int]) <= i64::MAX);
        let a = AdminCrateInfo::from_database(info);
        listed.push(a);
    }
    AdminListResponse {
        user_email,
        user_email_verified: match email_verified {
            Some(v) => v,
            None => false,
        },
        crates: listed,
    }
}

} // verus!
