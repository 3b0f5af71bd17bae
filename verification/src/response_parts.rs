//! The query parameter of the crate, versions and downloads endpoints that
//! lists, comma-separated, the optional parts of the response to send.
use crate::text::{owned, push_str, split_by, split_on, str_eq};
use vstd::prelude::*;

verus! {

/// Whether `name` is one of the comma-separated components of `param`.
pub open spec fn names_component(param: Seq<char>, name: Seq<char>) -> bool {
    split_on(param, ',').contains(name)
}

/// Whether every component of `param` is empty or one of `allowed`.
pub open spec fn components_allowed(param: Seq<char>, allowed: Seq<Seq<char>>) -> bool {
    forall|i: int|
        0 <= i < split_on(param, ',').len() ==> {
            let c = #[trigger] split_on(param, ',')[i];
            c.len() == 0 || allowed.contains(c)
        }
}

/// Whether `c` is in the list of names, compared character by character.
fn is_one_of(c: &str, names: &Vec<&str>) -> (r: bool)
    ensures
        r == names@.map_values(|n: &str| n@).contains(c@),
{
    let ghost views = names@.map_values(|n: &str| n@);
    let mut i: usize = 0;
    while i < names.len()
        invariant
            i <= names.len(),
            views == names@.map_values(|n: &str| n@),
            forall|j: int| 0 <= j < i ==> views[j] != c@,
        decreases names.len() - i,
    {
        if str_eq(c, names[i]) {
            assert(views[i as int] == c@);
            return true;
        }
        i = i + 1;
    }
    proof {
        if views.contains(c@) {
            let k = choose|k: int| 0 <= k < views.len() && views[k] == c@;
            assert(views[k] != c@);
        }
    }
    false
}

/// The components of `param`, where each is empty or allowed.
fn scan_components(param: &str, allowed: &Vec<&str>) -> (r: Option<Vec<String>>)
    ensures
        r is Some <==> components_allowed(param@, allowed@.map_values(|n: &str| n@)),
        r matches Some(v) ==> v.deep_view() == split_on(param@, ','),
{
    let pieces = split_by(param, ',');
    let ghost all = pieces.deep_view();
    let ghost names = allowed@.map_values(|n: &str| n@);
    let mut i: usize = 0;
    while i < pieces.len()
        invariant
            i <= pieces.len(),
            all == pieces.deep_view(),
            all == split_on(param@, ','),
            names == allowed@.map_values(|n: &str| n@),
            forall|j: int| 0 <= j < i ==> (#[trigger] all[j]).len() == 0 || names.contains(all[j]),
        decreases pieces.len() - i,
    {
        let p = pieces[i].as_str();
        if !p.is_empty() && !is_one_of(p, allowed) {
            assert(!(all[i as int].len() == 0 || names.contains(all[i as int])));
            return None;
        }
        i = i + 1;
    }
    Some(pieces)
}

/// Whether one of the pieces equals `name`.
fn has_piece(pieces: &Vec<String>, name: &str) -> (r: bool)
    ensures
        r == pieces.deep_view().contains(name@),
{
    let mut i: usize = 0;
    while i < pieces.len()
        invariant
            i <= pieces.len(),
            forall|j: int| 0 <= j < i ==> pieces.deep_view()[j] != name@,
        decreases pieces.len() - i,
    {
        if str_eq(pieces[i].as_str(), name) {
            assert(pieces.deep_view()[i as int] == name@);
            return true;
        }
        i = i + 1;
    }
    proof {
        if pieces.deep_view().contains(name@) {
            let k = choose|k: int|
                0 <= k < pieces.deep_view().len() && pieces.deep_view()[k] == name@;
            assert(pieces.deep_view()[k] != name@);
        }
    }
    false
}

// ---------------------------------------------------------------------------
// `GET /api/v1/crates/{name}`
// ---------------------------------------------------------------------------

/// The parts of a crate's metadata to send.
#[derive(Debug, Clone, Copy, PartialEq, Eq)]
pub struct CrateInclude {
    pub versions: bool,
    pub keywords: bool,
    pub categories: bool,
    pub badges: bool,
    pub downloads: bool,
    pub default_version: bool,
}

pub open spec fn crate_include_names() -> Seq<Seq<char>> {
    seq![
        "full"@,
        "versions"@,
        "keywords"@,
        "categories"@,
        "badges"@,
        "downloads"@,
        "default_version"@,
    ]
}

/// Whether the part is named, directly or through `full`.
pub open spec fn crate_part_included(param: Seq<char>, part: Seq<char>) -> bool {
    names_component(param, "full"@) || names_component(param, part)
}

/// The refusal of an unknown component, listing the components expected.
pub open spec fn invalid_component_text(expected: Seq<char>) -> Seq<char> {
    "invalid component for ?incl"@ + "ude= (expected "@ + expected + ")"@
}

pub open spec fn invalid_crate_component() -> Seq<char> {
    invalid_component_text(
        "'versions', 'keywords', 'categories', 'badges', 'downloads', 'default_version', or 'full'"@,
    )
}

/// A component of the parts parameter that the endpoint does not know (`400 Bad
/// Request`); the message lists the components it knows.
#[derive(Debug, Clone, PartialEq, Eq)]
pub struct InvalidInclude(pub String);

impl InvalidInclude {
    pub fn message(&self) -> (s: String)
        ensures
            s@ == self.0@,
    {
        owned(self.0.as_str())
    }
}

/// The refusal of an unknown component.
fn invalid_component(expected: &str) -> (e: InvalidInclude)
    ensures
        e.0@ == invalid_component_text(expected@),
{
    let mut s = owned("invalid component for ?incl");
    push_str(&mut s, "ude= (expected ");
    push_str(&mut s, expected);
    push_str(&mut s, ")");
    InvalidInclude(s)
}

impl CrateInclude {
    /// Everything, for legacy clients that expect the full response.
    pub fn full() -> (m: Self)
        ensures
            m.versions && m.keywords && m.categories && m.badges && m.downloads
                && m.default_version,
    {
        CrateInclude {
            versions: true,
            keywords: true,
            categories: true,
            badges: true,
            downloads: true,
            default_version: true,
        }
    }

    /// Parses the parts parameter: each named part, or all of them with `full`;
    /// empty components are ignored, any other refuses the request.
    pub fn parse(param: &str) -> (r: Result<Self, InvalidInclude>)
        ensures
            components_allowed(param@, crate_include_names()) <==> r is Ok,
            r matches Ok(m) ==> {
                &&& m.versions == crate_part_included(param@, "versions"@)
                &&& m.keywords == crate_part_included(param@, "keywords"@)
                &&& m.categories == crate_part_included(param@, "categories"@)
                &&& m.badges == crate_part_included(param@, "badges"@)
                &&& m.downloads == crate_part_included(param@, "downloads"@)
                &&& m.default_version == crate_part_included(param@, "default_version"@)
            },
            r matches Err(e) ==> e.0@ == invalid_crate_component(),
    {
        let allowed: Vec<&str> = vec![
            "full",
            "versions",
            "keywords",
            "categories",
            "badges",
            "downloads",
            "default_version",
        ];
        assert(allowed@.map_values(|n: &str| n@) =~= crate_include_names());
        match scan_components(param, &allowed) {
            None => Err(invalid_component(
                "'versions', 'keywords', 'categories', 'badges', 'downloads', 'default_version', or 'full'",
            )),
            Some(pieces) => {
                let full = has_piece(&pieces, "full");
                Ok(CrateInclude {
                    versions: full || has_piece(&pieces, "versions"),
                    keywords: full || has_piece(&pieces, "keywords"),
                    categories: full || has_piece(&pieces, "categories"),
                    badges: full || has_piece(&pieces, "badges"),
                    downloads: full || has_piece(&pieces, "downloads"),
                    default_version: full || has_piece(&pieces, "default_version"),
                })
            },
        }
    }

    /// The parts of the response: everything where the parameter is absent.
    pub fn from_param(param: &Option<String>) -> (r: Result<Self, InvalidInclude>)
        ensures
            match param {
                None => r == Ok::<Self, InvalidInclude>(
                    CrateInclude {
                        versions: true,
                        keywords: true,
                        categories: true,
                        badges: true,
                        downloads: true,
                        default_version: true,
                    },
                ),
                Some(s) => components_allowed(s@, crate_include_names()) <==> r is Ok,
            },
            param matches Some(s) ==> (r matches Ok(m) ==> m.versions == crate_part_included(
                s@,
                "versions"@,
            ) && m.default_version == crate_part_included(s@, "default_version"@)
                && m.keywords == crate_part_included(s@, "keywords"@) && m.categories
                == crate_part_included(s@, "categories"@) && m.badges == crate_part_included(
                s@,
                "badges"@,
            ) && m.downloads == crate_part_included(s@, "downloads"@)),
    {
        match param {
            None => Ok(CrateInclude::full()),
            Some(s) => CrateInclude::parse(s.as_str()),
        }
    }

    /// Whether the default version is loaded on its own: `versions` and
    /// `default_version` share the key `versions` of the response, so the
    /// default version counts only without `versions`, and only where the
    /// crate has one.
    pub fn loads_default_version(&self, has_default_version: bool) -> (r: bool)
        ensures
            r == (self.default_version && !self.versions && has_default_version),
    {
        self.default_version && !self.versions && has_default_version
    }
}

// ---------------------------------------------------------------------------
// `GET /api/v1/crates/{name}/versions` and `.../downloads`
// ---------------------------------------------------------------------------

pub open spec fn invalid_versions_component() -> Seq<char> {
    invalid_component_text("'release_tracks'"@)
}

pub open spec fn invalid_downloads_component() -> Seq<char> {
    invalid_component_text("'versions'"@)
}

/// Whether the versions listing adds the crate's release tracks: the only
/// component it knows is `release_tracks`; none is added without the parameter.
pub fn versions_include_release_tracks(param: &Option<String>) -> (r: Result<
    bool,
    InvalidInclude,
>)
    ensures
        match param {
            None => r == Ok::<bool, InvalidInclude>(false),
            Some(s) => {
                &&& components_allowed(s@, seq!["release_tracks"@]) <==> r is Ok
                &&& r matches Ok(b) ==> b == names_component(s@, "release_tracks"@)
                &&& r matches Err(e) ==> e.0@ == invalid_versions_component()
            },
        },
{
    match param {
        None => Ok(false),
        Some(s) => {
            let allowed: Vec<&str> = vec!["release_tracks"];
            assert(allowed@.map_values(|n: &str| n@) =~= seq!["release_tracks"@]);
            match scan_components(s.as_str(), &allowed) {
                None => Err(invalid_component("'release_tracks'")),
                Some(pieces) => Ok(has_piece(&pieces, "release_tracks")),
            }
        },
    }
}

/// Whether the downloads endpoint adds the versions its counts refer to: the
/// only component it knows is `versions`; none is added without the parameter.
pub fn downloads_include_versions(param: &Option<String>) -> (r: Result<bool, InvalidInclude>)
    ensures
        match param {
            None => r == Ok::<bool, InvalidInclude>(false),
            Some(s) => {
                &&& components_allowed(s@, seq!["versions"@]) <==> r is Ok
                &&& r matches Ok(b) ==> b == names_component(s@, "versions"@)
                &&& r matches Err(e) ==> e.0@ == invalid_downloads_component()
            },
        },
{
    match param {
        None => Ok(false),
        Some(s) => {
            let allowed: Vec<&str> = vec!["versions"];
            assert(allowed@.map_values(|n: &str| n@) =~= seq!["versions"@]);
            match scan_components(s.as_str(), &allowed) {
                None => Err(invalid_component("'versions'")),
                Some(pieces) => Ok(has_piece(&pieces, "versions")),
            }
        },
    }
}

} // verus!
