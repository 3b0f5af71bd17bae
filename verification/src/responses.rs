//! Small response bodies and request paths shared by the endpoints.
use vstd::prelude::*;

verus! {

/// The body `{"ok": true}` of endpoints that only report success.
#[derive(Debug, Clone, Copy, PartialEq, Eq)]
pub struct OkResponse {
    pub ok: bool,
}

impl OkResponse {
    pub fn new() -> (r: Self)
        ensures
            r.ok,
    {
        OkResponse { ok: true }
    }
}

impl Default for OkResponse {
    fn default() -> (r: Self)
        ensures
            r.ok,
    {
        Self::new()
    }
}

/// The crate name of a `/crates/{name}` path.
#[derive(Debug, Clone, PartialEq, Eq)]
pub struct CratePath {
    /// Name of the crate
    pub name: String,
}

/// The site metadata: the deployed commit and whether the service is read-only.
#[derive(Debug, Clone, Copy, PartialEq, Eq)]
pub struct MetadataResponse<'a> {
    /// The SHA1 of the currently deployed commit.
    pub deployed_sha: &'a str,
    /// The SHA1 of the currently deployed commit.
    pub commit: &'a str,
    /// Whether the crates.io service is in read-only mode.
    pub read_only: bool,
}

impl<'a> MetadataResponse<'a> {
    /// The metadata for the commit in `HEROKU_SLUG_COMMIT`, or `unknown`
    /// where the variable is not set.
    pub fn from_values(heroku_slug_commit: Option<&'a str>, read_only: bool) -> (r: Self)
        ensures
            r.deployed_sha@ == match heroku_slug_commit {
                Some(s) => s@,
                None => "unknown"@,
            },
            r.commit@ == r.deployed_sha@,
            r.read_only == read_only,
    {
        let deployed_sha = match heroku_slug_commit {
            Some(s) => s,
            None => "unknown",
        };
        MetadataResponse { deployed_sha, commit: deployed_sha, read_only }
    }
}

} // verus!
