//! The checks of `cargo publish` requests: the framing of the request body,
//! required metadata, rights, limits and dependencies.
use crate::owners::Rights;
use crate::semver::{is_wildcard_requirement, semver_req_is_star};
use crate::text::{
    contains_str, decimal, has_prefix, has_substring, join, join_strings, owned, push_decimal,
    push_str, starts_with_str,
};
use sha2::Digest;
use vstd::prelude::*;

verus! {

pub const MISSING_RIGHTS_ERROR_MESSAGE: &'static str =
    "this crate exists but you don't seem to be an owner. If you believe this is a mistake, perhaps you need to accept an invitation to be an owner before publishing.";

pub const WILDCARD_ERROR_MESSAGE: &'static str =
    "wildcard (`*`) dependency constraints are not allowed on crates.io. See https://doc.rust-lang.org/cargo/faq.html#can-libraries-use--as-a-version-for-their-dependencies for more information";

// ---------------------------------------------------------------------------
// Request body
// ---------------------------------------------------------------------------

/// The little-endian number in four bytes.
pub open spec fn le_u32(b: Seq<u8>, at: int) -> int {
    b[at] + 256 * b[at + 1] + 65536 * b[at + 2] + 16777216 * b[at + 3]
}

fn read_u32_le(b: &[u8], at: usize) -> (r: usize)
    requires
        at + 4 <= b@.len(),
    ensures
        r == le_u32(b@, at as int),
{
    let v: u32 = b[at] as u32 + 256 * (b[at + 1] as u32) + 65536 * (b[at + 2] as u32) + 16777216 * (
    b[at + 3] as u32);
    v as usize
}

/// The four bytes of `n`, least significant first (`u32::to_le_bytes`).
pub open spec fn le_bytes(n: u32) -> Seq<u8> {
    seq![n as u8, (n >> 8u32) as u8, (n >> 16u32) as u8, (n >> 24u32) as u8]
}

/// A length field reads back the whole number that was written: the four
/// little-endian bytes of any `u32`, wherever they stand, read as that
/// number.
pub proof fn lemma_length_field_reads_back(n: u32, before: Seq<u8>, after: Seq<u8>)
    ensures
        le_u32(before + le_bytes(n) + after, before.len() as int) == n,
{
    let b = before + le_bytes(n) + after;
    let at = before.len() as int;
    assert(b[at] == n as u8);
    assert(b[at + 1] == (n >> 8u32) as u8);
    assert(b[at + 2] == (n >> 16u32) as u8);
    assert(b[at + 3] == (n >> 24u32) as u8);
    let x0 = n as u8;
    let x1 = (n >> 8u32) as u8;
    let x2 = (n >> 16u32) as u8;
    let x3 = (n >> 24u32) as u8;
    assert(x0 + 256 * x1 + 65536 * x2 + 16777216 * x3 == n) by (bit_vector)
        requires
            x0 == n as u8,
            x1 == (n >> 8u32) as u8,
            x2 == (n >> 16u32) as u8,
            x3 == (n >> 24u32) as u8,
    ;
}

/// The publish body that `cargo publish` sends for a metadata document and a
/// tarball: each preceded by its length as a little-endian `u32`.
pub open spec fn publish_body(json: Seq<u8>, tarball: Seq<u8>) -> Seq<u8> {
    le_bytes(json.len() as u32) + json + le_bytes(tarball.len() as u32) + tarball
}

/// Splitting a body built from a metadata document and a tarball gives back
/// exactly that document and that tarball, whatever their sizes (below
/// 4 GiB each): the body can be read, neither length is refused, and the
/// parts that [`split_body`] returns are the two given.
pub proof fn lemma_split_body_recovers_parts(json: Seq<u8>, tarball: Seq<u8>)
    requires
        json.len() <= u32::MAX,
        tarball.len() <= u32::MAX,
    ensures
        ({
            let b = publish_body(json, tarball);
            let json_len = le_u32(b, 0);
            let tar_at = 4 + json_len + 4;
            let tar_len = le_u32(b, 4 + json_len);
            &&& body_frames_readable(b)
            &&& json_len == json.len()
            &&& json_len <= b.len() - 4
            &&& tar_len == tarball.len()
            &&& tar_len <= b.len() - tar_at
            &&& b.subrange(4, 4 + json_len) == json
            &&& b.subrange(tar_at, tar_at + tar_len) == tarball
        }),
{
    let b = publish_body(json, tarball);
    let first = le_bytes(json.len() as u32);
    let second = le_bytes(tarball.len() as u32);
    lemma_length_field_reads_back(json.len() as u32, Seq::empty(), json + second + tarball);
    assert(b =~= Seq::<u8>::empty() + first + (json + second + tarball));
    lemma_length_field_reads_back(tarball.len() as u32, first + json, tarball);
    assert(b =~= (first + json) + second + tarball);
    assert(b.subrange(4, 4 + json.len() as int) =~= json);
    assert(b.subrange(8 + json.len() as int, 8 + json.len() + tarball.len() as int) =~= tarball);
}

fn copy_range(b: &[u8], from: usize, to: usize) -> (v: Vec<u8>)
    requires
        from <= to <= b@.len(),
    ensures
        v@ == b@.subrange(from as int, to as int),
{
    let mut v: Vec<u8> = Vec::new();
    let mut i = from;
    while i < to
        invariant
            from <= i <= to <= b@.len(),
            v@ == b@.subrange(from as int, i as int),
        decreases to - i,
    {
        v.push(b[i]);
        i = i + 1;
        assert(v@ =~= b@.subrange(from as int, i as int));
    }
    v
}

/// A length field of the request body that exceeds the remaining payload.
#[derive(Debug, Clone, Copy, PartialEq, Eq)]
pub struct InvalidLength(pub usize);

impl InvalidLength {
    pub fn message(&self) -> (s: String)
        ensures
            s@ == "invalid metadata length for remaining payload: "@ + decimal(self.0 as nat),
    {
        let mut s = owned("invalid metadata length for remaining payload: ");
        push_decimal(&mut s, self.0 as u64);
        s
    }
}

/// Whether the body holds the length fields that `split_body` reads: four
/// bytes for the metadata length, and, where the metadata fits, four more
/// after it for the tarball length.
pub open spec fn body_frames_readable(b: Seq<u8>) -> bool {
    &&& b.len() >= 4
    &&& le_u32(b, 0) <= b.len() - 4 ==> b.len() - 4 - le_u32(b, 0) >= 4
}

/// The body of a publish request: a little-endian `u32` metadata length, the
/// JSON metadata, a little-endian `u32` tarball length, the tarball. Returns
/// the metadata and the tarball, or the length that exceeds what remains.
/// (Reading a length field past the end of the body panics, so `requires`
/// leaves such bodies out.)
pub fn split_body(bytes: &[u8]) -> (r: Result<(Vec<u8>, Vec<u8>), InvalidLength>)
    requires
        body_frames_readable(bytes@),
    ensures
        ({
            let b = bytes@;
            let json_len = le_u32(b, 0);
            if json_len > b.len() - 4 {
                r == Err::<(Vec<u8>, Vec<u8>), InvalidLength>(InvalidLength(json_len as usize))
            } else {
                let tar_at = 4 + json_len + 4;
                let tar_len = le_u32(b, 4 + json_len);
                if tar_len > b.len() - tar_at {
                    r == Err::<(Vec<u8>, Vec<u8>), InvalidLength>(InvalidLength(tar_len as usize))
                } else {
                    r matches Ok((json, tarball)) && json@ == b.subrange(4, 4 + json_len)
                        && tarball@ == b.subrange(tar_at, tar_at + tar_len)
                }
            }
        }),
{
    let json_len = read_u32_le(bytes, 0);
    let remaining = bytes.len() - 4;
    if json_len > remaining {
        return Err(InvalidLength(json_len));
    }
    let json = copy_range(bytes, 4, 4 + json_len);
    let tar_len = read_u32_le(bytes, 4 + json_len);
    let tar_at = 4 + json_len + 4;
    if tar_len > bytes.len() - tar_at {
        return Err(InvalidLength(tar_len));
    }
    let tarball = copy_range(bytes, tar_at, tar_at + tar_len);
    Ok((json, tarball))
}

// ---------------------------------------------------------------------------
// Metadata
// ---------------------------------------------------------------------------

/// The error text for missing metadata fields.
pub open spec fn missing_metadata_text(missing: Seq<Seq<char>>) -> Seq<char> {
    "missing or empty metadata fields: "@ + join(missing, ", "@)
        + ". Please see https://doc.rust-lang.org/cargo/reference/manifest.html for how to upload metadata"@
}

pub fn missing_metadata_error_message(missing: &[&str]) -> (s: String)
    ensures
        s@ == missing_metadata_text(missing@.map_values(|m: &str| m@)),
{
    let mut parts: Vec<String> = Vec::new();
    let mut i: usize = 0;
    while i < missing.len()
        invariant
            i <= missing@.len(),
            parts.deep_view() == missing@.take(i as int).map_values(|m: &str| m@),
        decreases missing@.len() - i,
    {
        let ghost before = parts.deep_view();
        parts.push(owned(missing[i]));
        assert(parts.deep_view() =~= before.push(missing@[i as int]@));
        assert(missing@.take(i + 1) =~= missing@.take(i as int).push(missing@[i as int]));
        assert(parts.deep_view() =~= missing@.take(i + 1).map_values(|m: &str| m@));
        i = i + 1;
    }
    assert(missing@.take(missing@.len() as int) =~= missing@);
    let mut s = owned("missing or empty metadata fields: ");
    let joined = join_strings(&parts, ", ");
    push_str(&mut s, joined.as_str());
    push_str(
        &mut s,
        ". Please see https://doc.rust-lang.org/cargo/reference/manifest.html for how to upload metadata",
    );
    s
}

/// Whether an optional metadata field is absent or empty.
pub open spec fn is_blank(s: Option<String>) -> bool {
    match s {
        Some(v) => v@.len() == 0,
        None => true,
    }
}

fn blank(s: &Option<String>) -> (r: bool)
    ensures
        r == is_blank(*s),
{
    match s {
        Some(v) => v.as_str().is_empty(),
        None => true,
    }
}

/// The required metadata fields that an upload lacks: `description`, and
/// `license` unless a license file is given.
pub fn missing_metadata_fields(
    description: &Option<String>,
    license: &Option<String>,
    license_file: &Option<String>,
) -> (missing: Vec<&'static str>)
    ensures
        missing@.map_values(|m: &str| m@) == {
            let first: Seq<Seq<char>> = if is_blank(*description) {
                seq!["description"@]
            } else {
                Seq::empty()
            };
            if is_blank(*license) && is_blank(*license_file) {
                first.push("license"@)
            } else {
                first
            }
        },
{
    let mut missing: Vec<&'static str> = Vec::new();
    if blank(description) {
        missing.push("description");
    }
    if blank(license) && blank(license_file) {
        missing.push("license");
    }
    assert(missing@.map_values(|m: &str| m@) =~= {
        let first: Seq<Seq<char>> = if is_blank(*description) {
            seq!["description"@]
        } else {
            Seq::empty()
        };
        if is_blank(*license) && is_blank(*license_file) {
            first.push("license"@)
        } else {
            first
        }
    });
    missing
}

// ---------------------------------------------------------------------------
// Rights and limits
// ---------------------------------------------------------------------------

/// Publishing needs at least publishing rights.
pub fn can_publish(rights: Rights) -> (r: bool)
    ensures
        r == (rights == Rights::Publish || rights == Rights::Full),
{
    match rights {
        Rights::NoRights => false,
        _ => true,
    }
}

/// The refusal when the crate's stored name differs from the uploaded one.
pub fn renamed_crate_message(previous_name: &str) -> (s: String)
    ensures
        s@ == "crate was previously named `"@ + previous_name@ + "`"@,
{
    let mut s = owned("crate was previously named `");
    push_str(&mut s, previous_name);
    push_str(&mut s, "`");
    s
}

/// Whether a crate has reached its daily limit of new versions.
pub fn daily_version_limit_reached(published_today: i64, daily_version_limit: Option<u32>) -> (r:
    bool)
    ensures
        r == match daily_version_limit {
            Some(limit) => published_today >= limit,
            None => false,
        },
{
    match daily_version_limit {
        Some(limit) => published_today >= limit as i64,
        None => false,
    }
}

pub fn daily_version_limit_message() -> (s: String)
    ensures
        s@ == "You have published too many versions of this crate in the last 24 hours"@,
{
    owned("You have published too many versions of this crate in the last 24 hours")
}

/// The refusal of an upload larger than the limit.
pub fn max_upload_size_message(max_upload_size: u64) -> (s: String)
    ensures
        s@ == "max upload size is: "@ + decimal(max_upload_size as nat),
{
    let mut s = owned("max upload size is: ");
    push_decimal(&mut s, max_upload_size);
    s
}

// ---------------------------------------------------------------------------
// Features and dependencies
// ---------------------------------------------------------------------------

/// Whether a feature value uses the newer feature syntax (`dep:` or `?/`).
pub open spec fn is_features2_value(v: Seq<char>) -> bool {
    has_prefix(v, "dep:"@) || has_substring(v, "?/"@)
}

/// Whether any value of any feature uses the newer syntax; such features go
/// to the index as `features2`, with schema version 2.
pub fn uses_features2_syntax(features: &Vec<(String, Vec<String>)>) -> (r: bool)
    ensures
        r == exists|i: int, j: int|
            0 <= i < features.len() && 0 <= j < features@[i].1.len() && is_features2_value(
                #[trigger] features@[i].1@[j]@,
            ),
{
    let mut i: usize = 0;
    while i < features.len()
        invariant
            i <= features.len(),
            forall|a: int, j: int|
                0 <= a < i && 0 <= j < features@[a].1.len() ==> !is_features2_value(
                    #[trigger] features@[a].1@[j]@,
                ),
        decreases features.len() - i,
    {
        let values = &features[i].1;
        let mut j: usize = 0;
        while j < values.len()
            invariant
                i < features.len(),
                values == features@[i as int].1,
                j <= values.len(),
                forall|a: int, k: int|
                    0 <= a < i && 0 <= k < features@[a].1.len() ==> !is_features2_value(
                        #[trigger] features@[a].1@[k]@,
                    ),
                forall|k: int| 0 <= k < j ==> !is_features2_value(#[trigger] values@[k]@),
            decreases values.len() - j,
        {
            let v = values[j].as_str();
            if starts_with_str(v, "dep:") || contains_str(v, "?/") {
                assert(is_features2_value(features@[i as int].1@[j as int]@));
                return true;
            }
            j = j + 1;
        }
        i = i + 1;
    }
    false
}

/// The kind of a dependency.
#[derive(Debug, Clone, Copy, PartialEq, Eq)]
pub enum DependencyKind {
    Normal,
    Build,
    Dev,
}

/// Why a dependency of an upload is refused.
#[derive(Debug, Clone, PartialEq, Eq)]
pub enum DependencyError {
    /// The dependency comes from another registry.
    OtherRegistry(String),
    /// No crate has this name.
    UnknownCrate(String),
    /// The version requirement is `*`.
    Wildcard,
}

impl DependencyError {
    pub fn message(&self) -> (s: String)
        ensures
            s@ == match self {
                DependencyError::OtherRegistry(name) => "Dependency `"@ + name@
                    + "` is hosted on another registry. Cross-registry dependencies are not permitted on crates.io."@,
                DependencyError::UnknownCrate(name) => "no known crate named `"@ + name@ + "`"@,
                DependencyError::Wildcard => WILDCARD_ERROR_MESSAGE@,
            },
    {
        match self {
            DependencyError::OtherRegistry(name) => {
                let mut s = owned("Dependency `");
                push_str(&mut s, name.as_str());
                push_str(
                    &mut s,
                    "` is hosted on another registry. Cross-registry dependencies are not permitted on crates.io.",
                );
                s
            },
            DependencyError::UnknownCrate(name) => {
                let mut s = owned("no known crate named `");
                push_str(&mut s, name.as_str());
                push_str(&mut s, "`");
                s
            },
            DependencyError::Wildcard => owned(WILDCARD_ERROR_MESSAGE),
        }
    }
}

/// A dependency may not name a registry (other than the empty name).
pub fn check_dependency_registry(name: &str, registry: &Option<String>) -> (r: Result<
    (),
    DependencyError,
>)
    ensures
        match registry {
            Some(reg) => if reg@.len() > 0 {
                r matches Err(DependencyError::OtherRegistry(n)) && n@ == name@
            } else {
                r is Ok
            },
            None => r is Ok,
        },
{
    if let Some(reg) = registry {
        if !reg.as_str().is_empty() {
            return Err(DependencyError::OtherRegistry(owned(name)));
        }
    }
    Ok(())
}

/// A dependency's version requirement may not be the wildcard `*`.
pub fn check_dependency_version_req(version_req: &str) -> (r: Result<(), DependencyError>)
    ensures
        semver_req_is_star(version_req@) ==> r == Err::<(), DependencyError>(DependencyError::Wildcard),
        !semver_req_is_star(version_req@) ==> r is Ok,
{
    if is_wildcard_requirement(version_req) {
        Err(DependencyError::Wildcard)
    } else {
        Ok(())
    }
}

/// The names under which the index lists a dependency: the name written in
/// `Cargo.toml`, and the package it stands for where the two differ.
pub fn index_dependency_names(name: &str, explicit_name_in_toml: &Option<String>) -> (r: (
    String,
    Option<String>,
))
    ensures
        match explicit_name_in_toml {
            Some(explicit) => r.0@ == explicit@ && (r.1 matches Some(p) && p@ == name@),
            None => r.0@ == name@ && r.1 is None,
        },
{
    match explicit_name_in_toml {
        Some(explicit) => (owned(explicit.as_str()), Some(owned(name))),
        None => (owned(name), None),
    }
}

/// The kind under which the index lists a dependency: normal where none is given.
pub fn index_dependency_kind(kind: Option<DependencyKind>) -> (r: DependencyKind)
    ensures
        r == kind.unwrap_or(DependencyKind::Normal),
{
    match kind {
        Some(k) => k,
        None => DependencyKind::Normal,
    }
}

/// A dependency as the index lists it.
#[derive(Debug, Clone, PartialEq, Eq)]
pub struct IndexDependency {
    pub name: String,
    pub req: String,
    pub features: Vec<String>,
    pub optional: bool,
    pub default_features: bool,
    pub target: Option<String>,
    pub kind: DependencyKind,
    pub package: Option<String>,
}

/// The entry of a published version in the package index.
pub struct IndexEntry {
    pub name: String,
    pub vers: String,
    pub deps: Vec<IndexDependency>,
    /// The SHA-256 checksum of the tarball, in lower-case hexadecimal.
    pub cksum: String,
    /// Features in the older syntax; empty where `features2` holds them.
    pub features: Vec<(String, Vec<String>)>,
    /// Features that use the newer syntax (`dep:`, `?/`).
    pub features2: Option<Vec<(String, Vec<String>)>>,
    pub yanked: Option<bool>,
    pub links: Option<String>,
    /// The schema version: 2 where `features2` is present.
    pub v: Option<u32>,
}

/// Whether any value of any feature uses the newer syntax.
pub open spec fn features_use_features2(features: Seq<(String, Vec<String>)>) -> bool {
    exists|i: int, j: int|
        0 <= i < features.len() && 0 <= j < features[i].1.len() && is_features2_value(
            #[trigger] features[i].1@[j]@,
        )
}

/// The index entry of a newly published version: its features go to
/// `features2`, under schema version 2, where any uses the newer syntax, and
/// stay in `features` otherwise; the version is not yanked; the checksum is
/// that of the tarball.
pub fn index_entry(
    name: String,
    vers: String,
    deps: Vec<IndexDependency>,
    tarball: &[u8],
    features: Vec<(String, Vec<String>)>,
    links: Option<String>,
) -> (e: IndexEntry)
    ensures
        e.name == name,
        e.vers == vers,
        e.deps == deps,
        e.cksum@ == hex_lower(sha256_digest(tarball@)),
        e.yanked == Some(false),
        e.links == links,
        features_use_features2(features@) ==> {
            &&& e.features@.len() == 0
            &&& e.features2 == Some(features)
            &&& e.v == Some(2u32)
        },
        !features_use_features2(features@) ==> {
            &&& e.features == features
            &&& e.features2 is None
            &&& e.v is None
        },
{
    let cksum = tarball_checksum(tarball);
    let features2_syntax = uses_features2_syntax(&features);
    if features2_syntax {
        IndexEntry {
            name,
            vers,
            deps,
            cksum,
            features: Vec::new(),
            features2: Some(features),
            yanked: Some(false),
            links,
            v: Some(2),
        }
    } else {
        IndexEntry {
            name,
            vers,
            deps,
            cksum,
            features,
            features2: None,
            yanked: Some(false),
            links,
            v: None,
        }
    }
}

// ---------------------------------------------------------------------------
// Tarball entries
// ---------------------------------------------------------------------------

/// Why an uploaded tarball is refused.
#[derive(Debug, Clone, Copy, PartialEq, Eq)]
pub enum TarballError {
    /// An entry lies outside the `{name}-{version}` directory, or is a link.
    Invalid,
    /// The archive does not decompress or unpack within the limit.
    Malformed,
}

impl TarballError {
    pub fn message(&self) -> (s: String)
        ensures
            s@ == match self {
                TarballError::Invalid => "invalid tarball uploaded"@,
                TarballError::Malformed => "uploaded tarball is malformed or too large when decompressed"@,
            },
    {
        match self {
            TarballError::Invalid => owned("invalid tarball uploaded"),
            TarballError::Malformed => owned(
                "uploaded tarball is malformed or too large when decompressed",
            ),
        }
    }
}

/// Whether the components of `base` begin the components of `path`, as
/// `Path::starts_with` decides.
pub open spec fn components_start_with(path: Seq<Seq<char>>, base: Seq<Seq<char>>) -> bool {
    base.len() <= path.len() && path.take(base.len() as int) == base
}

/// The path of the VCS information file of the package.
pub open spec fn vcs_info_components(pkg: Seq<Seq<char>>) -> Seq<Seq<char>> {
    pkg.push(".cargo_vcs_info.json"@)
}

/// Checks one entry of an uploaded tarball, given the components of its path
/// and of the package directory (`{name}-{version}`): it must lie within the
/// package directory (historically Cargo did not check this on extraction,
/// so a tarball could overwrite another crate's files), and it may not be a
/// hard link or a symlink. Returns whether the entry is the package's
/// `.cargo_vcs_info.json`.
pub fn check_tarball_entry(path: &Vec<String>, pkg: &Vec<String>, is_link: bool) -> (r: Result<
    bool,
    TarballError,
>)
    ensures
        !components_start_with(path.deep_view(), pkg.deep_view()) ==> r == Err::<bool, TarballError>(
            TarballError::Invalid,
        ),
        components_start_with(path.deep_view(), pkg.deep_view()) ==> r == if is_link {
            Err::<bool, TarballError>(TarballError::Invalid)
        } else {
            Ok::<bool, TarballError>(path.deep_view() == vcs_info_components(pkg.deep_view()))
        },
{
    let ghost p = path.deep_view();
    let ghost b = pkg.deep_view();
    if pkg.len() > path.len() {
        return Err(TarballError::Invalid);
    }
    let mut i: usize = 0;
    while i < pkg.len()
        invariant
            pkg.len() <= path.len(),
            i <= pkg.len(),
            p == path.deep_view(),
            b == pkg.deep_view(),
            forall|j: int| 0 <= j < i ==> p[j] == b[j],
        decreases pkg.len() - i,
    {
        if !crate::text::str_eq(path[i].as_str(), pkg[i].as_str()) {
            assert(p.take(b.len() as int)[i as int] != b[i as int]);
            return Err(TarballError::Invalid);
        }
        i = i + 1;
    }
    assert(p.take(b.len() as int) =~= b);
    if is_link {
        return Err(TarballError::Invalid);
    }
    let is_vcs = path.len() > pkg.len() && path.len() - pkg.len() == 1 && crate::text::str_eq(
        path[pkg.len()].as_str(),
        ".cargo_vcs_info.json",
    );
    proof {
        if is_vcs {
            assert(p =~= vcs_info_components(b));
        }
        if p == vcs_info_components(b) {
            assert(p[b.len() as int] == ".cargo_vcs_info.json"@);
        }
    }
    Ok(is_vcs)
}

// ---------------------------------------------------------------------------
// Checksum
// ---------------------------------------------------------------------------

/// The SHA-256 digest of these bytes, as `sha2::Sha256::digest` computes it.
pub uninterp spec fn sha256_digest(bytes: Seq<u8>) -> Seq<u8>;

/// `sha2::Sha256::digest`: names the digest, which has 32 bytes.
#[verifier::external_body]
fn sha256(bytes: &[u8]) -> (d: Vec<u8>)
    ensures
        d@ == sha256_digest(bytes@),
        d@.len() == 32,
{
    sha2::Sha256::digest(bytes).to_vec()
}

/// The lower-case hexadecimal digit of a value below 16.
pub open spec fn hex_digit(n: u8) -> char {
    if n < 10 {
        (('0' as u8) + n) as char
    } else {
        (('a' as u8) + n - 10) as char
    }
}

/// Two lower-case hexadecimal digits per byte, high nibble first.
pub open spec fn hex_lower(bytes: Seq<u8>) -> Seq<char>
    decreases bytes.len(),
{
    if bytes.len() == 0 {
        Seq::empty()
    } else {
        hex_lower(bytes.drop_last()).push(hex_digit(bytes.last() / 16)).push(
            hex_digit(bytes.last() % 16),
        )
    }
}

/// `hex::ToHex::encode_hex` (lower-case letters).
#[verifier::external_body]
fn encode_hex(bytes: &[u8]) -> (s: String)
    ensures
        s@ == hex_lower(bytes@),
{
    hex::ToHex::encode_hex::<String>(&bytes)
}

proof fn lemma_hex_lower_len(bytes: Seq<u8>)
    ensures
        hex_lower(bytes).len() == 2 * bytes.len(),
    decreases bytes.len(),
{
    if bytes.len() > 0 {
        lemma_hex_lower_len(bytes.drop_last());
    }
}

/// The checksum of an uploaded tarball, as the index records it: the
/// SHA-256 digest in lower-case hexadecimal (64 characters).
pub fn tarball_checksum(tarball: &[u8]) -> (s: String)
    ensures
        s@ == hex_lower(sha256_digest(tarball@)),
        s@.len() == 64,
{
    let digest = sha256(tarball);
    let s = encode_hex(digest.as_slice());
    proof {
        lemma_hex_lower_len(digest@);
    }
    s
}

} // verus!
