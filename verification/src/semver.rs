//! Semantic versions, parsed, ordered and rendered by the `semver` crate.
use vstd::prelude::*;

verus! {

/// Whether `semver::Version::parse` accepts this text.
pub uninterp spec fn semver_parses(text: Seq<char>) -> bool;

/// Whether the version parsed from `a` comes before the one parsed from `b`
/// in the order of `semver::Version`.
pub uninterp spec fn semver_less(a: Seq<char>, b: Seq<char>) -> bool;

/// What `semver::Version`'s `Display` renders for the version parsed from this text.
pub uninterp spec fn semver_display(text: Seq<char>) -> Seq<char>;

/// Whether `semver::VersionReq::parse` accepts this text and the requirement
/// equals `VersionReq::STAR` (`*`).
pub uninterp spec fn semver_req_is_star(text: Seq<char>) -> bool;

/// `semver::Version::parse(text).is_ok()`.
#[verifier::external_body]
fn parses_as_version(text: &str) -> (r: bool)
    ensures
        r == semver_parses(text@),
{
    semver::Version::parse(text).is_ok()
}

/// `<semver::Version as PartialOrd>::lt` of the versions parsed from `a` and
/// `b`, which parse.
#[verifier::external_body]
fn version_lt(a: &str, b: &str) -> (r: bool)
    requires
        semver_parses(a@),
        semver_parses(b@),
    ensures
        r == semver_less(a@, b@),
{
    semver::Version::parse(a).expect("parses") < semver::Version::parse(b).expect("parses")
}

/// `<semver::Version as Display>` of the version parsed from `text`, which parses.
#[verifier::external_body]
fn version_display(text: &str) -> (r: String)
    requires
        semver_parses(text@),
    ensures
        r@ == semver_display(text@),
{
    semver::Version::parse(text).expect("parses").to_string()
}

/// `semver::VersionReq::parse(text)` compared with `VersionReq::STAR`.
#[verifier::external_body]
fn version_req_is_star(text: &str) -> (r: bool)
    ensures
        r == semver_req_is_star(text@),
{
    match semver::VersionReq::parse(text) {
        Ok(req) => req == semver::VersionReq::STAR,
        Err(_) => false,
    }
}

/// Whether a dependency's version requirement is the wildcard `*`.
pub fn is_wildcard_requirement(text: &str) -> (r: bool)
    ensures
        r == semver_req_is_star(text@),
{
    version_req_is_star(text)
}

/// A version that `semver` parses, kept as its text.
#[derive(Debug, PartialEq, Eq)]
pub struct SemVer {
    text: String,
}

impl Clone for SemVer {
    fn clone(&self) -> (r: Self)
        ensures
            r.text() == self.text(),
    {
        proof {
            use_type_invariant(self);
        }
        SemVer { text: crate::text::owned(self.text.as_str()) }
    }
}

impl SemVer {
    #[verifier::type_invariant]
    spec fn parses(self) -> bool {
        semver_parses(self.text@)
    }

    /// The text the version was parsed from.
    pub closed spec fn text(self) -> Seq<char> {
        self.text@
    }

    /// The version in `text`, or `None` where `semver` refuses it.
    pub fn parse(text: &str) -> (r: Option<Self>)
        ensures
            r is Some <==> semver_parses(text@),
            r matches Some(v) ==> v.text() == text@,
    {
        if parses_as_version(text) {
            Some(SemVer { text: crate::text::owned(text) })
        } else {
            None
        }
    }

    pub fn as_str(&self) -> (s: &str)
        ensures
            s@ == self.text(),
            semver_parses(s@),
    {
        proof {
            use_type_invariant(self);
        }
        self.text.as_str()
    }

    /// Whether `self` comes before `other` in semver's order.
    pub fn less_than(&self, other: &SemVer) -> (r: bool)
        ensures
            r == semver_less(self.text(), other.text()),
    {
        version_lt(self.as_str(), other.as_str())
    }

    /// The version rendered as `semver` displays it.
    pub fn to_display_string(&self) -> (s: String)
        ensures
            s@ == semver_display(self.text()),
    {
        version_display(self.as_str())
    }
}

} // verus!
