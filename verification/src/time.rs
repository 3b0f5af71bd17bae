//! Points in time (UTC), as the request logic compares and renders them.
use chrono::{DateTime, SecondsFormat};
use vstd::prelude::*;

verus! {

/// The earliest second that `chrono::DateTime<Utc>` represents (`-262143-01-01T00:00:00Z`).
pub const MIN_SECS: i64 = -8334601228800;

/// The latest second that `chrono::DateTime<Utc>` represents (`+262142-12-31T23:59:59Z`).
pub const MAX_SECS: i64 = 8210266876799;

pub const NANOS_PER_SEC: i128 = 1_000_000_000;

/// A point in time: seconds since the Unix epoch and nanoseconds within the
/// second, in the range of `chrono::DateTime<Utc>` (leap seconds excluded).
#[derive(Debug, Clone, Copy, PartialEq, Eq)]
pub struct UtcTime {
    secs: i64,
    nanos: u32,
}

impl UtcTime {
    #[verifier::type_invariant]
    spec fn in_range(self) -> bool {
        MIN_SECS <= self.secs <= MAX_SECS && self.nanos < 1_000_000_000
    }

    /// Seconds since the Unix epoch.
    pub closed spec fn seconds(self) -> int {
        self.secs as int
    }

    /// Nanoseconds within the second.
    pub closed spec fn subsec_nanos(self) -> int {
        self.nanos as int
    }

    /// Nanoseconds since the Unix epoch.
    pub open spec fn total_nanos(self) -> int {
        self.seconds() * 1_000_000_000 + self.subsec_nanos()
    }

    /// The time `secs` seconds and `nanos` nanoseconds after the Unix epoch,
    /// where `chrono` can represent it and `nanos` is below one second.
    pub fn from_parts(secs: i64, nanos: u32) -> (r: Option<Self>)
        ensures
            r is Some <==> (MIN_SECS <= secs <= MAX_SECS && nanos < 1_000_000_000),
            r matches Some(t) ==> t.seconds() == secs && t.subsec_nanos() == nanos,
    {
        if MIN_SECS <= secs && secs <= MAX_SECS && nanos < 1_000_000_000 {
            Some(UtcTime { secs, nanos })
        } else {
            None
        }
    }

    pub fn secs(&self) -> (r: i64)
        ensures
            r == self.seconds(),
            MIN_SECS <= r <= MAX_SECS,
    {
        proof {
            use_type_invariant(self);
        }
        self.secs
    }

    pub fn nanos(&self) -> (r: u32)
        ensures
            r == self.subsec_nanos(),
            r < 1_000_000_000,
    {
        proof {
            use_type_invariant(self);
        }
        self.nanos
    }

    /// Nanoseconds since the Unix epoch.
    pub fn as_nanos(&self) -> (r: i128)
        ensures
            r == self.total_nanos(),
    {
        proof {
            use_type_invariant(self);
        }
        self.secs as i128 * NANOS_PER_SEC + self.nanos as i128
    }

    /// Whether `self` comes strictly before `other`.
    pub fn before(&self, other: &UtcTime) -> (r: bool)
        ensures
            r == (self.total_nanos() < other.total_nanos()),
    {
        self.as_nanos() < other.as_nanos()
    }

    /// `self - other`, in nanoseconds, as `signed_duration_since` measures it.
    pub fn nanos_since(&self, other: &UtcTime) -> (r: i128)
        ensures
            r == self.total_nanos() - other.total_nanos(),
    {
        proof {
            use_type_invariant(self);
            use_type_invariant(other);
        }
        self.as_nanos() - other.as_nanos()
    }
}

/// What `to_rfc3339_opts(SecondsFormat::Secs, true)` renders for this time.
pub uninterp spec fn rfc3339_secs_text(secs: i64, nanos: u32) -> Seq<char>;

/// `DateTime::from_timestamp(secs, nanos)` followed by
/// `to_rfc3339_opts(SecondsFormat::Secs, true)`: names the rendering. The
/// time is in chrono's range, where `from_timestamp` returns a value.
#[verifier::external_body]
fn render_rfc3339_secs(secs: i64, nanos: u32) -> (s: String)
    requires
        MIN_SECS <= secs <= MAX_SECS,
        nanos < 1_000_000_000,
    ensures
        s@ == rfc3339_secs_text(secs, nanos),
{
    DateTime::from_timestamp(secs, nanos).expect("in range").to_rfc3339_opts(SecondsFormat::Secs, true)
}

/// The time rendered as RFC 3339 with whole seconds and a `Z` suffix, such
/// as `2024-11-20T00:00:00Z`.
pub fn to_rfc3339_secs(t: &UtcTime) -> (s: String)
    ensures
        s@ == rfc3339_secs_text(t.seconds() as i64, t.subsec_nanos() as u32),
{
    render_rfc3339_secs(t.secs(), t.nanos())
}

} // verus!
