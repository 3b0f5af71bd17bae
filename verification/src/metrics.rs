//! Access to the Prometheus metrics endpoint (`/api/private/metrics/{kind}`).
use crate::text::{has_prefix, owned, starts_with_str, str_eq, chars_of, string_of};
use vstd::prelude::*;

verus! {

/// Why a metrics request is refused.
#[derive(Debug, Clone, Copy, PartialEq, Eq)]
pub enum MetricsAccessError {
    /// `404`: no authorization token is configured, so metrics are disabled.
    Disabled,
    /// `403`: the request lacks the configured bearer token.
    Forbidden,
    /// `404`: there are no metrics of this kind.
    UnknownKind,
}

impl MetricsAccessError {
    /// The detail of the refusal; an unknown kind carries the generic
    /// not-found body.
    pub fn message(&self) -> (s: Option<String>)
        ensures
            match self {
                MetricsAccessError::Disabled => s matches Some(m) && m@
                    == "Metrics are disabled on this crates.io instance"@,
                MetricsAccessError::Forbidden => s matches Some(m) && m@
                    == "invalid or missing authorization token"@,
                MetricsAccessError::UnknownKind => s is None,
            },
    {
        match self {
            MetricsAccessError::Disabled => Some(
                owned("Metrics are disabled on this crates.io instance"),
            ),
            MetricsAccessError::Forbidden => Some(owned("invalid or missing authorization token")),
            MetricsAccessError::UnknownKind => None,
        }
    }
}

/// The metrics a request asks for.
#[derive(Debug, Clone, Copy, PartialEq, Eq)]
pub enum MetricsKind {
    Service,
    Instance,
}

/// Whether the `Authorization` header value is `Bearer ` followed by the token.
pub open spec fn bearer_matches(header: Option<Seq<char>>, token: Seq<char>) -> bool {
    match header {
        Some(h) => has_prefix(h, "Bearer "@) && h.skip(7) == token,
        None => false,
    }
}

/// Checks a metrics request: metrics are disabled unless a token is
/// configured, and the request's `Authorization` header (where it is
/// visible ASCII) must be `Bearer ` and the token; then the kind must be
/// `service` or `instance`.
pub fn check_metrics_request(
    expected_token: &Option<String>,
    authorization: Option<&str>,
    kind: &str,
) -> (r: Result<MetricsKind, MetricsAccessError>)
    ensures
        match expected_token {
            None => r == Err::<MetricsKind, MetricsAccessError>(MetricsAccessError::Disabled),
            Some(t) => if !bearer_matches(
                match authorization {
                    Some(h) => Some(h@),
                    None => None,
                },
                t@,
            ) {
                r == Err::<MetricsKind, MetricsAccessError>(MetricsAccessError::Forbidden)
            } else if kind@ == "service"@ {
                r == Ok::<MetricsKind, MetricsAccessError>(MetricsKind::Service)
            } else if kind@ == "instance"@ {
                r == Ok::<MetricsKind, MetricsAccessError>(MetricsKind::Instance)
            } else {
                r == Err::<MetricsKind, MetricsAccessError>(MetricsAccessError::UnknownKind)
            },
        },
{
    let token = match expected_token {
        Some(t) => t,
        None => return Err(MetricsAccessError::Disabled),
    };
    let ok = match authorization {
        Some(h) => {
            if starts_with_str(h, "Bearer ") {
                let v = chars_of(h);
                proof {
                    reveal_strlit("Bearer ");
                }
                let rest = string_of(&v, 7, v.len());
                assert(rest@ =~= h@.skip(7));
                str_eq(rest.as_str(), token.as_str())
            } else {
                false
            }
        },
        None => false,
    };
    if !ok {
        return Err(MetricsAccessError::Forbidden);
    }
    if str_eq(kind, "service") {
        Ok(MetricsKind::Service)
    } else if str_eq(kind, "instance") {
        Ok(MetricsKind::Instance)
    } else {
        Err(MetricsAccessError::UnknownKind)
    }
}

} // verus!
