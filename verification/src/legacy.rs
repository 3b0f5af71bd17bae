//! The request helpers of the older endpoints: whether a client wants JSON,
//! and page offsets from `?page=` and `?per_page=`.
use crate::text::{decimal, has_substring, contains_str, owned, push_decimal, push_str, chars_of};
use vstd::prelude::*;

verus! {

/// Whether one of the values of the `Accept` header mentions `json`.
pub fn wants_json(accept: &Vec<String>) -> (r: bool)
    ensures
        r == exists|i: int| 0 <= i < accept.len() && has_substring(#[trigger] accept@[i]@, "json"@),
{
    let mut i: usize = 0;
    while i < accept.len()
        invariant
            i <= accept.len(),
            forall|j: int| 0 <= j < i ==> !has_substring(#[trigger] accept@[j]@, "json"@),
        decreases accept.len() - i,
    {
        if contains_str(accept[i].as_str(), "json") {
            return true;
        }
        i = i + 1;
    }
    false
}

/// Whether a character is an ASCII digit.
pub open spec fn is_digit(c: char) -> bool {
    '0' <= c && c <= '9'
}

/// The value of a string of ASCII digits.
pub open spec fn digits_value(s: Seq<char>) -> nat
    decreases s.len(),
{
    if s.len() == 0 {
        0
    } else {
        digits_value(s.drop_last()) * 10 + ((s.last() as u32) - ('0' as u32)) as nat
    }
}

/// The text after an optional leading `+`.
pub open spec fn unsigned_body(s: Seq<char>) -> Seq<char> {
    if s.len() > 0 && s[0] == '+' { s.drop_first() } else { s }
}

/// The number `usize::from_str` reads: an optional `+`, then one or more
/// ASCII digits, of a value that fits in `usize`.
pub open spec fn usize_from_text(s: Seq<char>) -> Option<nat> {
    let body = unsigned_body(s);
    if body.len() > 0 && (forall|i: int| 0 <= i < body.len() ==> is_digit(#[trigger] body[i]))
        && digits_value(body) <= usize::MAX {
        Some(digits_value(body))
    } else {
        None
    }
}

proof fn lemma_digits_value_grows(s: Seq<char>, i: int)
    requires
        0 <= i <= s.len(),
        forall|k: int| 0 <= k < s.len() ==> is_digit(#[trigger] s[k]),
    ensures
        digits_value(s.take(i)) <= digits_value(s),
    decreases s.len() - i,
{
    if i < s.len() {
        lemma_digits_value_grows(s, i + 1);
        assert(s.take(i + 1).drop_last() =~= s.take(i));
    } else {
        assert(s.take(i) =~= s);
    }
}

/// Parses a number as `usize::from_str` does.
pub fn parse_usize(text: &str) -> (r: Option<usize>)
    ensures
        match usize_from_text(text@) {
            Some(n) => r == Some(n as usize),
            None => r is None,
        },
{
    let v = chars_of(text);
    let start: usize = if v.len() > 0 && v[0] == '+' { 1 } else { 0 };
    let ghost body = unsigned_body(text@);
    assert(body =~= v@.skip(start as int));
    if start == v.len() {
        return None;
    }
    let mut value: usize = 0;
    let mut i: usize = start;
    while i < v.len()
        invariant
            start <= i <= v.len(),
            v@ == text@,
            body == unsigned_body(text@),
            body == v@.skip(start as int),
            forall|k: int| start <= k < i ==> is_digit(#[trigger] v@[k]),
            value == digits_value(body.take(i - start)),
        decreases v.len() - i,
    {
        let c = v[i];
        if !('0' <= c && c <= '9') {
            assert(!is_digit(body[i - start]));
            return None;
        }
        let d = (c as u32 - '0' as u32) as usize;
        assert(body.take(i - start + 1).drop_last() =~= body.take(i - start));
        assert(body.take(i - start + 1).last() == c);
        let next = match value.checked_mul(10) {
            Some(m) => m.checked_add(d),
            None => None,
        };
        match next {
            Some(n) => {
                value = n;
            },
            None => {
                proof {
                    assert(digits_value(body.take(i - start + 1)) == value * 10 + d);
                    assert(digits_value(body.take(i - start + 1)) > usize::MAX);
                    if forall|k: int| 0 <= k < body.len() ==> is_digit(#[trigger] body[k]) {
                        lemma_digits_value_grows(body, i - start + 1);
                    }
                }
                return None;
            },
        }
        i = i + 1;
    }
    assert(body.take(body.len() as int) =~= body);
    assert forall|k: int| 0 <= k < body.len() implies is_digit(#[trigger] body[k]) by {
        assert(body[k] == v@[k + start]);
    }
    Some(value)
}

/// Why the page parameters of an older endpoint are refused.
#[derive(Debug, Clone, Copy, PartialEq, Eq)]
pub enum LegacyPageError {
    TooManyItems(usize),
    PageZero,
}

impl LegacyPageError {
    pub fn message(&self) -> (s: String)
        ensures
            s@ == match self {
                LegacyPageError::TooManyItems(max) => "cannot request more than "@ + decimal(
                    *max as nat,
                ) + " items"@,
                LegacyPageError::PageZero => "page indexing starts from 1, page 0 is invalid"@,
            },
    {
        match self {
            LegacyPageError::TooManyItems(max) => {
                let mut s = owned("cannot request more than ");
                push_decimal(&mut s, *max as u64);
                push_str(&mut s, " items");
                s
            },
            LegacyPageError::PageZero => owned("page indexing starts from 1, page 0 is invalid"),
        }
    }
}

/// The page and page size that the parameters give: a parameter that does
/// not parse counts as absent (page 1, the default size).
pub open spec fn legacy_page_and_limit(
    page: Option<Seq<char>>,
    per_page: Option<Seq<char>>,
    default: nat,
) -> (nat, nat) {
    let p = match page {
        Some(t) => match usize_from_text(t) {
            Some(n) => n,
            None => 1,
        },
        None => 1,
    };
    let l = match per_page {
        Some(t) => match usize_from_text(t) {
            Some(n) => n,
            None => default,
        },
        None => default,
    };
    (p, l)
}

pub open spec fn opt_text(o: Option<&str>) -> Option<Seq<char>> {
    match o {
        Some(s) => Some(s@),
        None => None,
    }
}

/// The row offset and the page size of an older endpoint's page: the size
/// may not exceed `max`, and pages start from 1. (The offset computation
/// overflows, and panics, for pages too far out, which `requires` leaves out.)
pub fn legacy_pagination(page: Option<&str>, per_page: Option<&str>, default: usize, max: usize) -> (r:
    Result<(i64, i64), LegacyPageError>)
    requires
        ({
            let (p, l) = legacy_page_and_limit(opt_text(page), opt_text(per_page), default as nat);
            p >= 1 ==> (p - 1) * l <= usize::MAX
        }),
    ensures
        ({
            let (p, l) = legacy_page_and_limit(opt_text(page), opt_text(per_page), default as nat);
            if l > max {
                r == Err::<(i64, i64), LegacyPageError>(LegacyPageError::TooManyItems(max))
            } else if p == 0 {
                r == Err::<(i64, i64), LegacyPageError>(LegacyPageError::PageZero)
            } else {
                r == Ok::<(i64, i64), LegacyPageError>(
                    (((p - 1) * l) as usize as i64, l as usize as i64),
                )
            }
        }),
{
    let p: usize = match page {
        Some(t) => match parse_usize(t) {
            Some(n) => n,
            None => 1,
        },
        None => 1,
    };
    let limit: usize = match per_page {
        Some(t) => match parse_usize(t) {
            Some(n) => n,
            None => default,
        },
        None => default,
    };
    if limit > max {
        return Err(LegacyPageError::TooManyItems(max));
    }
    if p == 0 {
        return Err(LegacyPageError::PageZero);
    }
    let offset = (p - 1) * limit;
    Ok((offset as i64, limit as i64))
}

} // verus!
