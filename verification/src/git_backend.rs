//! The head of a `git http-backend` CGI response, as the index's HTTP
//! endpoint relays it: where the header lines end, how a line splits into
//! a name and a value, and the HTTP status that the `Status` header gives.
use crate::text::{split_once_at, split_once_by, str_eq};
use vstd::prelude::*;

verus! {

/// Whether a line of the response ends its headers: an empty line, or one
/// that holds only a carriage return.
pub fn is_header_end(line: &str) -> (r: bool)
    ensures
        r == (line@.len() == 0 || line@ == "\r"@),
{
    proof {
        reveal_strlit("");
        if line@.len() == 0 {
            assert(line@ =~= ""@);
        }
    }
    str_eq(line, "") || str_eq(line, "\r")
}

/// The name and the value of a header line `name: value`: the text before
/// the first `:`, and what follows it less its first character (the space).
pub open spec fn header_parts(line: Seq<char>) -> (Seq<char>, Seq<char>) {
    let (name, rest) = split_once_at(line, ':')->0;
    (name, rest.drop_first())
}

/// Whether a header line can be split: it holds a `:`, followed by at least
/// one character, an ASCII one (the value starts one byte further on).
pub open spec fn is_splittable_header(line: Seq<char>) -> bool {
    match split_once_at(line, ':') {
        Some((_, rest)) => rest.len() > 0 && (rest[0] as u32) < 0x80,
        None => false,
    }
}

/// Splits a header line into its name and its value.
pub fn split_header_line(line: &str) -> (r: (String, String))
    requires
        is_splittable_header(line@),
    ensures
        (r.0@, r.1@) == header_parts(line@),
{
    let (name, rest) = split_once_by(line, ':').unwrap();
    let value = drop_first_char(&rest);
    (name, value)
}

/// The text without its first character.
fn drop_first_char(s: &String) -> (r: String)
    requires
        s@.len() > 0,
    ensures
        r@ == s@.drop_first(),
{
    let v = crate::text::chars_of(s.as_str());
    crate::text::string_of(&v, 1, v.len())
}

/// The status code that `http::StatusCode` reads from a text: three ASCII
/// digits, the first of them not `0`.
pub open spec fn status_code_of(t: Seq<char>) -> Option<u16> {
    if t.len() == 3 && '1' <= t[0] <= '9' && '0' <= t[1] <= '9' && '0' <= t[2] <= '9' {
        Some(
            ((t[0] as u32 - '0' as u32) * 100 + (t[1] as u32 - '0' as u32) * 10 + (t[2] as u32
                - '0' as u32)) as u16,
        )
    } else {
        None
    }
}

/// `text.parse::<http::StatusCode>()`, taken as its number: the source
/// accepts exactly three bytes that are ASCII digits, the first not `0`,
/// and computes their decimal value.
#[verifier::external_body]
fn parse_status_code(text: &str) -> (r: Option<u16>)
    ensures
        r == status_code_of(text@),
{
    text.parse::<http::StatusCode>().ok().map(|c| c.as_u16())
}

/// The first word of a text: what comes before its first space, or all of it.
pub open spec fn first_word(t: Seq<char>) -> Seq<char> {
    match split_once_at(t, ' ') {
        Some((w, _)) => w,
        None => t,
    }
}

/// The HTTP status of the response: the first word of the `Status` header
/// (its text, where the header is present and readable as text), read as
/// a status code; 200 where there is none or it does not read as one.
pub open spec fn cgi_status_of(status_header: Option<Seq<char>>) -> u16 {
    match status_header {
        Some(t) => match status_code_of(first_word(t)) {
            Some(c) => c,
            None => 200,
        },
        None => 200,
    }
}

/// The HTTP status of the response, from the text of its `Status` header.
pub fn cgi_status(status_header: Option<&str>) -> (code: u16)
    ensures
        code == cgi_status_of(
            match status_header {
                Some(t) => Some(t@),
                None => None,
            },
        ),
{
    match status_header {
        Some(t) => {
            let word = match split_once_by(t, ' ') {
                Some((w, _)) => w,
                None => crate::text::owned(t),
            };
            match parse_status_code(word.as_str()) {
                Some(c) => c,
                None => 200,
            }
        },
        None => 200,
    }
}

} // verus!
