//! Choice between the structured (JSON) and the rendered (HTML) response.

use vstd::prelude::*;
use crate::text::{find_first, lower_of, occurs_at, to_lower};

verus! {

/// The representation of a response.
#[derive(Debug, Clone, Copy, PartialEq, Eq, Structural)]
pub enum ContentType {
    Html,
    Json,
}

impl ContentType {
    /// The `Content-Type` header value of the representation.
    pub fn content_type_header(&self) -> (r: &'static str)
        ensures
            r@ == match self {
                ContentType::Html => "text/html; charset=utf-8"@,
                ContentType::Json => "application/json; charset=utf-8"@,
            },
    {
        match self {
            ContentType::Html => "text/html; charset=utf-8",
            ContentType::Json => "application/json; charset=utf-8",
        }
    }
}

/// Two characters are equal once ASCII letters are lowercased.
pub open spec fn ascii_eq_ignore_case(a: char, b: char) -> bool {
    ||| a == b
    ||| ('A' <= a <= 'Z' && a as u32 + 32 == b as u32)
    ||| ('A' <= b <= 'Z' && b as u32 + 32 == a as u32)
}

/// A header name is `Accept`, in any ASCII case.
pub open spec fn is_accept_name(k: Seq<char>) -> bool {
    k.len() == "accept"@.len() && forall|i: int|
        0 <= i < k.len() ==> ascii_eq_ignore_case(#[trigger] k[i], "accept"@[i])
}

/// A lowercased `Accept` value asks for JSON: the JSON media type occurs at
/// a position before every occurrence of the HTML media type.
pub open spec fn prefers_json_lowered(l: Seq<char>) -> bool {
    exists|j: int|
        #[trigger] occurs_at(l, "application/json"@, j) && forall|h: int|
            #[trigger] occurs_at(l, "text/html"@, h) ==> j < h
}

/// An `Accept` value asks for JSON, compared without regard to case.
pub open spec fn prefers_json(v: Seq<char>) -> bool {
    prefers_json_lowered(lower_of(v))
}

/// Whether a lowercased `Accept` value asks for JSON.
pub fn accept_prefers_json(lowered: &str) -> (r: bool)
    ensures
        r == prefers_json_lowered(lowered@),
{
    let json = find_first(lowered, "application/json");
    let html = find_first(lowered, "text/html");
    match (json, html) {
        (Some(j), None) => {
            assert(occurs_at(lowered@, "application/json"@, j as int));
            true
        },
        (Some(j), Some(h)) => {
            if j < h {
                assert(occurs_at(lowered@, "application/json"@, j as int));
                assert forall|x: int| #[trigger] occurs_at(lowered@, "text/html"@, x) implies j < x by {
                    if x < h {
                        assert(!occurs_at(lowered@, "text/html"@, x));
                    }
                }
                true
            } else {
                assert forall|y: int| #[trigger] occurs_at(lowered@, "application/json"@, y) implies !(
                forall|x: int| #[trigger] occurs_at(lowered@, "text/html"@, x) ==> y < x) by {
                    if y < j {
                        assert(!occurs_at(lowered@, "application/json"@, y));
                    }
                    assert(occurs_at(lowered@, "text/html"@, h as int));
                }
                false
            }
        },
        (None, _) => false,
    }
}

fn is_accept_header(name: &str) -> (r: bool)
    ensures
        r == is_accept_name(name@),
{
    let target = "accept";
    proof {
        reveal_strlit("accept");
    }
    let n = name.unicode_len();
    if n != 6 {
        return false;
    }
    let mut i: usize = 0;
    while i < 6
        invariant
            n == 6,
            name@.len() == 6,
            target@ == "accept"@,
            "accept"@.len() == 6,
            i <= 6,
            forall|k: int| 0 <= k < i ==> ascii_eq_ignore_case(#[trigger] name@[k], "accept"@[k]),
        decreases 6 - i,
    {
        let a = name.get_char(i);
        let b = target.get_char(i);
        let same = a == b || ('A' <= a && a <= 'Z' && (a as u32) + 32 == b as u32) || ('A' <= b
            && b <= 'Z' && (b as u32) + 32 == a as u32);
        if !same {
            return false;
        }
        i += 1;
    }
    true
}

/// Picks the response representation from the request's headers, given as
/// `(name, value)` pairs: JSON when some `Accept` header asks for it before
/// HTML, HTML otherwise.
pub fn negotiate_content_type(headers: &[(String, String)]) -> (r: ContentType)
    ensures
        r == ContentType::Json <==> exists|i: int|
            0 <= i < headers@.len() && is_accept_name(headers@[i].0@) && #[trigger] prefers_json(
                headers@[i].1@,
            ),
{
    let mut i: usize = 0;
    while i < headers.len()
        invariant
            i <= headers@.len(),
            forall|k: int|
                0 <= k < i ==> !(is_accept_name(headers@[k].0@) && #[trigger] prefers_json(
                    headers@[k].1@,
                )),
        decreases headers@.len() - i,
    {
        if is_accept_header(headers[i].0.as_str()) {
            let lowered = to_lower(headers[i].1.as_str());
            if accept_prefers_json(lowered.as_str()) {
                assert(prefers_json(headers@[i as int].1@));
                return ContentType::Json;
            }
        }
        i += 1;
    }
    ContentType::Html
}

} // verus!
