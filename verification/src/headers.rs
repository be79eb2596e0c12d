//! What the server reads from the headers of a request.

use hyper::HeaderMap;
use vstd::prelude::*;
use vstd::slice::slice_index_get;
use vstd::string::StringSliceAdditionalSpecFns;

verus! {

/// The header map of an HTTP request. Its entries are not visible here; the
/// functions of this module name what the server reads from it.
#[verifier::external_type_specification]
#[verifier::external_body]
#[verifier::reject_recursive_types(T)]
pub struct ExHeaderMap<T>(hyper::HeaderMap<T>);

/// The value of one header, as it stands in a header map.
#[verifier::external_type_specification]
#[verifier::external_body]
pub struct ExHeaderValue(hyper::header::HeaderValue);

/// The values that the map holds under the header `name`, in the order in
/// which they were added.
pub uninterp spec fn header_values(headers: HeaderMap, name: Seq<char>) -> Seq<Seq<u8>>;

/// A byte of visible ASCII: a tab, or a byte from the space on and below
/// DEL.
pub open spec fn visible_byte(b: u8) -> bool {
    32 <= b < 127 || b == 9
}

/// A byte string of visible ASCII.
pub open spec fn visible_ascii(value: Seq<u8>) -> bool {
    forall|i: int| 0 <= i < value.len() ==> visible_byte(#[trigger] value[i])
}

/// The text that a string of ASCII bytes spells.
pub open spec fn ascii_text(value: Seq<u8>) -> Seq<char> {
    Seq::new(value.len(), |i: int| value[i] as char)
}

/// The value of the header `name` as text: there is one where the map holds
/// exactly one value under that name and the value is visible ASCII.
pub open spec fn header_text(headers: HeaderMap, name: Seq<char>) -> Option<Seq<char>> {
    let values = header_values(headers, name);
    if values.len() == 1 && visible_ascii(values[0]) {
        Some(ascii_text(values[0]))
    } else {
        None
    }
}

/// The bytes of the first value that the map holds under `name`.
pub open spec fn header_bytes(headers: HeaderMap, name: Seq<char>) -> Option<Seq<u8>> {
    let values = header_values(headers, name);
    if values.len() > 0 {
        Some(values[0])
    } else {
        None
    }
}

/// The names of the headers that the map holds, each once.
pub uninterp spec fn header_names(headers: HeaderMap) -> Seq<Seq<char>>;

/// The header names that the request asks leave for, in the values of its
/// `access-control-request-headers` headers: split at commas and trimmed.
pub uninterp spec fn cors_request_headers(headers: HeaderMap) -> Seq<Seq<char>>;

/// The views of a list of strings.
pub open spec fn views(list: Seq<String>) -> Seq<Seq<char>> {
    Seq::new(list.len(), |i: int| list[i]@)
}

/// The view of a string that may be absent.
pub open spec fn text_view(text: Option<String>) -> Option<Seq<char>> {
    match text {
        Some(s) => Some(s@),
        None => None,
    }
}

/// The view of a byte string that may be absent.
pub open spec fn bytes_view(bytes: Option<Vec<u8>>) -> Option<Seq<u8>> {
    match bytes {
        Some(b) => Some(b@),
        None => None,
    }
}

/// Calls `jsonrpsee_core::http_helpers::read_header_value` and copies the
/// text it returns: the value of the header, where the map holds exactly one
/// value under the name and that value is visible ASCII.
#[verifier::external_body]
pub(crate) fn read_header_value(headers: &HeaderMap, name: &str) -> (out: Option<String>)
    ensures
        out.is_some() == (header_values(*headers, name@).len() == 1 && visible_ascii(
            header_values(*headers, name@)[0],
        )),
        out matches Some(text) ==> text@ == ascii_text(header_values(*headers, name@)[0]),
{
    jsonrpsee_core::http_helpers::read_header_value(headers, name).map(|v| v.to_string())
}

/// Calls `http::HeaderMap::get` and copies the bytes of the value it finds:
/// the first of the values that the map holds under the name.
#[verifier::external_body]
pub(crate) fn read_header_bytes(headers: &HeaderMap, name: &str) -> (out: Option<Vec<u8>>)
    ensures
        out.is_some() == (header_values(*headers, name@).len() > 0),
        out matches Some(value) ==> value@ == header_values(*headers, name@)[0],
{
    headers.get(name).map(|v| v.as_bytes().to_vec())
}

/// Walks `http::HeaderMap::keys` and copies each name. The result depends on
/// the map alone; the contract only names it.
#[verifier::external_body]
pub(crate) fn read_header_names(headers: &HeaderMap) -> (out: Vec<String>)
    ensures
        views(out@) == header_names(*headers),
{
    headers.keys().map(|k| k.as_str().to_string()).collect()
}

/// Calls `jsonrpsee_core::http_helpers::get_cors_request_headers` and copies
/// the names it yields. The result depends on the map alone; the contract
/// only names it.
#[verifier::external_body]
pub(crate) fn read_cors_request_headers(headers: &HeaderMap) -> (out: Vec<String>)
    ensures
        views(out@) == cors_request_headers(*headers),
{
    jsonrpsee_core::http_helpers::get_cors_request_headers(headers).map(|v| v.to_string()).collect()
}

/// A byte that may stand in the value of a header: a tab, or any byte from
/// the space on but for DEL.
pub open spec fn valid_value_byte(b: u8) -> bool {
    b >= 32 && b != 127 || b == 9
}

/// A byte string that may be the value of a header.
pub open spec fn valid_header_value(value: Seq<u8>) -> bool {
    forall|i: int| 0 <= i < value.len() ==> valid_value_byte(#[trigger] value[i])
}

/// Says whether a byte string may be the value of a header.
pub fn is_valid_header_value(value: &[u8]) -> (valid: bool)
    ensures
        valid == valid_header_value(value@),
{
    let mut i: usize = 0;
    while i < value.len()
        invariant
            i <= value.len(),
            forall|j: int| 0 <= j < i ==> valid_value_byte(#[trigger] value@[j]),
        decreases value.len() - i,
    {
        let b = *slice_index_get(value, i);
        if !(b >= 32 && b != 127 || b == 9) {
            return false;
        }
        i += 1;
    }
    true
}

/// The lower-case form of an ASCII letter; any other byte is itself.
pub open spec fn lower(b: u8) -> u8 {
    if 65 <= b <= 90 {
        (b + 32) as u8
    } else {
        b
    }
}

/// Two byte strings are the same but for the case of their ASCII letters.
pub open spec fn same_ignoring_case(a: Seq<u8>, b: Seq<u8>) -> bool {
    &&& a.len() == b.len()
    &&& forall|i: int| 0 <= i < a.len() ==> lower(#[trigger] a[i]) == lower(b[i])
}

fn to_lower(b: u8) -> (out: u8)
    ensures
        out == lower(b),
{
    if 65 <= b && b <= 90 {
        b + 32
    } else {
        b
    }
}

/// Compares two byte strings without regard to the case of ASCII letters.
pub fn eq_ignore_ascii_case(a: &[u8], b: &[u8]) -> (same: bool)
    ensures
        same == same_ignoring_case(a@, b@),
{
    if a.len() != b.len() {
        return false;
    }
    let mut i: usize = 0;
    while i < a.len()
        invariant
            a.len() == b.len(),
            i <= a.len(),
            forall|j: int| 0 <= j < i ==> lower(#[trigger] a@[j]) == lower(b@[j]),
        decreases a.len() - i,
    {
        if to_lower(*slice_index_get(a, i)) != to_lower(*slice_index_get(b, i)) {
            return false;
        }
        i += 1;
    }
    true
}

/// A `content-type` value announces JSON: it is `application/json`, alone or
/// with the parameter `charset=utf-8`, in any case.
pub open spec fn announces_json(content_type: Option<Seq<u8>>) -> bool {
    match content_type {
        Some(value) => {
            ||| same_ignoring_case(value, "application/json".spec_bytes())
            ||| same_ignoring_case(value, "application/json; charset=utf-8".spec_bytes())
            ||| same_ignoring_case(value, "application/json;charset=utf-8".spec_bytes())
        },
        None => false,
    }
}

/// Says whether the value of a `content-type` header announces a JSON body.
pub fn is_json(content_type: &Option<Vec<u8>>) -> (json: bool)
    ensures
        json == announces_json(bytes_view(*content_type)),
{
    match content_type {
        Some(value) => {
            eq_ignore_ascii_case(value.as_slice(), "application/json".as_bytes())
                || eq_ignore_ascii_case(
                value.as_slice(),
                "application/json; charset=utf-8".as_bytes(),
            ) || eq_ignore_ascii_case(value.as_slice(), "application/json;charset=utf-8".as_bytes())
        },
        None => false,
    }
}

/// Says whether the request announces its body as JSON.
pub fn content_type_is_json(headers: &HeaderMap) -> (json: bool)
    ensures
        json == announces_json(header_bytes(*headers, "content-type"@)),
{
    let value = read_header_bytes(headers, "content-type");
    is_json(&value)
}

/// The origin to echo on the reply: the value of `origin`, where the request
/// has both an `origin` and a `host` header and the two differ.
pub open spec fn foreign_origin(origin: Option<Seq<u8>>, host: Option<Seq<u8>>) -> Option<
    Seq<u8>,
> {
    match (origin, host) {
        (Some(o), Some(h)) => if o != h {
            Some(o)
        } else {
            None
        },
        _ => None,
    }
}

/// Compares two byte strings.
pub fn bytes_eq(a: &[u8], b: &[u8]) -> (same: bool)
    ensures
        same == (a@ == b@),
{
    if a.len() != b.len() {
        return false;
    }
    let mut i: usize = 0;
    while i < a.len()
        invariant
            a.len() == b.len(),
            i <= a.len(),
            forall|j: int| 0 <= j < i ==> a@[j] == b@[j],
        decreases a.len() - i,
    {
        if *slice_index_get(a, i) != *slice_index_get(b, i) {
            return false;
        }
        i += 1;
    }
    assert(a@ =~= b@);
    true
}

/// Picks the origin to echo from the two header values.
pub fn origin_if_different(origin: Option<Vec<u8>>, host: Option<Vec<u8>>) -> (out: Option<
    Vec<u8>,
>)
    ensures
        bytes_view(out) == foreign_origin(bytes_view(origin), bytes_view(host)),
{
    match (origin, host) {
        (Some(o), Some(h)) => {
            if bytes_eq(o.as_slice(), h.as_slice()) {
                None
            } else {
                Some(o)
            }
        },
        _ => None,
    }
}

/// Reads the `origin` and `host` headers. If both are there and they differ,
/// returns the origin; otherwise nothing.
pub fn return_origin_if_different_from_host(headers: &HeaderMap) -> (out: Option<Vec<u8>>)
    ensures
        bytes_view(out) == foreign_origin(
            header_bytes(*headers, "origin"@),
            header_bytes(*headers, "host"@),
        ),
{
    let origin = read_header_bytes(headers, "origin");
    let host = read_header_bytes(headers, "host");
    origin_if_different(origin, host)
}

} // verus!
