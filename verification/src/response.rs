//! The HTTP replies of the server.

use crate::envelope::{error_text, MethodResponse};
use crate::error::ErrorCode;
use crate::ident::{Id, IdView};
use vstd::prelude::*;
use vstd::string::StringSliceAdditionalSpecFns;

verus! {

/// The content type of a JSON reply.
pub const JSON: &'static str = "application/json; charset=utf-8";

/// The content type of a plain-text reply.
pub const TEXT: &'static str = "text/plain";

/// The code of the error object that answers an oversized request.
pub const OVERSIZED_REQUEST_CODE: i32 = -32701;

/// One header of a reply: its name, and its value as raw bytes.
#[derive(Debug, Clone, PartialEq, Eq)]
pub struct Header {
    pub name: String,
    pub value: Vec<u8>,
}

impl View for Header {
    type V = (Seq<char>, Seq<u8>);

    open spec fn view(&self) -> (Seq<char>, Seq<u8>) {
        (self.name@, self.value@)
    }
}

/// The mathematical value of an [`HttpReply`].
pub struct HttpReplyView {
    pub status: int,
    pub headers: Seq<(Seq<char>, Seq<u8>)>,
    pub body: Seq<char>,
}

/// What the server sends back for one HTTP request.
#[derive(Debug, Clone, PartialEq, Eq)]
pub struct HttpReply {
    pub status: u16,
    pub headers: Vec<Header>,
    pub body: String,
}

impl View for HttpReply {
    type V = HttpReplyView;

    open spec fn view(&self) -> HttpReplyView {
        HttpReplyView {
            status: self.status as int,
            headers: Seq::new(self.headers@.len(), |i: int| self.headers@[i]@),
            body: self.body@,
        }
    }
}

impl HttpReply {
    /// The reply with the header `access-control-allow-origin` added behind
    /// the others, where there is an origin to allow.
    pub open spec fn allowing(self, origin: Option<Seq<u8>>) -> HttpReplyView {
        match origin {
            Some(o) => HttpReplyView {
                status: self@.status,
                headers: self@.headers.push(("access-control-allow-origin"@, o)),
                body: self@.body,
            },
            None => self@,
        }
    }

    /// Adds the header `access-control-allow-origin` with the given value,
    /// where there is one.
    pub fn allow_origin(self, origin: Option<Vec<u8>>) -> (out: HttpReply)
        ensures
            out@ == self.allowing(
                match origin {
                    Some(o) => Some(o@),
                    None => None,
                },
            ),
    {
        match origin {
            Some(value) => {
                let mut headers = self.headers;
                headers.push(
                    Header { name: String::from_str("access-control-allow-origin"), value },
                );
                let out = HttpReply { status: self.status, headers, body: self.body };
                assert(out@.headers =~= self@.headers.push(
                    ("access-control-allow-origin"@, value@),
                ));
                out
            },
            None => self,
        }
    }
}

/// A reply with the one header `content-type`.
pub open spec fn template(status: int, body: Seq<char>, content_type: &str) -> HttpReplyView {
    HttpReplyView {
        status,
        headers: seq![("content-type"@, content_type.spec_bytes())],
        body,
    }
}

/// A reply of the given status and body, with `content_type` as its only
/// header.
pub fn from_template(status: u16, body: String, content_type: &'static str) -> (reply: HttpReply)
    ensures
        reply@ == template(status as int, body@, content_type),
{
    let mut headers: Vec<Header> = Vec::new();
    headers.push(
        Header { name: String::from_str("content-type"), value: content_type.as_bytes_vec() },
    );
    let reply = HttpReply { status, headers, body };
    assert(reply@.headers =~= seq![("content-type"@, content_type.spec_bytes())]);
    reply
}

/// The digit `d` as text.
pub open spec fn digit_text(d: nat) -> Seq<char> {
    if d == 0 {
        "0"@
    } else if d == 1 {
        "1"@
    } else if d == 2 {
        "2"@
    } else if d == 3 {
        "3"@
    } else if d == 4 {
        "4"@
    } else if d == 5 {
        "5"@
    } else if d == 6 {
        "6"@
    } else if d == 7 {
        "7"@
    } else if d == 8 {
        "8"@
    } else {
        "9"@
    }
}

/// The decimal numeral of `n`, without leading zeros.
pub open spec fn decimal_text(n: nat) -> Seq<char>
    decreases n,
{
    if n < 10 {
        digit_text(n)
    } else {
        decimal_text(n / 10) + digit_text(n % 10)
    }
}

fn digit(d: u32) -> (s: &'static str)
    requires
        d < 10,
    ensures
        s@ == digit_text(d as nat),
{
    if d == 0 {
        "0"
    } else if d == 1 {
        "1"
    } else if d == 2 {
        "2"
    } else if d == 3 {
        "3"
    } else if d == 4 {
        "4"
    } else if d == 5 {
        "5"
    } else if d == 6 {
        "6"
    } else if d == 7 {
        "7"
    } else if d == 8 {
        "8"
    } else {
        "9"
    }
}

/// Writes `n` as a decimal numeral.
pub fn decimal(n: u32) -> (s: String)
    ensures
        s@ == decimal_text(n as nat),
    decreases n,
{
    if n < 10 {
        String::from_str(digit(n))
    } else {
        let mut s = decimal(n / 10);
        s.append(digit(n % 10));
        s
    }
}

/// What the `data` field of the answer to an oversized request says.
pub open spec fn limit_note(limit: u32) -> Seq<char> {
    "Exceeded max limit of "@ + decimal_text(limit as nat)
}

/// The text of the error envelope without an identifier that carries `code`.
pub open spec fn plain_error_text(code: ErrorCode) -> Seq<char> {
    error_text(IdView::Null, code.spec_code(), code.spec_message(), None)
}

/// The value of the reply that [`ok_response`] makes.
pub open spec fn ok_view(body: Seq<char>) -> HttpReplyView {
    template(200, body, JSON)
}

/// The value of the reply that [`internal_error`] makes.
pub open spec fn internal_error_view() -> HttpReplyView {
    template(500, plain_error_text(ErrorCode::InternalError), JSON)
}

/// The value of the reply that [`malformed`] makes.
pub open spec fn malformed_view() -> HttpReplyView {
    template(400, plain_error_text(ErrorCode::ParseError), JSON)
}

/// The value of the reply that [`too_large`] makes.
pub open spec fn too_large_view(limit: u32) -> HttpReplyView {
    template(
        413,
        error_text(
            IdView::Null,
            OVERSIZED_REQUEST_CODE as int,
            "Request is too big"@,
            Some(limit_note(limit)),
        ),
        JSON,
    )
}

/// The value of the reply that [`host_not_allowed`] makes.
pub open spec fn host_not_allowed_view() -> HttpReplyView {
    template(403, "Provided Host header is not whitelisted.\n"@, TEXT)
}

/// The value of the reply that [`invalid_allow_origin`] makes.
pub open spec fn invalid_allow_origin_view() -> HttpReplyView {
    template(
        403,
        "Origin of the request is not whitelisted. CORS headers would not be sent and any side-effects were cancelled as well.\n"@,
        TEXT,
    )
}

/// The value of the reply that [`invalid_allow_headers`] makes.
pub open spec fn invalid_allow_headers_view() -> HttpReplyView {
    template(
        403,
        "Requested headers are not allowed for CORS. CORS headers would not be sent and any side-effects were cancelled as well.\n"@,
        TEXT,
    )
}

/// The value of the reply that [`method_not_allowed`] makes.
pub open spec fn method_not_allowed_view() -> HttpReplyView {
    template(405, "Used HTTP Method is not allowed. POST or OPTIONS is required\n"@, TEXT)
}

/// The value of the reply that [`unsupported_content_type`] makes.
pub open spec fn unsupported_content_type_view() -> HttpReplyView {
    template(
        415,
        "Supplied content type is not allowed. Content-Type: application/json is required\n"@,
        TEXT,
    )
}

/// 200: the body is the answer of the processor.
pub fn ok_response(body: String) -> (reply: HttpReply)
    ensures
        reply@ == ok_view(body@),
{
    from_template(200, body, JSON)
}

/// 500: something went wrong inside the server.
pub fn internal_error() -> (reply: HttpReply)
    ensures
        reply@ == internal_error_view(),
{
    from_template(500, MethodResponse::error(&Id::Null, ErrorCode::InternalError).result, JSON)
}

/// 400: the request lacks what the server needs to read it.
pub fn malformed() -> (reply: HttpReply)
    ensures
        reply@ == malformed_view(),
{
    from_template(400, MethodResponse::error(&Id::Null, ErrorCode::ParseError).result, JSON)
}

/// 413: the body is longer than `limit` bytes. The error object names the
/// limit.
pub fn too_large(limit: u32) -> (reply: HttpReply)
    ensures
        reply@ == too_large_view(limit),
{
    let mut note = String::from_str("Exceeded max limit of ");
    let digits = decimal(limit);
    note.append(digits.as_str());
    let answer = MethodResponse::custom_error(
        &Id::Null,
        OVERSIZED_REQUEST_CODE,
        "Request is too big",
        Some(note.as_str()),
    );
    from_template(413, answer.result, JSON)
}

/// 403: the `host` header names a host that the server does not answer for.
pub fn host_not_allowed() -> (reply: HttpReply)
    ensures
        reply@ == host_not_allowed_view(),
{
    from_template(403, String::from_str("Provided Host header is not whitelisted.\n"), TEXT)
}

/// 403: the `origin` header names an origin that may not call the server.
pub fn invalid_allow_origin() -> (reply: HttpReply)
    ensures
        reply@ == invalid_allow_origin_view(),
{
    from_template(
        403,
        String::from_str(
            "Origin of the request is not whitelisted. CORS headers would not be sent and any side-effects were cancelled as well.\n",
        ),
        TEXT,
    )
}

/// 403: the request carries or announces a header that the server does not
/// accept.
pub fn invalid_allow_headers() -> (reply: HttpReply)
    ensures
        reply@ == invalid_allow_headers_view(),
{
    from_template(
        403,
        String::from_str(
            "Requested headers are not allowed for CORS. CORS headers would not be sent and any side-effects were cancelled as well.\n",
        ),
        TEXT,
    )
}

/// 405: the HTTP method is none that the server serves at this path.
pub fn method_not_allowed() -> (reply: HttpReply)
    ensures
        reply@ == method_not_allowed_view(),
{
    from_template(
        405,
        String::from_str("Used HTTP Method is not allowed. POST or OPTIONS is required\n"),
        TEXT,
    )
}

/// 415: the body of a POST is not announced as JSON.
pub fn unsupported_content_type() -> (reply: HttpReply)
    ensures
        reply@ == unsupported_content_type_view(),
{
    from_template(
        415,
        String::from_str(
            "Supplied content type is not allowed. Content-Type: application/json is required\n",
        ),
        TEXT,
    )
}

} // verus!
