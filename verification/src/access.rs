//! Access control: which requests the server answers at all, and where an
//! admitted request goes.

use crate::headers::{
    announces_json, bytes_view, content_type_is_json, cors_request_headers, foreign_origin,
    header_bytes, header_names, header_text, is_valid_header_value, read_cors_request_headers,
    read_header_names, read_header_value, return_origin_if_different_from_host, text_view,
    valid_header_value, views,
};
use crate::response::{
    host_not_allowed, host_not_allowed_view, internal_error, internal_error_view,
    invalid_allow_headers, invalid_allow_headers_view, invalid_allow_origin,
    invalid_allow_origin_view, malformed, malformed_view, method_not_allowed,
    method_not_allowed_view, unsupported_content_type, unsupported_content_type_view, Header,
    HttpReply, HttpReplyView,
};
use hyper::HeaderMap;
use jsonrpsee_core::server::access_control::AccessControl;
use vstd::prelude::*;
use vstd::string::StringSliceAdditionalSpecFns;

verus! {

/// The policy that says which hosts, origins and headers the server accepts.
#[verifier::external_type_specification]
#[verifier::external_body]
pub struct ExAccessControl(jsonrpsee_core::server::access_control::AccessControl);

/// The greatest length, in characters, of an `origin` header that is held
/// against the policy. A longer one is not admitted: to look at an origin
/// the policy compiles it into a pattern, and that has its limits.
pub const MAX_ORIGIN_LEN: usize = 16384;

/// The origin, if there is one, is short enough to be held against the
/// policy.
pub open spec fn origin_fits(origin: Option<Seq<char>>) -> bool {
    match origin {
        Some(o) => o.len() <= MAX_ORIGIN_LEN,
        None => true,
    }
}

/// The policy admits a request whose `host` header is `host`.
pub uninterp spec fn host_allowed(acl: AccessControl, host: Seq<char>) -> bool;

/// The policy admits a request with the given `origin` header, if any, sent
/// to `host`.
pub uninterp spec fn origin_allowed(
    acl: AccessControl,
    origin: Option<Seq<char>>,
    host: Seq<char>,
) -> bool;

/// The policy admits a request that carries the headers `names` and asks
/// leave for the headers `requested`.
pub uninterp spec fn headers_allowed(
    acl: AccessControl,
    names: Seq<Seq<char>>,
    requested: Seq<Seq<char>>,
) -> bool;

/// The value that the policy has for `access-control-allow-headers`.
pub uninterp spec fn allow_headers_text(acl: AccessControl) -> Seq<char>;

/// Calls `AccessControl::default`: the policy that admits every host, every
/// origin that can be held against it and every header, and announces `*`
/// as the headers it allows.
#[verifier::external_body]
pub(crate) fn permissive() -> (acl: AccessControl)
    ensures
        forall|host: Seq<char>| #[trigger] host_allowed(acl, host),
        forall|origin: Option<Seq<char>>, host: Seq<char>|
            origin_fits(origin) ==> #[trigger] origin_allowed(acl, origin, host),
        forall|names: Seq<Seq<char>>, requested: Seq<Seq<char>>| #[trigger]
            headers_allowed(acl, names, requested),
        allow_headers_text(acl) == "*"@,
{
    AccessControl::default()
}

/// Calls `AccessControl::verify_host` and says whether it returned `Ok`. The
/// answer depends on the policy and the host alone; the contract only names
/// it.
#[verifier::external_body]
pub(crate) fn verify_host(acl: &AccessControl, host: &str) -> (ok: bool)
    ensures
        ok == host_allowed(*acl, host@),
{
    acl.verify_host(host).is_ok()
}

/// Calls `AccessControl::verify_origin` and says whether it returned `Ok`.
/// The answer depends on the arguments alone; the contract only names it.
/// The call compiles the origin into a pattern and does not return where
/// the pattern grows too large: an origin beyond the limit is left out.
#[verifier::external_body]
pub(crate) fn verify_origin(acl: &AccessControl, origin: &Option<String>, host: &str) -> (ok:
    bool)
    requires
        origin_fits(text_view(*origin)),
    ensures
        ok == origin_allowed(*acl, text_view(*origin), host@),
{
    acl.verify_origin(origin.as_deref(), host).is_ok()
}

/// Calls `AccessControl::verify_headers` and says whether it returned `Ok`.
/// The answer depends on the arguments alone; the contract only names it.
#[verifier::external_body]
pub(crate) fn verify_headers(
    acl: &AccessControl,
    names: &Vec<String>,
    requested: &Vec<String>,
) -> (ok: bool)
    ensures
        ok == headers_allowed(*acl, views(names@), views(requested@)),
{
    acl.verify_headers(names.iter(), requested.iter()).is_ok()
}

/// Calls `AllowHeaders::to_cors_header_value` on the policy's allowed
/// headers and copies the text. It depends on the policy alone; the contract
/// only names it.
#[verifier::external_body]
pub(crate) fn allow_headers_value(acl: &AccessControl) -> (text: String)
    ensures
        text@ == allow_headers_text(*acl),
{
    acl.allowed_headers().to_cors_header_value().into_owned()
}

/// The HTTP methods that the server tells apart.
#[derive(Debug, Clone, Copy, PartialEq, Eq, Structural)]
pub enum HttpMethod {
    Options,
    Post,
    Get,
    Other,
}

/// The mathematical value of a [`Facts`].
pub struct FactsView {
    pub host: Option<Seq<char>>,
    pub origin: Option<Seq<char>>,
    pub host_allowed: bool,
    pub origin_allowed: bool,
    pub headers_allowed: bool,
    pub method: HttpMethod,
    pub json: bool,
    pub health: bool,
    pub allow_headers: Seq<char>,
    pub echo_origin: Option<Seq<u8>>,
}

/// What is known about a request when its route is decided.
#[derive(Debug, Clone, PartialEq, Eq)]
pub struct Facts {
    /// The `host` header.
    pub host: Option<String>,
    /// The `origin` header.
    pub origin: Option<String>,
    /// The policy admits the host.
    pub host_allowed: bool,
    /// The policy admits the origin.
    pub origin_allowed: bool,
    /// The policy admits the headers.
    pub headers_allowed: bool,
    /// The HTTP method.
    pub method: HttpMethod,
    /// The body is announced as JSON.
    pub json: bool,
    /// The path is that of the health endpoint.
    pub health: bool,
    /// The policy's value for `access-control-allow-headers`.
    pub allow_headers: String,
    /// The origin to echo on the reply to a call.
    pub echo_origin: Option<Vec<u8>>,
}

impl View for Facts {
    type V = FactsView;

    open spec fn view(&self) -> FactsView {
        FactsView {
            host: text_view(self.host),
            origin: text_view(self.origin),
            host_allowed: self.host_allowed,
            origin_allowed: self.origin_allowed,
            headers_allowed: self.headers_allowed,
            method: self.method,
            json: self.json,
            health: self.health,
            allow_headers: self.allow_headers@,
            echo_origin: bytes_view(self.echo_origin),
        }
    }
}

/// The mathematical value of a [`Route`].
pub enum RouteView {
    Reply(HttpReplyView),
    Process { allow_origin: Option<Seq<u8>> },
    Health,
}

/// Where a request goes.
#[derive(Debug, Clone, PartialEq, Eq)]
pub enum Route {
    /// The request is answered at once, with this reply.
    Reply(HttpReply),
    /// The body is to be read and processed as JSON-RPC. Where `allow_origin`
    /// holds a value, the reply carries it as `access-control-allow-origin`.
    Process { allow_origin: Option<Vec<u8>> },
    /// The health endpoint is to be served.
    Health,
}

impl View for Route {
    type V = RouteView;

    open spec fn view(&self) -> RouteView {
        match self {
            Route::Reply(reply) => RouteView::Reply(reply@),
            Route::Process { allow_origin } => RouteView::Process {
                allow_origin: bytes_view(*allow_origin),
            },
            Route::Health => RouteView::Health,
        }
    }
}

/// The answer to a preflight request from `origin`: status 200, no body, and
/// the three headers that name the origin, the method and the headers that
/// the server accepts. Where the origin or the list of headers cannot be the
/// value of a header, the answer is an internal error.
pub open spec fn preflight_view(origin: Seq<char>, allow_headers: Seq<char>) -> HttpReplyView {
    if valid_header_value(vstd::utf8::encode_utf8(origin)) && valid_header_value(
        vstd::utf8::encode_utf8(allow_headers),
    ) {
        HttpReplyView {
            status: 200,
            headers: seq![
                ("access-control-allow-origin"@, vstd::utf8::encode_utf8(origin)),
                ("access-control-allow-methods"@, "POST".spec_bytes()),
                ("access-control-allow-headers"@, vstd::utf8::encode_utf8(allow_headers)),
            ],
            body: Seq::empty(),
        }
    } else {
        internal_error_view()
    }
}

/// Answers a preflight request.
pub fn preflight(origin: &String, allow_headers: &String) -> (reply: HttpReply)
    ensures
        reply@ == preflight_view(origin@, allow_headers@),
{
    let origin_value = origin.as_str().as_bytes_vec();
    let allow_value = allow_headers.as_str().as_bytes_vec();
    if !is_valid_header_value(origin_value.as_slice()) || !is_valid_header_value(
        allow_value.as_slice(),
    ) {
        return internal_error();
    }
    let mut headers: Vec<Header> = Vec::new();
    headers.push(
        Header { name: String::from_str("access-control-allow-origin"), value: origin_value },
    );
    headers.push(
        Header {
            name: String::from_str("access-control-allow-methods"),
            value: "POST".as_bytes_vec(),
        },
    );
    headers.push(
        Header { name: String::from_str("access-control-allow-headers"), value: allow_value },
    );
    let reply = HttpReply { status: 200, headers, body: String::new() };
    assert(reply@.headers =~= seq![
        ("access-control-allow-origin"@, vstd::utf8::encode_utf8(origin@)),
        ("access-control-allow-methods"@, "POST".spec_bytes()),
        ("access-control-allow-headers"@, vstd::utf8::encode_utf8(allow_headers@)),
    ]);
    reply
}

/// Where a request goes, given what is known about it. The
/// checks come in this order: a `host` header must be there; the host, the
/// origin and the headers must be admitted; then the method decides.
pub open spec fn decision(facts: FactsView) -> RouteView {
    if facts.host is None {
        RouteView::Reply(malformed_view())
    } else if !facts.host_allowed {
        RouteView::Reply(host_not_allowed_view())
    } else if !facts.origin_allowed {
        RouteView::Reply(invalid_allow_origin_view())
    } else if !facts.headers_allowed {
        RouteView::Reply(invalid_allow_headers_view())
    } else {
        match facts.method {
            HttpMethod::Options => match facts.origin {
                Some(origin) => RouteView::Reply(preflight_view(origin, facts.allow_headers)),
                None => RouteView::Reply(malformed_view()),
            },
            HttpMethod::Post => if facts.json {
                RouteView::Process { allow_origin: facts.echo_origin }
            } else {
                RouteView::Reply(unsupported_content_type_view())
            },
            HttpMethod::Get => if facts.health {
                RouteView::Health
            } else {
                RouteView::Reply(method_not_allowed_view())
            },
            HttpMethod::Other => RouteView::Reply(method_not_allowed_view()),
        }
    }
}

/// A request is processed as JSON-RPC only where it names a host, the policy
/// admits its host, origin and headers, and it is a POST that announces
/// JSON.
pub proof fn lemma_processing_needs_admission(facts: FactsView)
    requires
        decision(facts) is Process,
    ensures
        facts.host is Some,
        facts.host_allowed,
        facts.origin_allowed,
        facts.headers_allowed,
        facts.method == HttpMethod::Post,
        facts.json,
        decision(facts) == (RouteView::Process { allow_origin: facts.echo_origin }),
{
}

/// The health endpoint is reached by an admitted GET of its path and by
/// nothing else: a POST of the same path is processed as JSON-RPC or
/// refused.
pub proof fn lemma_health_is_reached_by_get_alone(facts: FactsView)
    ensures
        decision(facts) is Health <==> {
            &&& facts.host is Some
            &&& facts.host_allowed
            &&& facts.origin_allowed
            &&& facts.headers_allowed
            &&& facts.method == HttpMethod::Get
            &&& facts.health
        },
{
}

/// A request that the policy does not admit is answered with status 403,
/// whatever its method.
pub proof fn lemma_refused_requests_are_forbidden(facts: FactsView)
    requires
        facts.host is Some,
        !facts.host_allowed || !facts.origin_allowed || !facts.headers_allowed,
    ensures
        decision(facts) matches RouteView::Reply(reply) && reply.status == 403,
{
}

/// Decides where a request goes, given what is known about it.
pub fn decide(facts: Facts) -> (route: Route)
    ensures
        route@ == decision(facts@),
{
    if facts.host.is_none() {
        return Route::Reply(malformed());
    }
    if !facts.host_allowed {
        return Route::Reply(host_not_allowed());
    }
    if !facts.origin_allowed {
        return Route::Reply(invalid_allow_origin());
    }
    if !facts.headers_allowed {
        return Route::Reply(invalid_allow_headers());
    }
    match facts.method {
        HttpMethod::Options => match &facts.origin {
            Some(origin) => Route::Reply(preflight(origin, &facts.allow_headers)),
            None => Route::Reply(malformed()),
        },
        HttpMethod::Post => {
            if facts.json {
                Route::Process { allow_origin: facts.echo_origin }
            } else {
                Route::Reply(unsupported_content_type())
            }
        },
        HttpMethod::Get => {
            if facts.health {
                Route::Health
            } else {
                Route::Reply(method_not_allowed())
            }
        },
        HttpMethod::Other => Route::Reply(method_not_allowed()),
    }
}

/// What is known about a request with the given method, path and
/// headers, under the policy `acl` and with the health endpoint, if any, at
/// `health_path`. An origin longer than [`MAX_ORIGIN_LEN`] is not admitted,
/// whatever the policy.
pub open spec fn findings(
    acl: AccessControl,
    health_path: Option<Seq<char>>,
    method: HttpMethod,
    path: Seq<char>,
    headers: HeaderMap,
) -> FactsView {
    let host = header_text(headers, "host"@);
    let origin = header_text(headers, "origin"@);
    FactsView {
        host,
        origin,
        host_allowed: match host {
            Some(h) => host_allowed(acl, h),
            None => false,
        },
        origin_allowed: match host {
            Some(h) => origin_fits(origin) && origin_allowed(acl, origin, h),
            None => false,
        },
        headers_allowed: headers_allowed(acl, header_names(headers), cors_request_headers(headers)),
        method,
        json: announces_json(header_bytes(headers, "content-type"@)),
        health: health_path == Some(path),
        allow_headers: allow_headers_text(acl),
        echo_origin: foreign_origin(
            header_bytes(headers, "origin"@),
            header_bytes(headers, "host"@),
        ),
    }
}

/// The view of a path that may be absent.
pub open spec fn path_view(path: Option<&String>) -> Option<Seq<char>> {
    match path {
        Some(p) => Some(p@),
        None => None,
    }
}

/// Examines a request under the policy `acl`.
pub fn examine(
    acl: &AccessControl,
    health_path: Option<&String>,
    method: HttpMethod,
    path: &String,
    headers: &HeaderMap,
) -> (facts: Facts)
    ensures
        facts@ == findings(*acl, path_view(health_path), method, path@, *headers),
{
    let host = read_header_value(headers, "host");
    let origin = read_header_value(headers, "origin");
    let short = match &origin {
        Some(o) => o.as_str().unicode_len() <= MAX_ORIGIN_LEN,
        None => true,
    };
    let (host_allowed, origin_allowed) = match &host {
        Some(h) => (
            verify_host(acl, h.as_str()),
            short && verify_origin(acl, &origin, h.as_str()),
        ),
        None => (false, false),
    };
    let names = read_header_names(headers);
    let requested = read_cors_request_headers(headers);
    let headers_allowed = verify_headers(acl, &names, &requested);
    let health = match health_path {
        Some(p) => *p == *path,
        None => false,
    };
    Facts {
        host,
        origin,
        host_allowed,
        origin_allowed,
        headers_allowed,
        method,
        json: content_type_is_json(headers),
        health,
        allow_headers: allow_headers_value(acl),
        echo_origin: return_origin_if_different_from_host(headers),
    }
}

/// Routes a request: examines it, then decides where it goes.
pub fn route(
    acl: &AccessControl,
    health_path: Option<&String>,
    method: HttpMethod,
    path: &String,
    headers: &HeaderMap,
) -> (route: Route)
    ensures
        route@ == decision(findings(*acl, path_view(health_path), method, path@, *headers)),
{
    decide(examine(acl, health_path, method, path, headers))
}

} // verus!
