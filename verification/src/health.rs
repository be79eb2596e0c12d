//! The health endpoint: a GET path that stands for one call without
//! parameters.

use crate::envelope::{MethodResponse, MethodResponseView};
use crate::headers::text_view;
use crate::ident::{Id, IdView};
use crate::middleware::Middleware;
use crate::processor::AsyncCall;
use crate::registry::{
    call_sync, can_answer, kind, kind_of, lookup, method_named, MethodKind,
};
use crate::request::RequestView;
use crate::response::{
    internal_error, internal_error_view, ok_response, ok_view, HttpReply, HttpReplyView,
};
use jsonrpsee_core::server::rpc_module::Methods;
use vstd::prelude::*;

verus! {

/// Where the health endpoint is, and which method it calls.
#[derive(Debug, Clone, PartialEq, Eq)]
pub struct HealthApi {
    /// The path of the endpoint. It starts with `/`.
    pub path: String,
    /// The name of the method that is called.
    pub method: String,
}

/// The raw JSON of the `result` field of `envelope`, where `envelope` is a
/// successful JSON-RPC response object.
pub uninterp spec fn result_field(envelope: Seq<char>) -> Option<Seq<char>>;

/// Calls `serde_json::from_str` for a `jsonrpsee_types::Response` with a raw
/// result and copies the text of the result. What it yields depends on the
/// text alone; the contract only names it.
#[verifier::external_body]
pub(crate) fn extract_result(envelope: &str) -> (out: Option<String>)
    ensures
        text_view(out) == result_field(envelope@),
{
    match serde_json::from_str::<jsonrpsee_types::Response<&serde_json::value::RawValue>>(envelope) {
        Ok(response) => Some(response.result.get().to_string()),
        Err(_) => None,
    }
}

/// The reply of the health endpoint, given whether the call succeeded and
/// what the result field of its answer holds: the result with status 200
/// where there is one and the call succeeded, else status 500.
pub open spec fn health_view(success: bool, result: Option<Seq<char>>) -> HttpReplyView {
    match result {
        Some(r) => if success {
            ok_view(r)
        } else {
            internal_error_view()
        },
        None => internal_error_view(),
    }
}

/// The reply of the health endpoint to the answer `response`.
pub open spec fn health_answer(response: MethodResponseView) -> HttpReplyView {
    health_view(response.success, result_field(response.result))
}

/// Makes the reply of the health endpoint from what the call came to.
pub fn health_outcome(success: bool, result: Option<String>) -> (reply: HttpReply)
    ensures
        reply@ == health_view(success, text_view(result)),
{
    match result {
        Some(r) => {
            if success {
                ok_response(r)
            } else {
                internal_error()
            }
        },
        None => internal_error(),
    }
}

/// Makes the reply of the health endpoint from the answer to its call.
pub fn health_reply(response: &MethodResponse) -> (reply: HttpReply)
    ensures
        reply@ == health_answer(response@),
{
    if response.success {
        health_outcome(true, extract_result(response.result.as_str()))
    } else {
        internal_error()
    }
}

/// The call that the health endpoint makes: the method, under the
/// identifier 0 and without parameters.
pub open spec fn health_call(method: Seq<char>) -> RequestView {
    RequestView { id: IdView::Number(0), method, params: None }
}

/// A health check that waits for the answer of an asynchronous handler.
#[derive(Debug)]
pub struct HealthCheck<I> {
    started_at: I,
}

/// How far a health check got.
#[derive(Debug)]
pub enum HealthProgress<I> {
    /// The reply is ready.
    Reply(HttpReply),
    /// The call waits for its asynchronous handler. It is to be run, and its
    /// answer handed to [`HealthCheck::finish`].
    Waiting(HealthCheck<I>, AsyncCall),
}

/// `progress` is a way in which a health check may end. A method that is not
/// there, or that is a subscription, fails the check. What a synchronous
/// handler answers, called under the identifier 0 and without parameters,
/// decides at once; an asynchronous one is waited for. No resource is
/// claimed.
pub open spec fn health_checked<I>(
    method: Seq<char>,
    methods: Methods,
    limit: u32,
    progress: HealthProgress<I>,
) -> bool {
    match method_named(methods, method) {
        None => progress matches HealthProgress::Reply(reply) && reply@ == internal_error_view(),
        Some(callback) => match kind_of(callback) {
            MethodKind::Sync => progress matches HealthProgress::Reply(reply) && exists|
                response: MethodResponseView,
            |
                #[trigger] can_answer(callback, IdView::Number(0), None, limit, response)
                    && reply@ == health_answer(response),
            MethodKind::Async => progress matches HealthProgress::Waiting(_, call) && call@.call
                == health_call(method) && call.guard.is_none(),
            _ => progress matches HealthProgress::Reply(reply) && reply@ == internal_error_view(),
        },
    }
}

/// Serves the health endpoint: calls the method of `health` under the
/// identifier 0, without parameters and without a resource claim.
pub fn process_health_request<M: Middleware>(
    health: &HealthApi,
    middleware: &M,
    methods: &Methods,
    max_response_body_size: u32,
) -> (progress: HealthProgress<M::Instant>)
    ensures
        health_checked(health.method@, *methods, max_response_body_size, progress),
{
    let started_at = middleware.on_request();
    match lookup(methods, health.method.as_str()) {
        None => {
            middleware.on_response(started_at);
            HealthProgress::Reply(internal_error())
        },
        Some(callback) => match kind(callback) {
            MethodKind::Sync => {
                let id = Id::Number(0);
                match call_sync(callback, &id, &None, max_response_body_size) {
                    Some(response) => {
                        middleware.on_result(health.method.as_str(), response.success, started_at);
                        middleware.on_response(started_at);
                        let reply = health_reply(&response);
                        assert(can_answer(
                            *callback,
                            IdView::Number(0),
                            None,
                            max_response_body_size,
                            response@,
                        ) && reply@ == health_answer(response@));
                        HealthProgress::Reply(reply)
                    },
                    None => {
                        middleware.on_response(started_at);
                        HealthProgress::Reply(internal_error())
                    },
                }
            },
            MethodKind::Async => HealthProgress::Waiting(
                HealthCheck { started_at },
                AsyncCall {
                    id: Id::Number(0),
                    method: health.method.clone(),
                    params: None,
                    guard: None,
                },
            ),
            _ => {
                middleware.on_result(health.method.as_str(), false, started_at);
                middleware.on_response(started_at);
                HealthProgress::Reply(internal_error())
            },
        },
    }
}

impl<I: Copy> HealthCheck<I> {
    /// Makes the reply from the answer of the asynchronous handler of
    /// `method`.
    pub fn finish<M: Middleware<Instant = I>>(
        self,
        middleware: &M,
        method: &str,
        response: MethodResponse,
    ) -> (reply: HttpReply)
        ensures
            reply@ == health_answer(response@),
    {
        middleware.on_result(method, response.success, self.started_at);
        middleware.on_response(self.started_at);
        health_reply(&response)
    }
}

} // verus!
