//! The JSON-RPC state machine: from the body of a request to the reply.
//!
//! A body is classified, its calls are dispatched one by one, and their
//! answers are collected. What a synchronous handler answers is known when it
//! returns. An asynchronous handler returns a future; running it is left to
//! the caller, who hands the answer back.
//!
//! A handler is given the identifier of its call, the raw parameters and the
//! greatest size that its answer may have. It is not given the path of the
//! request: the parameters that a handler takes hold the raw JSON alone, so
//! there is no place in them for a path, and methods cannot tell requests
//! apart by it.

use crate::envelope::{
    batch_text, collect_batch_response, error_response, response_views, texts, MethodResponse,
    MethodResponseView,
};
use crate::error::ErrorCode;
use crate::ident::{Id, IdView};
use crate::middleware::Middleware;
use crate::health::result_field;
use crate::registry::{
    call_sync, can_answer, claim, fits, kind, kind_of, lookup, method_named, MethodKind,
};
use crate::request::{
    classification, classify, request_views, Payload, PayloadView, Request, RequestView,
};
use crate::response::{
    internal_error, internal_error_view, malformed, malformed_view, ok_response, ok_view,
    too_large, too_large_view, HttpReply,
};
use jsonrpsee_core::server::resource_limiting::{ResourceGuard, Resources};
use jsonrpsee_core::server::rpc_module::{MethodCallback, Methods};
use vstd::prelude::*;

verus! {

/// The limits and switches of a server.
#[derive(Debug, Clone, Copy, PartialEq, Eq)]
pub struct Settings {
    /// The greatest length of a request body, in bytes.
    pub max_request_body_size: u32,
    /// The greatest length of the answer to one call, in bytes.
    pub max_response_body_size: u32,
    /// The greatest length of a logged message.
    pub max_log_length: u32,
    /// Whether batches are served.
    pub batch_requests_supported: bool,
}

/// The mathematical value of a [`BodyOutcome`].
pub enum BodyOutcomeView {
    Read { body: Seq<u8>, single: bool },
    TooLarge,
    Malformed,
    Transport,
}

/// How reading the body of a request ended.
#[derive(Debug, Clone, PartialEq, Eq)]
pub enum BodyOutcome {
    /// The body was read. `single` says that it starts as a JSON object;
    /// otherwise it is taken for an array.
    Read { body: Vec<u8>, single: bool },
    /// The body is longer than the server accepts.
    TooLarge,
    /// There is no body, or it starts as neither object nor array.
    Malformed,
    /// The transport failed.
    Transport,
}

impl View for BodyOutcome {
    type V = BodyOutcomeView;

    open spec fn view(&self) -> BodyOutcomeView {
        match self {
            BodyOutcome::Read { body, single } => BodyOutcomeView::Read {
                body: body@,
                single: *single,
            },
            BodyOutcome::TooLarge => BodyOutcomeView::TooLarge,
            BodyOutcome::Malformed => BodyOutcomeView::Malformed,
            BodyOutcome::Transport => BodyOutcomeView::Transport,
        }
    }
}

/// What is to be done with one call.
#[derive(Debug, Clone, Copy, PartialEq, Eq, Structural)]
pub enum Plan {
    /// Answer with this error; no handler runs.
    Answer(ErrorCode),
    /// Run the synchronous handler.
    RunSync,
    /// Run the asynchronous handler.
    RunAsync,
}

/// What is to be done with a call, given the kind of the method that its
/// name finds, if any, and whether its resources could be claimed. A method
/// that is not there is not found; a subscription cannot be served; a
/// handler runs only with its resources claimed.
pub open spec fn planned(kind: Option<MethodKind>, claimed: bool) -> Plan {
    match kind {
        None => Plan::Answer(ErrorCode::MethodNotFound),
        Some(MethodKind::Sync) => if claimed {
            Plan::RunSync
        } else {
            Plan::Answer(ErrorCode::ServerIsBusy)
        },
        Some(MethodKind::Async) => if claimed {
            Plan::RunAsync
        } else {
            Plan::Answer(ErrorCode::ServerIsBusy)
        },
        Some(_) => Plan::Answer(ErrorCode::InternalError),
    }
}

/// Decides what is to be done with a call.
pub fn resolve(kind: Option<MethodKind>, claimed: bool) -> (plan: Plan)
    ensures
        plan == planned(kind, claimed),
{
    match kind {
        None => Plan::Answer(ErrorCode::MethodNotFound),
        Some(MethodKind::Sync) => {
            if claimed {
                Plan::RunSync
            } else {
                Plan::Answer(ErrorCode::ServerIsBusy)
            }
        },
        Some(MethodKind::Async) => {
            if claimed {
                Plan::RunAsync
            } else {
                Plan::Answer(ErrorCode::ServerIsBusy)
            }
        },
        Some(_) => Plan::Answer(ErrorCode::InternalError),
    }
}

/// The mathematical value of an [`AsyncCall`].
pub struct AsyncCallView {
    pub call: RequestView,
    pub guard: Option<ResourceGuard>,
}

/// A call of an asynchronous method that is ready to run. Where its
/// resources were claimed, they are held in `guard` until the handler has
/// answered.
#[derive(Debug)]
pub struct AsyncCall {
    pub id: Id,
    pub method: String,
    pub params: Option<String>,
    pub guard: Option<ResourceGuard>,
}

impl View for AsyncCall {
    type V = AsyncCallView;

    open spec fn view(&self) -> AsyncCallView {
        AsyncCallView {
            call: RequestView {
                id: self.id@,
                method: self.method@,
                params: match self.params {
                    Some(p) => Some(p@),
                    None => None,
                },
            },
            guard: self.guard,
        }
    }
}

/// The calls that a list of calls ready to run stands for.
pub open spec fn call_views(calls: Seq<AsyncCall>) -> Seq<RequestView> {
    Seq::new(calls.len(), |i: int| calls[i]@.call)
}

/// Each of the calls holds the resources that were claimed for it.
pub open spec fn all_claimed(calls: Seq<AsyncCall>) -> bool {
    forall|i: int| 0 <= i < calls.len() ==> (#[trigger] calls[i]).guard.is_some()
}

/// How far the dispatch of one call got.
#[derive(Debug)]
pub enum Started {
    /// The call is answered.
    Done(MethodResponse),
    /// The call waits for its asynchronous handler to be run.
    Pending(AsyncCall),
}

/// `out` is what becomes of `call`, once its method is found and the claim
/// of its resources has given `guard`. It follows the plan: an error under
/// the identifier of the call; or an answer that the synchronous handler
/// can give to the identifier and the parameters of the call, with `limit`
/// as the greatest size of its answer; or the call itself, ready to run,
/// with the guard in its hand.
pub open spec fn claimed_outcome(
    call: RequestView,
    callback: MethodCallback,
    guard: Option<ResourceGuard>,
    limit: u32,
    out: Started,
) -> bool {
    match planned(Some(kind_of(callback)), guard.is_some()) {
        Plan::Answer(code) => out matches Started::Done(response) && response@ == error_response(
            call.id,
            code,
        ),
        Plan::RunSync => out matches Started::Done(response) && can_answer(
            callback,
            call.id,
            call.params,
            limit,
            response@,
        ),
        Plan::RunAsync => out matches Started::Pending(pending) && pending@ == (AsyncCallView {
            call,
            guard,
        }),
    }
}

/// Carries out the plan for a call whose method is found, with what the
/// claim of its resources has given. A synchronous handler runs here, with
/// the guard held until its answer is in; a call of an asynchronous method
/// is handed out with the guard.
pub fn run_claimed(
    request: Request,
    callback: &MethodCallback,
    guard: Option<ResourceGuard>,
    max_response_body_size: u32,
) -> (out: Started)
    ensures
        claimed_outcome(request@, *callback, guard, max_response_body_size, out),
{
    match resolve(Some(kind(callback)), guard.is_some()) {
        Plan::Answer(code) => Started::Done(MethodResponse::error(&request.id, code)),
        Plan::RunSync => {
            match call_sync(callback, &request.id, &request.params, max_response_body_size) {
                Some(response) => Started::Done(response),
                None => Started::Done(MethodResponse::error(&request.id, ErrorCode::InternalError)),
            }
        },
        Plan::RunAsync => Started::Pending(
            AsyncCall { id: request.id, method: request.method, params: request.params, guard },
        ),
    }
}

/// `response` may answer a call whose name finds `callback`, before any
/// asynchronous handler has run. Where no handler runs, the answer is the
/// error under the call's own identifier. Where a synchronous handler runs,
/// the answer is one that it can give to the identifier and the parameters
/// of the call, with `limit` as the greatest size of its answer; it does
/// not run where the method claims more than the server has.
pub open spec fn immediate_for(
    call: RequestView,
    callback: Option<MethodCallback>,
    resources: Resources,
    limit: u32,
    response: MethodResponseView,
) -> bool {
    match callback {
        None => response == error_response(call.id, ErrorCode::MethodNotFound),
        Some(callback) => match kind_of(callback) {
            MethodKind::Sync => {
                ||| response == error_response(call.id, ErrorCode::ServerIsBusy)
                ||| fits(callback, resources) && can_answer(
                    callback,
                    call.id,
                    call.params,
                    limit,
                    response,
                )
            },
            MethodKind::Async => response == error_response(call.id, ErrorCode::ServerIsBusy),
            _ => response == error_response(call.id, ErrorCode::InternalError),
        },
    }
}

/// `response` may answer `call` before any asynchronous handler has run.
pub open spec fn immediate(
    call: RequestView,
    methods: Methods,
    resources: Resources,
    limit: u32,
    response: MethodResponseView,
) -> bool {
    immediate_for(call, method_named(methods, call.method), resources, limit, response)
}

/// A call whose name finds `callback` may have to wait for an asynchronous
/// handler: the method is asynchronous and claims no more than the server
/// has.
pub open spec fn may_wait_for(callback: Option<MethodCallback>, resources: Resources) -> bool {
    match callback {
        Some(callback) => kind_of(callback) == MethodKind::Async && fits(callback, resources),
        None => false,
    }
}

/// `call` may have to wait for an asynchronous handler.
pub open spec fn may_wait(call: RequestView, methods: Methods, resources: Resources) -> bool {
    may_wait_for(method_named(methods, call.method), resources)
}

/// `out` is a way in which the dispatch of a call whose name finds
/// `callback` may end: with an answer, or with the call ready to run and
/// its resources claimed.
pub open spec fn started_for(
    call: RequestView,
    callback: Option<MethodCallback>,
    resources: Resources,
    limit: u32,
    out: Started,
) -> bool {
    match out {
        Started::Done(response) => immediate_for(call, callback, resources, limit, response@),
        Started::Pending(pending) => {
            &&& pending@.call == call
            &&& pending.guard.is_some()
            &&& may_wait_for(callback, resources)
        },
    }
}

/// `out` is a way in which the dispatch of `call` may end.
pub open spec fn started(
    call: RequestView,
    methods: Methods,
    resources: Resources,
    limit: u32,
    out: Started,
) -> bool {
    started_for(call, method_named(methods, call.method), resources, limit, out)
}

/// Dispatches a call whose method is found: claims the resources of the
/// method where it has a handler to run, then carries out the plan.
pub fn dispatch(
    request: Request,
    callback: &MethodCallback,
    resources: &Resources,
    max_response_body_size: u32,
) -> (out: Started)
    ensures
        started_for(request@, Some(*callback), *resources, max_response_body_size, out),
{
    let guard = match kind(callback) {
        MethodKind::Sync | MethodKind::Async => claim(
            callback,
            request.method.as_str(),
            resources,
        ),
        _ => None,
    };
    run_claimed(request, callback, guard, max_response_body_size)
}

/// Dispatches one call: looks the method up, claims its resources and, where
/// the method is synchronous, runs its handler. A call that cannot be served
/// is answered with an error under its own identifier.
pub fn execute_call(
    request: Request,
    methods: &Methods,
    resources: &Resources,
    max_response_body_size: u32,
) -> (out: Started)
    ensures
        started(request@, *methods, *resources, max_response_body_size, out),
{
    match lookup(methods, request.method.as_str()) {
        None => Started::Done(MethodResponse::error(&request.id, ErrorCode::MethodNotFound)),
        Some(callback) => dispatch(request, callback, resources, max_response_body_size),
    }
}

/// `answered` and `waiting` are what the dispatch of `calls`, one after the
/// other, may leave: each call has either its answer in `answered` or its
/// place in `waiting`, and both keep the order of the calls.
pub open spec fn dispatched(
    calls: Seq<RequestView>,
    methods: Methods,
    resources: Resources,
    limit: u32,
    answered: Seq<MethodResponseView>,
    waiting: Seq<RequestView>,
) -> bool
    decreases calls.len(),
{
    if calls.len() == 0 {
        answered.len() == 0 && waiting.len() == 0
    } else {
        ||| {
            &&& answered.len() > 0
            &&& immediate(calls.last(), methods, resources, limit, answered.last())
            &&& dispatched(
                calls.drop_last(),
                methods,
                resources,
                limit,
                answered.drop_last(),
                waiting,
            )
        }
        ||| {
            &&& waiting.len() > 0
            &&& waiting.last() == calls.last()
            &&& may_wait(calls.last(), methods, resources)
            &&& dispatched(
                calls.drop_last(),
                methods,
                resources,
                limit,
                answered,
                waiting.drop_last(),
            )
        }
    }
}

/// The dispatch leaves one slot for each call: an answer, or a place among
/// those that wait.
pub proof fn lemma_one_slot_per_call(
    calls: Seq<RequestView>,
    methods: Methods,
    resources: Resources,
    limit: u32,
    answered: Seq<MethodResponseView>,
    waiting: Seq<RequestView>,
)
    requires
        dispatched(calls, methods, resources, limit, answered, waiting),
    ensures
        answered.len() + waiting.len() == calls.len(),
    decreases calls.len(),
{
    if calls.len() > 0 {
        if answered.len() > 0 && immediate(
            calls.last(),
            methods,
            resources,
            limit,
            answered.last(),
        ) && dispatched(
            calls.drop_last(),
            methods,
            resources,
            limit,
            answered.drop_last(),
            waiting,
        ) {
            lemma_one_slot_per_call(
                calls.drop_last(),
                methods,
                resources,
                limit,
                answered.drop_last(),
                waiting,
            );
        } else {
            lemma_one_slot_per_call(
                calls.drop_last(),
                methods,
                resources,
                limit,
                answered,
                waiting.drop_last(),
            );
        }
    }
}

/// Once each call that waited has its answer, the array of a batch holds
/// exactly one envelope for each call.
pub proof fn lemma_one_envelope_per_call(
    calls: Seq<RequestView>,
    methods: Methods,
    resources: Resources,
    limit: u32,
    answered: Seq<MethodResponseView>,
    waiting: Seq<RequestView>,
    later: Seq<MethodResponseView>,
)
    requires
        dispatched(calls, methods, resources, limit, answered, waiting),
        later.len() == waiting.len(),
    ensures
        texts(answered + later).len() == calls.len(),
{
    lemma_one_slot_per_call(calls, methods, resources, limit, answered, waiting);
}

/// A call of a method that is not there is answered, under the identifier
/// of the call, with the error that the method was not found.
pub proof fn lemma_unknown_method_keeps_the_id(
    call: RequestView,
    methods: Methods,
    resources: Resources,
    limit: u32,
    out: Started,
)
    requires
        started(call, methods, resources, limit, out),
        method_named(methods, call.method).is_none(),
    ensures
        out matches Started::Done(response) && response@ == error_response(
            call.id,
            ErrorCode::MethodNotFound,
        ),
{
}

/// A call of a method that opens or closes a subscription is answered, under
/// the identifier of the call, with an internal error.
pub proof fn lemma_subscription_keeps_the_id(
    call: RequestView,
    methods: Methods,
    resources: Resources,
    limit: u32,
    out: Started,
)
    requires
        started(call, methods, resources, limit, out),
        method_named(methods, call.method) matches Some(callback) && (kind_of(callback)
            == MethodKind::Subscription || kind_of(callback) == MethodKind::Unsubscription),
    ensures
        out matches Started::Done(response) && response@ == error_response(
            call.id,
            ErrorCode::InternalError,
        ),
{
}

/// A call of a method that claims more of a resource than the server has is
/// never run: it is answered at once, under its own identifier, with the
/// error that says that the server is busy.
pub proof fn lemma_excess_claim_is_refused(
    call: RequestView,
    methods: Methods,
    resources: Resources,
    limit: u32,
    out: Started,
)
    requires
        started(call, methods, resources, limit, out),
        method_named(methods, call.method) matches Some(callback) && (kind_of(callback)
            == MethodKind::Sync || kind_of(callback) == MethodKind::Async) && !fits(
            callback,
            resources,
        ),
    ensures
        out matches Started::Done(response) && response@ == error_response(
            call.id,
            ErrorCode::ServerIsBusy,
        ),
{
}

/// A call of a synchronous method whose resources were claimed gets one
/// answer, and that is an answer of the handler to the identifier and the
/// parameters of this very call.
pub proof fn lemma_claimed_call_is_answered_by_its_handler(
    call: RequestView,
    callback: MethodCallback,
    guard: Option<ResourceGuard>,
    limit: u32,
    out: Started,
)
    requires
        claimed_outcome(call, callback, guard, limit, out),
        kind_of(callback) == MethodKind::Sync,
        guard.is_some(),
    ensures
        out matches Started::Done(response) && can_answer(
            callback,
            call.id,
            call.params,
            limit,
            response@,
        ),
{
}

/// A call of an asynchronous method whose resources were claimed is handed
/// out once, as it came in and with the guard that holds its resources.
pub proof fn lemma_claimed_call_waits_with_its_guard(
    call: RequestView,
    callback: MethodCallback,
    guard: Option<ResourceGuard>,
    limit: u32,
    out: Started,
)
    requires
        claimed_outcome(call, callback, guard, limit, out),
        kind_of(callback) == MethodKind::Async,
        guard.is_some(),
    ensures
        out matches Started::Pending(pending) && pending@.call == call && pending.guard == guard,
{
}

/// A call whose resources could not be claimed is answered, under its own
/// identifier, with the error that the server is busy, and no handler runs.
pub proof fn lemma_unclaimed_call_is_busy(
    call: RequestView,
    callback: MethodCallback,
    guard: Option<ResourceGuard>,
    limit: u32,
    out: Started,
)
    requires
        claimed_outcome(call, callback, guard, limit, out),
        kind_of(callback) == MethodKind::Sync || kind_of(callback) == MethodKind::Async,
        guard.is_none(),
    ensures
        out matches Started::Done(response) && response@ == error_response(
            call.id,
            ErrorCode::ServerIsBusy,
        ),
{
}

/// The handler of the method gives the same result to every call with the
/// parameters `params`, whatever the identifier of the call.
pub open spec fn pure_for(callback: MethodCallback, params: Option<Seq<char>>, limit: u32) -> bool {
    forall|a: IdView, b: IdView, first: MethodResponseView, second: MethodResponseView|
        #![trigger can_answer(callback, a, params, limit, first), can_answer(callback, b, params, limit, second)]
        can_answer(callback, a, params, limit, first) && can_answer(
            callback,
            b,
            params,
            limit,
            second,
        ) ==> result_field(first.result) == result_field(second.result)
}

/// The handler of the method has but one answer to a call with the
/// identifier `id` and the parameters `params`.
pub open spec fn single_valued_for(
    callback: MethodCallback,
    id: IdView,
    params: Option<Seq<char>>,
    limit: u32,
) -> bool {
    forall|first: MethodResponseView, second: MethodResponseView|
        #![trigger can_answer(callback, id, params, limit, first), can_answer(callback, id, params, limit, second)]
        can_answer(callback, id, params, limit, first) && can_answer(
            callback,
            id,
            params,
            limit,
            second,
        ) ==> first == second
}

/// Two calls of a synchronous method with the same parameters, the
/// resources claimed for both, are answered with the same result, where the
/// handler of the method gives the same result to every call with these
/// parameters. Nothing of the first call reaches the second.
pub proof fn lemma_equal_calls_have_equal_results(
    first_call: RequestView,
    second_call: RequestView,
    callback: MethodCallback,
    first_guard: Option<ResourceGuard>,
    second_guard: Option<ResourceGuard>,
    limit: u32,
    first: Started,
    second: Started,
)
    requires
        first_call.params == second_call.params,
        kind_of(callback) == MethodKind::Sync,
        pure_for(callback, first_call.params, limit),
        first_guard.is_some(),
        second_guard.is_some(),
        claimed_outcome(first_call, callback, first_guard, limit, first),
        claimed_outcome(second_call, callback, second_guard, limit, second),
    ensures
        first matches Started::Done(a) && second matches Started::Done(b) && result_field(
            a.result@,
        ) == result_field(b.result@),
{
    let a = first->Done_0;
    let b = second->Done_0;
    assert(can_answer(callback, first_call.id, first_call.params, limit, a@));
    assert(can_answer(callback, second_call.id, first_call.params, limit, b@));
}

/// Two calls of a synchronous method with the same identifier and the same
/// parameters, the resources claimed for both, get the same answer, byte
/// for byte, where the handler has but one answer to such a call.
pub proof fn lemma_equal_calls_have_equal_answers(
    call: RequestView,
    callback: MethodCallback,
    first_guard: Option<ResourceGuard>,
    second_guard: Option<ResourceGuard>,
    limit: u32,
    first: Started,
    second: Started,
)
    requires
        kind_of(callback) == MethodKind::Sync,
        single_valued_for(callback, call.id, call.params, limit),
        first_guard.is_some(),
        second_guard.is_some(),
        claimed_outcome(call, callback, first_guard, limit, first),
        claimed_outcome(call, callback, second_guard, limit, second),
    ensures
        first matches Started::Done(a) && second matches Started::Done(b) && a@ == b@,
{
    let a = first->Done_0;
    let b = second->Done_0;
    assert(can_answer(callback, call.id, call.params, limit, a@));
    assert(can_answer(callback, call.id, call.params, limit, b@));
}

/// The answers to the calls of one request, while some of them are still
/// awaited.
#[derive(Debug)]
pub struct Exchange<I> {
    started_at: I,
    single: bool,
    responses: Vec<MethodResponse>,
    outstanding: usize,
}

impl<I> Exchange<I> {
    #[verifier::type_invariant]
    spec fn well_formed(self) -> bool {
        self.single ==> self.responses.len() + self.outstanding == 1
    }

    /// The request is one call, not a batch.
    pub closed spec fn single(self) -> bool {
        self.single
    }

    /// The answers that are in, in the order in which they came.
    pub closed spec fn answered(self) -> Seq<MethodResponseView> {
        response_views(self.responses@)
    }

    /// The number of calls whose answers are still awaited.
    pub closed spec fn waiting(self) -> nat {
        self.outstanding as nat
    }

    /// The body of the reply, once every answer is in: the one envelope of a
    /// single call, or the array of the envelopes of a batch.
    pub open spec fn body(self) -> Seq<char> {
        if self.single() {
            self.answered()[0].result
        } else {
            batch_text(texts(self.answered()))
        }
    }
}

impl<I: Copy> Exchange<I> {
    /// The number of calls whose answers are still awaited.
    pub fn outstanding(&self) -> (n: usize)
        ensures
            n == self.waiting(),
    {
        self.outstanding
    }

    /// Takes in the answer of an asynchronous handler to a call of `method`.
    /// Where no answer is awaited, nothing changes.
    pub fn complete<M: Middleware<Instant = I>>(
        self,
        middleware: &M,
        method: &str,
        response: MethodResponse,
    ) -> (out: Self)
        ensures
            out.single() == self.single(),
            self.waiting() > 0 ==> out.waiting() == self.waiting() - 1 && out.answered()
                == self.answered().push(response@),
            self.waiting() == 0 ==> out == self,
    {
        proof {
            use_type_invariant(&self);
        }
        if self.outstanding == 0 {
            return self;
        }
        middleware.on_result(method, response.success, self.started_at);
        let mut responses = self.responses;
        responses.push(response);
        Exchange {
            started_at: self.started_at,
            single: self.single,
            responses,
            outstanding: self.outstanding - 1,
        }
    }

    /// Makes the reply, once every answer is in. While an answer is awaited
    /// there is no reply, and the exchange is handed back as it is.
    pub fn finish<M: Middleware<Instant = I>>(self, middleware: &M) -> (out: Result<
        HttpReply,
        Self,
    >)
        ensures
            match out {
                Ok(reply) => self.waiting() == 0 && reply@ == ok_view(self.body()),
                Err(same) => self.waiting() > 0 && same == self,
            },
            self.single() ==> self.answered().len() + self.waiting() == 1,
    {
        proof {
            use_type_invariant(&self);
        }
        if self.outstanding > 0 {
            return Err(self);
        }
        middleware.on_response(self.started_at);
        if self.single {
            let mut responses = self.responses;
            let only = responses.pop().unwrap();
            Ok(ok_response(only.result))
        } else {
            Ok(ok_response(collect_batch_response(&self.responses)))
        }
    }
}

/// How far the processing of a request got.
#[derive(Debug)]
pub enum Progress<I> {
    /// The reply is ready.
    Reply(HttpReply),
    /// The calls in the list wait for their asynchronous handlers. Each is to
    /// be run, and its answer handed to [`Exchange::complete`]; then
    /// [`Exchange::finish`] makes the reply.
    Waiting(Exchange<I>, Vec<AsyncCall>),
}

/// `progress` is a way in which the processing of one call may end: with
/// the reply that holds its one answer, or waiting for its handler.
pub open spec fn call_progress<I>(
    call: RequestView,
    methods: Methods,
    resources: Resources,
    limit: u32,
    progress: Progress<I>,
) -> bool {
    match progress {
        Progress::Reply(reply) => exists|response: MethodResponseView|
            #[trigger] immediate(call, methods, resources, limit, response) && reply@
                == ok_view(response.result),
        Progress::Waiting(exchange, pending) => {
            &&& exchange.single()
            &&& exchange.answered().len() == 0
            &&& exchange.waiting() == 1
            &&& call_views(pending@) == seq![call]
            &&& all_claimed(pending@)
            &&& may_wait(call, methods, resources)
        },
    }
}

/// `progress` is a way in which the processing of a batch may end: with the
/// reply that holds the answers to all its calls in their order, or waiting
/// for the handlers of some.
pub open spec fn batch_progress<I>(
    calls: Seq<RequestView>,
    methods: Methods,
    resources: Resources,
    limit: u32,
    progress: Progress<I>,
) -> bool {
    match progress {
        Progress::Reply(reply) => exists|answers: Seq<MethodResponseView>|
            #[trigger] dispatched(calls, methods, resources, limit, answers, Seq::empty())
                && reply@ == ok_view(batch_text(texts(answers))),
        Progress::Waiting(exchange, pending) => {
            &&& !exchange.single()
            &&& pending.len() > 0
            &&& exchange.waiting() == pending.len()
            &&& all_claimed(pending@)
            &&& dispatched(
                calls,
                methods,
                resources,
                limit,
                exchange.answered(),
                call_views(pending@),
            )
        },
    }
}

/// `progress` is a way in which the processing of a request may end.
///
/// A body that could not be read is answered with the matching HTTP error.
/// Notifications are answered with an empty body. A body that is no request
/// is answered with one error envelope, and so is a batch where batches are
/// switched off. A call or a batch is dispatched.
pub open spec fn processed<I>(
    outcome: BodyOutcomeView,
    methods: Methods,
    resources: Resources,
    settings: Settings,
    progress: Progress<I>,
) -> bool {
    match outcome {
        BodyOutcomeView::TooLarge => progress matches Progress::Reply(reply) && reply@
            == too_large_view(settings.max_request_body_size),
        BodyOutcomeView::Malformed => progress matches Progress::Reply(reply) && reply@
            == malformed_view(),
        BodyOutcomeView::Transport => progress matches Progress::Reply(reply) && reply@
            == internal_error_view(),
        BodyOutcomeView::Read { body, single } => match classification(body, single) {
            PayloadView::Notification => progress matches Progress::Reply(reply) && reply@
                == ok_view(Seq::empty()),
            PayloadView::Rejected(id, code) => progress matches Progress::Reply(reply) && reply@
                == ok_view(error_response(id, code).result),
            PayloadView::Call(call) => call_progress(
                call,
                methods,
                resources,
                settings.max_response_body_size,
                progress,
            ),
            PayloadView::Batch(calls) => if settings.batch_requests_supported {
                batch_progress(
                    calls,
                    methods,
                    resources,
                    settings.max_response_body_size,
                    progress,
                )
            } else {
                progress matches Progress::Reply(reply) && reply@ == ok_view(
                    error_response(IdView::Null, ErrorCode::BatchesNotSupported).result,
                )
            },
        },
    }
}

/// Processes one call.
fn process_call<M: Middleware>(
    call: Request,
    middleware: &M,
    methods: &Methods,
    resources: &Resources,
    settings: &Settings,
    started_at: M::Instant,
) -> (progress: Progress<M::Instant>)
    ensures
        call_progress(
            call@,
            *methods,
            *resources,
            settings.max_response_body_size,
            progress,
        ),
{
    let name = call.method.clone();
    middleware.on_call(name.as_str());
    match execute_call(call, methods, resources, settings.max_response_body_size) {
        Started::Done(response) => {
            middleware.on_result(name.as_str(), response.success, started_at);
            middleware.on_response(started_at);
            let ghost answer = response@;
            let reply = ok_response(response.result);
            assert(immediate(
                call@,
                *methods,
                *resources,
                settings.max_response_body_size,
                answer,
            ) && reply@ == ok_view(answer.result));
            Progress::Reply(reply)
        },
        Started::Pending(pending) => {
            let mut waiting: Vec<AsyncCall> = Vec::new();
            waiting.push(pending);
            assert(call_views(waiting@) == seq![call@]);
            Progress::Waiting(
                Exchange { started_at, single: true, responses: Vec::new(), outstanding: 1 },
                waiting,
            )
        },
    }
}

/// Processes the calls of a batch, one after the other.
fn process_batch<M: Middleware>(
    calls: Vec<Request>,
    middleware: &M,
    methods: &Methods,
    resources: &Resources,
    settings: &Settings,
    started_at: M::Instant,
) -> (progress: Progress<M::Instant>)
    ensures
        batch_progress(
            request_views(calls@),
            *methods,
            *resources,
            settings.max_response_body_size,
            progress,
        ),
{
    let ghost all = request_views(calls@);
    let mut responses: Vec<MethodResponse> = Vec::new();
    let mut waiting: Vec<AsyncCall> = Vec::new();
    for call in it: calls.into_iter()
        invariant
            it.seq() == calls@,
            all == request_views(calls@),
            all_claimed(waiting@),
            dispatched(
                all.take(it.index() as int),
                *methods,
                *resources,
                settings.max_response_body_size,
                response_views(responses@),
                call_views(waiting@),
            ),
    {
        let ghost answered = response_views(responses@);
        let ghost queued = call_views(waiting@);
        assert(all.take(it.index() as int + 1).drop_last() == all.take(it.index() as int));
        match lookup(methods, call.method.as_str()) {
            None => {
                // The observer is not told of the answer to a call whose
                // method is not there.
                responses.push(MethodResponse::error(&call.id, ErrorCode::MethodNotFound));
                assert(response_views(responses@).drop_last() == answered);
            },
            Some(callback) => {
                let name = call.method.clone();
                match dispatch(call, callback, resources, settings.max_response_body_size) {
                    Started::Done(response) => {
                        middleware.on_result(name.as_str(), response.success, started_at);
                        responses.push(response);
                        assert(response_views(responses@).drop_last() == answered);
                    },
                    Started::Pending(pending) => {
                        waiting.push(pending);
                        assert(call_views(waiting@).drop_last() == queued);
                    },
                }
            },
        }
    }
    assert(all.take(calls@.len() as int) == all);
    if waiting.len() == 0 {
        middleware.on_response(started_at);
        let ghost answers = response_views(responses@);
        assert(call_views(waiting@) == Seq::<RequestView>::empty());
        let reply = ok_response(collect_batch_response(&responses));
        assert(dispatched(
            all,
            *methods,
            *resources,
            settings.max_response_body_size,
            answers,
            Seq::empty(),
        ) && reply@ == ok_view(batch_text(texts(answers))));
        Progress::Reply(reply)
    } else {
        let outstanding = waiting.len();
        Progress::Waiting(
            Exchange { started_at, single: false, responses, outstanding },
            waiting,
        )
    }
}

/// Processes the body of a request that was admitted.
///
/// The reply is ready at once unless a call is to an asynchronous method:
/// then the calls that wait are handed out with the exchange that collects
/// their answers.
///
/// The observer is told of the request once its body is read, of a single
/// call before it is dispatched, of each answer, and of the reply before it
/// is handed out. It is not told of the reply to notifications, nor of the
/// answer to a call in a batch whose method is not there.
pub fn process_validated_request<M: Middleware>(
    outcome: BodyOutcome,
    middleware: &M,
    methods: &Methods,
    resources: &Resources,
    settings: &Settings,
) -> (progress: Progress<M::Instant>)
    ensures
        processed(outcome@, *methods, *resources, *settings, progress),
{
    let (body, single) = match outcome {
        BodyOutcome::Read { body, single } => (body, single),
        BodyOutcome::TooLarge => {
            return Progress::Reply(too_large(settings.max_request_body_size));
        },
        BodyOutcome::Malformed => {
            return Progress::Reply(malformed());
        },
        BodyOutcome::Transport => {
            return Progress::Reply(internal_error());
        },
    };
    let started_at = middleware.on_request();
    match classify(body.as_slice(), single) {
        Payload::Call(call) => process_call(
            call,
            middleware,
            methods,
            resources,
            settings,
            started_at,
        ),
        Payload::Notification => Progress::Reply(ok_response(String::new())),
        Payload::Rejected(id, code) => {
            let answer = MethodResponse::error(&id, code);
            middleware.on_response(started_at);
            Progress::Reply(ok_response(answer.result))
        },
        Payload::Batch(calls) => {
            if settings.batch_requests_supported {
                process_batch(calls, middleware, methods, resources, settings, started_at)
            } else {
                let answer = MethodResponse::error(&Id::Null, ErrorCode::BatchesNotSupported);
                middleware.on_response(started_at);
                Progress::Reply(ok_response(answer.result))
            }
        },
    }
}

} // verus!
