//! Reading a body as JSON-RPC: one call, one notification, a batch, or
//! nothing that the server recognises.

use crate::error::ErrorCode;
use crate::ident::{Id, IdView};
use vstd::prelude::*;

verus! {

/// The mathematical value of a [`Request`].
pub struct RequestView {
    pub id: IdView,
    pub method: Seq<char>,
    pub params: Option<Seq<char>>,
}

/// One call: the identifier to answer under, the name of the method, and the
/// raw JSON of the parameters where the call has any.
#[derive(Debug, Clone, PartialEq, Eq)]
pub struct Request {
    pub id: Id,
    pub method: String,
    pub params: Option<String>,
}

impl View for Request {
    type V = RequestView;

    open spec fn view(&self) -> RequestView {
        RequestView {
            id: self.id@,
            method: self.method@,
            params: match self.params {
                Some(p) => Some(p@),
                None => None,
            },
        }
    }
}

/// The views of a list of calls.
pub open spec fn request_views(calls: Seq<Request>) -> Seq<RequestView> {
    Seq::new(calls.len(), |i: int| calls[i]@)
}

/// The view of a call that may be absent.
pub open spec fn request_view(call: Option<Request>) -> Option<RequestView> {
    match call {
        Some(r) => Some(r@),
        None => None,
    }
}

/// The call that `json` holds, where it is a JSON-RPC request object with an
/// identifier.
pub uninterp spec fn parsed_request(json: Seq<u8>) -> Option<RequestView>;

/// `json` is a JSON-RPC notification object. A request object is one too:
/// its identifier is passed over.
pub uninterp spec fn parsed_notification(json: Seq<u8>) -> bool;

/// The raw elements of `json`, where it is a JSON array.
pub uninterp spec fn parsed_array(json: Seq<u8>) -> Option<Seq<Seq<u8>>>;

/// The identifier and the error code to answer with where `json` is no
/// request: the identifier that `json` holds and `InvalidRequest`, or `null`
/// and `ParseError`.
pub uninterp spec fn rejection(json: Seq<u8>) -> (IdView, ErrorCode);

/// Calls `serde_json::from_slice` for a `jsonrpsee_types::Request` and copies
/// the identifier, the method name and the raw parameters. What it yields
/// depends on the bytes alone; the contract only names it.
#[verifier::external_body]
pub(crate) fn parse_request(json: &[u8]) -> (out: Option<Request>)
    ensures
        request_view(out) == parsed_request(json@),
{
    match serde_json::from_slice::<jsonrpsee_types::Request>(json) {
        Ok(r) => {
            let id = match r.id {
                jsonrpsee_types::Id::Null => Id::Null,
                jsonrpsee_types::Id::Number(n) => Id::Number(n),
                jsonrpsee_types::Id::Str(s) => Id::Str(s.to_string()),
            };
            Some(Request { id, method: r.method.to_string(), params: r.params.map(|p| p.get().to_string()) })
        },
        Err(_) => None,
    }
}

/// Calls `serde_json::from_slice` for a `jsonrpsee_types::Notification` with
/// optional raw parameters and says whether it returned `Ok`. The answer
/// depends on the bytes alone; the contract only names it.
#[verifier::external_body]
pub(crate) fn parse_notification(json: &[u8]) -> (ok: bool)
    ensures
        ok == parsed_notification(json@),
{
    serde_json::from_slice::<jsonrpsee_types::Notification<Option<&serde_json::value::RawValue>>>(json).is_ok()
}

/// The raw elements of an array that may be absent.
pub open spec fn array_view(items: Option<Vec<Vec<u8>>>) -> Option<Seq<Seq<u8>>> {
    match items {
        Some(v) => Some(Seq::new(v@.len(), |i: int| v@[i]@)),
        None => None,
    }
}

/// Calls `serde_json::from_slice` for a vector of raw values and copies the
/// bytes of each. What it yields depends on the bytes alone; the contract
/// only names it.
#[verifier::external_body]
pub(crate) fn parse_array(json: &[u8]) -> (out: Option<Vec<Vec<u8>>>)
    ensures
        array_view(out) == parsed_array(json@),
{
    match serde_json::from_slice::<Vec<&serde_json::value::RawValue>>(json) {
        Ok(items) => Some(items.iter().map(|raw| raw.get().as_bytes().to_vec()).collect()),
        Err(_) => None,
    }
}

/// Calls `jsonrpsee_core::server::helpers::prepare_error` and copies what it
/// returns. The pair depends on the bytes alone and is named by the
/// contract; the code is one of two, and `ParseError` comes with `null`.
#[verifier::external_body]
pub(crate) fn prepare_error(json: &[u8]) -> (out: (Id, ErrorCode))
    ensures
        (out.0@, out.1) == rejection(json@),
        out.1 == ErrorCode::InvalidRequest || out.1 == ErrorCode::ParseError,
        out.1 == ErrorCode::ParseError ==> out.0@ == IdView::Null,
{
    let (id, code) = jsonrpsee_core::server::helpers::prepare_error(json);
    let id = match id {
        jsonrpsee_types::Id::Null => Id::Null,
        jsonrpsee_types::Id::Number(n) => Id::Number(n),
        jsonrpsee_types::Id::Str(s) => Id::Str(s.to_string()),
    };
    match code {
        jsonrpsee_types::error::ErrorCode::InvalidRequest => (id, ErrorCode::InvalidRequest),
        _ => (id, ErrorCode::ParseError),
    }
}

/// The mathematical value of an [`Element`].
pub enum ElementView {
    Call(RequestView),
    Notification,
    Invalid,
}

/// What one JSON value is, read as JSON-RPC.
#[derive(Debug, Clone, PartialEq, Eq)]
pub enum Element {
    /// A request with an identifier: it is to be answered.
    Call(Request),
    /// A request without an identifier: it is not answered.
    Notification,
    /// Neither.
    Invalid,
}

impl View for Element {
    type V = ElementView;

    open spec fn view(&self) -> ElementView {
        match self {
            Element::Call(r) => ElementView::Call(r@),
            Element::Notification => ElementView::Notification,
            Element::Invalid => ElementView::Invalid,
        }
    }
}

/// What a JSON value is, given what the two readers made of it: a call where
/// it reads as a request, else a notification where it reads as one.
pub open spec fn element_of(call: Option<RequestView>, notification: bool) -> ElementView {
    match call {
        Some(r) => ElementView::Call(r),
        None => if notification {
            ElementView::Notification
        } else {
            ElementView::Invalid
        },
    }
}

/// What the JSON value `json` is.
pub open spec fn element_at(json: Seq<u8>) -> ElementView {
    element_of(parsed_request(json), parsed_notification(json))
}

impl Element {
    /// Tells a call, a notification and an invalid value apart, given what
    /// the two readers made of the value.
    pub fn from_parts(call: Option<Request>, notification: bool) -> (out: Element)
        ensures
            out@ == element_of(request_view(call), notification),
    {
        match call {
            Some(r) => Element::Call(r),
            None => if notification {
                Element::Notification
            } else {
                Element::Invalid
            },
        }
    }

    /// Reads one JSON value.
    pub fn read(json: &[u8]) -> (out: Element)
        ensures
            out@ == element_at(json@),
    {
        let call = parse_request(json);
        let notification = match &call {
            Some(_) => true,
            None => parse_notification(json),
        };
        let out = Element::from_parts(call, notification);
        out
    }
}

/// The calls among `elements`, in their order.
pub open spec fn calls_of(elements: Seq<ElementView>) -> Seq<RequestView>
    decreases elements.len(),
{
    if elements.len() == 0 {
        Seq::empty()
    } else {
        match elements.last() {
            ElementView::Call(r) => calls_of(elements.drop_last()).push(r),
            _ => calls_of(elements.drop_last()),
        }
    }
}

/// None of `elements` is invalid.
pub open spec fn all_valid(elements: Seq<ElementView>) -> bool {
    forall|i: int| 0 <= i < elements.len() ==> !(#[trigger] elements[i] is Invalid)
}

/// The mathematical value of a [`Sorted`].
pub enum SortedView {
    Empty,
    Unrecognised,
    Silent,
    Calls(Seq<RequestView>),
}

/// What the elements of a JSON array amount to.
#[derive(Debug, Clone, PartialEq, Eq)]
pub enum Sorted {
    /// The array has no element.
    Empty,
    /// At least one element is neither call nor notification.
    Unrecognised,
    /// Every element is a notification.
    Silent,
    /// Every element is a call or a notification; these are the calls, in
    /// their order, and there is at least one.
    Calls(Vec<Request>),
}

impl View for Sorted {
    type V = SortedView;

    open spec fn view(&self) -> SortedView {
        match self {
            Sorted::Empty => SortedView::Empty,
            Sorted::Unrecognised => SortedView::Unrecognised,
            Sorted::Silent => SortedView::Silent,
            Sorted::Calls(calls) => SortedView::Calls(request_views(calls@)),
        }
    }
}

/// What `elements` amount to.
pub open spec fn sorted(elements: Seq<ElementView>) -> SortedView {
    if elements.len() == 0 {
        SortedView::Empty
    } else if !all_valid(elements) {
        SortedView::Unrecognised
    } else if calls_of(elements).len() == 0 {
        SortedView::Silent
    } else {
        SortedView::Calls(calls_of(elements))
    }
}

/// The views of a list of elements.
pub open spec fn element_views(elements: Seq<Element>) -> Seq<ElementView> {
    Seq::new(elements.len(), |i: int| elements[i]@)
}

/// An array is free of invalid elements exactly where its front is and its
/// last element is no invalid one.
proof fn lemma_all_valid_step(elements: Seq<ElementView>)
    requires
        elements.len() > 0,
    ensures
        all_valid(elements) <==> all_valid(elements.drop_last()) && !(elements.last() is Invalid),
{
    let front = elements.drop_last();
    if all_valid(elements) {
        assert forall|i: int| 0 <= i < front.len() implies !(#[trigger] front[i] is Invalid) by {
            assert(front[i] == elements[i]);
        }
        assert(!(elements[elements.len() - 1] is Invalid));
    }
    if all_valid(front) && !(elements.last() is Invalid) {
        assert forall|i: int| 0 <= i < elements.len() implies !(#[trigger] elements[i] is Invalid) by {
            if i < front.len() {
                assert(elements[i] == front[i]);
            }
        }
    }
}

/// Sorts the elements of an array: keeps the calls, drops the notifications,
/// and gives the array up where an element is neither.
pub fn sort_elements(elements: Vec<Element>) -> (out: Sorted)
    ensures
        out@ == sorted(element_views(elements@)),
{
    let ghost all = element_views(elements@);
    if elements.len() == 0 {
        return Sorted::Empty;
    }
    let mut calls: Vec<Request> = Vec::new();
    let mut valid = true;
    for element in it: elements.into_iter()
        invariant
            it.seq() == elements@,
            all == element_views(elements@),
            valid == all_valid(all.take(it.index() as int)),
            valid ==> request_views(calls@) == calls_of(all.take(it.index() as int)),
    {
        proof {
            let next = all.take(it.index() as int + 1);
            assert(next.drop_last() == all.take(it.index() as int));
            assert(next.last() == element@);
            lemma_all_valid_step(next);
        }
        match element {
            Element::Call(call) => {
                if valid {
                    let ghost kept = request_views(calls@);
                    calls.push(call);
                    assert(request_views(calls@) == kept.push(call@));
                }
            },
            Element::Notification => {},
            Element::Invalid => {
                valid = false;
            },
        }
    }
    assert(all.take(elements@.len() as int) == all);
    if !valid {
        Sorted::Unrecognised
    } else if calls.len() == 0 {
        Sorted::Silent
    } else {
        Sorted::Calls(calls)
    }
}

/// The number of notifications among `elements`.
pub open spec fn notifications_in(elements: Seq<ElementView>) -> nat
    decreases elements.len(),
{
    if elements.len() == 0 {
        0
    } else {
        match elements.last() {
            ElementView::Notification => notifications_in(elements.drop_last()) + 1,
            _ => notifications_in(elements.drop_last()),
        }
    }
}

/// Of the elements of an array in which each is a call or a notification,
/// the calls are kept and nothing else: there are as many calls as there
/// are elements that are no notifications.
pub proof fn lemma_calls_are_kept(elements: Seq<ElementView>)
    requires
        all_valid(elements),
    ensures
        calls_of(elements).len() + notifications_in(elements) == elements.len(),
    decreases elements.len(),
{
    if elements.len() > 0 {
        lemma_all_valid_step(elements);
        lemma_calls_are_kept(elements.drop_last());
    }
}

/// An array of M notifications and K calls, with at least one call, amounts
/// to its K calls.
pub proof fn lemma_batch_of_calls_and_notifications(elements: Seq<ElementView>)
    requires
        all_valid(elements),
        notifications_in(elements) < elements.len(),
    ensures
        sorted(elements) matches SortedView::Calls(calls) && calls.len() == elements.len()
            - notifications_in(elements),
{
    lemma_calls_are_kept(elements);
}

/// An array of nothing but notifications has no call to answer and no
/// invalid element.
pub proof fn lemma_no_call_among_notifications(elements: Seq<ElementView>)
    requires
        forall|i: int| 0 <= i < elements.len() ==> #[trigger] elements[i] is Notification,
    ensures
        calls_of(elements).len() == 0,
        all_valid(elements),
    decreases elements.len(),
{
    if elements.len() > 0 {
        let front = elements.drop_last();
        assert forall|i: int| 0 <= i < front.len() implies #[trigger] front[i] is Notification by {
            assert(front[i] == elements[i]);
        }
        lemma_no_call_among_notifications(front);
        assert(elements[elements.len() - 1] is Notification);
    }
}

/// An array of nothing but notifications, and at least one, has nothing to
/// answer.
pub proof fn lemma_notifications_only(elements: Seq<ElementView>)
    requires
        elements.len() > 0,
        forall|i: int| 0 <= i < elements.len() ==> #[trigger] elements[i] is Notification,
    ensures
        sorted(elements) == SortedView::Silent,
{
    lemma_no_call_among_notifications(elements);
}

/// The mathematical value of a [`Payload`].
pub enum PayloadView {
    Call(RequestView),
    Notification,
    Batch(Seq<RequestView>),
    Rejected(IdView, ErrorCode),
}

/// What a body is, read as JSON-RPC.
#[derive(Debug, Clone, PartialEq, Eq)]
pub enum Payload {
    /// One call.
    Call(Request),
    /// One notification, or an array of nothing but notifications: there is
    /// nothing to answer.
    Notification,
    /// An array of calls and notifications with at least one call. These are
    /// the calls, in their order.
    Batch(Vec<Request>),
    /// Nothing that the server recognises. It is answered with one error
    /// envelope, under this identifier and with this code.
    Rejected(Id, ErrorCode),
}

impl View for Payload {
    type V = PayloadView;

    open spec fn view(&self) -> PayloadView {
        match self {
            Payload::Call(r) => PayloadView::Call(r@),
            Payload::Notification => PayloadView::Notification,
            Payload::Batch(calls) => PayloadView::Batch(request_views(calls@)),
            Payload::Rejected(id, code) => PayloadView::Rejected(id@, *code),
        }
    }
}

/// What a body that starts as a JSON object is, given what it reads as and
/// what it is to be rejected with.
pub open spec fn object_payload(
    element: ElementView,
    fallback: (IdView, ErrorCode),
) -> PayloadView {
    match element {
        ElementView::Call(r) => PayloadView::Call(r),
        ElementView::Notification => PayloadView::Notification,
        ElementView::Invalid => PayloadView::Rejected(fallback.0, fallback.1),
    }
}

/// What a body that starts as a JSON array is, given what its elements amount
/// to and what it is to be rejected with. An empty array is an invalid
/// request with no identifier.
pub open spec fn array_payload(sorted: SortedView, fallback: (IdView, ErrorCode)) -> PayloadView {
    match sorted {
        SortedView::Empty => PayloadView::Rejected(IdView::Null, ErrorCode::InvalidRequest),
        SortedView::Unrecognised => PayloadView::Rejected(fallback.0, fallback.1),
        SortedView::Silent => PayloadView::Notification,
        SortedView::Calls(calls) => PayloadView::Batch(calls),
    }
}

/// What the body `json` is. `single` says that the body starts as a JSON
/// object; otherwise it is read as an array.
pub open spec fn classification(json: Seq<u8>, single: bool) -> PayloadView {
    if single {
        object_payload(element_at(json), rejection(json))
    } else {
        match parsed_array(json) {
            Some(items) => array_payload(
                sorted(Seq::new(items.len(), |i: int| element_at(items[i]))),
                rejection(json),
            ),
            None => PayloadView::Rejected(rejection(json).0, rejection(json).1),
        }
    }
}

/// A body that is an empty JSON array is an invalid request without an
/// identifier.
pub proof fn lemma_empty_batch(json: Seq<u8>)
    requires
        parsed_array(json) == Some(Seq::<Seq<u8>>::empty()),
    ensures
        classification(json, false) == PayloadView::Rejected(
            IdView::Null,
            ErrorCode::InvalidRequest,
        ),
{
}

/// A body that is one notification has nothing to answer.
pub proof fn lemma_single_notification(json: Seq<u8>)
    requires
        parsed_request(json).is_none(),
        parsed_notification(json),
    ensures
        classification(json, true) == PayloadView::Notification,
{
}

/// Reads a body as JSON-RPC.
pub fn classify(json: &[u8], single: bool) -> (out: Payload)
    ensures
        out@ == classification(json@, single),
{
    if single {
        match Element::read(json) {
            Element::Call(r) => Payload::Call(r),
            Element::Notification => Payload::Notification,
            Element::Invalid => {
                let (id, code) = prepare_error(json);
                Payload::Rejected(id, code)
            },
        }
    } else {
        match parse_array(json) {
            Some(items) => {
                let ghost raw = parsed_array(json@)->0;
                let mut elements: Vec<Element> = Vec::new();
                let mut i: usize = 0;
                while i < items.len()
                    invariant
                        i <= items.len(),
                        raw.len() == items.len(),
                        forall|j: int| 0 <= j < items.len() ==> items@[j]@ == raw[j],
                        elements.len() == i,
                        forall|j: int| 0 <= j < i ==> elements@[j]@ == element_at(raw[j]),
                    decreases items.len() - i,
                {
                    elements.push(Element::read(items[i].as_slice()));
                    i += 1;
                }
                assert(element_views(elements@) == Seq::new(
                    raw.len(),
                    |i: int| element_at(raw[i]),
                ));
                match sort_elements(elements) {
                    Sorted::Empty => Payload::Rejected(Id::Null, ErrorCode::InvalidRequest),
                    Sorted::Unrecognised => {
                        let (id, code) = prepare_error(json);
                        Payload::Rejected(id, code)
                    },
                    Sorted::Silent => Payload::Notification,
                    Sorted::Calls(calls) => Payload::Batch(calls),
                }
            },
            None => {
                let (id, code) = prepare_error(json);
                Payload::Rejected(id, code)
            },
        }
    }
}

} // verus!
