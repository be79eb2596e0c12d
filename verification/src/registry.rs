//! The registered methods and the resources that their calls claim.

use crate::envelope::{MethodResponse, MethodResponseView};
use crate::error::Error;
use crate::headers::{text_view, views};
use crate::ident::{Id, IdView};
use jsonrpsee_core::server::resource_limiting::{ResourceGuard, Resources};
use jsonrpsee_core::server::rpc_module::{MethodCallback, Methods};
use vstd::prelude::*;

verus! {

/// The methods that the server serves, by name.
#[verifier::external_type_specification]
#[verifier::external_body]
pub struct ExMethods(jsonrpsee_core::server::rpc_module::Methods);

/// One registered method: its handler and the resources that a call claims.
#[verifier::external_type_specification]
#[verifier::external_body]
pub struct ExMethodCallback(jsonrpsee_core::server::rpc_module::MethodCallback);

/// The resource kinds of a server, with what is claimed of each right now.
#[verifier::external_type_specification]
#[verifier::external_body]
pub struct ExResources(jsonrpsee_core::server::resource_limiting::Resources);

/// What a call holds while it runs. Dropping it gives the claimed units back.
#[verifier::external_type_specification]
#[verifier::external_body]
pub struct ExResourceGuard(jsonrpsee_core::server::resource_limiting::ResourceGuard);

/// At most this many resource kinds can be registered.
pub const RESOURCE_COUNT: usize = 8;

/// The kinds of handler that a method can have.
#[derive(Debug, Clone, Copy, PartialEq, Eq, Structural)]
pub enum MethodKind {
    /// The handler answers before it returns.
    Sync,
    /// The handler returns a future that yields the answer.
    Async,
    /// The method opens a subscription.
    Subscription,
    /// The method closes a subscription.
    Unsubscription,
}

/// The method registered under `name`.
pub uninterp spec fn method_named(methods: Methods, name: Seq<char>) -> Option<MethodCallback>;

/// The names under which methods are registered, each once.
pub uninterp spec fn method_names(methods: Methods) -> Seq<Seq<char>>;

/// The kind of the method's handler.
pub uninterp spec fn kind_of(callback: MethodCallback) -> MethodKind;

/// `response` is among the answers that the handler of the method can give
/// when it is called with the identifier `id`, the raw parameters `params`
/// and `limit` as the greatest size of its answer. A handler is the user's
/// code: it may answer one call in one way and an equal call in another,
/// so that more than one answer can belong to the same arguments.
pub uninterp spec fn can_answer(
    callback: MethodCallback,
    id: IdView,
    params: Option<Seq<char>>,
    limit: u32,
    response: MethodResponseView,
) -> bool;

/// The units that a call of the method claims, one entry for each of the
/// eight resource slots. A method whose claims were never resolved against a
/// server's resources has no entries.
pub uninterp spec fn units_of(callback: MethodCallback) -> Seq<u16>;

/// The registered resource kinds in the order of their registration: the
/// label, the capacity and the default claim of each.
pub uninterp spec fn kinds_of(resources: Resources) -> Seq<(Seq<char>, u16, u16)>;

/// The capacity of each of the eight resource slots. The slot of a kind is
/// its place in the order of registration; a slot without a kind has the
/// capacity 0 unless it was set by hand.
pub uninterp spec fn capacities_of(resources: Resources) -> Seq<u16>;

/// The resource labels that the methods claim by name, as long as their
/// claims are not resolved against a server's resources.
pub uninterp spec fn claimed_labels(methods: Methods) -> Set<Seq<char>>;

/// The methods with their claims resolved against `resources`, where every
/// label that a method names is registered there.
pub uninterp spec fn resolved(methods: Methods, resources: Resources) -> Option<Methods>;

/// `after` holds the methods of `before` under the same names and with the
/// same kinds of handler.
pub open spec fn same_methods(before: Methods, after: Methods) -> bool {
    forall|name: Seq<char>|
        match (#[trigger] method_named(before, name), method_named(after, name)) {
            (Some(old), Some(new)) => kind_of(old) == kind_of(new),
            (None, None) => true,
            _ => false,
        }
}

/// Every label that the methods claim is a registered kind.
pub open spec fn labels_known(claimed: Set<Seq<char>>, kinds: Seq<(Seq<char>, u16, u16)>) -> bool {
    forall|label: Seq<char>| #[trigger] claimed.contains(label) ==> has_label(kinds, label)
}

/// A call of the method claims, in each of the eight slots, no more than
/// the server has there.
pub open spec fn fits(callback: MethodCallback, resources: Resources) -> bool {
    &&& units_of(callback).len() == RESOURCE_COUNT
    &&& forall|i: int|
        0 <= i < RESOURCE_COUNT ==> (#[trigger] units_of(callback)[i]) <= capacities_of(
            resources,
        )[i]
}

/// `label` is among the registered kinds.
pub open spec fn has_label(kinds: Seq<(Seq<char>, u16, u16)>, label: Seq<char>) -> bool {
    exists|i: int| 0 <= i < kinds.len() && (#[trigger] kinds[i]).0 == label
}

/// The view of a method that may be absent.
pub open spec fn callback_view(callback: Option<&MethodCallback>) -> Option<MethodCallback> {
    match callback {
        Some(c) => Some(*c),
        None => None,
    }
}

/// Calls `Resources::default`: no kind is registered, and every slot has
/// the capacity 0.
#[verifier::external_body]
pub(crate) fn no_resources() -> (resources: Resources)
    ensures
        kinds_of(resources) == Seq::<(Seq<char>, u16, u16)>::empty(),
        capacities_of(resources) == Seq::new(RESOURCE_COUNT as nat, |i: int| 0u16),
{
    Resources::default()
}

/// Why a resource kind could not be registered.
#[derive(Debug, Clone, Copy, PartialEq, Eq, Structural)]
pub enum RegisterError {
    /// The label is registered already.
    NameTaken,
    /// Eight kinds are registered already.
    Full,
}

/// Whether a kind with the given label can be added to `kinds`.
pub open spec fn registration(kinds: Seq<(Seq<char>, u16, u16)>, label: Seq<char>) -> Result<
    (),
    RegisterError,
> {
    if has_label(kinds, label) {
        Err(RegisterError::NameTaken)
    } else if kinds.len() >= RESOURCE_COUNT {
        Err(RegisterError::Full)
    } else {
        Ok(())
    }
}

/// Calls `Resources::register`. A label that is registered already is
/// refused, then a ninth kind; either way nothing changes. Otherwise the
/// kind is added behind the others, and its capacity is set in its slot.
#[verifier::external_body]
pub(crate) fn register(
    resources: &mut Resources,
    label: &'static str,
    capacity: u16,
    default: u16,
) -> (out: Result<(), RegisterError>)
    ensures
        out == registration(kinds_of(*old(resources)), label@),
        out.is_err() ==> *final(resources) == *old(resources),
        out.is_ok() ==> kinds_of(*final(resources)) == kinds_of(*old(resources)).push(
            (label@, capacity, default),
        ),
        out.is_ok() ==> capacities_of(*final(resources)) == capacities_of(
            *old(resources),
        ).update(kinds_of(*old(resources)).len() as int, capacity),
{
    match resources.register(label, capacity, default) {
        Ok(()) => Ok(()),
        Err(jsonrpsee_core::Error::ResourceNameAlreadyTaken(_)) => Err(RegisterError::NameTaken),
        Err(_) => Err(RegisterError::Full),
    }
}

/// Calls `Methods::initialize_resources`. It succeeds where every label
/// that a method names is registered in `resources`; the contract names the
/// methods that come out, which are those that went in but for their
/// claims. Otherwise the error names a label that is claimed and not
/// registered, and the method that claims it.
#[verifier::external_body]
pub(crate) fn initialize_resources(methods: Methods, resources: &Resources) -> (out: Result<
    Methods,
    Error,
>)
    ensures
        out.is_ok() == labels_known(claimed_labels(methods), kinds_of(*resources)),
        match out {
            Ok(m) => resolved(methods, *resources) == Some(m) && same_methods(methods, m),
            Err(e) => resolved(methods, *resources).is_none() && (
            e matches Error::ResourceNameNotFoundForMethod(label, method)
                && claimed_labels(methods).contains(label@) && !has_label(
                kinds_of(*resources),
                label@,
            ) && method_named(methods, method@).is_some()),
        },
{
    match methods.initialize_resources(resources) {
        Ok(m) => Ok(m),
        Err(jsonrpsee_core::Error::ResourceNameNotFoundForMethod(label, method)) => Err(
            Error::ResourceNameNotFoundForMethod(label.to_string(), method.to_string()),
        ),
        Err(other) => Err(Error::Custom(other.to_string())),
    }
}

/// Walks `Methods::method_names` and copies each name. These are the names
/// under which `Methods::method` finds a method.
#[verifier::external_body]
pub(crate) fn list_names(methods: &Methods) -> (out: Vec<String>)
    ensures
        views(out@) == method_names(*methods),
        forall|name: Seq<char>|
            views(out@).contains(name) <==> (#[trigger] method_named(*methods, name)).is_some(),
{
    methods.method_names().map(|n| n.to_string()).collect()
}

/// Calls `Methods::method`. What it finds depends on the methods and the
/// name alone; the contract only names it.
#[verifier::external_body]
pub(crate) fn lookup<'a>(methods: &'a Methods, name: &str) -> (out: Option<&'a MethodCallback>)
    ensures
        callback_view(out) == method_named(*methods, name@),
{
    methods.method(name)
}

/// Calls `MethodCallback::inner` and tells the four variants apart.
#[verifier::external_body]
pub(crate) fn kind(callback: &MethodCallback) -> (out: MethodKind)
    ensures
        out == kind_of(*callback),
{
    match callback.inner() {
        jsonrpsee_core::server::rpc_module::MethodKind::Sync(_) => MethodKind::Sync,
        jsonrpsee_core::server::rpc_module::MethodKind::Async(_) => MethodKind::Async,
        jsonrpsee_core::server::rpc_module::MethodKind::Subscription(_) => MethodKind::Subscription,
        jsonrpsee_core::server::rpc_module::MethodKind::Unsubscription(_) => MethodKind::Unsubscription,
    }
}

/// Calls `MethodCallback::claim`. Whether the claim succeeds depends on what
/// other calls hold at that moment; it never succeeds for a method that
/// claims more in a slot than the server has there.
#[verifier::external_body]
pub(crate) fn claim(callback: &MethodCallback, name: &str, resources: &Resources) -> (out: Option<
    ResourceGuard,
>)
    ensures
        out.is_some() ==> units_of(*callback).len() == RESOURCE_COUNT,
        out.is_some() ==> forall|i: int|
            0 <= i < RESOURCE_COUNT ==> (#[trigger] units_of(*callback)[i]) <= capacities_of(
                *resources,
            )[i],
{
    callback.claim(name, resources).ok()
}

/// Calls `MethodCallback::claim` on resources of the same capacities of
/// which nothing is claimed, and gives the claim back at once. With nothing
/// claimed the claim succeeds exactly where the units of the method are
/// resolved and, in each slot, within the capacity.
#[verifier::external_body]
pub(crate) fn claim_idle(callback: &MethodCallback, name: &str, resources: &Resources) -> (ok: bool)
    ensures
        ok == (units_of(*callback).len() == RESOURCE_COUNT && forall|i: int|
            0 <= i < RESOURCE_COUNT ==> (#[trigger] units_of(*callback)[i]) <= capacities_of(
                *resources,
            )[i]),
{
    let mut idle = Resources::default();
    idle.capacities = resources.capacities;
    callback.claim(name, &idle).is_ok()
}

/// Calls the `SyncMethod` that `MethodCallback::inner` holds for a
/// synchronous method, with the identifier, the raw parameters and the
/// greatest size that the answer may have. The handler is the user's:
/// of what it answers the contract says only that it is an answer that the
/// handler can give to this very call. A method of another kind is not run.
#[verifier::external_body]
pub(crate) fn call_sync(
    callback: &MethodCallback,
    id: &Id,
    params: &Option<String>,
    max_response_size: u32,
) -> (out: Option<MethodResponse>)
    ensures
        out.is_some() == (kind_of(*callback) == MethodKind::Sync),
        out matches Some(response) ==> can_answer(
            *callback,
            id@,
            text_view(*params),
            max_response_size,
            response@,
        ),
{
    let id = match id {
        Id::Null => jsonrpsee_types::Id::Null,
        Id::Number(n) => jsonrpsee_types::Id::Number(*n),
        Id::Str(s) => jsonrpsee_types::Id::Str(s.as_str().into()),
    };
    let params = jsonrpsee_types::Params::new(params.as_deref());
    match callback.inner() {
        jsonrpsee_core::server::rpc_module::MethodKind::Sync(handler) => {
            let r = (handler)(id, params, max_response_size as usize);
            Some(MethodResponse { result: r.result, success: r.success })
        },
        _ => None,
    }
}

} // verus!
