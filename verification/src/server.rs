//! Configuring, starting and stopping a server.

use crate::access::{
    allow_headers_text, decision, findings, headers_allowed, host_allowed, origin_allowed,
    origin_fits, permissive, route, HttpMethod, Route,
};
use crate::headers::views;
use crate::error::{Error, ErrorView};
use crate::health::{health_checked, process_health_request, HealthApi, HealthProgress};
use crate::middleware::Middleware;
use crate::processor::{
    process_validated_request, processed, BodyOutcome, Progress, Settings,
};
use crate::registry::{
    capacities_of, claim_idle, claimed_labels, fits, has_label, initialize_resources, kinds_of, labels_known,
    list_names, lookup, method_named, method_names, no_resources, register, registration,
    resolved, same_methods, RegisterError,
};
use crate::response::{internal_error, internal_error_view};
use futures_channel::mpsc::Sender;
use hyper::HeaderMap;
use jsonrpsee_core::server::access_control::AccessControl;
use jsonrpsee_core::server::resource_limiting::Resources;
use jsonrpsee_core::server::rpc_module::Methods;
use tokio::runtime::Handle;
use tokio::task::JoinHandle;
use vstd::prelude::*;

verus! {

/// A handle to the runtime on which a server is to run.
#[verifier::external_type_specification]
#[verifier::external_body]
pub struct ExHandle(tokio::runtime::Handle);

/// The sending half of the channel over which a server is told to stop.
#[verifier::external_type_specification]
#[verifier::external_body]
#[verifier::reject_recursive_types(T)]
pub struct ExSender<T>(futures_channel::mpsc::Sender<T>);

/// The handle by which the task of a running server is awaited.
#[verifier::external_type_specification]
#[verifier::external_body]
#[verifier::reject_recursive_types(T)]
pub struct ExJoinHandle<T>(tokio::task::JoinHandle<T>);

/// How a task failed. It stands in the interface of `JoinHandle`.
#[verifier::external_type_specification]
#[verifier::external_body]
pub struct ExJoinError(tokio::task::JoinError);

/// Ten mebibytes, the default limit on bodies.
pub const TEN_MB_SIZE_BYTES: u32 = 10485760;

/// The settings of a server that is configured no further.
pub open spec fn default_settings() -> Settings {
    Settings {
        max_request_body_size: TEN_MB_SIZE_BYTES,
        max_response_body_size: TEN_MB_SIZE_BYTES,
        max_log_length: 4096,
        batch_requests_supported: true,
    }
}

/// The mathematical value of a [`HealthApi`] that may be absent.
pub open spec fn health_api_view(health: Option<HealthApi>) -> Option<(Seq<char>, Seq<char>)> {
    match health {
        Some(h) => Some((h.path@, h.method@)),
        None => None,
    }
}

/// The path of the health endpoint, where there is one.
pub open spec fn health_path(health: Option<(Seq<char>, Seq<char>)>) -> Option<Seq<char>> {
    match health {
        Some(h) => Some(h.0),
        None => None,
    }
}

/// What a server is configured with.
pub struct Configuration<M> {
    pub access_control: AccessControl,
    pub resources: Resources,
    pub settings: Settings,
    pub tokio_runtime: Option<Handle>,
    pub middleware: M,
    pub health_api: Option<(Seq<char>, Seq<char>)>,
}

/// Collects the configuration of a server.
#[derive(Debug)]
pub struct Builder<M = ()> {
    access_control: AccessControl,
    resources: Resources,
    settings: Settings,
    tokio_runtime: Option<Handle>,
    middleware: M,
    health_api: Option<HealthApi>,
}

impl<M> View for Builder<M> {
    type V = Configuration<M>;

    closed spec fn view(&self) -> Configuration<M> {
        Configuration {
            access_control: self.access_control,
            resources: self.resources,
            settings: self.settings,
            tokio_runtime: self.tokio_runtime,
            middleware: self.middleware,
            health_api: health_api_view(self.health_api),
        }
    }
}

/// The policy admits every host, every origin that can be held against it
/// and every header.
pub open spec fn admits_all(acl: AccessControl) -> bool {
    &&& forall|host: Seq<char>| #[trigger] host_allowed(acl, host)
    &&& forall|origin: Option<Seq<char>>, host: Seq<char>|
        origin_fits(origin) ==> #[trigger] origin_allowed(acl, origin, host)
    &&& forall|names: Seq<Seq<char>>, requested: Seq<Seq<char>>| #[trigger]
        headers_allowed(acl, names, requested)
    &&& allow_headers_text(acl) == "*"@
}

impl Builder<()> {
    /// A builder with the default configuration: bodies of up to ten
    /// mebibytes either way, batches served, every host, origin and header
    /// admitted, no resource kind, no health endpoint, no observer.
    pub fn new() -> (out: Self)
        ensures
            out@.settings == default_settings(),
            admits_all(out@.access_control),
            kinds_of(out@.resources).len() == 0,
            capacities_of(out@.resources) == Seq::new(8, |i: int| 0u16),
            out@.health_api.is_none(),
            out@.tokio_runtime.is_none(),
    {
        Builder {
            access_control: permissive(),
            resources: no_resources(),
            settings: Settings {
                max_request_body_size: TEN_MB_SIZE_BYTES,
                max_response_body_size: TEN_MB_SIZE_BYTES,
                max_log_length: 4096,
                batch_requests_supported: true,
            },
            tokio_runtime: None,
            middleware: (),
            health_api: None,
        }
    }
}

impl Default for Builder<()> {
    fn default() -> (out: Self)
        ensures
            out@.settings == default_settings(),
            admits_all(out@.access_control),
            kinds_of(out@.resources).len() == 0,
            capacities_of(out@.resources) == Seq::new(8, |i: int| 0u16),
            out@.health_api.is_none(),
            out@.tokio_runtime.is_none(),
    {
        Builder::new()
    }
}

/// The text of the error that refuses a health path.
pub open spec fn bad_health_path(path: Seq<char>) -> Seq<char> {
    "Health endpoint path must start with `/` to work, got: "@ + path
}

impl<M> Builder<M> {
    /// Sets the observer of the server.
    pub fn set_middleware<T: Middleware>(self, middleware: T) -> (out: Builder<T>)
        ensures
            out@ == (Configuration {
                access_control: self@.access_control,
                resources: self@.resources,
                settings: self@.settings,
                tokio_runtime: self@.tokio_runtime,
                middleware,
                health_api: self@.health_api,
            }),
    {
        Builder {
            access_control: self.access_control,
            resources: self.resources,
            settings: self.settings,
            tokio_runtime: self.tokio_runtime,
            middleware,
            health_api: self.health_api,
        }
    }

    /// Sets the greatest length of a request body, in bytes.
    pub fn max_request_body_size(self, size: u32) -> (out: Self)
        ensures
            out@ == (Configuration {
                settings: Settings { max_request_body_size: size, ..self@.settings },
                ..self@
            }),
    {
        let mut out = self;
        out.settings.max_request_body_size = size;
        out
    }

    /// Sets the greatest length of the answer to one call, in bytes.
    pub fn max_response_body_size(self, size: u32) -> (out: Self)
        ensures
            out@ == (Configuration {
                settings: Settings { max_response_body_size: size, ..self@.settings },
                ..self@
            }),
    {
        let mut out = self;
        out.settings.max_response_body_size = size;
        out
    }

    /// Sets the greatest length of a logged message.
    pub fn max_log_length(self, length: u32) -> (out: Self)
        ensures
            out@ == (Configuration {
                settings: Settings { max_log_length: length, ..self@.settings },
                ..self@
            }),
    {
        let mut out = self;
        out.settings.max_log_length = length;
        out
    }

    /// Sets the access-control policy.
    pub fn set_access_control(self, acl: AccessControl) -> (out: Self)
        ensures
            out@ == (Configuration { access_control: acl, ..self@ }),
    {
        let mut out = self;
        out.access_control = acl;
        out
    }

    /// Switches the serving of batches on or off.
    pub fn batch_requests_supported(self, supported: bool) -> (out: Self)
        ensures
            out@ == (Configuration {
                settings: Settings { batch_requests_supported: supported, ..self@.settings },
                ..self@
            }),
    {
        let mut out = self;
        out.settings.batch_requests_supported = supported;
        out
    }

    /// Registers a resource kind. A label that is registered already is
    /// refused, and so is a ninth kind.
    pub fn register_resource(self, label: &'static str, capacity: u16, default: u16) -> (out:
        Result<Self, Error>)
        ensures
            match registration(kinds_of(self@.resources), label@) {
                Ok(_) => out matches Ok(b) && kinds_of(b@.resources) == kinds_of(
                    self@.resources,
                ).push((label@, capacity, default)) && capacities_of(b@.resources)
                    == capacities_of(self@.resources).update(
                    kinds_of(self@.resources).len() as int,
                    capacity,
                ) && b@ == (Configuration { resources: b@.resources, ..self@ }),
                Err(RegisterError::NameTaken) => out matches Err(e) && e@
                    == ErrorView::ResourceNameAlreadyTaken(label@),
                Err(RegisterError::Full) => out matches Err(e) && e@
                    == ErrorView::MaxResourcesReached,
            },
    {
        let mut out = self;
        match register(&mut out.resources, label, capacity, default) {
            Ok(()) => Ok(out),
            Err(RegisterError::NameTaken) => Err(
                Error::ResourceNameAlreadyTaken(String::from_str(label)),
            ),
            Err(RegisterError::Full) => Err(Error::MaxResourcesReached),
        }
    }

    /// Sets the runtime on which the server is to run.
    pub fn custom_tokio_runtime(self, rt: Handle) -> (out: Self)
        ensures
            out@ == (Configuration { tokio_runtime: Some(rt), ..self@ }),
    {
        let mut out = self;
        out.tokio_runtime = Some(rt);
        out
    }

    /// Switches the health endpoint on: a GET of `path` calls `method`
    /// without parameters. A path that does not start with `/` is refused.
    pub fn health_api(self, path: &str, method: &str) -> (out: Result<Self, Error>)
        ensures
            match out {
                Ok(b) => path@.len() > 0 && path@[0] == '/' && b@ == (Configuration {
                    health_api: Some((path@, method@)),
                    ..self@
                }),
                Err(e) => !(path@.len() > 0 && path@[0] == '/') && e@ == ErrorView::Custom(
                    bad_health_path(path@),
                ),
            },
    {
        if path.is_empty() || path.get_char(0) != '/' {
            let mut text = String::from_str(
                "Health endpoint path must start with `/` to work, got: ",
            );
            text.append(path);
            return Err(Error::Custom(text));
        }
        let mut out = self;
        out.health_api = Some(
            HealthApi { path: String::from_str(path), method: String::from_str(method) },
        );
        Ok(out)
    }

    /// The limits and switches as they are set now.
    pub fn settings(&self) -> (out: Settings)
        ensures
            out == self@.settings,
    {
        self.settings
    }

    /// Finishes the configuration.
    pub fn build(self) -> (out: Server<M>)
        ensures
            out@ == self@,
    {
        Server {
            access_control: self.access_control,
            resources: self.resources,
            settings: self.settings,
            tokio_runtime: self.tokio_runtime,
            middleware: self.middleware,
            health_api: self.health_api,
        }
    }
}

/// A configured server that has not been started.
#[derive(Debug)]
pub struct Server<M = ()> {
    access_control: AccessControl,
    resources: Resources,
    settings: Settings,
    tokio_runtime: Option<Handle>,
    middleware: M,
    health_api: Option<HealthApi>,
}

impl<M> View for Server<M> {
    type V = Configuration<M>;

    closed spec fn view(&self) -> Configuration<M> {
        Configuration {
            access_control: self.access_control,
            resources: self.resources,
            settings: self.settings,
            tokio_runtime: self.tokio_runtime,
            middleware: self.middleware,
            health_api: health_api_view(self.health_api),
        }
    }
}

/// The method, if there is one, claims no more of any resource than the
/// server has.
pub open spec fn fits_if_any(
    callback: Option<jsonrpsee_core::server::rpc_module::MethodCallback>,
    resources: Resources,
) -> bool {
    match callback {
        Some(c) => fits(c, resources),
        None => true,
    }
}

/// Every method claims no more of any resource than the server has.
pub open spec fn claims_fit(methods: Methods, resources: Resources) -> bool {
    forall|name: Seq<char>| fits_if_any(#[trigger] method_named(methods, name), resources)
}

/// What a running server works with. Nothing in it changes while the server
/// runs, but for what is claimed of the resources.
#[derive(Debug)]
pub struct Service<M> {
    pub methods: Methods,
    pub access_control: AccessControl,
    pub resources: Resources,
    pub settings: Settings,
    pub tokio_runtime: Option<Handle>,
    pub middleware: M,
    pub health_api: Option<HealthApi>,
}

impl<M> Server<M> {
    /// The limits and switches of the server.
    pub fn settings(&self) -> (out: Settings)
        ensures
            out == self@.settings,
    {
        self.settings
    }
}

impl<M: Middleware> Server<M> {
    /// Takes the methods that the server is to serve. Each label that a
    /// method claims must be a registered resource kind: else the error
    /// names such a label and its method. And no method may claim more in a
    /// slot than the server has there: else the error names such a method.
    /// Otherwise the server starts.
    ///
    /// To find a method that claims too much, the claim of each method is
    /// made once against resources of the same capacities of which nothing
    /// is claimed: what other servers hold of these resources does not
    /// count.
    pub fn start(self, methods: Methods) -> (out: Result<Service<M>, Error>)
        ensures
            match out {
                Ok(service) => {
                    &&& resolved(methods, self@.resources) == Some(service.methods)
                    &&& same_methods(methods, service.methods)
                    &&& claims_fit(service.methods, service.resources)
                    &&& service.access_control == self@.access_control
                    &&& service.resources == self@.resources
                    &&& service.settings == self@.settings
                    &&& service.tokio_runtime == self@.tokio_runtime
                    &&& service.middleware == self@.middleware
                    &&& health_api_view(service.health_api) == self@.health_api
                },
                Err(e) => match resolved(methods, self@.resources) {
                    None => e matches Error::ResourceNameNotFoundForMethod(label, method)
                        && claimed_labels(methods).contains(label@) && !has_label(
                        kinds_of(self@.resources),
                        label@,
                    ) && method_named(methods, method@).is_some(),
                    Some(ready) => e matches Error::ResourceAtCapacity(name) && !fits_if_any(
                        method_named(ready, name@),
                        self@.resources,
                    ),
                },
            },
            resolved(methods, self@.resources).is_some() == labels_known(
                claimed_labels(methods),
                kinds_of(self@.resources),
            ),
            out.is_ok() == match resolved(methods, self@.resources) {
                Some(ready) => claims_fit(ready, self@.resources),
                None => false,
            },
    {
        let ready = match initialize_resources(methods, &self.resources) {
            Ok(m) => m,
            Err(e) => {
                return Err(e);
            },
        };
        let names = list_names(&ready);
        let mut i: usize = 0;
        while i < names.len()
            invariant
                i <= names.len(),
                resolved(methods, self@.resources) == Some(ready),
                same_methods(methods, ready),
                labels_known(claimed_labels(methods), kinds_of(self@.resources)),
                views(names@) == method_names(ready),
                forall|name: Seq<char>|
                    views(names@).contains(name) <==> (#[trigger] method_named(
                        ready,
                        name,
                    )).is_some(),
                forall|j: int|
                    0 <= j < i ==> fits_if_any(
                        #[trigger] method_named(ready, names@[j]@),
                        self.resources,
                    ),
            decreases names.len() - i,
        {
            match lookup(&ready, names[i].as_str()) {
                Some(callback) => {
                    if !claim_idle(callback, names[i].as_str(), &self.resources) {
                        assert(!fits(*callback, self.resources));
                        return Err(Error::ResourceAtCapacity(names[i].clone()));
                    }
                },
                None => {},
            }
            i += 1;
        }
        proof {
            assert forall|name: Seq<char>|
                fits_if_any(#[trigger] method_named(ready, name), self.resources) by {
                if method_named(ready, name).is_some() {
                    let listed = views(names@);
                    assert(listed.contains(name));
                    let j = choose|j: int| 0 <= j < listed.len() && listed[j] == name;
                    assert(names@[j]@ == name);
                }
            }
        }
        Ok(
            Service {
                methods: ready,
                access_control: self.access_control,
                resources: self.resources,
                settings: self.settings,
                tokio_runtime: self.tokio_runtime,
                middleware: self.middleware,
                health_api: self.health_api,
            },
        )
    }
}

impl<M: Middleware> Service<M> {
    /// Routes a request.
    pub fn route(&self, method: HttpMethod, path: &String, headers: &HeaderMap) -> (out: Route)
        ensures
            out@ == decision(
                findings(
                    self.access_control,
                    health_path(health_api_view(self.health_api)),
                    method,
                    path@,
                    *headers,
                ),
            ),
    {
        let health_path = match &self.health_api {
            Some(h) => Some(&h.path),
            None => None,
        };
        route(&self.access_control, health_path, method, path, headers)
    }

    /// Processes the body of a request that was admitted.
    pub fn process(&self, outcome: BodyOutcome) -> (progress: Progress<M::Instant>)
        ensures
            processed(outcome@, self.methods, self.resources, self.settings, progress),
    {
        process_validated_request(
            outcome,
            &self.middleware,
            &self.methods,
            &self.resources,
            &self.settings,
        )
    }

    /// Serves the health endpoint. Without one configured, the check fails.
    pub fn health(&self) -> (progress: HealthProgress<M::Instant>)
        ensures
            match self.health_api {
                Some(h) => health_checked(
                    h.method@,
                    self.methods,
                    self.settings.max_response_body_size,
                    progress,
                ),
                None => progress matches HealthProgress::Reply(reply) && reply@
                    == internal_error_view(),
            },
    {
        match &self.health_api {
            Some(h) => process_health_request(
                h,
                &self.middleware,
                &self.methods,
                self.settings.max_response_body_size,
            ),
            None => HealthProgress::Reply(internal_error()),
        }
    }
}

/// The handle by which a running server is stopped.
#[derive(Debug)]
pub struct ServerHandle {
    stop_sender: Sender<()>,
    handle: Option<JoinHandle<()>>,
}

/// Calls `Sender::try_send` with the unit value and says whether the signal
/// was taken. That depends on the state of the channel: nothing is promised.
#[verifier::external_body]
fn try_send_stop(sender: &mut Sender<()>) -> (sent: bool) {
    sender.try_send(()).is_ok()
}

/// What a request to stop comes to, given whether the signal was taken and
/// the task that is to be awaited: the task where the signal was taken and
/// there is a task, else the error that the server has stopped already.
pub open spec fn stopping(sent: bool, handle: Option<JoinHandle<()>>) -> Result<
    JoinHandle<()>,
    ErrorView,
> {
    match handle {
        Some(h) => if sent {
            Ok(h)
        } else {
            Err(ErrorView::AlreadyStopped)
        },
        None => Err(ErrorView::AlreadyStopped),
    }
}

/// The outcome of a request to stop, with the error by its value.
pub open spec fn stop_view(out: Result<JoinHandle<()>, Error>) -> Result<
    JoinHandle<()>,
    ErrorView,
> {
    match out {
        Ok(h) => Ok(h),
        Err(e) => Err(e@),
    }
}

/// Makes the outcome of a request to stop.
pub fn stop_outcome(sent: bool, handle: Option<JoinHandle<()>>) -> (out: Result<
    JoinHandle<()>,
    Error,
>)
    ensures
        stop_view(out) == stopping(sent, handle),
{
    match handle {
        Some(h) => {
            if sent {
                Ok(h)
            } else {
                Err(Error::AlreadyStopped)
            }
        },
        None => Err(Error::AlreadyStopped),
    }
}

impl ServerHandle {
    /// The task that is awaited, where there is one.
    pub closed spec fn task(self) -> Option<JoinHandle<()>> {
        self.handle
    }

    /// Puts together the handle of a server that was started: the sender of
    /// its stop signal, and its task.
    pub fn new(stop_sender: Sender<()>, handle: Option<JoinHandle<()>>) -> (out: Self)
        ensures
            out.task() == handle,
    {
        ServerHandle { stop_sender, handle }
    }

    /// Asks the server to stop, and hands out the task to await. Where the
    /// server has stopped already, or there is no task, this is an error.
    pub fn stop(self) -> (out: Result<JoinHandle<()>, Error>)
        ensures
            exists|sent: bool| stop_view(out) == #[trigger] stopping(sent, self.task()),
    {
        let mut sender = self.stop_sender;
        let sent = try_send_stop(&mut sender);
        stop_outcome(sent, self.handle)
    }

    /// Takes the handle apart: the sender of the stop signal, and the task.
    pub fn into_parts(self) -> (out: (Sender<()>, Option<JoinHandle<()>>))
        ensures
            out.1 == self.task(),
    {
        (self.stop_sender, self.handle)
    }
}

} // verus!
