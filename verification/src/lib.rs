//! A JSON-RPC 2.0 request-processing engine for an HTTP transport.
//!
//! The crate holds the decisions of the server: which HTTP requests pass the
//! access-control check, how a body is classified as a call, a notification or
//! a batch, what each call is answered with, and how the answers are put
//! together into one HTTP reply. Reading from and writing to the network, and
//! running the futures of asynchronous handlers, is left to the caller.
//!
//! A request takes this way through the modules:
//!
//! 1. [`access`] reads the headers ([`headers`]) and decides whether the
//!    request is refused, answered at once, processed or sent to the health
//!    endpoint.
//! 2. [`request`] reads the body as JSON-RPC.
//! 3. [`processor`] dispatches each call to its method ([`registry`]) and
//!    collects the answers ([`envelope`]); [`health`] does the same for the
//!    one call of the health endpoint.
//! 4. [`response`] makes the HTTP reply.
//!
//! [`server`] holds the configuration and the life cycle, [`middleware`] the
//! hooks by which a server is observed.

pub mod access;
pub mod envelope;
pub mod error;
pub mod headers;
pub mod health;
pub mod ident;
pub mod middleware;
pub mod processor;
pub mod registry;
pub mod request;
pub mod response;
pub mod server;
