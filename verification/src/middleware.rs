//! Hooks that observe the life of a request. They see what the server does
//! and change none of it.

use vstd::prelude::*;

verus! {

/// The observer of a server. A hook is called at each of the four points of
/// a request's life; what it does there is its own business.
pub trait Middleware {
    /// What `on_request` hands out and the later hooks get back: as a rule,
    /// the time at which the request came in.
    type Instant: Copy;

    /// A request has been read.
    fn on_request(&self) -> Self::Instant;

    /// A call of the method `name` is about to be dispatched.
    fn on_call(&self, name: &str);

    /// A call of the method `name` has been answered.
    fn on_result(&self, name: &str, success: bool, started_at: Self::Instant);

    /// The reply to the request is ready.
    fn on_response(&self, started_at: Self::Instant);
}

/// What the observer that observes nothing hands out.
#[derive(Debug, Clone, Copy)]
pub struct Unmeasured;

impl Middleware for () {
    type Instant = Unmeasured;

    fn on_request(&self) -> Self::Instant {
        Unmeasured
    }

    fn on_call(&self, _name: &str) {
    }

    fn on_result(&self, _name: &str, _success: bool, _started_at: Self::Instant) {
    }

    fn on_response(&self, _started_at: Self::Instant) {
    }
}

} // verus!
