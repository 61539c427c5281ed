//! The instrumented computation wrapper: a decorator around an arbitrary
//! asynchronous computation that substitutes the wake-notification channel
//! the computation observes, so that every wake passes through a
//! provenance-tracking notifier bound to the scheduler instance the
//! computation was wrapped for.

use std::sync::Arc;

use vstd::prelude::*;

use crate::notifier::WakeWarner;

verus! {

/// An arbitrary computation `f`, wrapped for one scheduler instance, together
/// with a shared handle to the provenance-tracking notifier bound to that
/// instance. The wrapper never touches `f` itself: driving it is delegated to
/// the host, which on each drive call first registers the outer waker here
/// and then resumes `f` with a handle that triggers the notifier.
pub struct WakeInstrumented<F> {
    /// The inner computation, stored unchanged and exclusively owned.
    pub f: F,
    /// The notifier every wake of `f` is routed through, shared with any
    /// pending wake registration that may outlive the wrapper.
    pub warner: Arc<WakeWarner>,
}

/// Wrap `f` for the scheduler instance identified by `scheduler_id`: record
/// the identity in a fresh provenance-tracking notifier and embed `f`
/// unchanged. No driving of `f` occurs here.
pub fn instrument<F>(scheduler_id: u64, f: F) -> (r: WakeInstrumented<F>)
    ensures
        r.f == f,
        r.warner.id() == scheduler_id,
{
    WakeInstrumented { f, warner: Arc::new(WakeWarner::new(scheduler_id)) }
}

impl<F> WakeInstrumented<F> {
    /// The identity of the scheduler instance this wrapper was created for.
    pub fn identity(&self) -> (r: u64)
        ensures
            r == self.warner.id(),
    {
        self.warner.runtime_id()
    }

    /// The first half of a drive call: register the outer waker supplied by
    /// the driving scheduler with the tracking notifier, replacing any
    /// previously registered one, so that the wake the inner computation
    /// later requests is relayed to the channel the scheduler is currently
    /// listening on.
    pub fn register_outer(&self, outer: &std::task::Waker) {
        self.warner.register(outer);
    }
}

} // verus!
