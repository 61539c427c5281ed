//! The provenance-tracking notifier: a wake-notification target that remembers
//! which scheduler instance it was created for, checks every trigger against
//! that identity, and relays the trigger to the currently registered outer
//! notification handle.

use vstd::prelude::*;

verus! {

/// `std::task::Waker` is the opaque notification handle a scheduler hands to a
/// suspended computation; this crate only stores and forwards such handles.
#[verifier::external_type_specification]
#[verifier::external_body]
pub struct ExWaker(std::task::Waker);

/// `futures_util::task::AtomicWaker` is the single-slot, overwrite-safe holder
/// for the most recently registered waker. Its sequential slot behaviour is
/// modelled in `crate::protocol`; its concurrent no-lost-wake guarantee is
/// trusted as documented by `futures_util`.
#[verifier::external_type_specification]
#[verifier::external_body]
pub struct ExAtomicWaker(futures_util::task::AtomicWaker);

/// Relies on `futures_util::task::AtomicWaker::new`: returns a holder whose
/// slot is empty, so a trigger before any registration wakes nothing.
pub assume_specification[ futures_util::task::AtomicWaker::new ]() -> (r:
    futures_util::task::AtomicWaker);

/// Relies on `futures_util::task::AtomicWaker::register`: stores a clone of
/// `waker` in the slot, replacing any previous occupant; a concurrent wake is
/// never lost (the newly or previously registered waker observes it).
pub assume_specification[ futures_util::task::AtomicWaker::register ](
    holder: &futures_util::task::AtomicWaker,
    waker: &std::task::Waker,
);

/// Relies on `futures_util::task::AtomicWaker::wake`: wakes the last waker
/// passed to `register`, taking it out of the slot; does nothing, and does not
/// panic, when no waker is registered.
pub assume_specification[ futures_util::task::AtomicWaker::wake ](
    holder: &futures_util::task::AtomicWaker,
);

/// Relies on `tokio::runtime::Handle::try_current` and `Handle::id`: returns
/// the numeric identity of the scheduler instance servicing the calling
/// thread, or `None` when the call runs outside every scheduler instance.
/// The result depends on the calling context alone, so nothing is promised
/// of it.
#[verifier::external_body]
fn ambient_identity() -> Option<u64> {
    let handle = tokio::runtime::Handle::try_current().ok()?;
    handle.id().to_string().parse::<u64>().ok()
}

/// One cross-scheduler wake, as detected by a trigger on a
/// provenance-tracking notifier: a wake for a computation bound to scheduler
/// instance `expected` arrived from a context owned by scheduler instance
/// `observed`.
#[derive(Clone, Copy, Debug, PartialEq, Eq, Structural)]
pub struct MismatchReport {
    /// The identity the notifier was bound to at construction.
    pub expected: u64,
    /// The identity of the scheduler instance the trigger ran inside.
    pub observed: u64,
}

/// What a trigger on a notifier bound to `bound` reports when it runs inside
/// the scheduler instance `observed` (`None`: not inside any instance).
/// A mismatch is flagged only for a different, known identity; a trigger from
/// outside every scheduler instance has no identity to compare against.
pub open spec fn wake_mismatch(bound: u64, observed: Option<u64>) -> Option<MismatchReport> {
    match observed {
        Some(current) => if current != bound {
            Some(MismatchReport { expected: bound, observed: current })
        } else {
            None
        },
        None => None,
    }
}

/// The provenance-tracking notifier: a fixed scheduler-instance identity plus
/// a single-slot holder for the most recently supplied outer waker.
pub struct WakeWarner {
    runtime_id: u64,
    waker: futures_util::task::AtomicWaker,
}

impl WakeWarner {
    /// The scheduler-instance identity this notifier is bound to; fixed at
    /// construction and never mutated.
    pub closed spec fn id(&self) -> u64 {
        self.runtime_id
    }

    /// Construct a notifier bound to `runtime_id`, with an empty waker slot
    /// and no side effects.
    pub fn new(runtime_id: u64) -> (r: WakeWarner)
        ensures
            r.id() == runtime_id,
    {
        WakeWarner { runtime_id, waker: futures_util::task::AtomicWaker::new() }
    }

    /// The identity this notifier is bound to.
    pub fn runtime_id(&self) -> (r: u64)
        ensures
            r == self.id(),
    {
        self.runtime_id
    }

    /// Store `outer` in the single slot, replacing any previous occupant.
    /// May be called repeatedly; safe to call concurrently with a trigger,
    /// which then wakes either the new or the previous occupant.
    pub fn register(&self, outer: &std::task::Waker) {
        self.waker.register(outer);
    }

    /// Trigger this notifier from a context whose scheduler-instance identity
    /// is `observed` (`None`: the triggering context runs outside every
    /// scheduler instance). Returns the mismatch report exactly when
    /// `observed` is a known identity different from the bound one, and
    /// unconditionally relays the wake to the registered outer waker, if any:
    /// the check is advisory and never suppresses or delays the wake.
    pub fn trigger(&self, observed: Option<u64>) -> (r: Option<MismatchReport>)
        ensures
            r == wake_mismatch(self.id(), observed),
    {
        let report = match observed {
            Some(current) => if current != self.runtime_id {
                Some(MismatchReport { expected: self.runtime_id, observed: current })
            } else {
                None
            },
            None => None,
        };
        self.waker.wake();
        report
    }

    /// Trigger this notifier from whatever context the call happens to run
    /// in: look up the identity of the scheduler instance servicing the
    /// calling thread, if any, and trigger with it. Whatever that lookup
    /// yields, a returned report always pairs the bound identity with a
    /// different, known one, and the wake is relayed unconditionally.
    pub fn trigger_ambient(&self) -> (r: Option<MismatchReport>)
        ensures
            r matches Some(m) ==> m.expected == self.id() && m.observed != self.id(),
    {
        let observed = ambient_identity();
        self.trigger(observed)
    }
}

} // verus!
