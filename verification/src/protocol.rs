//! A sequential model of the notifier protocol, and the laws proved over it.
//!
//! The executable notifier routes wakes through a concurrent single-slot
//! holder whose interior the verifier cannot observe, so the slot's
//! register/trigger discipline is stated here over a ghost state: the bound
//! scheduler identity, the slot's occupant, the history of handles woken so
//! far, and the mismatch reports recorded so far. `trigger_step` records a
//! mismatch by the same `wake_mismatch` function that the executable
//! `WakeWarner::trigger` is proved to return.

use vstd::prelude::*;

use crate::notifier::MismatchReport;
use crate::notifier::wake_mismatch;

verus! {

/// The sequential state of one provenance-tracking notifier. Outer wakers
/// are modelled as plain handles (`u64`): the notifier never looks inside a
/// waker, it only stores, replaces and fires it.
pub struct NotifierState {
    /// The scheduler-instance identity the notifier is bound to.
    pub bound: u64,
    /// The single-slot holder: the most recently registered handle, if any.
    pub slot: Option<u64>,
    /// Every handle woken so far, in order.
    pub woken: Seq<u64>,
    /// Every mismatch recorded so far, in order.
    pub mismatches: Seq<MismatchReport>,
}

/// A fresh notifier bound to `bound`: empty slot, nothing woken, nothing
/// recorded.
pub open spec fn init(bound: u64) -> NotifierState {
    NotifierState { bound, slot: None, woken: Seq::empty(), mismatches: Seq::empty() }
}

/// Registering `handle` stores it in the slot, replacing any previous
/// occupant; nothing is woken and nothing is recorded.
pub open spec fn register_step(s: NotifierState, handle: u64) -> NotifierState {
    NotifierState { slot: Some(handle), ..s }
}

/// Triggering from a context whose scheduler identity is `observed` wakes
/// the slot's occupant, if any, taking it out of the slot, and records a
/// mismatch exactly when `observed` is a known identity different from the
/// bound one.
pub open spec fn trigger_step(s: NotifierState, observed: Option<u64>) -> NotifierState {
    NotifierState {
        bound: s.bound,
        slot: None,
        woken: match s.slot {
            Some(handle) => s.woken.push(handle),
            None => s.woken,
        },
        mismatches: match wake_mismatch(s.bound, observed) {
            Some(report) => s.mismatches.push(report),
            None => s.mismatches,
        },
    }
}

/// One event in the life of a notifier.
pub enum NotifierEvent {
    /// An outer handle is registered.
    Register { handle: u64 },
    /// The notifier is triggered from a context whose scheduler identity is
    /// `observed`.
    Trigger { observed: Option<u64> },
}

/// The effect of one event.
pub open spec fn step(s: NotifierState, e: NotifierEvent) -> NotifierState {
    match e {
        NotifierEvent::Register { handle } => register_step(s, handle),
        NotifierEvent::Trigger { observed } => trigger_step(s, observed),
    }
}

/// The state after a whole sequence of events, applied in order.
pub open spec fn run(s: NotifierState, events: Seq<NotifierEvent>) -> NotifierState
    decreases events.len(),
{
    if events.len() == 0 {
        s
    } else {
        run(step(s, events[0]), events.drop_first())
    }
}

/// No dropped wake: a trigger that follows a registration of `handle` wakes
/// exactly that handle — the woken history is extended by `handle`, whatever
/// the triggering context's identity is.
pub proof fn lemma_no_dropped_wake(s: NotifierState, handle: u64, observed: Option<u64>)
    ensures
        trigger_step(register_step(s, handle), observed).woken == s.woken.push(handle),
{
}

/// Idempotent registration, latest wins: registering `first` and then
/// `second` before any trigger leaves only `second` to be woken, and the
/// superseded `first` is never silently triggered.
pub proof fn lemma_latest_registration_wins(
    s: NotifierState,
    first: u64,
    second: u64,
    observed: Option<u64>,
)
    ensures
        trigger_step(register_step(register_step(s, first), second), observed).woken == s.woken.push(
            second,
        ),
        first != second && !s.woken.contains(first) ==> !trigger_step(
            register_step(register_step(s, first), second),
            observed,
        ).woken.contains(first),
{
}

/// Null-registration trigger: a trigger on a fresh notifier, with no prior
/// registration, wakes nothing and leaves the slot empty — a safe no-op on
/// the wake side.
pub proof fn lemma_null_registration_trigger(bound: u64, observed: Option<u64>)
    ensures
        trigger_step(init(bound), observed).woken == Seq::<u64>::empty(),
        trigger_step(init(bound), observed).slot is None,
{
}

/// Mismatch detection: a trigger from a context inside a scheduler instance
/// `current` different from the bound identity records exactly one mismatch,
/// pairing the bound identity with the observed one; a trigger from the bound
/// identity itself, or from outside every scheduler instance, records none.
pub proof fn lemma_mismatch_detection(s: NotifierState, current: u64)
    ensures
        current != s.bound ==> trigger_step(s, Some(current)).mismatches == s.mismatches.push(
            MismatchReport { expected: s.bound, observed: current },
        ),
        current == s.bound ==> trigger_step(s, Some(current)).mismatches == s.mismatches,
        trigger_step(s, None).mismatches == s.mismatches,
{
}

/// An event that cannot witness a cross-scheduler wake: a registration, or a
/// trigger whose context is the bound identity itself or no scheduler
/// instance at all.
pub open spec fn same_identity_event(bound: u64, e: NotifierEvent) -> bool {
    e matches NotifierEvent::Trigger { observed } ==> (observed is None || observed == Some(bound))
}

/// No false positives under same-identity reentry: a run of register and
/// trigger events whose triggers all come from the bound identity, or from
/// outside every scheduler instance, records no mismatch, however long the
/// run and however the registrations and triggers interleave.
pub proof fn lemma_same_identity_run_is_silent(s: NotifierState, events: Seq<NotifierEvent>)
    requires
        s.mismatches.len() == 0,
        forall|i: int| 0 <= i < events.len() ==> same_identity_event(s.bound, #[trigger] events[i]),
    ensures
        run(s, events).mismatches.len() == 0,
    decreases events.len(),
{
    if events.len() > 0 {
        let s1 = step(s, events[0]);
        assert forall|i: int| 0 <= i < events.drop_first().len() implies same_identity_event(
            s1.bound,
            #[trigger] events.drop_first()[i],
        ) by {
            assert(events.drop_first()[i] == events[i + 1]);
            assert(same_identity_event(s.bound, events[i + 1]));
        }
        lemma_same_identity_run_is_silent(s1, events.drop_first());
    }
}

} // verus!
