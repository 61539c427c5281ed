//! Diagnostic instrumentation for asynchronous computations driven by a
//! cooperative scheduler: detect wakes that arrive from a scheduler instance
//! other than the one a computation was wrapped for, and report them without
//! ever suppressing or delaying the wake itself.

pub mod notifier;
pub mod protocol;
pub mod wrapper;

pub use notifier::MismatchReport;
pub use notifier::WakeWarner;
pub use wrapper::WakeInstrumented;
pub use wrapper::instrument;
