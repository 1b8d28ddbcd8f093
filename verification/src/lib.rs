//! A single-assignment result container ("future") with a four-state
//! lifecycle, an independently guarded auxiliary value, and a
//! reference-count-driven automatic-cancellation rule.
//!
//! The verified core is the lifecycle state machine: every transition of a
//! container, the extraction rule that delivers a stored result exactly
//! once, the decision that a handle release takes, and the underflow-safe
//! deadline arithmetic of the timed wait. A threaded shell that shares one
//! container among several handles drives this core from outside the
//! verified boundary.

pub mod future;
pub mod lifecycle;
pub mod timing;

pub use future::Future;
pub use lifecycle::FutureModel;
pub use lifecycle::State;
pub use lifecycle::should_cancel_on_release;
pub use timing::time_remaining;
