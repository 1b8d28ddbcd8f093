//! The single-assignment result container and its operations.
//!
//! This core owns one container exclusively: every operation takes the
//! container by reference and is specified against the model in
//! [`crate::lifecycle`]. A threaded shell outside the verified boundary
//! shares one container among several handles behind a lock, drives the
//! blocking waits on a condition variable, and applies the release decision
//! of [`crate::lifecycle::should_cancel_on_release`] when a handle is
//! dropped.

use vstd::prelude::*;

use crate::lifecycle::FutureModel;
use crate::lifecycle::State;

verus! {

/// A single-assignment result container with an auxiliary shared value.
///
/// `T` is the result's type; `U` is the auxiliary value's type. The
/// invariant [`FutureModel::wf`] — a result is stored exactly while the
/// state is `Ready` — is established by the constructors and preserved by
/// every operation.
pub struct Future<T, U = ()> {
    state: State,
    value: Option<T>,
    shared_state: U,
    cancel_on_drop: bool,
}

impl<T, U> View for Future<T, U> {
    type V = FutureModel<T, U>;

    closed spec fn view(&self) -> FutureModel<T, U> {
        FutureModel {
            state: self.state,
            value: self.value,
            shared_state: self.shared_state,
            cancel_on_drop: self.cancel_on_drop,
        }
    }
}

impl<T, U> Future<T, U> {
    /// Creates a new container in the `Waiting` state, eligible for
    /// automatic cancellation, with `shared_state` as the auxiliary value.
    pub fn with_state(shared_state: U) -> (fut: Future<T, U>)
        ensures
            fut@ == FutureModel::<T, U>::fresh(shared_state),
            fut@.wf(),
    {
        Future {
            state: State::Waiting,
            value: None,
            shared_state: shared_state,
            cancel_on_drop: true,
        }
    }

    /// Sets the future's result.
    ///
    /// Succeeds only while the state is `Waiting`, storing the value and
    /// moving the state to `Ready`; otherwise fails without side effects and
    /// reports the current state, letting the caller tell "already
    /// delivered" from "already canceled".
    pub fn set(&mut self, result: T) -> (outcome: Result<(), State>)
        requires
            old(self)@.wf(),
        ensures
            final(self)@ == old(self)@.after_set(result),
            outcome == old(self)@.set_outcome(),
            final(self)@.wf(),
    {
        if self.state != State::Waiting {
            return Err(self.state);
        }
        self.state = State::Ready;
        self.value = Some(result);
        Ok(())
    }

    /// Cancels (poisons) the future.
    ///
    /// From `Waiting` the state moves to `Canceled`; from any other state
    /// this is a no-op. Cancellation is best-effort and never fails: it
    /// marks the container obsolete so that no result should be set anymore.
    pub fn cancel(&mut self)
        requires
            old(self)@.wf(),
        ensures
            final(self)@ == old(self)@.after_cancel(),
            final(self)@.wf(),
    {
        if self.state == State::Waiting {
            self.state = State::Canceled;
        }
    }

    /// Returns the future's current state, without mutation.
    pub fn get_state(&self) -> (state: State)
        ensures
            state == self@.state,
    {
        self.state
    }

    /// Whether the future is still waiting to be set or canceled — the
    /// polling predicate a background job uses to ask "should I keep
    /// working?".
    pub fn is_waiting(&self) -> (waiting: bool)
        ensures
            waiting == (self@.state == State::Waiting),
    {
        self.get_state() == State::Waiting
    }

    /// Tries to get the future's result, without blocking.
    ///
    /// If the state is `Ready` the result is consumed and returned; in the
    /// same step the state moves to `Consumed`, so no later attempt can
    /// obtain the value again. Otherwise the current state is reported as
    /// the error.
    pub fn try_get(&mut self) -> (outcome: Result<T, State>)
        requires
            old(self)@.wf(),
        ensures
            final(self)@ == old(self)@.after_extract(),
            outcome == old(self)@.extract_outcome(),
            final(self)@.wf(),
    {
        self.extract_payload()
    }

    /// Tries to get the future's result, with a deadline on the wait.
    ///
    /// In the shared setting the caller sleeps on the condition variable
    /// until the state leaves `Waiting` or the deadline elapses, recomputing
    /// the remaining time underflow-safe with
    /// [`crate::timing::time_remaining`] before every wait, then consumes by
    /// the extraction rule. This core owns its container exclusively, so no
    /// transition can arrive while the call runs: the outcome is decided at
    /// once by the extraction rule, never later than the deadline. `timeout`
    /// is in the ticks of the shell's clock.
    pub fn try_get_timeout(&mut self, timeout: u64) -> (outcome: Result<T, State>)
        requires
            old(self)@.wf(),
        ensures
            final(self)@ == old(self)@.after_extract(),
            outcome == old(self)@.extract_outcome(),
            final(self)@.wf(),
    {
        let _ = timeout;
        self.extract_payload()
    }

    /// Gets the future's result once the state has left `Waiting`.
    ///
    /// In the shared setting this operation blocks until a set, a cancel, or
    /// a release-triggered cancel ends the wait, then consumes by the
    /// extraction rule. This core owns its container exclusively, so nothing
    /// could ever end such a wait: it asks the wait to have happened — the
    /// shell sleeps on its condition variable while `is_waiting` holds and
    /// consumes only after the state has left `Waiting`.
    pub fn get(&mut self) -> (outcome: Result<T, State>)
        requires
            old(self)@.wf(),
            old(self)@.state != State::Waiting,
        ensures
            final(self)@ == old(self)@.after_extract(),
            outcome == old(self)@.extract_outcome(),
            final(self)@.wf(),
    {
        self.extract_payload()
    }

    /// Gets a clone of the current auxiliary shared value.
    pub fn get_shared_state(&self) -> (copy: U) where U: Clone
        ensures
            vstd::pervasive::cloned(self@.shared_state, copy),
    {
        self.shared_state.clone()
    }

    /// Replaces the auxiliary shared value wholesale. The result's lifecycle
    /// is untouched: the auxiliary value is independent of it and may be
    /// replaced at any stage.
    pub fn set_shared_state(&mut self, shared_state: U)
        ensures
            final(self)@ == (FutureModel { shared_state: shared_state, ..old(self)@ }),
    {
        self.shared_state = shared_state;
    }

    /// Gives `modifier` exclusive access to the auxiliary shared value: it
    /// reads the current value and the value it returns replaces it. The
    /// result's lifecycle is untouched.
    pub fn access_shared_state<F: FnOnce(&U) -> U>(&mut self, modifier: F)
        requires
            call_requires(modifier, (&old(self).view().shared_state,)),
        ensures
            final(self)@.state == old(self)@.state,
            final(self)@.value == old(self)@.value,
            final(self)@.cancel_on_drop == old(self)@.cancel_on_drop,
            call_ensures(modifier, (&old(self).view().shared_state,), final(self)@.shared_state),
    {
        let next = modifier(&self.shared_state);
        self.shared_state = next;
    }

    /// As [`Future::access_shared_state`], additionally threading one extra
    /// input value into `modifier`, for callers that would otherwise need a
    /// capturing closure.
    pub fn access_shared_state_param<V, F: FnOnce(&U, V) -> U>(&mut self, modifier: F, parameter: V)
        requires
            call_requires(modifier, (&old(self).view().shared_state, parameter)),
        ensures
            final(self)@.state == old(self)@.state,
            final(self)@.value == old(self)@.value,
            final(self)@.cancel_on_drop == old(self)@.cancel_on_drop,
            call_ensures(
                modifier,
                (&old(self).view().shared_state, parameter),
                final(self)@.shared_state,
            ),
    {
        let next = modifier(&self.shared_state, parameter);
        self.shared_state = next;
    }

    /// Detaches the future: permanently disables automatic cancellation on
    /// handle release. Useful when a handle is deliberately kept where
    /// "last holder" accounting is meaningless, or when cancellation on
    /// release is categorically unwanted.
    pub fn detach(&mut self)
        ensures
            final(self)@ == old(self)@.after_detach(),
    {
        self.cancel_on_drop = false;
    }

    /// The one extraction rule every consuming operation funnels through:
    /// a `Ready` container surrenders its value and is consumed in the same
    /// step; any other container reports its current state as the error.
    fn extract_payload(&mut self) -> (outcome: Result<T, State>)
        requires
            old(self)@.wf(),
        ensures
            final(self)@ == old(self)@.after_extract(),
            outcome == old(self)@.extract_outcome(),
            final(self)@.wf(),
    {
        if self.state == State::Ready {
            self.state = State::Consumed;
            if let Some(value) = self.value.take() {
                return Ok(value);
            }
        }
        Err(self.state)
    }
}

impl<T> Future<T, ()> {
    /// Creates a new container in the `Waiting` state with the unit
    /// auxiliary value.
    pub fn new() -> (fut: Future<T, ()>)
        ensures
            fut@ == FutureModel::<T, ()>::fresh(()),
            fut@.wf(),
    {
        Future::with_state(())
    }
}

} // verus!
