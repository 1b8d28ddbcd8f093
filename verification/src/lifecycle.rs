//! The container's lifecycle: states, legal transitions, and the laws that
//! every container obeys.

use vstd::prelude::*;

verus! {

/// A future's lifecycle state.
#[derive(Clone, Copy, Debug, PartialEq, Eq, Structural)]
pub enum State {
    /// The future is waiting to be set.
    Waiting,
    /// The future has been set and is ready for consumption.
    Ready,
    /// The future has been consumed.
    Consumed,
    /// The future has been canceled.
    Canceled,
}

impl State {
    /// The transition relation of the lifecycle: a container may only move
    /// from `Waiting` to `Ready`, from `Waiting` to `Canceled`, or from
    /// `Ready` to `Consumed`. `Consumed` and `Canceled` are terminal, and
    /// nothing re-enters `Waiting`.
    pub open spec fn can_step_to(self, to: State) -> bool {
        ||| (self == State::Waiting && to == State::Ready)
        ||| (self == State::Waiting && to == State::Canceled)
        ||| (self == State::Ready && to == State::Consumed)
    }
}

/// The mathematical model of one container: its lifecycle state, the stored
/// result (present exactly while the state is `Ready`), the auxiliary shared
/// value, and the one-way cancellation-eligibility flag.
pub struct FutureModel<T, U> {
    pub state: State,
    pub value: Option<T>,
    pub shared_state: U,
    pub cancel_on_drop: bool,
}

impl<T, U> FutureModel<T, U> {
    /// The container's invariant: a result value is stored if and only if
    /// the state is exactly `Ready`.
    pub open spec fn wf(self) -> bool {
        self.value is Some <==> self.state == State::Ready
    }

    /// A freshly constructed container: waiting, empty, eligible for
    /// automatic cancellation.
    pub open spec fn fresh(shared_state: U) -> FutureModel<T, U> {
        FutureModel {
            state: State::Waiting,
            value: None,
            shared_state: shared_state,
            cancel_on_drop: true,
        }
    }

    /// What `set` reports: success only from `Waiting`, otherwise the
    /// current state, unchanged, as the error.
    pub open spec fn set_outcome(self) -> Result<(), State> {
        if self.state == State::Waiting {
            Ok(())
        } else {
            Err(self.state)
        }
    }

    /// The container after `set(value)`: from `Waiting` it becomes `Ready`
    /// and stores the value; from any other state it is untouched.
    pub open spec fn after_set(self, value: T) -> FutureModel<T, U> {
        if self.state == State::Waiting {
            FutureModel { state: State::Ready, value: Some(value), ..self }
        } else {
            self
        }
    }

    /// The container after `cancel`: from `Waiting` it becomes `Canceled`;
    /// from any other state cancellation is a no-op.
    pub open spec fn after_cancel(self) -> FutureModel<T, U> {
        if self.state == State::Waiting {
            FutureModel { state: State::Canceled, ..self }
        } else {
            self
        }
    }

    /// What the one extraction rule reports: the stored value if the state
    /// is `Ready`, otherwise the current state as the error. Every consuming
    /// operation funnels through this rule.
    pub open spec fn extract_outcome(self) -> Result<T, State> {
        if self.state == State::Ready {
            Ok(self.value->Some_0)
        } else {
            Err(self.state)
        }
    }

    /// The container after one extraction attempt: a `Ready` container is
    /// consumed in the same step that surrenders its value; any other
    /// container is untouched.
    pub open spec fn after_extract(self) -> FutureModel<T, U> {
        if self.state == State::Ready {
            FutureModel { state: State::Consumed, value: None, ..self }
        } else {
            self
        }
    }

    /// The container after `detach`: automatic cancellation is disabled,
    /// permanently (the flag only ever moves from true to false).
    pub open spec fn after_detach(self) -> FutureModel<T, U> {
        FutureModel { cancel_on_drop: false, ..self }
    }

    /// The container as observed right after one handle's release: if the
    /// release triggers automatic cancellation the container is canceled,
    /// otherwise it is untouched.
    pub open spec fn after_release(self, live_handles: nat) -> FutureModel<T, U> {
        if release_cancels(live_handles, self.cancel_on_drop) {
            self.after_cancel()
        } else {
            self
        }
    }
}

/// The container as observed after `k` handles have been released one at a
/// time, starting with `live` handles alive; each release is observed with
/// the releasing handle still counted.
pub open spec fn after_release_chain<T, U>(
    m: FutureModel<T, U>,
    live: nat,
    k: nat,
) -> FutureModel<T, U>
    decreases k,
{
    if k == 0 {
        m
    } else {
        after_release_chain(m.after_release(live), (live - 1) as nat, (k - 1) as nat)
    }
}

/// Releases touch nothing but the lifecycle's `Waiting` state: a container
/// that is no longer waiting passes through any chain of releases untouched.
proof fn lemma_release_chain_settled<T, U>(m: FutureModel<T, U>, live: nat, k: nat)
    requires
        m.state != State::Waiting,
    ensures
        after_release_chain(m, live, k) == m,
    decreases k,
{
    if k > 0 {
        lemma_release_chain_settled(m.after_release(live), (live - 1) as nat, (k - 1) as nat);
    }
}

/// Law: dropping handles, without ever setting, cancels exactly on schedule.
/// Starting from a waiting, still-eligible container with `live` handles,
/// releasing `k` of them one at a time leaves the container waiting as long
/// as two or more handles remain — some consumer may still want the result —
/// and has canceled it as soon as a release was observed with at most two
/// alive, that is, once at most one handle remains.
pub proof fn lemma_release_chain_cancels<T, U>(m: FutureModel<T, U>, live: nat, k: nat)
    requires
        m.wf(),
        m.state == State::Waiting,
        m.cancel_on_drop,
        k <= live,
    ensures
        live - k >= 2 ==> after_release_chain(m, live, k) == m,
        live - k < 2 && k >= 1 ==> after_release_chain(m, live, k).state == State::Canceled,
    decreases k,
{
    if k > 0 {
        if live > 2 {
            lemma_release_chain_cancels(m, (live - 1) as nat, (k - 1) as nat);
        } else {
            lemma_release_chain_settled(
                m.after_cancel(),
                (live - 1) as nat,
                (k - 1) as nat,
            );
        }
    }
}

/// Whether releasing a handle triggers automatic cancellation:
/// `live_handles` is the number of handles alive at the moment of release
/// (the releasing handle still counted). Cancellation fires while the
/// container is still eligible and at most two handles remain — the
/// releasing one and, canonically, the job's own.
pub open spec fn release_cancels(live_handles: nat, cancel_on_drop: bool) -> bool {
    cancel_on_drop && live_handles <= 2
}

/// Law: every operation respects the transition relation — a container is
/// either left exactly where it was, or moved along one legal step of
/// [`State::can_step_to`]. In particular no operation leaves `Consumed` or
/// `Canceled`, and none re-enters `Waiting`.
pub proof fn lemma_operations_step_legally<T, U>(m: FutureModel<T, U>, value: T, live_handles: nat)
    ensures
        m.after_set(value).state == m.state || m.state.can_step_to(m.after_set(value).state),
        m.after_cancel().state == m.state || m.state.can_step_to(m.after_cancel().state),
        m.after_extract().state == m.state || m.state.can_step_to(m.after_extract().state),
        m.after_detach().state == m.state,
        m.after_release(live_handles).state == m.state || m.state.can_step_to(
            m.after_release(live_handles).state,
        ),
{
}

/// Law: a second delivery is impossible. After a successful `set` (one on a
/// `Waiting` container), any further `set` fails without side effects and
/// reports `Ready`.
pub proof fn lemma_set_after_set<T, U>(m: FutureModel<T, U>, first: T, second: T)
    requires
        m.wf(),
        m.state == State::Waiting,
    ensures
        m.set_outcome() == Ok::<(), State>(()),
        m.after_set(first).set_outcome() == Err::<(), State>(State::Ready),
        m.after_set(first).after_set(second) == m.after_set(first),
{
}

/// Law: a canceled container refuses delivery. After `cancel` on a container
/// that has not been set (`Waiting`, or already `Canceled`, where cancel is
/// a no-op), `set` fails without side effects and reports `Canceled`.
pub proof fn lemma_set_after_cancel<T, U>(m: FutureModel<T, U>, value: T)
    requires
        m.wf(),
        m.state == State::Waiting || m.state == State::Canceled,
    ensures
        m.after_cancel().set_outcome() == Err::<(), State>(State::Canceled),
        m.after_cancel().after_set(value) == m.after_cancel(),
{
}

/// Law: cancellation ends a wait with a `Canceled` report. Once a waiting
/// container's twin handle cancels it — by an explicit `cancel` or by a
/// release that triggers automatic cancellation — every extraction attempt
/// fails reporting `Canceled`, and the container never changes again.
pub proof fn lemma_extract_after_cancel<T, U>(m: FutureModel<T, U>, live_handles: nat)
    requires
        m.wf(),
        m.state == State::Waiting,
    ensures
        m.after_cancel().extract_outcome() == Err::<T, State>(State::Canceled),
        m.after_cancel().after_extract() == m.after_cancel(),
        release_cancels(live_handles, m.cancel_on_drop) ==> m.after_release(
            live_handles,
        ).extract_outcome() == Err::<T, State>(State::Canceled),
{
}

/// Law: a delivered value is handed out exactly once. After a successful
/// `set`, the next extraction — whichever consuming operation performs it —
/// returns exactly the delivered value, and every extraction after that one
/// fails reporting `Consumed`.
pub proof fn lemma_deliver_exactly_once<T, U>(m: FutureModel<T, U>, value: T)
    requires
        m.wf(),
        m.state == State::Waiting,
    ensures
        m.after_set(value).extract_outcome() == Ok::<T, State>(value),
        m.after_set(value).after_extract().extract_outcome() == Err::<T, State>(State::Consumed),
        m.after_set(value).after_extract().after_extract() == m.after_set(value).after_extract(),
{
}

/// Law: a waiting, still-eligible container is canceled exactly by a release
/// observed with at most two handles alive — canonically the dropping
/// consumer handle plus the one the job retains — and by no other release.
/// A detached container is never canceled this way.
pub proof fn lemma_release_auto_cancel<T, U>(m: FutureModel<T, U>, live_handles: nat)
    requires
        m.wf(),
        m.state == State::Waiting,
    ensures
        m.after_release(live_handles).state == State::Canceled <==> (m.cancel_on_drop
            && live_handles <= 2),
        !m.cancel_on_drop ==> m.after_release(live_handles) == m,
        m.after_detach().after_release(live_handles).state == State::Waiting,
{
}

/// The decision a releasing handle takes, for the shell that owns the
/// reference count: cancel the container exactly when it is still eligible
/// and at most two handles are alive at the moment of release.
pub fn should_cancel_on_release(live_handles: usize, cancel_on_drop: bool) -> (cancel: bool)
    ensures
        cancel == release_cancels(live_handles as nat, cancel_on_drop),
{
    cancel_on_drop && live_handles <= 2
}

} // verus!
