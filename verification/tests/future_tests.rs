use future_cell::Future;
use future_cell::State;

#[test]
fn double_set_err() {
    let mut fut = Future::<u8>::new();
    fut.set(7).unwrap();
    assert_eq!(fut.set(77).unwrap_err(), State::Ready)
}

#[test]
fn cancel_set_err() {
    let mut fut = Future::<u8>::new();
    fut.cancel();
    assert_eq!(fut.set(7).unwrap_err(), State::Canceled)
}

#[test]
fn construct_is_waiting() {
    let fut = Future::<u8>::new();
    assert_eq!(fut.get_state(), State::Waiting);
    assert!(fut.is_waiting());
}

#[test]
fn set_then_get_then_consumed() {
    let mut fut = Future::<u8>::new();
    assert_eq!(fut.get_state(), State::Waiting);
    fut.set(7).unwrap();
    assert_eq!(fut.get_state(), State::Ready);
    assert!(!fut.is_waiting());
    assert_eq!(fut.get().unwrap(), 7);
    assert_eq!(fut.get_state(), State::Consumed);
    assert_eq!(fut.try_get().unwrap_err(), State::Consumed);
}

#[test]
fn cancel_then_get_canceled() {
    let mut fut = Future::<u8>::new();
    fut.cancel();
    assert_eq!(fut.get().unwrap_err(), State::Canceled);
    assert_eq!(fut.get_state(), State::Canceled);
}

#[test]
fn cancel_is_idempotent() {
    let mut fut = Future::<u8>::new();
    fut.cancel();
    fut.cancel();
    assert_eq!(fut.get_state(), State::Canceled);
}

#[test]
fn cancel_after_set_is_noop() {
    let mut fut = Future::<u8>::new();
    fut.set(7).unwrap();
    fut.cancel();
    assert_eq!(fut.get_state(), State::Ready);
    assert_eq!(fut.get().unwrap(), 7);
}

#[test]
fn try_get_waiting_err() {
    let mut fut = Future::<u8>::new();
    assert_eq!(fut.try_get().unwrap_err(), State::Waiting);
    assert_eq!(fut.get_state(), State::Waiting);
}

#[test]
fn try_get_timeout_waiting_err() {
    let mut fut = Future::<u8>::new();
    assert_eq!(fut.try_get_timeout(50_000_000).unwrap_err(), State::Waiting);
    assert_eq!(fut.get_state(), State::Waiting);
}

#[test]
fn try_get_timeout_delivers() {
    let mut fut = Future::<u8>::new();
    fut.set(7).unwrap();
    assert_eq!(fut.try_get_timeout(50_000_000).unwrap(), 7);
    assert_eq!(fut.get_state(), State::Consumed);
}

#[test]
fn deliver_exactly_once() {
    let mut fut = Future::<u32>::new();
    fut.set(42).unwrap();
    assert_eq!(fut.try_get().unwrap(), 42);
    assert_eq!(fut.try_get().unwrap_err(), State::Consumed);
    assert_eq!(fut.try_get_timeout(1).unwrap_err(), State::Consumed);
    assert_eq!(fut.get().unwrap_err(), State::Consumed);
}

#[test]
fn set_after_consume_err() {
    let mut fut = Future::<u8>::new();
    fut.set(7).unwrap();
    assert_eq!(fut.get().unwrap(), 7);
    assert_eq!(fut.set(8).unwrap_err(), State::Consumed);
}
