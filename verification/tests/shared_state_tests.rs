use future_cell::Future;
use future_cell::State;

#[test]
fn shared_state_roundtrip() {
    let mut fut = Future::<u8, u32>::with_state(3);
    assert_eq!(fut.get_shared_state(), 3);
    fut.set_shared_state(9);
    assert_eq!(fut.get_shared_state(), 9);
}

#[test]
fn shared_state_outlives_lifecycle() {
    let mut fut = Future::<u8, u32>::with_state(1);
    fut.set(7).unwrap();
    assert_eq!(fut.get().unwrap(), 7);
    fut.set_shared_state(2);
    assert_eq!(fut.get_shared_state(), 2);
    let mut canceled = Future::<u8, u32>::with_state(1);
    canceled.cancel();
    canceled.set_shared_state(5);
    assert_eq!(canceled.get_shared_state(), 5);
    assert_eq!(canceled.get_state(), State::Canceled);
}

#[test]
fn access_shared_state_updates_in_place() {
    let mut fut = Future::<u8, u32>::with_state(3);
    fut.access_shared_state(|progress| progress + 1);
    assert_eq!(fut.get_shared_state(), 4);
    assert_eq!(fut.get_state(), State::Waiting);
}

#[test]
fn access_shared_state_param_threads_value() {
    let mut fut = Future::<u8, u32>::with_state(3);
    fut.access_shared_state_param(|progress, step| progress + step, 10);
    assert_eq!(fut.get_shared_state(), 13);
}
