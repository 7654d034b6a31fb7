use overbot::registry::{CloneStep, DashTypeMap, DashTypeMapErrors, WaitPoll};

const POOL: u64 = 1;
const OTHER: u64 = 2;

#[test]
fn insert_then_with_returns_value() {
    let mut reg = DashTypeMap::new();
    assert_eq!(reg.insert(POOL, 42), Ok(()));
    assert_eq!(reg.with(POOL, |v: &u64| *v), Ok(42));
    assert_eq!(reg.insert(POOL, 7), Err(DashTypeMapErrors::AlreadyExists));
    assert_eq!(reg.with(POOL, |v: &u64| *v), Ok(42));
}

#[test]
fn remove_on_empty_fails() {
    let mut reg = DashTypeMap::new();
    assert_eq!(reg.remove(POOL), Err(DashTypeMapErrors::DoesNotExist));
}

#[test]
fn remove_after_insert_then_with_fails() {
    let mut reg = DashTypeMap::new();
    reg.insert(POOL, 5).unwrap();
    assert_eq!(reg.remove(POOL), Ok(5));
    assert_eq!(reg.with(POOL, |v: &u64| *v), Err(DashTypeMapErrors::DoesNotExist));
    assert!(!reg.contains_key(POOL));
    assert!(reg.as_dashmap().is_empty());
}

#[test]
fn unrelated_keys_are_independent() {
    let mut reg = DashTypeMap::new();
    reg.insert(POOL, 1).unwrap();
    reg.insert(OTHER, 2).unwrap();
    assert_eq!(reg.remove(OTHER), Ok(2));
    assert_eq!(reg.clone_if_arc(POOL), Ok(1));
    assert_eq!(reg.clone_if_arc(OTHER), Err(DashTypeMapErrors::DoesNotExist));
}

#[test]
fn with_mut_replaces_value() {
    let mut reg = DashTypeMap::new();
    assert_eq!(reg.with_mut(POOL, |v: u64| (v + 1, v)), Err(DashTypeMapErrors::DoesNotExist));
    reg.insert(POOL, 10).unwrap();
    assert_eq!(reg.with_mut(POOL, |v: u64| (v + 1, v * 2)), Ok(20));
    assert_eq!(reg.clone_if_arc(POOL), Ok(11));
}

#[test]
fn waiter_poll_decisions() {
    let mut reg = DashTypeMap::new();
    assert_eq!(reg.poll_waiter(POOL, true, false), WaitPoll::Pending);
    assert_eq!(reg.poll_waiter(POOL, true, true), WaitPoll::Ready(false));
    assert_eq!(reg.poll_waiter(POOL, false, false), WaitPoll::Ready(true));
    reg.insert(POOL, 3).unwrap();
    assert_eq!(reg.poll_waiter(POOL, true, true), WaitPoll::Ready(true));
    assert_eq!(reg.poll_waiter(POOL, false, false), WaitPoll::Pending);
    assert_eq!(reg.poll_waiter(POOL, false, true), WaitPoll::Ready(false));
}

#[test]
fn wait_clone_sees_later_insert() {
    let mut reg = DashTypeMap::new();
    let first = reg.wait_clone_step(POOL, true);
    assert_eq!(first, CloneStep::WaitForExistence);
    assert_eq!(first.outcome(), None);
    reg.insert(POOL, 99).unwrap();
    assert_eq!(reg.poll_waiter(POOL, true, false), WaitPoll::Ready(true));
    let second = reg.wait_clone_step(POOL, true);
    assert_eq!(second, CloneStep::Cloned(99));
    assert_eq!(second.outcome(), Some(Ok(99)));
    assert_eq!(reg.clone_if_arc(POOL), Ok(99));
}

#[test]
fn wait_clone_times_out() {
    let reg = DashTypeMap::new();
    let step = reg.wait_clone_step(POOL, false);
    assert_eq!(step, CloneStep::TimedOut);
    assert_eq!(step.outcome(), Some(Err(DashTypeMapErrors::Timeout)));
}

#[test]
fn error_messages() {
    assert_eq!(DashTypeMapErrors::AlreadyExists.message(), "already exists");
    assert_eq!(DashTypeMapErrors::DoesNotExist.message(), "does not exist");
    assert_eq!(DashTypeMapErrors::Timeout.message(), "timeout");
}
