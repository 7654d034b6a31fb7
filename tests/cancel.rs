use overbot::cancel::{CancellationBus, QuitOnError};

#[test]
fn signal_twice_is_like_once() {
    let mut bus = CancellationBus::new();
    assert!(!bus.is_signaled());
    bus.signal();
    assert!(bus.is_signaled());
    bus.signal();
    assert!(bus.is_signaled());
}

#[test]
fn late_subscriber_sees_signal() {
    let mut bus = CancellationBus::new();
    let mut early = bus.subscribe();
    assert!(!early.has_seen());
    assert!(!early.try_recv(&bus));
    bus.signal();
    let late = bus.subscribe();
    assert!(late.has_seen());
    assert!(early.try_recv(&bus));
    assert!(early.has_seen());
}

#[test]
fn quit_on_err_fires_on_error_only() {
    let mut bus = CancellationBus::new();
    let ok: Result<u32, String> = Ok(3);
    assert_eq!(ok.quit_on_err(&mut bus), Ok(3));
    assert!(!bus.is_signaled());
    let err: Result<u32, String> = Err("bind failed".to_string());
    assert_eq!(err.quit_on_err(&mut bus), Err("bind failed".to_string()));
    assert!(bus.is_signaled());
}
