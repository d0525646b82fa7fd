use batt_reminder::lock::{lock_decision, pid_text, LockDecision, LockObservation};

#[test]
fn absent_lock_is_claimed() {
    assert_eq!(lock_decision(LockObservation::Absent), LockDecision::WriteOwnPid);
}

#[test]
fn unreadable_lock_is_claimed() {
    assert_eq!(lock_decision(LockObservation::Unreadable), LockDecision::WriteOwnPid);
}

#[test]
fn stale_lock_is_claimed() {
    assert_eq!(
        lock_decision(LockObservation::Held { owner_alive: false }),
        LockDecision::WriteOwnPid
    );
}

#[test]
fn live_lock_refuses() {
    assert_eq!(
        lock_decision(LockObservation::Held { owner_alive: true }),
        LockDecision::AlreadyRunning
    );
}

#[test]
fn pid_renders_as_decimal() {
    assert_eq!(pid_text(0), "0");
    assert_eq!(pid_text(7), "7");
    assert_eq!(pid_text(10), "10");
    assert_eq!(pid_text(12345), "12345");
    assert_eq!(pid_text(u64::MAX), "18446744073709551615");
}
