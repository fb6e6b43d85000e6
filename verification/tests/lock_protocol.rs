use std::sync::atomic::Ordering;

use rf2_reader::lock::{
    checkpoint_decision, lock_decision, release_decision, startup_decision, unlock_decision,
    worker_was_active, CheckpointDecision, LockDecision, LockStep, ReleaseDecision, StartupDecision,
    State, UnlockDecision, LOCKED, LOCK_REQUESTED, SHUTDOWN_COMPLETE, SHUTDOWN_REQUESTED, UNLOCKED,
    WORKER_OFFLINE, WORKER_OFFLINE_LOCKED,
};

#[test]
fn lock_decision_table() {
    assert_eq!(lock_decision(LOCKED), LockDecision::AlreadyHeld);
    assert_eq!(lock_decision(WORKER_OFFLINE_LOCKED), LockDecision::AlreadyHeld);
    assert_eq!(lock_decision(WORKER_OFFLINE), LockDecision::ReserveOffline);
    assert_eq!(lock_decision(UNLOCKED), LockDecision::Request);
    assert_eq!(lock_decision(LOCK_REQUESTED), LockDecision::Request);
}

#[test]
fn unlock_decision_table() {
    assert_eq!(unlock_decision(LOCKED), UnlockDecision::Release);
    // The undocumented value 10 shares the release arm and is otherwise
    // unreachable.
    assert_eq!(unlock_decision(10), UnlockDecision::Release);
    assert_eq!(unlock_decision(WORKER_OFFLINE_LOCKED), UnlockDecision::ReleaseOffline);
    assert_eq!(unlock_decision(UNLOCKED), UnlockDecision::Ignore);
    assert_eq!(unlock_decision(WORKER_OFFLINE), UnlockDecision::Ignore);
    assert_eq!(unlock_decision(SHUTDOWN_REQUESTED), UnlockDecision::Ignore);
}

#[test]
fn checkpoint_decision_table() {
    assert_eq!(checkpoint_decision(LOCK_REQUESTED), CheckpointDecision::AcknowledgePause);
    assert_eq!(checkpoint_decision(WORKER_OFFLINE_LOCKED), CheckpointDecision::AcknowledgePause);
    assert_eq!(checkpoint_decision(SHUTDOWN_REQUESTED), CheckpointDecision::AcknowledgeShutdown);
    assert_eq!(checkpoint_decision(UNLOCKED), CheckpointDecision::Proceed);
}

#[test]
fn startup_decision_table() {
    assert_eq!(startup_decision(WORKER_OFFLINE_LOCKED), StartupDecision::WaitOfflineLocked);
    assert_eq!(startup_decision(SHUTDOWN_REQUESTED), StartupDecision::ExitShutdown);
    assert_eq!(startup_decision(LOCKED), StartupDecision::Fatal);
    assert_eq!(startup_decision(42), StartupDecision::Fatal);
}

#[test]
fn release_decision_table() {
    assert_eq!(release_decision(LOCK_REQUESTED), ReleaseDecision::RestoreLockPending);
    assert_eq!(release_decision(WORKER_OFFLINE_LOCKED), ReleaseDecision::RestoreLockPending);
    assert_eq!(release_decision(SHUTDOWN_REQUESTED), ReleaseDecision::CompleteShutdown);
    assert_eq!(release_decision(UNLOCKED), ReleaseDecision::Normal);
}

#[test]
fn worker_was_active_boundary() {
    assert!(worker_was_active(UNLOCKED));
    assert!(worker_was_active(SHUTDOWN_COMPLETE));
    assert!(!worker_was_active(WORKER_OFFLINE));
    assert!(!worker_was_active(WORKER_OFFLINE_LOCKED));
}

#[test]
fn lock_before_worker_starts() {
    // A fresh cell shows the worker offline; a lock reserves it outright.
    let state = State::new();
    assert_eq!(state.update_lock.load(Ordering::Acquire), WORKER_OFFLINE);
    assert_eq!(state.control_lock_step(), LockStep::Acquired);
    assert_eq!(state.update_lock.load(Ordering::Acquire), WORKER_OFFLINE_LOCKED);
    // The startup gate is barred while the lock is held.
    assert_eq!(state.worker_startup_gate(), Some(StartupDecision::WaitOfflineLocked));
    // Unlock releases the bar; startup then gets through.
    state.control_unlock_step();
    assert_eq!(state.update_lock.load(Ordering::Acquire), WORKER_OFFLINE);
    assert_eq!(state.worker_startup_gate(), None);
    assert_eq!(state.update_lock.load(Ordering::Acquire), UNLOCKED);
}

#[test]
fn lock_handshake_with_running_worker() {
    let state = State::new();
    assert_eq!(state.worker_startup_gate(), None);
    // Control posts the request; the worker acknowledges at its checkpoint.
    assert_eq!(state.control_lock_step(), LockStep::BlockUntilAcknowledged);
    assert_eq!(state.update_lock.load(Ordering::Acquire), LOCK_REQUESTED);
    assert_eq!(state.worker_checkpoint_step(), CheckpointDecision::AcknowledgePause);
    assert_eq!(state.update_lock.load(Ordering::Acquire), LOCKED);
    // Locking while locked is a no-op.
    assert_eq!(state.control_lock_step(), LockStep::Acquired);
    assert_eq!(state.update_lock.load(Ordering::Acquire), LOCKED);
    // Unlock resumes the worker.
    state.control_unlock_step();
    assert_eq!(state.update_lock.load(Ordering::Acquire), UNLOCKED);
    assert_eq!(state.worker_checkpoint_step(), CheckpointDecision::Proceed);
}

#[test]
fn unlock_while_unlocked_is_noop() {
    let state = State::new();
    assert_eq!(state.worker_startup_gate(), None);
    assert_eq!(state.update_lock.load(Ordering::Acquire), UNLOCKED);
    state.control_unlock_step();
    assert_eq!(state.update_lock.load(Ordering::Acquire), UNLOCKED);
    // Also a no-op while the worker is offline without a lock.
    let offline = State::new();
    offline.control_unlock_step();
    assert_eq!(offline.update_lock.load(Ordering::Acquire), WORKER_OFFLINE);
}

#[test]
fn shutdown_handshake() {
    let state = State::new();
    assert_eq!(state.worker_startup_gate(), None);
    // An active worker must be waited for.
    assert!(state.control_shutdown_begin());
    assert_eq!(state.update_lock.load(Ordering::Acquire), SHUTDOWN_REQUESTED);
    assert_eq!(state.worker_checkpoint_step(), CheckpointDecision::AcknowledgeShutdown);
    assert_eq!(state.update_lock.load(Ordering::Acquire), SHUTDOWN_COMPLETE);
}

#[test]
fn shutdown_with_worker_offline_needs_no_wait() {
    let state = State::new();
    assert!(!state.control_shutdown_begin());
    assert_eq!(state.update_lock.load(Ordering::Acquire), SHUTDOWN_REQUESTED);
}

#[test]
fn release_hands_pending_lock_over() {
    let state = State::new();
    assert_eq!(state.worker_startup_gate(), None);
    // A lock request lands while the worker is about to disconnect.
    assert_eq!(state.control_lock_step(), LockStep::BlockUntilAcknowledged);
    assert!(state.worker_release_step());
    // The pending request must survive as the offline-locked value, so a
    // racing startup cannot bypass it.
    assert_eq!(state.update_lock.load(Ordering::Acquire), WORKER_OFFLINE_LOCKED);
}

#[test]
fn release_on_plain_disconnect() {
    let state = State::new();
    assert_eq!(state.worker_startup_gate(), None);
    assert!(state.worker_release_step());
    assert_eq!(state.update_lock.load(Ordering::Acquire), WORKER_OFFLINE);
}

#[test]
fn release_during_shutdown() {
    let state = State::new();
    assert_eq!(state.worker_startup_gate(), None);
    // The worker entered the loop, so shutdown must wait for it.
    assert!(state.control_shutdown_begin());
    assert!(!state.worker_release_step());
    assert_eq!(state.update_lock.load(Ordering::Acquire), SHUTDOWN_COMPLETE);
}
