//! Lock coordinator: the atomic handshake between the host's control entry
//! point and the background worker.
//!
//! One shared `AtomicU32` cell carries the whole protocol.  The decision
//! taken at each observed value is a pure, fully specified function; the
//! methods on [`State`] perform one observation plus the store/swap that the
//! decision calls for.  Blocking (waiting for the cell to leave a value) is
//! the caller's job, since a wait may last arbitrarily long.

use vstd::prelude::*;
use core::sync::atomic::{AtomicU32, Ordering};

verus! {

/// Cell value: no lock is held and the worker is running.
pub const UNLOCKED: u32 = 0;

/// Cell value: control has asked the worker to pause.
pub const LOCK_REQUESTED: u32 = 1;

/// Cell value: the worker has paused and control holds the lock.
pub const LOCKED: u32 = 2;

/// Cell value: control has asked the worker to terminate.
pub const SHUTDOWN_REQUESTED: u32 = 3;

/// Cell value: the worker has terminated.
pub const SHUTDOWN_COMPLETE: u32 = 4;

/// Cell value: the worker is not running (not yet started, or disconnected).
pub const WORKER_OFFLINE: u32 = 100;

/// Cell value: the worker is not running and control holds the lock, which
/// also bars the worker from starting.
pub const WORKER_OFFLINE_LOCKED: u32 = 101;

/// The enumerated protocol values.  Anything else observed in the cell is a
/// protocol-invariant violation.
pub open spec fn valid_state(v: u32) -> bool {
    ||| v == UNLOCKED
    ||| v == LOCK_REQUESTED
    ||| v == LOCKED
    ||| v == SHUTDOWN_REQUESTED
    ||| v == SHUTDOWN_COMPLETE
    ||| v == WORKER_OFFLINE
    ||| v == WORKER_OFFLINE_LOCKED
}

/// What control's lock handler does at an observed cell value.
#[derive(PartialEq, Eq, Structural, Clone, Copy, Debug)]
pub enum LockDecision {
    /// The lock is already held (`LOCKED` or `WORKER_OFFLINE_LOCKED`): no-op.
    AlreadyHeld,
    /// The worker is offline: take the lock by `WORKER_OFFLINE ->
    /// WORKER_OFFLINE_LOCKED` compare-and-swap, barring a worker startup.
    ReserveOffline,
    /// The worker is running: store `LOCK_REQUESTED` and block until the
    /// worker acknowledges by moving the cell off that value.
    Request,
}

pub open spec fn lock_decision_of(observed: u32) -> LockDecision {
    if observed == LOCKED || observed == WORKER_OFFLINE_LOCKED {
        LockDecision::AlreadyHeld
    } else if observed == WORKER_OFFLINE {
        LockDecision::ReserveOffline
    } else {
        LockDecision::Request
    }
}

/// Control's lock decision at an observed cell value.
pub fn lock_decision(observed: u32) -> (r: LockDecision)
    ensures
        r == lock_decision_of(observed),
{
    if observed == LOCKED || observed == WORKER_OFFLINE_LOCKED {
        LockDecision::AlreadyHeld
    } else if observed == WORKER_OFFLINE {
        LockDecision::ReserveOffline
    } else {
        LockDecision::Request
    }
}

/// What control's unlock handler does at an observed cell value.
#[derive(PartialEq, Eq, Structural, Clone, Copy, Debug)]
pub enum UnlockDecision {
    /// The worker is paused at `LOCKED`: store `UNLOCKED` and wake it.
    Release,
    /// The lock bars an offline worker: store `WORKER_OFFLINE` and wake, so
    /// a startup blocked at `WORKER_OFFLINE_LOCKED` can proceed.
    ReleaseOffline,
    /// Any other value: no-op, no store and no wake.
    Ignore,
}

pub open spec fn unlock_decision_of(observed: u32) -> UnlockDecision {
    // No documented transition stores 10; the arm is a harmless no-op in
    // practice and is kept as such.
    if observed == LOCKED || observed == 10u32 {
        UnlockDecision::Release
    } else if observed == WORKER_OFFLINE_LOCKED {
        UnlockDecision::ReleaseOffline
    } else {
        UnlockDecision::Ignore
    }
}

/// The cell value after control's unlock handler runs against an observed
/// value.
pub open spec fn unlock_next(observed: u32) -> u32 {
    match unlock_decision_of(observed) {
        UnlockDecision::Release => UNLOCKED,
        UnlockDecision::ReleaseOffline => WORKER_OFFLINE,
        UnlockDecision::Ignore => observed,
    }
}

/// Control's unlock decision at an observed cell value.
pub fn unlock_decision(observed: u32) -> (r: UnlockDecision)
    ensures
        r == unlock_decision_of(observed),
{
    if observed == LOCKED || observed == 10u32 {
        UnlockDecision::Release
    } else if observed == WORKER_OFFLINE_LOCKED {
        UnlockDecision::ReleaseOffline
    } else {
        UnlockDecision::Ignore
    }
}

/// A cell value that shows a running worker: everything below the offline
/// band.
pub open spec fn shows_active_worker(v: u32) -> bool {
    v < WORKER_OFFLINE
}

/// Whether a cell value swapped out by shutdown shows a running worker, which
/// control must then wait for.
pub fn worker_was_active(prior: u32) -> (r: bool)
    ensures
        r == shows_active_worker(prior),
{
    prior < WORKER_OFFLINE
}

/// What the worker does at its per-iteration checkpoint.
#[derive(PartialEq, Eq, Structural, Clone, Copy, Debug)]
pub enum CheckpointDecision {
    /// A lock is pending: publish `LOCKED`, wake control, and block until
    /// the cell leaves `LOCKED`.
    AcknowledgePause,
    /// Shutdown is pending: publish `SHUTDOWN_COMPLETE`, wake control, and
    /// terminate the loop.
    AcknowledgeShutdown,
    /// Nothing is pending: run one iteration of work.
    Proceed,
}

pub open spec fn checkpoint_decision_of(observed: u32) -> CheckpointDecision {
    if observed == LOCK_REQUESTED || observed == WORKER_OFFLINE_LOCKED {
        CheckpointDecision::AcknowledgePause
    } else if observed == SHUTDOWN_REQUESTED {
        CheckpointDecision::AcknowledgeShutdown
    } else {
        CheckpointDecision::Proceed
    }
}

/// The worker's checkpoint decision at an observed cell value.
pub fn checkpoint_decision(observed: u32) -> (r: CheckpointDecision)
    ensures
        r == checkpoint_decision_of(observed),
{
    if observed == LOCK_REQUESTED || observed == WORKER_OFFLINE_LOCKED {
        CheckpointDecision::AcknowledgePause
    } else if observed == SHUTDOWN_REQUESTED {
        CheckpointDecision::AcknowledgeShutdown
    } else {
        CheckpointDecision::Proceed
    }
}

/// What the worker does at startup when its `WORKER_OFFLINE -> UNLOCKED`
/// compare-and-swap failed with the given observed value.
#[derive(PartialEq, Eq, Structural, Clone, Copy, Debug)]
pub enum StartupDecision {
    /// Startup is barred by a held lock: block until the cell changes, then
    /// retry the compare-and-swap.
    WaitOfflineLocked,
    /// Shutdown was requested before the worker got going: exit.
    ExitShutdown,
    /// A value no documented transition produces: protocol-invariant
    /// violation, fatal for the worker.
    Fatal,
}

pub open spec fn startup_decision_of(observed: u32) -> StartupDecision {
    if observed == WORKER_OFFLINE_LOCKED {
        StartupDecision::WaitOfflineLocked
    } else if observed == SHUTDOWN_REQUESTED {
        StartupDecision::ExitShutdown
    } else {
        StartupDecision::Fatal
    }
}

/// The worker's startup decision after a failed startup compare-and-swap.
pub fn startup_decision(observed: u32) -> (r: StartupDecision)
    ensures
        r == startup_decision_of(observed),
{
    if observed == WORKER_OFFLINE_LOCKED {
        StartupDecision::WaitOfflineLocked
    } else if observed == SHUTDOWN_REQUESTED {
        StartupDecision::ExitShutdown
    } else {
        StartupDecision::Fatal
    }
}

/// What the worker does on a normal disconnect, given the value its
/// `swap(WORKER_OFFLINE)` swapped out.
#[derive(PartialEq, Eq, Structural, Clone, Copy, Debug)]
pub enum ReleaseDecision {
    /// A lock request was pending: publish `WORKER_OFFLINE_LOCKED` and wake,
    /// so a racing startup cannot bypass the outstanding request.  The
    /// plugin keeps running.
    RestoreLockPending,
    /// Shutdown was pending: publish `SHUTDOWN_COMPLETE` and wake.  The
    /// worker exits for good.
    CompleteShutdown,
    /// Plain disconnect: the cell stays `WORKER_OFFLINE` and the outer
    /// retry loop continues.
    Normal,
}

pub open spec fn release_decision_of(prior: u32) -> ReleaseDecision {
    if prior == LOCK_REQUESTED || prior == WORKER_OFFLINE_LOCKED {
        ReleaseDecision::RestoreLockPending
    } else if prior == SHUTDOWN_REQUESTED {
        ReleaseDecision::CompleteShutdown
    } else {
        ReleaseDecision::Normal
    }
}

/// The worker's disconnect decision for the value swapped out of the cell.
pub fn release_decision(prior: u32) -> (r: ReleaseDecision)
    ensures
        r == release_decision_of(prior),
{
    if prior == LOCK_REQUESTED || prior == WORKER_OFFLINE_LOCKED {
        ReleaseDecision::RestoreLockPending
    } else if prior == SHUTDOWN_REQUESTED {
        ReleaseDecision::CompleteShutdown
    } else {
        ReleaseDecision::Normal
    }
}

/// Lock while the lock is already held is a no-op, and unlock while unlocked
/// (or while the worker runs or is offline without a lock) is a no-op: no
/// store, no wake, no observable change of the cell.
pub proof fn lemma_redundant_lock_unlock_noop()
    ensures
        lock_decision_of(LOCKED) == LockDecision::AlreadyHeld,
        lock_decision_of(WORKER_OFFLINE_LOCKED) == LockDecision::AlreadyHeld,
        forall|v: u32|
            v != LOCKED && v != 10u32 && v != WORKER_OFFLINE_LOCKED ==> #[trigger] unlock_decision_of(v)
                == UnlockDecision::Ignore && unlock_next(v) == v,
{
}

/// The plugin state shared between control and the worker: the single
/// atomic coordination cell.
pub struct State {
    pub update_lock: AtomicU32,
}

/// The result of one pass of control's lock handler.
#[derive(PartialEq, Eq, Structural, Clone, Copy, Debug)]
pub enum LockStep {
    /// The lock is held; the handler is done.
    Acquired,
    /// A startup raced the offline reservation; run the handler again.
    Retry,
    /// The request is posted; block until the cell leaves `LOCK_REQUESTED`,
    /// after which the lock is held.
    BlockUntilAcknowledged,
}

/// Relies on atomic_wait::wake_all: wakes every thread blocked on this cell
/// by atomic_wait::wait; returns at once and changes nothing.
#[verifier::external_body]
fn wake_all_waiters(cell: &AtomicU32) {
    atomic_wait::wake_all(cell)
}

impl State {
    /// A fresh coordination cell: the worker has not started.
    pub fn new() -> State {
        State { update_lock: AtomicU32::new(WORKER_OFFLINE) }
    }

    /// One pass of control's lock handler.  The cell is shared with the
    /// worker, so the observed value — and with it the step taken — is out
    /// of this function's hands; each observed value leads to the documented
    /// transition.  On `Retry` the caller runs the pass again (an explicit
    /// loop, so repeated races cannot grow the stack); on
    /// `BlockUntilAcknowledged` the caller blocks until the cell leaves
    /// `LOCK_REQUESTED`.
    pub fn control_lock_step(&self) -> LockStep {
        let observed = self.update_lock.load(Ordering::Acquire);
        match lock_decision(observed) {
            LockDecision::AlreadyHeld => LockStep::Acquired,
            LockDecision::ReserveOffline => {
                match self.update_lock.compare_exchange(
                    WORKER_OFFLINE,
                    WORKER_OFFLINE_LOCKED,
                    Ordering::AcqRel,
                    Ordering::Acquire,
                ) {
                    Ok(_) => LockStep::Acquired,
                    // The worker started between the load and the swap;
                    // the lock must now be taken from the running worker.
                    Err(_) => LockStep::Retry,
                }
            },
            LockDecision::Request => {
                self.update_lock.store(LOCK_REQUESTED, Ordering::Release);
                LockStep::BlockUntilAcknowledged
            },
        }
    }

    /// Control's unlock handler: release the lock if one is held, wake all
    /// waiters, and do nothing otherwise.
    pub fn control_unlock_step(&self) {
        let observed = self.update_lock.load(Ordering::Acquire);
        match unlock_decision(observed) {
            UnlockDecision::Release => {
                self.update_lock.store(UNLOCKED, Ordering::Release);
                wake_all_waiters(&self.update_lock);
            },
            UnlockDecision::ReleaseOffline => {
                self.update_lock.store(WORKER_OFFLINE, Ordering::Release);
                // Wake here so a startup blocked at WORKER_OFFLINE_LOCKED
                // can escape.
                wake_all_waiters(&self.update_lock);
            },
            UnlockDecision::Ignore => {},
        }
    }

    /// Control's shutdown handler, first half: post `SHUTDOWN_REQUESTED`.
    /// Returns whether the swapped-out value showed an active worker, in
    /// which case the caller blocks until the cell reaches
    /// `SHUTDOWN_COMPLETE`.
    pub fn control_shutdown_begin(&self) -> bool {
        let prior = self.update_lock.swap(SHUTDOWN_REQUESTED, Ordering::AcqRel);
        worker_was_active(prior)
    }

    /// One pass of the worker's startup gate: try to move
    /// `WORKER_OFFLINE -> UNLOCKED` and enter the update loop.  On failure
    /// the returned decision tells the caller to wait (lock held), exit
    /// (shutdown), or abort (protocol-invariant violation).  `None` means
    /// the worker got through and may enter the update loop.
    pub fn worker_startup_gate(&self) -> Option<StartupDecision> {
        match self.update_lock.compare_exchange(
            WORKER_OFFLINE,
            UNLOCKED,
            Ordering::AcqRel,
            Ordering::Acquire,
        ) {
            Ok(_) => None,
            Err(observed) => Some(startup_decision(observed)),
        }
    }

    /// The worker's per-iteration checkpoint.  Publishes the acknowledgement
    /// the observed value calls for and wakes control; on
    /// `AcknowledgePause` the caller then blocks until the cell leaves
    /// `LOCKED` and wakes the waiters once more, on `AcknowledgeShutdown`
    /// the caller terminates the loop.
    pub fn worker_checkpoint_step(&self) -> CheckpointDecision {
        let observed = self.update_lock.load(Ordering::Acquire);
        let decision = checkpoint_decision(observed);
        match decision {
            CheckpointDecision::AcknowledgePause => {
                self.update_lock.store(LOCKED, Ordering::Release);
                wake_all_waiters(&self.update_lock);
            },
            CheckpointDecision::AcknowledgeShutdown => {
                self.update_lock.store(SHUTDOWN_COMPLETE, Ordering::Release);
                wake_all_waiters(&self.update_lock);
            },
            CheckpointDecision::Proceed => {},
        }
        decision
    }

    /// The worker's release on leaving the update loop: swap in
    /// `WORKER_OFFLINE`, then honour whatever the swapped-out value shows
    /// was pending.  Returns whether the plugin keeps running (`false` only
    /// when shutdown was pending).
    pub fn worker_release_step(&self) -> bool {
        let prior = self.update_lock.swap(WORKER_OFFLINE, Ordering::AcqRel);
        match release_decision(prior) {
            ReleaseDecision::RestoreLockPending => {
                self.update_lock.store(WORKER_OFFLINE_LOCKED, Ordering::Release);
                wake_all_waiters(&self.update_lock);
                true
            },
            ReleaseDecision::CompleteShutdown => {
                self.update_lock.store(SHUTDOWN_COMPLETE, Ordering::Release);
                wake_all_waiters(&self.update_lock);
                false
            },
            ReleaseDecision::Normal => true,
        }
    }
}

} // verus!
