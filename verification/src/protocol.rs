//! A model of the lock protocol's interleavings, and its safety proof.
//!
//! The model pairs the shared cell with each side's own view of the
//! protocol: what control believes after its last handler pass, and where
//! the worker stands in its loop.  Each transition is one whole handler pass
//! or one worker checkpoint — the granularity of one worker loop iteration,
//! which is the granularity at which the two sides observe each other.
//! The transitions — Lock, Unlock and Shutdown against the worker's
//! startup, iterations, pauses and disconnects — are defined over the same
//! decision functions the executable handlers in [`crate::lock`] run.

use vstd::prelude::*;
use crate::lock::{
    LockDecision, CheckpointDecision, ReleaseDecision, lock_decision_of, unlock_next,
    checkpoint_decision_of, release_decision_of, shows_active_worker, UNLOCKED, LOCK_REQUESTED,
    LOCKED, SHUTDOWN_REQUESTED, SHUTDOWN_COMPLETE, WORKER_OFFLINE, WORKER_OFFLINE_LOCKED,
};

verus! {

/// Control's view of the protocol: what its last completed handler pass
/// entitles it to believe.
#[derive(PartialEq, Eq, Structural, Clone, Copy, Debug)]
pub enum ControlView {
    /// No lock held and none requested.
    Idle,
    /// A lock request is posted; control blocks until the cell leaves
    /// `LOCK_REQUESTED`.
    AwaitingAck,
    /// Control believes the lock is held.
    HoldsLock,
    /// Shutdown is posted against an active worker; control blocks until
    /// the cell leaves `SHUTDOWN_REQUESTED`.
    AwaitingShutdownAck,
    /// The shutdown handler has returned; the persisted state may be
    /// released.
    ShutdownDone,
}

/// The worker's position in its loop.
#[derive(PartialEq, Eq, Structural, Clone, Copy, Debug)]
pub enum WorkerView {
    /// Not running: before startup, or after a disconnect.
    Offline,
    /// Between checkpoints, reading and publishing: the worker believes it
    /// is unlocked.
    Working,
    /// Blocked at a checkpoint after publishing `LOCKED`.
    Paused,
    /// Terminated for good after acknowledging shutdown.
    Exited,
}

/// One global state of the coordination protocol.
pub struct Coordination {
    /// The shared atomic cell's value.
    pub cell: u32,
    pub control: ControlView,
    pub worker: WorkerView,
}

/// The initial state: a fresh cell, worker not yet started.
pub open spec fn init(s: Coordination) -> bool {
    &&& s.cell == WORKER_OFFLINE
    &&& s.control == ControlView::Idle
    &&& s.worker == WorkerView::Offline
}

/// Control runs its lock handler from idle, to the point where it either
/// holds the lock or blocks on the posted request.
pub open spec fn ctrl_lock(s1: Coordination, s2: Coordination) -> bool {
    &&& s1.control == ControlView::Idle
    &&& s2.worker == s1.worker
    &&& match lock_decision_of(s1.cell) {
        LockDecision::AlreadyHeld => s2.cell == s1.cell && s2.control == ControlView::HoldsLock,
        LockDecision::ReserveOffline => s2.cell == WORKER_OFFLINE_LOCKED && s2.control
            == ControlView::HoldsLock,
        LockDecision::Request => s2.cell == LOCK_REQUESTED && s2.control
            == ControlView::AwaitingAck,
    }
}

/// Control runs its lock handler while it already holds the lock: a no-op.
pub open spec fn ctrl_lock_redundant(s1: Coordination, s2: Coordination) -> bool {
    &&& s1.control == ControlView::HoldsLock
    &&& lock_decision_of(s1.cell) == LockDecision::AlreadyHeld
    &&& s2 == s1
}

/// Control, blocked on its request, wakes once the cell has left
/// `LOCK_REQUESTED`: it now believes the lock is held.
pub open spec fn ctrl_lock_ack(s1: Coordination, s2: Coordination) -> bool {
    &&& s1.control == ControlView::AwaitingAck
    &&& s1.cell != LOCK_REQUESTED
    &&& s2 == Coordination { control: ControlView::HoldsLock, ..s1 }
}

/// Control runs its unlock handler while holding the lock.
pub open spec fn ctrl_unlock(s1: Coordination, s2: Coordination) -> bool {
    &&& s1.control == ControlView::HoldsLock
    &&& s2 == Coordination { cell: unlock_next(s1.cell), control: ControlView::Idle, ..s1 }
}

/// Control runs its unlock handler without holding the lock: the documented
/// no-op arms leave the cell as it is.
pub open spec fn ctrl_unlock_redundant(s1: Coordination, s2: Coordination) -> bool {
    &&& s1.control == ControlView::Idle
    &&& s2 == Coordination { cell: unlock_next(s1.cell), ..s1 }
}

/// Control runs its shutdown handler: it swaps `SHUTDOWN_REQUESTED` into
/// the cell, and the swapped-out value decides whether it must block until
/// the worker acknowledges — an active worker must be waited for, an
/// offline one not.
pub open spec fn ctrl_shutdown(s1: Coordination, s2: Coordination) -> bool {
    &&& s1.control == ControlView::Idle
    &&& s2.worker == s1.worker
    &&& s2.cell == SHUTDOWN_REQUESTED
    &&& s2.control == (if shows_active_worker(s1.cell) {
        ControlView::AwaitingShutdownAck
    } else {
        ControlView::ShutdownDone
    })
}

/// Control, blocked on its shutdown request, wakes once the cell has left
/// `SHUTDOWN_REQUESTED`; the shutdown handler then returns.
pub open spec fn ctrl_shutdown_ack(s1: Coordination, s2: Coordination) -> bool {
    &&& s1.control == ControlView::AwaitingShutdownAck
    &&& s1.cell != SHUTDOWN_REQUESTED
    &&& s2 == Coordination { control: ControlView::ShutdownDone, ..s1 }
}

/// The worker passes its startup gate: `WORKER_OFFLINE -> UNLOCKED`.  Not
/// enabled at `WORKER_OFFLINE_LOCKED`, where startup blocks — that is what
/// keeps a racing startup from bypassing a held lock.
pub open spec fn wk_start(s1: Coordination, s2: Coordination) -> bool {
    &&& s1.worker == WorkerView::Offline
    &&& s1.cell == WORKER_OFFLINE
    &&& s2 == Coordination { cell: UNLOCKED, worker: WorkerView::Working, ..s1 }
}

/// An offline worker's startup finds shutdown pending and exits without
/// entering the update loop; the cell is untouched.
pub open spec fn wk_start_exits_on_shutdown(s1: Coordination, s2: Coordination) -> bool {
    &&& s1.worker == WorkerView::Offline
    &&& s1.cell == SHUTDOWN_REQUESTED
    &&& s2 == Coordination { worker: WorkerView::Exited, ..s1 }
}

/// The worker's checkpoint finds a pending lock request and acknowledges:
/// it publishes `LOCKED`, wakes control, and blocks.
pub open spec fn wk_checkpoint_pause(s1: Coordination, s2: Coordination) -> bool {
    &&& s1.worker == WorkerView::Working
    &&& checkpoint_decision_of(s1.cell) == CheckpointDecision::AcknowledgePause
    &&& s2 == Coordination { cell: LOCKED, worker: WorkerView::Paused, ..s1 }
}

/// The worker's checkpoint finds shutdown pending and acknowledges: it
/// publishes `SHUTDOWN_COMPLETE`, wakes control, and terminates the loop —
/// no further poll follows.
pub open spec fn wk_checkpoint_shutdown(s1: Coordination, s2: Coordination) -> bool {
    &&& s1.worker == WorkerView::Working
    &&& checkpoint_decision_of(s1.cell) == CheckpointDecision::AcknowledgeShutdown
    &&& s2 == Coordination { cell: SHUTDOWN_COMPLETE, worker: WorkerView::Exited, ..s1 }
}

/// The worker's checkpoint finds nothing pending and runs one iteration of
/// work; the cell is untouched.
pub open spec fn wk_iterate(s1: Coordination, s2: Coordination) -> bool {
    &&& s1.worker == WorkerView::Working
    &&& checkpoint_decision_of(s1.cell) == CheckpointDecision::Proceed
    &&& s2 == s1
}

/// The paused worker wakes once the cell has left `LOCKED` and goes back to
/// work.
pub open spec fn wk_resume(s1: Coordination, s2: Coordination) -> bool {
    &&& s1.worker == WorkerView::Paused
    &&& s1.cell != LOCKED
    &&& s2 == Coordination { worker: WorkerView::Working, ..s1 }
}

/// The worker leaves the update loop (its feed's game stopped) and swaps in
/// `WORKER_OFFLINE`; the swapped-out value — a request or a shutdown may
/// land between the checkpoint and the swap — decides what it publishes
/// instead: a pending lock request survives as `WORKER_OFFLINE_LOCKED`, so
/// a racing startup cannot bypass it, and a pending shutdown is answered
/// with `SHUTDOWN_COMPLETE`, on which the worker exits for good.
pub open spec fn wk_disconnect(s1: Coordination, s2: Coordination) -> bool {
    &&& s1.worker == WorkerView::Working
    &&& s2.control == s1.control
    &&& s2.worker == (if release_decision_of(s1.cell) == ReleaseDecision::CompleteShutdown {
        WorkerView::Exited
    } else {
        WorkerView::Offline
    })
    &&& s2.cell == (match release_decision_of(s1.cell) {
        ReleaseDecision::RestoreLockPending => WORKER_OFFLINE_LOCKED,
        ReleaseDecision::CompleteShutdown => SHUTDOWN_COMPLETE,
        ReleaseDecision::Normal => WORKER_OFFLINE,
    })
}

/// Any one interleaved step of Lock/Unlock/Shutdown against the worker's
/// iterations.
pub open spec fn step(s1: Coordination, s2: Coordination) -> bool {
    ||| ctrl_lock(s1, s2)
    ||| ctrl_lock_redundant(s1, s2)
    ||| ctrl_lock_ack(s1, s2)
    ||| ctrl_unlock(s1, s2)
    ||| ctrl_unlock_redundant(s1, s2)
    ||| ctrl_shutdown(s1, s2)
    ||| ctrl_shutdown_ack(s1, s2)
    ||| wk_start(s1, s2)
    ||| wk_start_exits_on_shutdown(s1, s2)
    ||| wk_checkpoint_pause(s1, s2)
    ||| wk_checkpoint_shutdown(s1, s2)
    ||| wk_iterate(s1, s2)
    ||| wk_resume(s1, s2)
    ||| wk_disconnect(s1, s2)
}

/// The worker is on its feet: between checkpoints or paused at one.
pub open spec fn worker_running(w: WorkerView) -> bool {
    w == WorkerView::Working || w == WorkerView::Paused
}

/// The protocol invariant: each side's belief is consistent with the cell,
/// and the two sides' beliefs are consistent with each other.
pub open spec fn inv(s: Coordination) -> bool {
    &&& s.control == ControlView::Idle ==> {
        ||| s.cell == UNLOCKED && worker_running(s.worker)
        ||| s.cell == WORKER_OFFLINE && s.worker == WorkerView::Offline
    }
    &&& s.control == ControlView::AwaitingAck ==> {
        ||| s.cell == LOCK_REQUESTED && worker_running(s.worker)
        ||| s.cell == LOCKED && s.worker == WorkerView::Paused
        ||| s.cell == WORKER_OFFLINE_LOCKED && s.worker == WorkerView::Offline
    }
    &&& s.control == ControlView::HoldsLock ==> {
        ||| s.cell == LOCKED && s.worker == WorkerView::Paused
        ||| s.cell == WORKER_OFFLINE_LOCKED && s.worker == WorkerView::Offline
    }
    &&& s.control == ControlView::AwaitingShutdownAck ==> {
        ||| s.cell == SHUTDOWN_REQUESTED && worker_running(s.worker)
        ||| s.cell == SHUTDOWN_COMPLETE && s.worker == WorkerView::Exited
    }
    &&& s.control == ControlView::ShutdownDone ==> {
        ||| s.cell == SHUTDOWN_REQUESTED && s.worker == WorkerView::Offline
        ||| s.cell == SHUTDOWN_REQUESTED && s.worker == WorkerView::Exited
        ||| s.cell == SHUTDOWN_COMPLETE && s.worker == WorkerView::Exited
    }
}

/// The initial state satisfies the invariant.
pub proof fn lemma_init_inv(s: Coordination)
    requires
        init(s),
    ensures
        inv(s),
{
}

/// Every interleaved Lock/Unlock/Shutdown/worker step preserves the
/// invariant: it holds in every reachable state.
pub proof fn lemma_step_preserves_inv(s1: Coordination, s2: Coordination)
    requires
        inv(s1),
        step(s1, s2),
    ensures
        inv(s2),
{
}

/// No interleaving of the documented transitions puts a value outside the
/// enumerated set into the cell: a worker that observes one is right to
/// treat it as a protocol-invariant violation and abort.
pub proof fn lemma_reachable_cells_valid(s: Coordination)
    requires
        inv(s),
    ensures
        crate::lock::valid_state(s.cell),
{
}

/// In any reachable state where control holds no lock, an unlock is a true
/// no-op: the cell's no-op arms leave it exactly as it was.
pub proof fn lemma_redundant_unlock_identity(s1: Coordination, s2: Coordination)
    requires
        inv(s1),
        ctrl_unlock_redundant(s1, s2),
    ensures
        s2 == s1,
{
}

/// Whenever control believes it holds the lock, the worker is not working:
/// it is paused at its checkpoint or offline, so the system never stays in
/// a state where control believes "locked" while the worker believes
/// "unlocked".
pub proof fn lemma_no_lock_disagreement(s: Coordination)
    requires
        inv(s),
        s.control == ControlView::HoldsLock,
    ensures
        s.worker != WorkerView::Working,
{
}

/// Control, blocked after posting shutdown against an active worker, is
/// unblocked only by the worker's acknowledgement: once the cell has left
/// `SHUTDOWN_REQUESTED` it holds `SHUTDOWN_COMPLETE` and the worker has
/// terminated, whether the checkpoint or the disconnect release published
/// it.
pub proof fn lemma_shutdown_unblocks_on_completion(s: Coordination)
    requires
        inv(s),
        s.control == ControlView::AwaitingShutdownAck,
        s.cell != SHUTDOWN_REQUESTED,
    ensures
        s.cell == SHUTDOWN_COMPLETE,
        s.worker == WorkerView::Exited,
{
}

/// Once shutdown is pending, the worker polls no more: its only enabled
/// moves acknowledge the shutdown, at the checkpoint or in the disconnect
/// release.
pub proof fn lemma_no_poll_after_shutdown(s1: Coordination, s2: Coordination)
    requires
        s1.cell == SHUTDOWN_REQUESTED,
    ensures
        !wk_iterate(s1, s2),
        !wk_checkpoint_pause(s1, s2),
{
}

} // verus!
