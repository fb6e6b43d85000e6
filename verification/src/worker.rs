//! The worker's session: one state machine from phase and event to next
//! phase and action.
//!
//! The worker thread cycles through game discovery, bridge launch, memory
//! mapping, the lock coordinator's startup gate, the polling loop, and
//! teardown.  Every decision of that cycle is here; the caller performs
//! each returned action (a sleep, a spawn, a mapping, a poll) and feeds
//! back what happened as the next event.

use vstd::prelude::*;

verus! {

/// The outer retry interval (milliseconds): how long the worker sleeps
/// between game-liveness checks while the game is down, and after a failed
/// connect.
pub const RETRY_INTERVAL_MS: u64 = 5000;

/// The bridge settle interval (milliseconds): how long a freshly spawned
/// bridge gets before its liveness is re-checked.
pub const SETTLE_INTERVAL_MS: u64 = 5000;

/// The teardown grace interval (milliseconds): how long an interrupted
/// bridge gets to exit before the warning re-check.
pub const GRACE_INTERVAL_MS: u64 = 2000;

/// Where the worker stands in its connect/poll/disconnect cycle.
#[derive(PartialEq, Eq, Structural, Clone, Copy, Debug)]
pub enum WorkerPhase {
    /// Checking whether the game runs; while it does not, the cycle sleeps
    /// and retries without connecting.
    AwaitGame,
    /// The game runs: checking whether the bridge already runs.
    EnsureBridge,
    /// The bridge was absent: a spawn has been asked for.
    Launching,
    /// The bridge was spawned: letting it settle.
    Settling,
    /// The settle interval is over: re-checking the bridge, whose absence
    /// now means it crashed on startup.
    SettleRecheck,
    /// The bridge runs: mapping the shared memory.
    Mounting,
    /// Mapped: passing the lock coordinator's startup gate.
    StartupGate,
    /// In the update loop, one poll per event.
    Polling,
    /// Releasing and tearing down; afterwards the cycle retries, or the
    /// thread exits if `exit` is set (shutdown).
    Unwinding { exit: bool },
    /// The worker has exited.
    Stopped,
}

/// What happened when the caller performed the last action.
#[derive(PartialEq, Eq, Structural, Clone, Copy, Debug)]
pub enum WorkerEvent {
    /// Game-liveness result.
    GameCheck(bool),
    /// Bridge-liveness result.
    BridgeCheck(bool),
    /// Whether the bridge spawn call succeeded.
    SpawnOutcome(bool),
    /// The requested sleep has elapsed.
    Settled,
    /// Whether the shared memory could be mapped.
    MountOutcome(bool),
    /// The startup gate was passed: the update loop may run.
    GateEntered,
    /// The startup gate found shutdown pending: the worker exits.
    GateExitShutdown,
    /// One poll ran and the loop goes on.
    PollOk,
    /// The update loop ended and the coordinator cell was released;
    /// `keep_running` is false exactly when shutdown was pending.
    Disconnected { keep_running: bool },
    /// The teardown steps have run.
    TornDown,
}

/// What the caller performs next.
#[derive(PartialEq, Eq, Structural, Clone, Copy, Debug)]
pub enum WorkerAction {
    /// Run the game-liveness check.
    CheckGame,
    /// Sleep `RETRY_INTERVAL_MS`, then run the game-liveness check.
    SleepRetry,
    /// Run the bridge-liveness check.
    CheckBridge,
    /// Spawn the bridge process.
    SpawnBridge,
    /// Sleep `SETTLE_INTERVAL_MS`, then feed `Settled`.
    SleepSettle,
    /// Map the shared-memory feeds.
    MountMaps,
    /// Run the lock coordinator's startup gate.
    RunStartupGate,
    /// Run one poll of the update loop (checkpoint plus feed reads).
    PollFeeds,
    /// Unmap, then run the bridge teardown (with its grace interval).
    RunTeardown,
    /// Leave the worker thread.
    ExitThread,
    /// The event did not belong to the phase: no action, nothing changed.
    Hold,
}

/// The session's transition table.
pub open spec fn worker_step_spec(phase: WorkerPhase, ev: WorkerEvent) -> (WorkerPhase,
    WorkerAction) {
    match (phase, ev) {
        (WorkerPhase::AwaitGame, WorkerEvent::GameCheck(false)) => (
            WorkerPhase::AwaitGame,
            WorkerAction::SleepRetry,
        ),
        (WorkerPhase::AwaitGame, WorkerEvent::GameCheck(true)) => (
            WorkerPhase::EnsureBridge,
            WorkerAction::CheckBridge,
        ),
        (WorkerPhase::EnsureBridge, WorkerEvent::BridgeCheck(true)) => (
            WorkerPhase::Mounting,
            WorkerAction::MountMaps,
        ),
        (WorkerPhase::EnsureBridge, WorkerEvent::BridgeCheck(false)) => (
            WorkerPhase::Launching,
            WorkerAction::SpawnBridge,
        ),
        (WorkerPhase::Launching, WorkerEvent::SpawnOutcome(true)) => (
            WorkerPhase::Settling,
            WorkerAction::SleepSettle,
        ),
        (WorkerPhase::Launching, WorkerEvent::SpawnOutcome(false)) => (
            WorkerPhase::Unwinding { exit: false },
            WorkerAction::RunTeardown,
        ),
        (WorkerPhase::Settling, WorkerEvent::Settled) => (
            WorkerPhase::SettleRecheck,
            WorkerAction::CheckBridge,
        ),
        (WorkerPhase::SettleRecheck, WorkerEvent::BridgeCheck(true)) => (
            WorkerPhase::Mounting,
            WorkerAction::MountMaps,
        ),
        (WorkerPhase::SettleRecheck, WorkerEvent::BridgeCheck(false)) => (
            WorkerPhase::Unwinding { exit: false },
            WorkerAction::RunTeardown,
        ),
        (WorkerPhase::Mounting, WorkerEvent::MountOutcome(true)) => (
            WorkerPhase::StartupGate,
            WorkerAction::RunStartupGate,
        ),
        (WorkerPhase::Mounting, WorkerEvent::MountOutcome(false)) => (
            WorkerPhase::Unwinding { exit: false },
            WorkerAction::RunTeardown,
        ),
        (WorkerPhase::StartupGate, WorkerEvent::GateEntered) => (
            WorkerPhase::Polling,
            WorkerAction::PollFeeds,
        ),
        (WorkerPhase::StartupGate, WorkerEvent::GateExitShutdown) => (
            WorkerPhase::Unwinding { exit: true },
            WorkerAction::RunTeardown,
        ),
        (WorkerPhase::Polling, WorkerEvent::PollOk) => (
            WorkerPhase::Polling,
            WorkerAction::PollFeeds,
        ),
        (WorkerPhase::Polling, WorkerEvent::Disconnected { keep_running }) => (
            WorkerPhase::Unwinding { exit: !keep_running },
            WorkerAction::RunTeardown,
        ),
        (WorkerPhase::Unwinding { exit: false }, WorkerEvent::TornDown) => (
            WorkerPhase::AwaitGame,
            WorkerAction::SleepRetry,
        ),
        (WorkerPhase::Unwinding { exit: true }, WorkerEvent::TornDown) => (
            WorkerPhase::Stopped,
            WorkerAction::ExitThread,
        ),
        (WorkerPhase::Stopped, _) => (WorkerPhase::Stopped, WorkerAction::ExitThread),
        (p, _) => (p, WorkerAction::Hold),
    }
}

/// The session's start: check game liveness before anything is connected.
pub fn worker_init() -> (r: (WorkerPhase, WorkerAction))
    ensures
        r == (WorkerPhase::AwaitGame, WorkerAction::CheckGame),
{
    (WorkerPhase::AwaitGame, WorkerAction::CheckGame)
}

/// One step of the worker session: the next phase and the action the caller
/// performs, exactly as the transition table gives them.
pub fn worker_step(phase: WorkerPhase, ev: WorkerEvent) -> (r: (WorkerPhase, WorkerAction))
    ensures
        r == worker_step_spec(phase, ev),
{
    match (phase, ev) {
        (WorkerPhase::AwaitGame, WorkerEvent::GameCheck(false)) => (
            WorkerPhase::AwaitGame,
            WorkerAction::SleepRetry,
        ),
        (WorkerPhase::AwaitGame, WorkerEvent::GameCheck(true)) => (
            WorkerPhase::EnsureBridge,
            WorkerAction::CheckBridge,
        ),
        (WorkerPhase::EnsureBridge, WorkerEvent::BridgeCheck(true)) => (
            WorkerPhase::Mounting,
            WorkerAction::MountMaps,
        ),
        (WorkerPhase::EnsureBridge, WorkerEvent::BridgeCheck(false)) => (
            WorkerPhase::Launching,
            WorkerAction::SpawnBridge,
        ),
        (WorkerPhase::Launching, WorkerEvent::SpawnOutcome(true)) => (
            WorkerPhase::Settling,
            WorkerAction::SleepSettle,
        ),
        (WorkerPhase::Launching, WorkerEvent::SpawnOutcome(false)) => (
            WorkerPhase::Unwinding { exit: false },
            WorkerAction::RunTeardown,
        ),
        (WorkerPhase::Settling, WorkerEvent::Settled) => (
            WorkerPhase::SettleRecheck,
            WorkerAction::CheckBridge,
        ),
        (WorkerPhase::SettleRecheck, WorkerEvent::BridgeCheck(true)) => (
            WorkerPhase::Mounting,
            WorkerAction::MountMaps,
        ),
        (WorkerPhase::SettleRecheck, WorkerEvent::BridgeCheck(false)) => (
            WorkerPhase::Unwinding { exit: false },
            WorkerAction::RunTeardown,
        ),
        (WorkerPhase::Mounting, WorkerEvent::MountOutcome(true)) => (
            WorkerPhase::StartupGate,
            WorkerAction::RunStartupGate,
        ),
        (WorkerPhase::Mounting, WorkerEvent::MountOutcome(false)) => (
            WorkerPhase::Unwinding { exit: false },
            WorkerAction::RunTeardown,
        ),
        (WorkerPhase::StartupGate, WorkerEvent::GateEntered) => (
            WorkerPhase::Polling,
            WorkerAction::PollFeeds,
        ),
        (WorkerPhase::StartupGate, WorkerEvent::GateExitShutdown) => (
            WorkerPhase::Unwinding { exit: true },
            WorkerAction::RunTeardown,
        ),
        (WorkerPhase::Polling, WorkerEvent::PollOk) => (
            WorkerPhase::Polling,
            WorkerAction::PollFeeds,
        ),
        (WorkerPhase::Polling, WorkerEvent::Disconnected { keep_running }) => (
            WorkerPhase::Unwinding { exit: !keep_running },
            WorkerAction::RunTeardown,
        ),
        (WorkerPhase::Unwinding { exit: false }, WorkerEvent::TornDown) => (
            WorkerPhase::AwaitGame,
            WorkerAction::SleepRetry,
        ),
        (WorkerPhase::Unwinding { exit: true }, WorkerEvent::TornDown) => (
            WorkerPhase::Stopped,
            WorkerAction::ExitThread,
        ),
        (WorkerPhase::Stopped, _) => (WorkerPhase::Stopped, WorkerAction::ExitThread),
        (p, _) => (p, WorkerAction::Hold),
    }
}

/// While the game is not seen running, the session only sleeps and retries:
/// it never leaves `AwaitGame` and never asks for a bridge, a mapping or a
/// poll.
pub proof fn lemma_no_connect_without_game(ev: WorkerEvent)
    requires
        ev != WorkerEvent::GameCheck(true),
    ensures
        worker_step_spec(WorkerPhase::AwaitGame, ev).0 == WorkerPhase::AwaitGame,
        worker_step_spec(WorkerPhase::AwaitGame, ev).1 == WorkerAction::SleepRetry
            || worker_step_spec(WorkerPhase::AwaitGame, ev).1 == WorkerAction::Hold,
{
}

/// Why the plugin failed to set itself up, reported to the host once at
/// startup.
#[derive(PartialEq, Eq, Structural, Clone, Copy, Debug)]
pub enum SetupError {
    /// The game's installation prefix could not be found.
    PrefixNotFound,
    /// The prefix has no usable local data directory for the bridge.
    DataDirUnavailable,
    /// The bridge executable is not installed at its resolved path.
    BridgeMissing,
}

/// Decide startup: the plugin activates exactly when the game prefix was
/// found, the bridge's directory is usable, and the bridge executable is
/// present; otherwise the one error naming the first missing piece.
pub fn init_setup_outcome(prefix_found: bool, data_dir_found: bool, bridge_present: bool) -> (r:
    Result<(), SetupError>)
    ensures
        (r is Ok) == (prefix_found && data_dir_found && bridge_present),
        (r == Result::<(), SetupError>::Err(SetupError::PrefixNotFound)) == !prefix_found,
        (r == Result::<(), SetupError>::Err(SetupError::DataDirUnavailable)) == (prefix_found
            && !data_dir_found),
        (r == Result::<(), SetupError>::Err(SetupError::BridgeMissing)) == (prefix_found
            && data_dir_found && !bridge_present),
{
    if !prefix_found {
        Err(SetupError::PrefixNotFound)
    } else if !data_dir_found {
        Err(SetupError::DataDirUnavailable)
    } else if !bridge_present {
        Err(SetupError::BridgeMissing)
    } else {
        Ok(())
    }
}

} // verus!
