//! Process lifecycle: discovering the game and the bridge helper in the
//! process table, and deciding when the bridge may be torn down.
//!
//! A process is recognised by a fixed fragment of its command line.  The
//! matching itself — joining the command line into one string and searching
//! it for the fragment — is fully specified; what the process table holds
//! at any moment is the operating system's business, so the lookups state
//! nothing beyond their conversions.

use vstd::prelude::*;
use vstd::slice::slice_index_get;
use vstd::string::StringExecFns;
use vstd::string::StrSliceExecFns;

verus! {

/// A command line joined the way the matcher sees it: one space before
/// every argument, arguments in order.
pub open spec fn joined_cmd(items: Seq<Seq<char>>) -> Seq<char>
    decreases items.len(),
{
    if items.len() == 0 {
        Seq::empty()
    } else {
        joined_cmd(items.drop_last()) + seq![' '] + items.last()
    }
}

/// Join a command line's arguments into the single string the fragment
/// matcher searches: each argument preceded by one space.
pub fn cmd_combiner(cmd: &[String]) -> (output: String)
    ensures
        output@ == joined_cmd(cmd.deep_view()),
{
    let ghost items = cmd.deep_view();
    let mut output = String::new();
    let n = cmd.len();
    let mut i: usize = 0;
    proof {
        assert(items.take(0) =~= Seq::<Seq<char>>::empty());
    }
    while i < n
        invariant
            i <= n,
            n == cmd@.len(),
            items == cmd.deep_view(),
            output@ == joined_cmd(items.take(i as int)),
        decreases n - i,
    {
        let item = slice_index_get(cmd, i);
        output.append(" ");
        output.append(item.as_str());
        proof {
            reveal_strlit(" ");
            assert(items.take(i + 1).drop_last() =~= items.take(i as int));
            assert(items.take(i + 1).last() == items[i as int]);
            assert(" "@ =~= seq![' ']);
        }
        i = i + 1;
    }
    proof {
        assert(items.take(n as int) =~= items);
    }
    output
}

/// The fragment stands in the text at position `i`.
pub open spec fn fragment_at(hay: Seq<char>, frag: Seq<char>, i: int) -> bool {
    &&& 0 <= i
    &&& i + frag.len() <= hay.len()
    &&& hay.subrange(i, i + frag.len()) == frag
}

/// The fragment stands somewhere in the text.
pub open spec fn contains_fragment(hay: Seq<char>, frag: Seq<char>) -> bool {
    exists|i: int| fragment_at(hay, frag, i)
}

/// Whether the fragment stands at position `i` of the text.
fn fragment_match_at(hay: &str, frag: &str, i: usize, hay_len: usize, frag_len: usize) -> (r:
    bool)
    requires
        hay_len == hay@.len(),
        frag_len == frag@.len(),
        i + frag_len <= hay_len,
    ensures
        r == fragment_at(hay@, frag@, i as int),
{
    let mut j: usize = 0;
    while j < frag_len
        invariant
            j <= frag_len,
            hay_len == hay@.len(),
            frag_len == frag@.len(),
            i + frag_len <= hay_len,
            forall|k: int| 0 <= k < j ==> hay@[i + k] == frag@[k],
        decreases frag_len - j,
    {
        if hay.get_char(i + j) != frag.get_char(j) {
            proof {
                assert(!fragment_at(hay@, frag@, i as int)) by {
                    if hay@.subrange(i as int, i + frag@.len()) == frag@ {
                        assert(hay@.subrange(i as int, i + frag@.len())[j as int] == hay@[i + j]);
                    }
                }
            }
            return false;
        }
        j = j + 1;
    }
    proof {
        assert(hay@.subrange(i as int, i + frag@.len()) =~= frag@);
    }
    true
}

/// Whether the text contains the fragment, character for character.
pub fn str_contains_fragment(hay: &str, frag: &str) -> (r: bool)
    ensures
        r == contains_fragment(hay@, frag@),
{
    let hay_len = hay.unicode_len();
    let frag_len = frag.unicode_len();
    if frag_len > hay_len {
        proof {
            assert forall|k: int| !fragment_at(hay@, frag@, k) by {}
        }
        return false;
    }
    if frag_len == 0 {
        proof {
            assert(hay@.subrange(0, 0) =~= frag@);
            assert(fragment_at(hay@, frag@, 0));
        }
        return true;
    }
    let mut i: usize = 0;
    while i <= hay_len - frag_len
        invariant
            1 <= frag_len <= hay_len,
            hay_len == hay@.len(),
            frag_len == frag@.len(),
            i <= hay_len - frag_len + 1,
            forall|k: int| 0 <= k < i ==> !fragment_at(hay@, frag@, k),
        decreases hay_len - frag_len - i + 1,
    {
        if fragment_match_at(hay, frag, i, hay_len, frag_len) {
            proof {
                assert(fragment_at(hay@, frag@, i as int));
            }
            return true;
        }
        i = i + 1;
    }
    proof {
        assert forall|k: int| !fragment_at(hay@, frag@, k) by {
            if 0 <= k < i as int {
            }
        }
    }
    false
}

#[verifier::external_type_specification]
#[verifier::external_body]
pub struct ExSystem(sysinfo::System);

/// One row of the process table: a process identifier and its command line.
pub struct ProcEntry {
    pub pid: u32,
    pub cmd: Vec<String>,
}

/// The entry's joined command line contains the fragment.
pub open spec fn entry_matches(e: ProcEntry, frag: Seq<char>) -> bool {
    contains_fragment(joined_cmd(e.cmd.deep_view()), frag)
}

/// No entry of the table matches the fragment.
pub open spec fn no_entry_matches(table: Seq<ProcEntry>, frag: Seq<char>) -> bool {
    forall|i: int| 0 <= i < table.len() ==> !entry_matches(table[i], frag)
}

/// The entry at `i` is the first of the table to match the fragment.
pub open spec fn first_match_at(table: Seq<ProcEntry>, frag: Seq<char>, i: int) -> bool {
    &&& 0 <= i < table.len()
    &&& entry_matches(table[i], frag)
    &&& forall|j: int| 0 <= j < i ==> !entry_matches(table[j], frag)
}

/// Relies on sysinfo::System::new: a fresh snapshot holding no process
/// information until refreshed.
#[verifier::external_body]
fn system_new() -> sysinfo::System {
    sysinfo::System::new()
}

/// Relies on sysinfo::set_open_files_limit: caps how many files the
/// process-table refresh keeps open between calls; pure configuration.
#[verifier::external_body]
fn limit_open_files() {
    sysinfo::set_open_files_limit(0);
}

/// Relies on sysinfo::System::refresh_pids_specifics: loads the given
/// process's row, with its command line, into the snapshot.
#[verifier::external_body]
fn refresh_one_pid(sys: &mut sysinfo::System, pid: u32) {
    sys.refresh_pids_specifics(
        &[sysinfo::Pid::from_u32(pid)],
        sysinfo::ProcessRefreshKind::new().with_cmd(sysinfo::UpdateKind::OnlyIfNotSet),
    );
}

/// Relies on sysinfo::System::refresh_processes_specifics: loads the whole
/// process table, with command lines, into the snapshot.
#[verifier::external_body]
fn refresh_all_processes(sys: &mut sysinfo::System) {
    sys.refresh_processes_specifics(
        sysinfo::ProcessRefreshKind::new().with_cmd(sysinfo::UpdateKind::OnlyIfNotSet),
    );
}

/// Relies on sysinfo::System::process and sysinfo::Process::cmd: the
/// command line of the given process, if the snapshot holds its row.
#[verifier::external_body]
fn process_cmdline(sys: &sysinfo::System, pid: u32) -> (r: Option<Vec<String>>) {
    sys.process(sysinfo::Pid::from_u32(pid)).map(|p| p.cmd().to_vec())
}

/// Relies on sysinfo::System::processes, sysinfo::Process::pid and
/// sysinfo::Process::cmd: every row of the snapshot's process table, in the
/// table's own enumeration order, which is unspecified.
#[verifier::external_body]
fn process_table(sys: &sysinfo::System) -> (r: Vec<ProcEntry>) {
    sys.processes().values().map(
        |p| ProcEntry { pid: p.pid().as_u32(), cmd: p.cmd().to_vec() },
    ).collect()
}

/// Relies on sysinfo::System::process and sysinfo::Process::kill_with:
/// sends an interrupt to the given process if the snapshot holds its row;
/// returns whether the row was there.
#[verifier::external_body]
fn interrupt_process(sys: &sysinfo::System, pid: u32) -> (found: bool) {
    match sys.process(sysinfo::Pid::from_u32(pid)) {
        Some(p) => {
            p.kill_with(sysinfo::Signal::Interrupt);
            true
        },
        None => false,
    }
}

/// The first table entry whose joined command line contains the fragment,
/// in the order the table was handed over; `None` exactly when no entry
/// matches.
pub fn scan_for_fragment(table: &Vec<ProcEntry>, name_frag: &str) -> (r: Option<u32>)
    ensures
        (r is None) == no_entry_matches(table@, name_frag@),
        r matches Some(p) ==> (exists|i: int|
            first_match_at(table@, name_frag@, i) && #[trigger] table@[i].pid == p),
{
    let n = table.len();
    let mut i: usize = 0;
    while i < n
        invariant
            i <= n,
            n == table@.len(),
            forall|j: int| 0 <= j < i ==> !entry_matches(table@[j], name_frag@),
        decreases n - i,
    {
        let entry = &table[i];
        let cmd_slice = entry.cmd.as_slice();
        let combined = cmd_combiner(cmd_slice);
        proof {
            assert(cmd_slice.deep_view() =~= entry.cmd.deep_view());
        }
        if str_contains_fragment(combined.as_str(), name_frag) {
            proof {
                assert(entry_matches(table@[i as int], name_frag@));
                assert(first_match_at(table@, name_frag@, i as int));
            }
            return Some(entry.pid);
        }
        i = i + 1;
    }
    None
}

/// Whether a cached process's freshly looked-up command line still contains
/// the fragment; a process that is gone (`None`) no longer matches.
pub fn cached_still_matches(cmd: &Option<Vec<String>>, name_frag: &str) -> (r: bool)
    ensures
        r == (cmd matches Some(c) && contains_fragment(joined_cmd(c.deep_view()), name_frag@)),
{
    match cmd {
        Some(c) => {
            let cmd_slice = c.as_slice();
            let combined = cmd_combiner(cmd_slice);
            proof {
                assert(cmd_slice.deep_view() =~= c.deep_view());
            }
            str_contains_fragment(combined.as_str(), name_frag)
        },
        None => false,
    }
}

/// Look for a process whose command line contains the fragment and return
/// its identifier.  A cached identifier is checked first, so a stable
/// process costs one row lookup instead of a table scan; a cached identifier
/// that is gone, or now runs a foreign command line, falls back to the full
/// scan.  What the lookups see is the live process table, so nothing more
/// than the selection logic (see [`scan_for_fragment`]) can be promised of
/// the result; with several matching processes, the table's own enumeration
/// order breaks the tie.
pub fn check_for_program_running(pid: Option<u32>, name_frag: &str) -> Option<u32> {
    if let Some(p) = pid {
        let mut sys = system_new();
        refresh_one_pid(&mut sys, p);
        let cmd = process_cmdline(&sys, p);
        if cached_still_matches(&cmd, name_frag) {
            return Some(p);
        }
        // The process is gone, or a foreign process reuses the identifier:
        // retry with a full scan.
    }
    let mut sys = system_new();
    refresh_all_processes(&mut sys);
    let table = process_table(&sys);
    scan_for_fragment(&table, name_frag)
}

/// Cached process identifiers for the game and the bridge, and the resolved
/// path of the bridge executable; spares a full table scan on every check.
pub struct GameRunningHelperState {
    pub running: Option<u32>,
    pub bridge: Option<u32>,
    pub bridge_path: String,
}

impl GameRunningHelperState {
    /// A fresh cache around the resolved bridge executable path: nothing
    /// looked up yet.  Also caps the refresh machinery's open files, which
    /// would otherwise stay open between checks.
    pub fn new(bridge_path: String) -> (r: GameRunningHelperState)
        ensures
            (r.running is None),
            (r.bridge is None),
            r.bridge_path == bridge_path,
    {
        limit_open_files();
        GameRunningHelperState { running: None, bridge: None, bridge_path }
    }
}

/// Whether the game is running, by its command-line fragment; refreshes the
/// cached identifier and touches nothing else.
pub fn check_if_game_running(helper: &mut GameRunningHelperState) -> (r: bool)
    ensures
        r == (final(helper).running is Some),
        final(helper).bridge == old(helper).bridge,
        final(helper).bridge_path == old(helper).bridge_path,
{
    helper.running = check_for_program_running(helper.running, "rFactor 2\\Bin64\\rFactor2.exe");
    helper.running.is_some()
}

/// Whether the bridge helper is running, by its command-line fragment;
/// refreshes the cached identifier and touches nothing else.
pub fn check_for_bridge(helper: &mut GameRunningHelperState) -> (r: bool)
    ensures
        r == (final(helper).bridge is Some),
        final(helper).running == old(helper).running,
        final(helper).bridge_path == old(helper).bridge_path,
{
    helper.bridge = check_for_program_running(helper.bridge, "DataRace\\shm-bridge-rf2.exe");
    helper.bridge.is_some()
}

/// What a teardown does, given game liveness at call time and the cached
/// bridge identifier.
#[derive(PartialEq, Eq, Structural, Clone, Copy, Debug)]
pub enum TeardownDecision {
    /// The game is not running and a bridge is known: interrupt it.
    Interrupt(u32),
    /// The game still runs: the bridge stays untouched (it must outlive the
    /// game, which attaches to the memory the bridge owns), with no
    /// warning.
    LeaveRunning,
    /// No bridge is known: nothing to do.
    Nothing,
}

/// Decide a teardown: the bridge is terminated only when game liveness is
/// false at call time and a bridge identifier is cached; otherwise it is
/// left untouched.
pub fn teardown_decision(game_running: bool, bridge: Option<u32>) -> (r: TeardownDecision)
    ensures
        forall|p: u32|
            (r == TeardownDecision::Interrupt(p)) <==> (!game_running && bridge == Some(p)),
        (r == TeardownDecision::LeaveRunning) <==> (game_running && bridge is Some),
        (r == TeardownDecision::Nothing) <==> (bridge is None),
{
    match bridge {
        Some(p) => if game_running {
            TeardownDecision::LeaveRunning
        } else {
            TeardownDecision::Interrupt(p)
        },
        None => TeardownDecision::Nothing,
    }
}

/// What a teardown's first half asks of the caller.
#[derive(PartialEq, Eq, Structural, Clone, Copy, Debug)]
pub enum TeardownStep {
    /// The interrupt went out: wait the grace interval, then call
    /// [`teardown_recheck`]; a bridge still alive then is worth a warning,
    /// not a failure.
    AwaitGrace,
    /// The bridge stays up because the game still runs: worth a log line
    /// when one was cached.
    BridgeKeptRunning,
    /// Nothing to do or the cached process was already gone.
    Done,
}

/// First half of a bridge teardown: re-check game liveness, and interrupt
/// the bridge only if the game is not running.  The bridge is left alone
/// exactly when the game was seen running while a bridge was cached; a
/// teardown that ends with nothing pending has cleared the cached bridge
/// identifier, so a cached bridge whose process is already gone is dropped
/// without a signal or a warning.
pub fn teardown_begin(helper: &mut GameRunningHelperState) -> (r: TeardownStep)
    ensures
        (r == TeardownStep::BridgeKeptRunning) == ((final(helper).running is Some) && (old(helper).bridge is Some)),
        r == TeardownStep::BridgeKeptRunning ==> final(helper).bridge == old(helper).bridge,
        r == TeardownStep::Done ==> (final(helper).bridge is None),
        r == TeardownStep::AwaitGrace ==> (final(helper).running is None) && (old(helper).bridge is Some),
        r == TeardownStep::AwaitGrace ==> final(helper).bridge == old(helper).bridge,
        final(helper).bridge_path == old(helper).bridge_path,
{
    let game_running = check_if_game_running(helper);
    match teardown_decision(game_running, helper.bridge) {
        TeardownDecision::Interrupt(pid) => {
            let mut sys = system_new();
            refresh_one_pid(&mut sys, pid);
            if interrupt_process(&sys, pid) {
                TeardownStep::AwaitGrace
            } else {
                helper.bridge = None;
                TeardownStep::Done
            }
        },
        TeardownDecision::LeaveRunning => TeardownStep::BridgeKeptRunning,
        TeardownDecision::Nothing => TeardownStep::Done,
    }
}

/// Second half of a bridge teardown, after the grace interval: whether the
/// bridge survived the interrupt, in which case the caller logs a warning
/// and shutdown goes on regardless.
pub fn teardown_recheck(helper: &mut GameRunningHelperState) -> (still_running: bool)
    ensures
        still_running == (final(helper).bridge is Some),
        final(helper).running == old(helper).running,
        final(helper).bridge_path == old(helper).bridge_path,
{
    check_for_bridge(helper)
}

} // verus!
