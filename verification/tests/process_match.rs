use rf2_reader::process::{
    cached_still_matches, check_for_program_running, check_if_game_running, cmd_combiner,
    scan_for_fragment, str_contains_fragment, teardown_begin, teardown_decision,
    GameRunningHelperState, ProcEntry, TeardownDecision, TeardownStep,
};

#[test]
fn cmd_combiner_prefixes_each_argument_with_a_space() {
    let cmd = vec!["wine".to_string(), "game.exe".to_string(), "--fast".to_string()];
    assert_eq!(cmd_combiner(&cmd), " wine game.exe --fast");
}

#[test]
fn cmd_combiner_of_empty_command_line_is_empty() {
    let cmd: Vec<String> = Vec::new();
    assert_eq!(cmd_combiner(&cmd), "");
}

#[test]
fn cmd_combiner_single_argument() {
    let cmd = vec!["rFactor2.exe".to_string()];
    assert_eq!(cmd_combiner(&cmd), " rFactor2.exe");
}

#[test]
fn game_fragment_matches_game_binary_only() {
    let frag = "rFactor 2\\Bin64\\rFactor2.exe";
    let game = "Z:\\home\\user\\Steam\\steamapps\\common\\rFactor 2\\Bin64\\rFactor2.exe";
    let other = "Z:\\home\\user\\Steam\\steamapps\\common\\rFactor 2\\Bin64\\OtherExe.exe";
    assert!(str_contains_fragment(game, frag));
    assert!(!str_contains_fragment(other, frag));
}

#[test]
fn fragment_edge_cases() {
    assert!(str_contains_fragment("abc", ""));
    assert!(str_contains_fragment("", ""));
    assert!(!str_contains_fragment("", "a"));
    assert!(str_contains_fragment("abc", "abc"));
    assert!(!str_contains_fragment("abc", "abcd"));
    assert!(str_contains_fragment("aabc", "abc"));
}

fn entry(pid: u32, cmd: &[&str]) -> ProcEntry {
    ProcEntry { pid, cmd: cmd.iter().map(|s| s.to_string()).collect() }
}

#[test]
fn scan_picks_first_matching_entry() {
    let table = vec![
        entry(10, &["bash"]),
        entry(20, &["Z:\\rFactor 2\\Bin64\\rFactor2.exe"]),
        entry(30, &["Z:\\rFactor 2\\Bin64\\rFactor2.exe", "--second"]),
    ];
    assert_eq!(scan_for_fragment(&table, "rFactor 2\\Bin64\\rFactor2.exe"), Some(20));
}

#[test]
fn scan_with_no_match_returns_none() {
    let table = vec![entry(10, &["bash"]), entry(20, &["vim", "notes.txt"])];
    assert_eq!(scan_for_fragment(&table, "rFactor2.exe"), None);
}

#[test]
fn scan_matches_across_joined_arguments() {
    // The fragment may span the joining space, as the combined form does.
    let table = vec![entry(7, &["wine", "bridge.exe"])];
    assert_eq!(scan_for_fragment(&table, "wine bridge.exe"), Some(7));
}

#[test]
fn cached_process_rematches_by_command_line() {
    let game = vec!["Z:\\rFactor 2\\Bin64\\rFactor2.exe".to_string()];
    let other = vec!["bash".to_string()];
    assert!(cached_still_matches(&Some(game), "rFactor2.exe"));
    assert!(!cached_still_matches(&Some(other), "rFactor2.exe"));
    // A process that is gone never matches.
    assert!(!cached_still_matches(&None, "rFactor2.exe"));
}

#[test]
fn absent_program_is_not_found_on_this_machine() {
    // Neither a stale cached identifier nor a full table scan may turn up a
    // command line that no process here has.
    let frag = "rFactor 2\\Bin64\\rFactor2.exe";
    assert_eq!(check_for_program_running(None, frag), None);
    assert_eq!(check_for_program_running(Some(u32::MAX - 1), frag), None);
}

#[test]
fn game_check_updates_only_its_own_cache() {
    let mut helper = GameRunningHelperState::new("/tmp/bridge.exe".to_string());
    helper.bridge = Some(77);
    assert!(!check_if_game_running(&mut helper));
    assert_eq!(helper.running, None);
    assert_eq!(helper.bridge, Some(77));
    assert_eq!(helper.bridge_path, "/tmp/bridge.exe");
}

#[test]
fn teardown_clears_stale_bridge_cache() {
    // The cached bridge process does not exist here, and neither does the
    // game: nothing is signalled, no grace wait is owed, and the stale
    // cache entry is dropped.
    let mut helper = GameRunningHelperState::new("/tmp/bridge.exe".to_string());
    helper.bridge = Some(u32::MAX - 2);
    assert_eq!(teardown_begin(&mut helper), TeardownStep::Done);
    assert_eq!(helper.bridge, None);
}

#[test]
fn teardown_interrupts_only_without_game() {
    assert_eq!(teardown_decision(false, Some(42)), TeardownDecision::Interrupt(42));
    assert_eq!(teardown_decision(true, Some(42)), TeardownDecision::LeaveRunning);
    assert_eq!(teardown_decision(true, None), TeardownDecision::Nothing);
    assert_eq!(teardown_decision(false, None), TeardownDecision::Nothing);
}
