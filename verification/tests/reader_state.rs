use rf2_reader::frame::FrameHeader;
use rf2_reader::reader::{
    clamp_vehicle_count, find_vehicle_index, flag_set, help_read_string, ignition_on,
    rear_flap_allowed, rear_flap_detected, sector_number, starter_engaged, ReaderState,
    MAX_MAPPED_VEHICLES, STALENESS_WINDOW_MS,
};

fn header(begin: u32, end: u32) -> FrameHeader {
    FrameHeader { version_update_begin: begin, version_update_end: end }
}

#[test]
fn default_state_is_blank() {
    let state = ReaderState::default();
    assert_eq!(state.telemetry_update_version, 0);
    assert_eq!(state.scoring_update_version, 0);
    assert_eq!(state.player_vehicle_id, 0);
    assert_eq!(state.version_last_increment, None);
    assert_eq!(state.telemetry_cache.vehicle_name, "");
    assert_eq!(state.telemetry_cache.track_name, "");
    assert_eq!(state.telemetry_cache.front_tire_compound_name, "");
    assert_eq!(state.telemetry_cache.rear_tire_compound_name, "");
}

#[test]
fn vehicle_count_is_clamped() {
    assert_eq!(clamp_vehicle_count(0), 0);
    assert_eq!(clamp_vehicle_count(5), 5);
    assert_eq!(clamp_vehicle_count(MAX_MAPPED_VEHICLES as i32), MAX_MAPPED_VEHICLES);
    assert_eq!(clamp_vehicle_count(MAX_MAPPED_VEHICLES as i32 + 1), MAX_MAPPED_VEHICLES);
    assert_eq!(clamp_vehicle_count(-1), MAX_MAPPED_VEHICLES);
    assert_eq!(clamp_vehicle_count(i32::MIN), MAX_MAPPED_VEHICLES);
}

#[test]
fn scoring_records_last_player_entry() {
    let mut state = ReaderState::default();
    let ids = vec![11, 22, 33, 44];
    let players = vec![false, true, true, false];
    assert!(state.scoring_accept(&header(7, 7), 4, &ids, &players));
    assert_eq!(state.scoring_update_version, 7);
    // Both entries 1 and 2 claim the player; the later one wins.
    assert_eq!(state.player_vehicle_id, 33);
}

#[test]
fn scoring_without_player_keeps_previous_id() {
    let mut state = ReaderState::default();
    state.player_vehicle_id = 5;
    let ids = vec![11, 22];
    let players = vec![false, false];
    assert!(state.scoring_accept(&header(3, 3), 2, &ids, &players));
    assert_eq!(state.player_vehicle_id, 5);
}

#[test]
fn scoring_count_is_clamped_to_given_entries() {
    let mut state = ReaderState::default();
    // The reported count exceeds the entries scanned: only the leading ones
    // count, and a flagged entry beyond the count is ignored.
    let ids = vec![11, 22, 33];
    let players = vec![false, true, true];
    assert!(state.scoring_accept(&header(1, 1), 2, &ids, &players));
    assert_eq!(state.player_vehicle_id, 22);
}

#[test]
fn player_entry_is_first_id_match() {
    let ids = vec![4, 7, 7, 9];
    assert_eq!(find_vehicle_index(&ids, 4, 7), Some(1));
    assert_eq!(find_vehicle_index(&ids, 4, 9), Some(3));
    assert_eq!(find_vehicle_index(&ids, 4, 5), None);
    // The clamped count bounds the search.
    assert_eq!(find_vehicle_index(&ids, 3, 9), None);
    assert_eq!(find_vehicle_index(&ids, 0, 4), None);
}

#[test]
fn progress_marks_start_of_quiet_period() {
    let mut state = ReaderState::default();
    // The first poll without progress stamps the time.
    state.note_telemetry_progress(false, 1000);
    assert_eq!(state.version_last_increment, Some(1000));
    // Later quiet polls keep the first stamp.
    state.note_telemetry_progress(false, 3000);
    assert_eq!(state.version_last_increment, Some(1000));
    // Progress clears it.
    state.note_telemetry_progress(true, 4000);
    assert_eq!(state.version_last_increment, None);
}

#[test]
fn staleness_fires_exactly_after_window() {
    let mut state = ReaderState::default();
    state.note_telemetry_progress(false, 1000);
    assert!(!state.staleness_due(1000));
    assert!(!state.staleness_due(1000 + STALENESS_WINDOW_MS));
    assert!(state.staleness_due(1000 + STALENESS_WINDOW_MS + 1));
}

#[test]
fn staleness_never_fires_while_feed_advances() {
    let mut state = ReaderState::default();
    state.note_telemetry_progress(true, 1000);
    assert!(!state.staleness_due(u64::MAX));
}

#[test]
fn stale_feed_with_running_game_restarts_window() {
    let mut state = ReaderState::default();
    state.note_telemetry_progress(false, 1000);
    assert!(state.staleness_due(7000));
    // The game still runs: treat the quiet feed as transient.
    assert!(state.staleness_resolve(true, 7000));
    assert_eq!(state.version_last_increment, Some(7000));
    assert!(!state.staleness_due(7000 + STALENESS_WINDOW_MS));
    assert!(state.staleness_due(7000 + STALENESS_WINDOW_MS + 1));
}

#[test]
fn stale_feed_with_stopped_game_signals_disconnect() {
    let mut state = ReaderState::default();
    state.note_telemetry_progress(false, 1000);
    assert!(state.staleness_due(7000));
    assert!(!state.staleness_resolve(false, 7000));
    assert_eq!(state.version_last_increment, Some(1000));
}

#[test]
fn sector_mask_drops_sign_bit() {
    assert_eq!(sector_number(5), 5);
    assert_eq!(sector_number(i32::MIN | 5), 5);
    assert_eq!(sector_number(-1), i32::MAX);
    assert_eq!(sector_number(0), 0);
}

#[test]
fn producer_flag_decodings() {
    assert!(!flag_set(0));
    assert!(flag_set(1));
    assert!(flag_set(255));
    assert!(!ignition_on(0));
    assert!(ignition_on(1));
    assert!(ignition_on(2));
    assert!(!starter_engaged(0));
    assert!(!starter_engaged(1));
    assert!(starter_engaged(2));
    assert!(rear_flap_detected(1));
    assert!(!rear_flap_detected(2));
    assert!(!rear_flap_allowed(1));
    assert!(rear_flap_allowed(2));
}

#[test]
fn string_cache_republishes_only_changes() {
    let mut cache = String::new();
    // A new value is published and cached.
    assert!(help_read_string(b"soft", &mut cache));
    assert_eq!(cache, "soft");
    // The same bytes again: no republish.
    assert!(!help_read_string(b"soft", &mut cache));
    assert_eq!(cache, "soft");
    // A change is published again.
    assert!(help_read_string(b"medium", &mut cache));
    assert_eq!(cache, "medium");
}

#[test]
fn string_cache_decodes_invalid_bytes_lossily() {
    let mut cache = String::new();
    assert!(help_read_string(&[0x66, 0xff, 0x67], &mut cache));
    assert_eq!(cache, "f\u{fffd}g");
}
