//! Per-feed update state: version tracking, player-vehicle selection,
//! string republish caching, and the staleness watchdog.
//!
//! The worker polls two feeds, scoring and telemetry.  This module holds
//! the decisions of one poll over plain copied values: whether a copied
//! frame is accepted (see [`crate::frame`]), which scoring entry names the
//! player vehicle, which telemetry entry to copy, when a string property
//! must be republished, and when a quiet feed must trigger a game-liveness
//! check.

use vstd::prelude::*;
use crate::frame::FrameHeader;

verus! {

/// Upper bound of the producer's per-vehicle arrays; a reported vehicle
/// count is clamped against it before any indexing.
pub const MAX_MAPPED_VEHICLES: usize = 128;

/// A feed that shows no progress for longer than this (milliseconds)
/// triggers a game-liveness re-check.
pub const STALENESS_WINDOW_MS: u64 = 5000;

/// Cached last-published string values, so a string property is republished
/// only when the decoded value differs byte-for-byte.
pub struct TelemetryCache {
    pub vehicle_name: String,
    pub track_name: String,
    pub front_tire_compound_name: String,
    pub rear_tire_compound_name: String,
}

/// Per-worker reader state: last accepted version per feed, the player
/// vehicle's identifier, string caches, and the time (milliseconds on the
/// caller's monotonic clock) at which progress was last seen missing.
pub struct ReaderState {
    pub telemetry_update_version: u32,
    pub telemetry_cache: TelemetryCache,
    pub scoring_update_version: u32,
    pub player_vehicle_id: i32,
    pub version_last_increment: Option<u64>,
}

/// `s` after accepting a scoring frame of version `version` that named
/// `player_id` as the player vehicle.
pub open spec fn scoring_updated(s: ReaderState, version: u32, player_id: i32) -> ReaderState {
    ReaderState { scoring_update_version: version, player_vehicle_id: player_id, ..s }
}

/// `s` after accepting a telemetry frame of version `version`.
pub open spec fn telemetry_updated(s: ReaderState, version: u32) -> ReaderState {
    ReaderState { telemetry_update_version: version, ..s }
}

/// `s` with its missing-progress mark replaced.
pub open spec fn marked(s: ReaderState, mark: Option<u64>) -> ReaderState {
    ReaderState { version_last_increment: mark, ..s }
}

impl Default for ReaderState {
    /// The state before the first poll: versions at zero, empty caches, no
    /// player identified, no missing-progress timestamp.
    fn default() -> (r: ReaderState)
        ensures
            r.telemetry_update_version == 0,
            r.scoring_update_version == 0,
            r.player_vehicle_id == 0,
            (r.version_last_increment is None),
            r.telemetry_cache.vehicle_name@ == Seq::<char>::empty(),
            r.telemetry_cache.track_name@ == Seq::<char>::empty(),
            r.telemetry_cache.front_tire_compound_name@ == Seq::<char>::empty(),
            r.telemetry_cache.rear_tire_compound_name@ == Seq::<char>::empty(),
    {
        ReaderState {
            telemetry_update_version: 0,
            telemetry_cache: TelemetryCache {
                vehicle_name: String::new(),
                track_name: String::new(),
                front_tire_compound_name: String::new(),
                rear_tire_compound_name: String::new(),
            },
            scoring_update_version: 0,
            player_vehicle_id: 0,
            version_last_increment: None,
        }
    }
}

/// The defensive clamp of a reported vehicle count: a count outside
/// `0 ..= MAX_MAPPED_VEHICLES` is distrusted and replaced by the bound.
pub open spec fn clamped_count(num_vehicles: i32) -> usize {
    if 0 <= num_vehicles <= MAX_MAPPED_VEHICLES {
        num_vehicles as usize
    } else {
        MAX_MAPPED_VEHICLES
    }
}

/// Clamp a reported vehicle count against the mapped-array bound.
pub fn clamp_vehicle_count(num_vehicles: i32) -> (r: usize)
    ensures
        r == clamped_count(num_vehicles),
        r <= MAX_MAPPED_VEHICLES,
{
    if num_vehicles >= 0 && (num_vehicles as usize) <= MAX_MAPPED_VEHICLES {
        num_vehicles as usize
    } else {
        MAX_MAPPED_VEHICLES
    }
}

/// Position `i` holds the first of the leading `count` entries whose id is
/// `target`.
pub open spec fn first_id_index(ids: Seq<i32>, count: int, target: i32, i: int) -> bool {
    &&& 0 <= i < count
    &&& ids[i] == target
    &&& forall|j: int| 0 <= j < i ==> ids[j] != target
}

/// None of the leading `count` entries has id `target`.
pub open spec fn no_id_match(ids: Seq<i32>, count: int, target: i32) -> bool {
    forall|i: int| 0 <= i < count ==> ids[i] != target
}

/// The index of the player's entry in the telemetry array: the first of the
/// leading (clamped) `count` entries carrying the player-vehicle id.  Only
/// that one entry is then copied and version-validated, instead of the
/// whole array.
pub fn find_vehicle_index(ids: &Vec<i32>, count: usize, target: i32) -> (r: Option<usize>)
    requires
        count <= ids@.len(),
    ensures
        r matches Some(i) ==> first_id_index(ids@, count as int, target, i as int),
        (r is None) == no_id_match(ids@, count as int, target),
{
    let mut i: usize = 0;
    while i < count
        invariant
            i <= count,
            count <= ids@.len(),
            forall|j: int| 0 <= j < i ==> ids@[j] != target,
        decreases count - i,
    {
        if ids[i] == target {
            return Some(i);
        }
        i = i + 1;
    }
    None
}

/// The player-vehicle id after scanning the first `n` scoring entries in
/// order: each entry flagged as the player overwrites the id, so the last
/// flagged entry wins; with none flagged the previous id stands.
pub open spec fn player_id_after(ids: Seq<i32>, is_player: Seq<bool>, n: int, prev: i32) -> i32
    decreases n,
{
    if n <= 0 {
        prev
    } else if is_player[n - 1] {
        ids[n - 1]
    } else {
        player_id_after(ids, is_player, n - 1, prev)
    }
}

/// The player-vehicle id a scoring frame with the given entries and
/// reported count leaves behind, starting from `prev`.
pub open spec fn scored_player(ids: Seq<i32>, is_player: Seq<bool>, num: i32, prev: i32) -> i32 {
    player_id_after(ids, is_player, clamped_count(num) as int, prev)
}

/// Whether the staleness window has run out at `now_ms`: progress has been
/// missing since some `t`, and `now_ms` lies strictly beyond `t` plus the
/// window.
pub open spec fn staleness_is_due(s: ReaderState, now_ms: u64) -> bool {
    s.version_last_increment matches Some(t) && now_ms > t + STALENESS_WINDOW_MS
}

impl ReaderState {
    /// Handle one copied scoring frame: accept it exactly when its header
    /// pair matches, recording its version and scanning its first
    /// `num_vehicles` (clamped) entries for the player vehicle's id.  A
    /// torn copy changes nothing.  Returns whether the frame was accepted,
    /// i.e. whether the scoring version property is to be republished.
    pub fn scoring_accept(
        &mut self,
        header: &FrameHeader,
        num_vehicles: i32,
        ids: &Vec<i32>,
        is_player: &Vec<bool>,
    ) -> (accepted: bool)
        requires
            ids@.len() == is_player@.len(),
            clamped_count(num_vehicles) <= ids@.len(),
        ensures
            accepted == crate::frame::consistent(*header),
            accepted ==> *final(self) == scoring_updated(
                *old(self),
                header.version_update_begin,
                scored_player(ids@, is_player@, num_vehicles, old(self).player_vehicle_id),
            ),
            !accepted ==> *final(self) == *old(self),
    {
        if !crate::frame::frame_consistent(header) {
            return false;
        }
        self.scoring_update_version = header.version_update_begin;
        let n = clamp_vehicle_count(num_vehicles);
        let mut i: usize = 0;
        let mut player_id: i32 = self.player_vehicle_id;
        while i < n
            invariant
                i <= n,
                n <= ids@.len(),
                ids@.len() == is_player@.len(),
                player_id == player_id_after(
                    ids@,
                    is_player@,
                    i as int,
                    old(self).player_vehicle_id,
                ),
            decreases n - i,
        {
            if is_player[i] {
                player_id = ids[i];
            }
            i = i + 1;
        }
        self.player_vehicle_id = player_id;
        true
    }

    /// Handle the header of one copied telemetry entry: accept exactly when
    /// the begin version taken before the copy matches the end version read
    /// after it, recording the new version.  A torn copy changes nothing.
    pub fn telemetry_accept(&mut self, begin: u32, end_after_copy: u32) -> (accepted: bool)
        ensures
            accepted == (begin == end_after_copy),
            accepted ==> *final(self) == telemetry_updated(*old(self), begin),
            !accepted ==> *final(self) == *old(self),
    {
        if begin == end_after_copy {
            self.telemetry_update_version = begin;
            true
        } else {
            false
        }
    }

    /// Record whether this poll saw the telemetry feed advance for the
    /// player vehicle.  Progress clears the missing-progress timestamp; the
    /// first poll without progress sets it to `now_ms`, and later ones
    /// leave it alone, so it marks when the quiet period began.
    pub fn note_telemetry_progress(&mut self, advanced: bool, now_ms: u64)
        ensures
            advanced ==> *final(self) == marked(*old(self), None),
            !advanced && old(self).version_last_increment is None ==> *final(self) == marked(
                *old(self),
                Some(now_ms),
            ),
            !advanced && old(self).version_last_increment is Some ==> *final(self) == *old(self),
    {
        if advanced {
            self.version_last_increment = None;
        } else if self.version_last_increment.is_none() {
            self.version_last_increment = Some(now_ms);
        }
    }

    /// Whether a game-liveness check is due: true exactly when the feed has
    /// been quiet past the staleness window.
    pub fn staleness_due(&self, now_ms: u64) -> (due: bool)
        ensures
            due == staleness_is_due(*self, now_ms),
    {
        match self.version_last_increment {
            Some(t) => now_ms > t && now_ms - t > STALENESS_WINDOW_MS,
            None => false,
        }
    }

    /// Resolve a due staleness check with the game-liveness result: a
    /// running game means the quiet feed is transient (a load screen), so
    /// the window restarts at `now_ms` and polling continues; a stopped
    /// game yields the disconnect signal (`false`) with the state as it
    /// was.
    pub fn staleness_resolve(&mut self, game_running: bool, now_ms: u64) -> (keep_polling: bool)
        ensures
            keep_polling == game_running,
            game_running ==> *final(self) == marked(*old(self), Some(now_ms)),
            !game_running ==> *final(self) == *old(self),
    {
        if game_running {
            self.version_last_increment = Some(now_ms);
            true
        } else {
            false
        }
    }
}

/// A quiet feed triggers the liveness check exactly after the staleness
/// window: once a poll at time `t0` first finds no progress, a check is due
/// at `now` if and only if `now` lies strictly beyond `t0` plus the window.
pub proof fn lemma_staleness_window(s0: ReaderState, s1: ReaderState, t0: u64, now: u64)
    requires
        (s0.version_last_increment is None),
        s1 == marked(s0, Some(t0)),
    ensures
        staleness_is_due(s1, now) <==> now > t0 + STALENESS_WINDOW_MS,
{
}

/// Ignition/starter states in the producer's encoding: off, ignition only,
/// or ignition with the starter engaged.
pub const IGNITION_OFF: u8 = 0;

pub const IGNITION_AND_STARTER: u8 = 2;

/// Rear-flap legality in the producer's encoding.
pub const REAR_FLAP_DETECTED_NOT_ALLOWED: u8 = 1;

pub const REAR_FLAP_ALLOWED: u8 = 2;

/// The sector number without its sign bit, which the producer uses as a
/// flag of its own; what remains is never negative.
pub fn sector_number(current_sector: i32) -> (r: i32)
    ensures
        r == (current_sector & 0x7FFF_FFFFi32),
        r >= 0,
{
    proof {
        assert(current_sector & 0x7FFF_FFFFi32 >= 0) by (bit_vector);
    }
    current_sector & 0x7FFF_FFFF
}

/// One of the producer's byte-sized flags: any nonzero value reads as set.
pub fn flag_set(raw: u8) -> (r: bool)
    ensures
        r == (raw != 0),
{
    raw != 0
}

/// The ignition is on in every state but off.
pub fn ignition_on(status: u8) -> (r: bool)
    ensures
        r == (status != IGNITION_OFF),
{
    status != IGNITION_OFF
}

/// The starter turns only in the combined ignition-and-starter state.
pub fn starter_engaged(status: u8) -> (r: bool)
    ensures
        r == (status == IGNITION_AND_STARTER),
{
    status == IGNITION_AND_STARTER
}

/// The rear flap was detected but may not be used yet.
pub fn rear_flap_detected(status: u8) -> (r: bool)
    ensures
        r == (status == REAR_FLAP_DETECTED_NOT_ALLOWED),
{
    status == REAR_FLAP_DETECTED_NOT_ALLOWED
}

/// The rear flap may be used.
pub fn rear_flap_allowed(status: u8) -> (r: bool)
    ensures
        r == (status == REAR_FLAP_ALLOWED),
{
    status == REAR_FLAP_ALLOWED
}

/// A name for what `String::from_utf8_lossy` decodes from given bytes: the
/// text is a function of the bytes alone.
pub uninterp spec fn lossy_decode(bytes: Seq<u8>) -> Seq<char>;

/// Relies on String::from_utf8_lossy: decodes any byte slice to text,
/// replacing invalid sequences; the result depends on the bytes alone.
#[verifier::external_body]
fn decode_lossy(raw: &[u8]) -> (r: String)
    ensures
        r@ == lossy_decode(raw@),
{
    String::from_utf8_lossy(raw).to_string()
}

/// Decode one raw string field and refresh its cache entry: the cache ends
/// up holding the decoded text, and the property is to be republished
/// exactly when that text differs from what the cache held.
pub fn help_read_string(raw: &[u8], cache: &mut String) -> (republish: bool)
    ensures
        final(cache)@ == lossy_decode(raw@),
        republish == (old(cache)@ != lossy_decode(raw@)),
{
    let read = decode_lossy(raw);
    if *cache == read {
        false
    } else {
        *cache = read;
        true
    }
}

} // verus!
