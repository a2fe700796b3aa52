//! The decisions the desktop playback manager takes on each event: state
//! transitions, volume, Spotify Connect polling, progress of HTTP playback,
//! where a played track sits in the queue, and which tracks to fetch ahead.
use crate::models::{copy_tracks, tracks_view, PlaybackInfo, PlaybackState, Track};
use crate::queue::{is_shuffle_of_range, PlaybackQueue, QueueView};
use crate::text::text_eq;
use vstd::prelude::*;

verus! {

/// The state play/pause toggling moves to.
pub open spec fn toggled_spec(state: PlaybackState) -> PlaybackState {
    match state {
        PlaybackState::Playing => PlaybackState::Paused,
        PlaybackState::Paused | PlaybackState::Stopped => PlaybackState::Playing,
    }
}

/// The state play/pause toggling moves to: playing pauses, anything else
/// plays.
pub fn toggled_state(state: PlaybackState) -> (r: PlaybackState)
    ensures
        r == toggled_spec(state),
{
    match state {
        PlaybackState::Playing => PlaybackState::Paused,
        PlaybackState::Paused | PlaybackState::Stopped => PlaybackState::Playing,
    }
}

/// A volume limited to the 0-100 range.
pub fn clamp_volume(volume: u32) -> (r: u32)
    ensures
        r == (if volume <= 100 {
            volume
        } else {
            100
        }),
{
    if volume <= 100 {
        volume
    } else {
        100
    }
}

/// The volume percentage sent to Spotify Connect for an output volume.
pub fn connect_volume_percent(volume: u32) -> (r: u8)
    ensures
        r as u32 == (if volume <= 100 {
            volume
        } else {
            100
        }),
{
    let v = clamp_volume(volume);
    v as u8
}

/// Interval between two polls of the Spotify Connect playback state.
pub const CONNECT_POLL_INTERVAL_MS: u64 = 2000;

/// What one Spotify Connect poll changes in the playback snapshot.
#[derive(Debug, Clone, Copy)]
pub struct ConnectPollOutcome {
    /// The new playback position.
    pub position_ms: u64,
    /// The new playback state.
    pub state: PlaybackState,
    /// The duration to record for the current track, when the device reports
    /// a positive one.
    pub track_duration_ms: Option<u64>,
    /// Whether the device finished the track during this poll.
    pub track_completed: bool,
    /// Whether playback was active at this poll (carried to the next one).
    pub was_playing: bool,
}

/// A signed millisecond count, negative values read as zero.
pub open spec fn non_negative_ms(ms: i64) -> u64 {
    if ms < 0 {
        0
    } else {
        ms as u64
    }
}

/// The position after a poll: the reported progress, or the old position when
/// none is reported.
pub open spec fn polled_position(position_ms: u64, progress_ms: Option<i64>) -> u64 {
    match progress_ms {
        Some(p) => non_negative_ms(p),
        None => position_ms,
    }
}

/// The track is at (or within one poll interval of) its end, and is longer
/// than one poll interval.
pub open spec fn at_track_end(progress_ms: u64, duration_ms: u64) -> bool {
    duration_ms > CONNECT_POLL_INTERVAL_MS && progress_ms >= duration_ms - CONNECT_POLL_INTERVAL_MS
}

/// The effect of one poll of the Spotify Connect device while the current
/// track is a Spotify track.
pub open spec fn connect_poll_spec(
    was_playing: bool,
    position_ms: u64,
    progress_ms: Option<i64>,
    is_playing: bool,
    item_duration_ms: Option<i64>,
) -> ConnectPollOutcome {
    let position = polled_position(position_ms, progress_ms);
    let duration = match item_duration_ms {
        Some(d) => non_negative_ms(d),
        None => 0,
    };
    ConnectPollOutcome {
        position_ms: position,
        state: if is_playing {
            PlaybackState::Playing
        } else {
            PlaybackState::Paused
        },
        track_duration_ms: if item_duration_ms is Some && duration > 0 {
            Some(duration)
        } else {
            None
        },
        track_completed: item_duration_ms is Some && was_playing && !is_playing && at_track_end(
            position,
            duration,
        ),
        was_playing: is_playing,
    }
}

fn non_negative(ms: i64) -> (r: u64)
    ensures
        r == non_negative_ms(ms),
{
    if ms < 0 {
        0
    } else {
        ms as u64
    }
}

/// Applies one Spotify Connect poll: the reported progress and play state,
/// the reported track duration, and whether the track just finished
/// (playback went from playing to stopped near the end of a track longer
/// than one poll interval).
pub fn connect_poll_update(
    was_playing: bool,
    position_ms: u64,
    progress_ms: Option<i64>,
    is_playing: bool,
    item_duration_ms: Option<i64>,
) -> (r: ConnectPollOutcome)
    ensures
        r == connect_poll_spec(was_playing, position_ms, progress_ms, is_playing, item_duration_ms),
{
    let position = match progress_ms {
        Some(p) => non_negative(p),
        None => position_ms,
    };
    let state = if is_playing {
        PlaybackState::Playing
    } else {
        PlaybackState::Paused
    };
    let mut track_duration_ms: Option<u64> = None;
    let mut track_completed = false;
    match item_duration_ms {
        Some(d) => {
            let duration = non_negative(d);
            if duration > 0 {
                track_duration_ms = Some(duration);
            }
            let at_end = duration > CONNECT_POLL_INTERVAL_MS && position >= duration
                - CONNECT_POLL_INTERVAL_MS;
            if was_playing && !is_playing && at_end {
                track_completed = true;
            }
        },
        None => {},
    }
    ConnectPollOutcome {
        position_ms: position,
        state,
        track_duration_ms,
        track_completed,
        was_playing: is_playing,
    }
}

/// Completion is signalled at most once while the device stays stopped: after
/// a poll that signals it, a following poll that still sees playback stopped
/// does not signal it again.
pub proof fn lemma_connect_completion_fires_once(
    was_playing: bool,
    position_ms: u64,
    progress1: Option<i64>,
    duration1: Option<i64>,
    progress2: Option<i64>,
    duration2: Option<i64>,
)
    ensures
        ({
            let first = connect_poll_spec(was_playing, position_ms, progress1, false, duration1);
            let second = connect_poll_spec(
                first.was_playing,
                first.position_ms,
                progress2,
                false,
                duration2,
            );
            !second.track_completed
        }),
{
}

/// A pause in the middle of a track is never read as completion.
pub proof fn lemma_connect_pause_before_end_is_not_completion(
    position_ms: u64,
    progress_ms: i64,
    duration_ms: i64,
)
    requires
        0 <= progress_ms,
        progress_ms + (CONNECT_POLL_INTERVAL_MS as int) < duration_ms,
    ensures
        !connect_poll_spec(true, position_ms, Some(progress_ms), false, Some(duration_ms)).track_completed,
{
}

/// The pause bookkeeping of an HTTP playback: when the current pause began
/// and how long earlier pauses lasted, in milliseconds since playback
/// started.
#[derive(Debug, Clone, Copy)]
pub struct PauseClock {
    pub paused_at_ms: Option<u64>,
    pub accumulated_pause_ms: u64,
}

/// The pause clock is consistent with the time `now_ms`.
pub open spec fn clock_ok(clock: PauseClock, now_ms: u64) -> bool {
    match clock.paused_at_ms {
        Some(t) => t <= now_ms && clock.accumulated_pause_ms + (now_ms - t) <= u64::MAX,
        None => true,
    }
}

/// The pause clock after observing the paused flag at time `now_ms`.
pub open spec fn pause_clock_step_spec(clock: PauseClock, is_paused: bool, now_ms: u64) -> PauseClock {
    if is_paused {
        match clock.paused_at_ms {
            Some(_) => clock,
            None => PauseClock { paused_at_ms: Some(now_ms), ..clock },
        }
    } else {
        match clock.paused_at_ms {
            Some(t) => PauseClock {
                paused_at_ms: None,
                accumulated_pause_ms: (clock.accumulated_pause_ms + (now_ms - t)) as u64,
            },
            None => clock,
        }
    }
}

/// Observes the paused flag: a pause starts now if none is under way, a
/// resume adds the finished pause to the accumulated pause time.
pub fn pause_clock_step(clock: PauseClock, is_paused: bool, now_ms: u64) -> (r: PauseClock)
    requires
        clock_ok(clock, now_ms),
    ensures
        r == pause_clock_step_spec(clock, is_paused, now_ms),
        !is_paused && clock.paused_at_ms is Some ==> r.paused_at_ms is None && r.accumulated_pause_ms
            == clock.accumulated_pause_ms + (now_ms - clock.paused_at_ms.unwrap()),
        is_paused && clock.paused_at_ms is None ==> r.paused_at_ms == Some(now_ms)
            && r.accumulated_pause_ms == clock.accumulated_pause_ms,
        r.accumulated_pause_ms >= clock.accumulated_pause_ms,
{
    if is_paused {
        match clock.paused_at_ms {
            Some(_) => clock,
            None => PauseClock { paused_at_ms: Some(now_ms), ..clock },
        }
    } else {
        match clock.paused_at_ms {
            Some(t) => PauseClock {
                paused_at_ms: None,
                accumulated_pause_ms: clock.accumulated_pause_ms + (now_ms - t),
            },
            None => clock,
        }
    }
}

/// The playback position at time `now_ms`: time since start less the time
/// spent paused (never below zero), plus the position playback started at.
pub open spec fn elapsed_spec(clock: PauseClock, now_ms: u64, initial_offset_ms: u64) -> int {
    let paused = match clock.paused_at_ms {
        Some(t) => clock.accumulated_pause_ms + (now_ms - t),
        None => clock.accumulated_pause_ms as int,
    };
    let raw = if now_ms >= paused {
        now_ms - paused
    } else {
        0
    };
    raw + initial_offset_ms
}

/// The playback position at time `now_ms`, in milliseconds.
pub fn playback_elapsed_ms(clock: PauseClock, now_ms: u64, initial_offset_ms: u64) -> (r: u64)
    requires
        clock_ok(clock, now_ms),
        elapsed_spec(clock, now_ms, initial_offset_ms) <= u64::MAX,
    ensures
        r == elapsed_spec(clock, now_ms, initial_offset_ms),
{
    let paused: u64 = match clock.paused_at_ms {
        Some(t) => clock.accumulated_pause_ms + (now_ms - t),
        None => clock.accumulated_pause_ms,
    };
    let raw = if now_ms >= paused {
        now_ms - paused
    } else {
        0
    };
    raw + initial_offset_ms
}

/// While a pause is under way the reported position does not move.
pub proof fn lemma_position_frozen_while_paused(
    clock: PauseClock,
    t1: u64,
    t2: u64,
    initial_offset_ms: u64,
)
    requires
        clock.paused_at_ms matches Some(t) && t <= t1 && t <= t2,
        clock.accumulated_pause_ms <= clock.paused_at_ms.unwrap(),
    ensures
        elapsed_spec(clock, t1, initial_offset_ms) == elapsed_spec(clock, t2, initial_offset_ms),
{
}

/// Pause time adds up: a resume at `now_ms` closes the pause that began at
/// `t` and adds exactly its length to the time already spent paused (so the
/// total never decreases); starting a pause records its start and keeps the
/// total; a repeated observation of the same state changes nothing.
pub proof fn lemma_pause_time_adds_up(clock: PauseClock, now_ms: u64)
    requires
        clock_ok(clock, now_ms),
    ensures
        clock.paused_at_ms matches Some(t) ==> pause_clock_step_spec(clock, false, now_ms).paused_at_ms is None
            && pause_clock_step_spec(clock, false, now_ms).accumulated_pause_ms == clock.accumulated_pause_ms
            + (now_ms - t),
        clock.paused_at_ms is None ==> pause_clock_step_spec(clock, true, now_ms).paused_at_ms == Some(now_ms)
            && pause_clock_step_spec(clock, true, now_ms).accumulated_pause_ms == clock.accumulated_pause_ms,
        clock.paused_at_ms is Some ==> pause_clock_step_spec(clock, true, now_ms) == clock,
        clock.paused_at_ms is None ==> pause_clock_step_spec(clock, false, now_ms) == clock,
        pause_clock_step_spec(clock, false, now_ms).accumulated_pause_ms >= clock.accumulated_pause_ms,
        pause_clock_step_spec(clock, true, now_ms).accumulated_pause_ms >= clock.accumulated_pause_ms,
{
}

/// Two pauses in a row: starting from a fresh clock, pausing at `t1`,
/// resuming at `t2`, pausing at `t3` and resuming at `t4` leaves both pauses
/// counted, and the position at any later `now_ms` is the time played, that
/// is the time since the start less both pauses, plus the start offset.
pub proof fn lemma_two_pauses_are_both_counted(
    t1: u64,
    t2: u64,
    t3: u64,
    t4: u64,
    now_ms: u64,
    offset_ms: u64,
)
    requires
        t1 <= t2 <= t3 <= t4 <= now_ms,
    ensures
        ({
            let c0 = PauseClock { paused_at_ms: None, accumulated_pause_ms: 0 };
            let c1 = pause_clock_step_spec(c0, true, t1);
            let c2 = pause_clock_step_spec(c1, false, t2);
            let c3 = pause_clock_step_spec(c2, true, t3);
            let c4 = pause_clock_step_spec(c3, false, t4);
            &&& c4.paused_at_ms is None
            &&& c4.accumulated_pause_ms == (t2 - t1) + (t4 - t3)
            &&& elapsed_spec(c4, now_ms, offset_ms) == now_ms - ((t2 - t1) + (t4 - t3)) + offset_ms
        }),
{
}

/// Whether HTTP playback has reached the end of a track of known duration.
pub fn http_track_finished(elapsed_ms: u64, duration_ms: u64) -> (r: bool)
    ensures
        r == (elapsed_ms >= duration_ms && duration_ms > 0),
{
    elapsed_ms >= duration_ms && duration_ms > 0
}

/// What one tick of the HTTP playback monitor decides.
#[derive(Debug, Clone, Copy)]
pub struct MonitorTick {
    /// The playback state to record.
    pub state: PlaybackState,
    /// Whether the track finished: the monitor stops and the queue advances.
    pub track_completed: bool,
}

/// One tick of the HTTP playback monitor: paused playback reads as paused,
/// running playback as playing, and a stopped handle ends the track.
pub fn monitor_tick(current: PlaybackState, is_paused: bool, should_stop: bool) -> (r: MonitorTick)
    ensures
        r.track_completed == should_stop,
        should_stop ==> r.state == PlaybackState::Stopped,
        !should_stop && is_paused ==> r.state == PlaybackState::Paused,
        !should_stop && !is_paused ==> r.state == PlaybackState::Playing,
{
    let mut state = current;
    if is_paused {
        state = PlaybackState::Paused;
    } else if !should_stop {
        state = PlaybackState::Playing;
    }
    if should_stop {
        state = PlaybackState::Stopped;
    }
    MonitorTick { state, track_completed: should_stop }
}

/// `r` is the first index of `tracks` holding a track with id `id`, or
/// `None` when there is none.
pub open spec fn is_first_with_id(tracks: Seq<Track>, id: Seq<char>, r: Option<usize>) -> bool {
    match r {
        Some(i) => i < tracks.len() && tracks[i as int].id@ == id && forall|j: int|
            0 <= j < i ==> (#[trigger] tracks[j]).id@ != id,
        None => forall|j: int| 0 <= j < tracks.len() ==> (#[trigger] tracks[j]).id@ != id,
    }
}

/// The first index of a track with the given id.
pub fn find_track_index(tracks: &Vec<Track>, id: &str) -> (r: Option<usize>)
    ensures
        is_first_with_id(tracks@, id@, r),
{
    let mut i: usize = 0;
    while i < tracks.len()
        invariant
            i <= tracks@.len(),
            forall|j: int| 0 <= j < i ==> (#[trigger] tracks@[j]).id@ != id@,
        decreases tracks@.len() - i,
    {
        if text_eq(tracks[i].id.as_str(), id) {
            return Some(i);
        }
        i = i + 1;
    }
    None
}

/// `r` is the first position of `order` holding `value`, or `None`.
pub open spec fn is_first_position(order: Seq<usize>, value: usize, r: Option<usize>) -> bool {
    match r {
        Some(p) => p < order.len() && order[p as int] == value && forall|j: int|
            0 <= j < p ==> #[trigger] order[j] != value,
        None => forall|j: int| 0 <= j < order.len() ==> #[trigger] order[j] != value,
    }
}

/// The first position of the shuffle order that points at a queue index.
pub fn find_order_position(order: &Vec<usize>, value: usize) -> (r: Option<usize>)
    ensures
        is_first_position(order@, value, r),
{
    let mut i: usize = 0;
    while i < order.len()
        invariant
            i <= order@.len(),
            forall|j: int| 0 <= j < i ==> #[trigger] order@[j] != value,
        decreases order@.len() - i,
    {
        if order[i] == value {
            return Some(i);
        }
        i = i + 1;
    }
    None
}

/// `r` is the play position a track with id `id` takes when it is played:
/// its first queue index, or in shuffle mode the first shuffle position
/// pointing at that index; `None` when there is no such position.
pub open spec fn is_play_position(q: QueueView, id: Seq<char>, shuffle_enabled: bool, r: Option<
    usize,
>) -> bool {
    if q.uses_shuffle(shuffle_enabled) {
        match r {
            Some(p) => exists|i: usize|
                is_first_with_id(q.tracks, id, Some(i)) && #[trigger] is_first_position(
                    q.shuffle_order,
                    i,
                    Some(p),
                ),
            None => forall|i: usize|
                is_first_with_id(q.tracks, id, Some(i)) ==> #[trigger] is_first_position(
                    q.shuffle_order,
                    i,
                    None,
                ),
        }
    } else {
        is_first_with_id(q.tracks, id, r)
    }
}

/// The first-index characterisation picks at most one index.
pub proof fn lemma_first_with_id_unique(tracks: Seq<Track>, id: Seq<char>, a: Option<usize>, b: Option<usize>)
    requires
        is_first_with_id(tracks, id, a),
        is_first_with_id(tracks, id, b),
    ensures
        a == b,
{
    match (a, b) {
        (Some(x), Some(y)) => {
            if x < y {
                assert(tracks[x as int].id@ != id);
            } else if y < x {
                assert(tracks[y as int].id@ != id);
            }
        },
        (Some(x), None) => {
            assert(tracks[x as int].id@ != id);
        },
        (None, Some(y)) => {
            assert(tracks[y as int].id@ != id);
        },
        (None, None) => {},
    }
}

/// Moves the queue to the track with id `id` when it is in the queue (to its
/// shuffle position in shuffle mode) and returns the new position; the queue
/// is unchanged when there is none.
pub fn position_queue_at_track(queue: &mut PlaybackQueue, id: &str, shuffle_enabled: bool) -> (r:
    Option<usize>)
    ensures
        final(queue)@.tracks == old(queue)@.tracks,
        final(queue)@.shuffle_order == old(queue)@.shuffle_order,
        is_play_position(old(queue)@, id@, shuffle_enabled, r),
        r matches Some(p) ==> final(queue)@.current_index == p,
        r is None ==> final(queue)@.current_index == old(queue)@.current_index,
{
    let ghost q = queue@;
    let found = find_track_index(&queue.tracks, id);
    if shuffle_enabled && !queue.shuffle_order.is_empty() {
        match found {
            Some(actual_index) => {
                let pos = find_order_position(&queue.shuffle_order, actual_index);
                proof {
                    assert forall|i: usize| is_first_with_id(q.tracks, id@, Some(i)) implies i
                        == actual_index by {
                        lemma_first_with_id_unique(q.tracks, id@, Some(i), Some(actual_index));
                    }
                }
                match pos {
                    Some(shuffle_pos) => {
                        queue.current_index = shuffle_pos;
                        Some(shuffle_pos)
                    },
                    None => None,
                }
            },
            None => {
                proof {
                    assert forall|i: usize| is_first_with_id(q.tracks, id@, Some(i)) implies #[trigger] is_first_position(
                        q.shuffle_order,
                        i,
                        None,
                    ) by {
                        lemma_first_with_id_unique(q.tracks, id@, Some(i), None);
                    }
                }
                None
            },
        }
    } else {
        match found {
            Some(index) => {
                queue.current_index = index;
                Some(index)
            },
            None => None,
        }
    }
}

/// The queue index a look-ahead offset resolves to, if any.
pub open spec fn resolve_offset(q: QueueView, shuffle_enabled: bool, offset: int) -> Option<int> {
    if q.uses_shuffle(shuffle_enabled) {
        let p = q.current_index + offset;
        if p < q.shuffle_order.len() && (q.shuffle_order[p] as int) < q.tracks.len() {
            Some(q.shuffle_order[p] as int)
        } else {
            None
        }
    } else {
        let i = q.current_index + offset;
        if i < q.tracks.len() {
            Some(i)
        } else {
            None
        }
    }
}

/// The queue indices of the tracks at offsets `1..=k` after the current play
/// position that exist, in order.
pub open spec fn lookahead_spec(q: QueueView, shuffle_enabled: bool, k: nat) -> Seq<usize>
    decreases k,
{
    if k == 0 {
        Seq::empty()
    } else {
        lookahead_spec(q, shuffle_enabled, (k - 1) as nat) + match resolve_offset(
            q,
            shuffle_enabled,
            k as int,
        ) {
            Some(i) => seq![i as usize],
            None => Seq::empty(),
        }
    }
}

/// How many tracks after the current one are fetched ahead of time.
pub const LOOKAHEAD_COUNT: usize = 10;

/// The queue indices of the (up to ten) tracks after the current play
/// position, in play order, that the player downloads ahead of time.
pub fn lookahead_indices(queue: &PlaybackQueue, shuffle_enabled: bool) -> (r: Vec<usize>)
    requires
        queue.current_index + LOOKAHEAD_COUNT <= usize::MAX,
    ensures
        r@ == lookahead_spec(queue@, shuffle_enabled, LOOKAHEAD_COUNT as nat),
{
    let mut out: Vec<usize> = Vec::new();
    let mut offset: usize = 1;
    while offset <= LOOKAHEAD_COUNT
        invariant
            1 <= offset <= LOOKAHEAD_COUNT + 1,
            queue.current_index + LOOKAHEAD_COUNT <= usize::MAX,
            out@ == lookahead_spec(queue@, shuffle_enabled, (offset - 1) as nat),
        decreases LOOKAHEAD_COUNT + 1 - offset,
    {
        if shuffle_enabled && !queue.shuffle_order.is_empty() {
            let next_pos = queue.current_index + offset;
            if next_pos < queue.shuffle_order.len() {
                let actual_index = queue.shuffle_order[next_pos];
                if actual_index < queue.tracks.len() {
                    out.push(actual_index);
                }
            }
        } else {
            let next_index = queue.current_index + offset;
            if next_index < queue.tracks.len() {
                out.push(next_index);
            }
        }
        offset = offset + 1;
    }
    out
}

/// The queue index the `i`-th track to enrich (counting from 1) lies at.
pub open spec fn enrichment_index(
    current_index: int,
    total: int,
    shuffle_order: Seq<usize>,
    i: int,
) -> usize {
    if shuffle_order.len() > 0 {
        let pos = (current_index + i) % total;
        if pos < shuffle_order.len() {
            shuffle_order[pos]
        } else {
            i as usize
        }
    } else {
        ((current_index + i) % total) as usize
    }
}

/// How many tracks ahead are enriched: at most ten, and never the whole queue.
pub open spec fn enrichment_count(total: int) -> int {
    let rest = if total >= 1 {
        total - 1
    } else {
        0
    };
    if rest < 10 {
        rest
    } else {
        10
    }
}

/// The queue indices whose tracks are enriched after playback starts at
/// `current_index`: the next (up to ten) play positions, wrapping around the
/// end of the queue.
pub fn enrichment_indices(current_index: usize, total: usize, shuffle_order: &Vec<usize>) -> (r:
    Vec<usize>)
    requires
        current_index + LOOKAHEAD_COUNT <= usize::MAX,
    ensures
        r@.len() == enrichment_count(total as int),
        forall|k: int|
            0 <= k < r@.len() ==> #[trigger] r@[k] == enrichment_index(
                current_index as int,
                total as int,
                shuffle_order@,
                k + 1,
            ),
{
    let rest = if total >= 1 {
        total - 1
    } else {
        0
    };
    let count = if rest < LOOKAHEAD_COUNT {
        rest
    } else {
        LOOKAHEAD_COUNT
    };
    let shuffle_enabled = !shuffle_order.is_empty();
    let mut out: Vec<usize> = Vec::new();
    let mut i: usize = 1;
    while i <= count
        invariant
            1 <= i <= count + 1,
            count <= LOOKAHEAD_COUNT,
            count == enrichment_count(total as int),
            count > 0 ==> total >= 2,
            shuffle_enabled == (shuffle_order@.len() > 0),
            current_index + LOOKAHEAD_COUNT <= usize::MAX,
            out@.len() == i - 1,
            forall|k: int|
                0 <= k < out@.len() ==> #[trigger] out@[k] == enrichment_index(
                    current_index as int,
                    total as int,
                    shuffle_order@,
                    k + 1,
                ),
        decreases count + 1 - i,
    {
        let actual_index = if shuffle_enabled {
            let shuffle_pos = (current_index + i) % total;
            if shuffle_pos < shuffle_order.len() {
                shuffle_order[shuffle_pos]
            } else {
                i
            }
        } else {
            (current_index + i) % total
        };
        out.push(actual_index);
        i = i + 1;
    }
    out
}

/// The entries of `indices` that name a queue track with no stream URL yet,
/// in order.
pub open spec fn needing_enrichment(tracks: Seq<Track>, indices: Seq<usize>) -> Seq<usize>
    decreases indices.len(),
{
    if indices.len() == 0 {
        Seq::empty()
    } else {
        let i = indices.last();
        needing_enrichment(tracks, indices.drop_last()) + if (i as int) < tracks.len()
            && tracks[i as int].url is None {
            seq![i]
        } else {
            Seq::empty()
        }
    }
}

/// The indices among `indices` whose tracks still need their full details
/// fetched (they have no stream URL yet).
pub fn select_for_enrichment(tracks: &Vec<Track>, indices: &Vec<usize>) -> (r: Vec<usize>)
    ensures
        r@ == needing_enrichment(tracks@, indices@),
{
    let mut out: Vec<usize> = Vec::new();
    let mut j: usize = 0;
    while j < indices.len()
        invariant
            j <= indices@.len(),
            out@ == needing_enrichment(tracks@, indices@.subrange(0, j as int)),
        decreases indices@.len() - j,
    {
        let idx = indices[j];
        assert(indices@.subrange(0, j + 1).drop_last() =~= indices@.subrange(0, j as int));
        if idx < tracks.len() && tracks[idx].url.is_none() {
            out.push(idx);
        }
        j = j + 1;
    }
    assert(indices@.subrange(0, indices@.len() as int) =~= indices@);
    out
}

/// Switches the queue into or out of shuffle mode: entering makes a fresh
/// shuffle order, leaving drops it; either way playback restarts from the
/// first play position.
pub fn apply_shuffle_toggle(queue: &mut PlaybackQueue, shuffle_enabled: bool)
    ensures
        final(queue)@.tracks == old(queue)@.tracks,
        final(queue)@.current_index == 0,
        shuffle_enabled ==> is_shuffle_of_range(
            final(queue)@.shuffle_order,
            old(queue)@.tracks.len(),
        ),
        !shuffle_enabled ==> final(queue)@.shuffle_order.len() == 0,
{
    if shuffle_enabled {
        queue.generate_shuffle_order();
    } else {
        queue.clear_shuffle_order();
    }
    queue.current_index = 0;
}

/// Copies a list of queue indices.
pub fn copy_indices(v: &Vec<usize>) -> (r: Vec<usize>)
    ensures
        r@ == v@,
{
    let mut out: Vec<usize> = Vec::new();
    let mut i: usize = 0;
    while i < v.len()
        invariant
            i <= v@.len(),
            out@ == v@.subrange(0, i as int),
        decreases v@.len() - i,
    {
        out.push(v[i]);
        i = i + 1;
        assert(out@ =~= v@.subrange(0, i as int));
    }
    assert(v@.subrange(0, v@.len() as int) =~= v@);
    out
}

/// The snapshot the player reports: its status fields with the queue's
/// tracks, position and shuffle order filled in.
pub fn snapshot_info(info: &PlaybackInfo, queue: &PlaybackQueue) -> (r: PlaybackInfo)
    ensures
        r.state == info.state,
        r.current_track matches Some(t) ==> info.current_track matches Some(u) && t@ == u@,
        r.current_track is None <==> info.current_track is None,
        r.position_ms == info.position_ms,
        r.volume == info.volume,
        r.shuffle == info.shuffle,
        r.repeat_mode == info.repeat_mode,
        tracks_view(r.queue@) == tracks_view(queue@.tracks),
        r.current_index == queue.current_index,
        r.shuffle_order@ == queue@.shuffle_order,
{
    PlaybackInfo {
        state: info.state,
        current_track: match &info.current_track {
            Some(t) => Some(t.duplicate()),
            None => None,
        },
        position_ms: info.position_ms,
        volume: info.volume,
        shuffle: info.shuffle,
        repeat_mode: info.repeat_mode,
        queue: copy_tracks(&queue.tracks),
        current_index: queue.current_index,
        shuffle_order: copy_indices(&queue.shuffle_order),
    }
}

/// Records that a track starts playing: it becomes the current track, from
/// its beginning.
pub fn start_track(info: &mut PlaybackInfo, track: Track)
    ensures
        final(info).current_track == Some(track),
        final(info).state == PlaybackState::Playing,
        final(info).position_ms == 0,
        final(info).volume == old(info).volume,
        final(info).shuffle == old(info).shuffle,
        final(info).repeat_mode == old(info).repeat_mode,
        final(info).queue@ == old(info).queue@,
        final(info).current_index == old(info).current_index,
        final(info).shuffle_order@ == old(info).shuffle_order@,
{
    info.current_track = Some(track);
    info.state = PlaybackState::Playing;
    info.position_ms = 0;
}

/// Records that the queue was cleared: nothing is current and playback
/// stops.
pub fn clear_current(info: &mut PlaybackInfo)
    ensures
        final(info).current_track is None,
        final(info).state == PlaybackState::Stopped,
        final(info).position_ms == old(info).position_ms,
        final(info).volume == old(info).volume,
        final(info).shuffle == old(info).shuffle,
        final(info).repeat_mode == old(info).repeat_mode,
        final(info).queue@ == old(info).queue@,
        final(info).current_index == old(info).current_index,
        final(info).shuffle_order@ == old(info).shuffle_order@,
{
    info.current_track = None;
    info.state = PlaybackState::Stopped;
}

} // verus!
