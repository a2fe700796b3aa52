//! The playback session saved between runs: what is stored, how it is taken
//! from the running player, stripped of credentials, and put back.
use crate::models::{copy_tracks, tracks_view, PlaybackInfo, PlaybackState, RepeatMode, Track, TrackView};
use crate::playback::copy_indices;
use crate::queue::PlaybackQueue;
use vstd::prelude::*;

verus! {

/// Persistent playback state that gets saved to disk.
#[derive(Debug, Clone, PartialEq)]
pub struct PersistentPlaybackState {
    /// Current playing track.
    pub current_track: Option<Track>,
    /// Queue of tracks.
    pub queue: Vec<Track>,
    /// Current index in queue.
    pub current_index: usize,
    /// Playback position in milliseconds.
    pub position_ms: u64,
    /// Shuffle enabled.
    pub shuffle: bool,
    /// Repeat mode.
    pub repeat_mode: RepeatMode,
    /// Volume (0-100).
    pub volume: u32,
    /// Shuffle order.
    pub shuffle_order: Vec<usize>,
    /// Playback state (playing/paused/stopped).
    pub state: PlaybackState,
}

impl Default for PersistentPlaybackState {
    /// No track, empty queue, position 0, shuffle off, repeat off, volume 50,
    /// stopped.
    fn default() -> (r: PersistentPlaybackState)
        ensures
            r.current_track is None,
            r.queue@.len() == 0,
            r.current_index == 0,
            r.position_ms == 0,
            !r.shuffle,
            r.repeat_mode == RepeatMode::Off,
            r.volume == 50,
            r.shuffle_order@.len() == 0,
            r.state == PlaybackState::Stopped,
    {
        PersistentPlaybackState {
            current_track: None,
            queue: Vec::new(),
            current_index: 0,
            position_ms: 0,
            shuffle: false,
            repeat_mode: RepeatMode::Off,
            volume: 50,
            shuffle_order: Vec::new(),
            state: PlaybackState::Stopped,
        }
    }
}

/// The view of a track with its authentication headers removed.
pub open spec fn stripped(t: TrackView) -> TrackView {
    TrackView { auth_headers: None, ..t }
}

/// No track of the state carries authentication headers.
pub open spec fn holds_no_credentials(s: PersistentPlaybackState) -> bool {
    &&& (s.current_track matches Some(t) ==> t.auth_headers is None)
    &&& forall|i: int| 0 <= i < s.queue@.len() ==> (#[trigger] s.queue@[i]).auth_headers is None
}

/// `s` is what saving a player with status `info` and queue `q` stores.
pub open spec fn saves(s: PersistentPlaybackState, info: PlaybackInfo, q: crate::queue::QueueView) -> bool {
    &&& (s.current_track is Some <==> info.current_track is Some)
    &&& (s.current_track matches Some(t) ==> t@ == info.current_track.unwrap()@)
    &&& tracks_view(s.queue@) == tracks_view(q.tracks)
    &&& s.current_index == q.current_index
    &&& s.position_ms == info.position_ms
    &&& s.shuffle == info.shuffle
    &&& s.repeat_mode == info.repeat_mode
    &&& s.volume == info.volume
    &&& s.shuffle_order@ == q.shuffle_order
    &&& s.state == info.state
}

/// Queue `q` and status `info` are what restoring `s` puts back.
pub open spec fn restores(s: PersistentPlaybackState, q: crate::queue::QueueView, info: PlaybackInfo) -> bool {
    &&& q.tracks == s.queue@
    &&& q.current_index == s.current_index
    &&& q.shuffle_order == s.shuffle_order@
    &&& info.current_track == s.current_track
    &&& info.position_ms == s.position_ms
    &&& info.shuffle == s.shuffle
    &&& info.repeat_mode == s.repeat_mode
    &&& info.volume == s.volume
    &&& info.state == PlaybackState::Paused
}

impl PersistentPlaybackState {
    /// The same state with authentication headers removed from the current
    /// track and from every queued track; this is the form that is written to
    /// and read back from disk.
    pub fn sanitized(&self) -> (r: PersistentPlaybackState)
        ensures
            holds_no_credentials(r),
            r.current_track is Some <==> self.current_track is Some,
            r.current_track matches Some(t) ==> t@ == stripped(self.current_track.unwrap()@),
            r.queue@.len() == self.queue@.len(),
            forall|i: int| 0 <= i < self.queue@.len() ==> (#[trigger] r.queue@[i])@ == stripped(self.queue@[i]@),
            r.current_index == self.current_index,
            r.position_ms == self.position_ms,
            r.shuffle == self.shuffle,
            r.repeat_mode == self.repeat_mode,
            r.volume == self.volume,
            r.shuffle_order@ == self.shuffle_order@,
            r.state == self.state,
    {
        let current_track = match &self.current_track {
            Some(t) => Some(t.without_auth_headers()),
            None => None,
        };
        let mut queue: Vec<Track> = Vec::new();
        let mut i: usize = 0;
        while i < self.queue.len()
            invariant
                i <= self.queue@.len(),
                queue@.len() == i,
                forall|j: int| 0 <= j < i ==> (#[trigger] queue@[j])@ == stripped(self.queue@[j]@),
                forall|j: int| 0 <= j < i ==> (#[trigger] queue@[j]).auth_headers is None,
            decreases self.queue@.len() - i,
        {
            let t = self.queue[i].without_auth_headers();
            queue.push(t);
            i = i + 1;
        }
        PersistentPlaybackState {
            current_track,
            queue,
            current_index: self.current_index,
            position_ms: self.position_ms,
            shuffle: self.shuffle,
            repeat_mode: self.repeat_mode,
            volume: self.volume,
            shuffle_order: copy_indices(&self.shuffle_order),
            state: self.state,
        }
    }

    /// The state to save for a running player: its status and its queue.
    pub fn from_playback(info: &PlaybackInfo, queue: &PlaybackQueue) -> (r: PersistentPlaybackState)
        ensures
            saves(r, *info, queue@),
    {
        PersistentPlaybackState {
            current_track: match &info.current_track {
                Some(t) => Some(t.duplicate()),
                None => None,
            },
            queue: copy_tracks(&queue.tracks),
            current_index: queue.current_index,
            position_ms: info.position_ms,
            shuffle: info.shuffle,
            repeat_mode: info.repeat_mode,
            volume: info.volume,
            shuffle_order: copy_indices(&queue.shuffle_order),
            state: info.state,
        }
    }

    /// Whether a saved state is worth restoring: only one with a current
    /// track is.
    pub fn should_restore(&self) -> (r: bool)
        ensures
            r == self.current_track is Some,
    {
        self.current_track.is_some()
    }

    /// Puts a saved state back into the player: the queue with its position
    /// and shuffle order, and the status fields; playback always comes back
    /// paused.
    pub fn restore_into(self, queue: &mut PlaybackQueue, info: &mut PlaybackInfo)
        ensures
            restores(self, final(queue)@, *final(info)),
    {
        queue.tracks = self.queue;
        queue.current_index = self.current_index;
        queue.shuffle_order = self.shuffle_order;
        info.current_track = self.current_track;
        info.position_ms = self.position_ms;
        info.shuffle = self.shuffle;
        info.repeat_mode = self.repeat_mode;
        info.volume = self.volume;
        info.state = PlaybackState::Paused;
    }
}

/// Restoring a saved session gives back the queue (same tracks, position and
/// shuffle order) and the status (current track, position, shuffle, repeat,
/// volume) the player had when it was saved; playback comes back paused.
pub proof fn lemma_save_then_restore(
    info: PlaybackInfo,
    q: crate::queue::QueueView,
    s: PersistentPlaybackState,
    q2: crate::queue::QueueView,
    info2: PlaybackInfo,
)
    requires
        saves(s, info, q),
        restores(s, q2, info2),
    ensures
        tracks_view(q2.tracks) == tracks_view(q.tracks),
        q2.current_index == q.current_index,
        q2.shuffle_order == q.shuffle_order,
        info2.current_track is Some <==> info.current_track is Some,
        info2.current_track matches Some(t) ==> t@ == info.current_track.unwrap()@,
        info2.position_ms == info.position_ms,
        info2.shuffle == info.shuffle,
        info2.repeat_mode == info.repeat_mode,
        info2.volume == info.volume,
        info2.state == PlaybackState::Paused,
{
}

/// Stripping credentials twice is the same as stripping them once.
pub proof fn lemma_stripping_is_idempotent(t: TrackView)
    ensures
        stripped(stripped(t)) == stripped(t),
{
}

} // verus!
