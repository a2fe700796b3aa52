//! The command-line player: its playback queue (tracks and a position,
//! without shuffle) and the manager that keeps the queue and the status
//! together.
use crate::models::{PlaybackInfo, PlaybackState, RepeatMode, Track};
use crate::playback::{clamp_volume, toggled_spec, toggled_state};
use crate::queue::borrowed;
use vstd::prelude::*;

verus! {

/// The abstract value of a command-line queue.
pub struct SimpleQueueView {
    pub tracks: Seq<Track>,
    pub current_index: int,
}

impl SimpleQueueView {
    /// The track at the current position, if there is one.
    pub open spec fn current(self) -> Option<Track> {
        if 0 <= self.current_index < self.tracks.len() {
            Some(self.tracks[self.current_index])
        } else {
            None
        }
    }
}

/// Queue for managing playback.
#[derive(Debug)]
pub struct PlaybackQueue {
    /// All tracks in the queue.
    pub tracks: Vec<Track>,
    /// Current position in queue.
    pub current_index: usize,
}

impl View for PlaybackQueue {
    type V = SimpleQueueView;

    open spec fn view(&self) -> SimpleQueueView {
        SimpleQueueView { tracks: self.tracks@, current_index: self.current_index as int }
    }
}

impl PlaybackQueue {
    /// An empty queue.
    pub fn new() -> (r: PlaybackQueue)
        ensures
            r@.tracks.len() == 0,
            r@.current_index == 0,
    {
        PlaybackQueue { tracks: Vec::new(), current_index: 0 }
    }

    /// Appends a track to the end of the queue.
    pub fn add_track(&mut self, track: Track)
        ensures
            final(self)@ == (SimpleQueueView { tracks: old(self)@.tracks.push(track), ..old(self)@ }),
    {
        self.tracks.push(track);
    }

    /// Appends tracks to the end of the queue, in order.
    pub fn add_tracks(&mut self, tracks: Vec<Track>)
        ensures
            final(self)@ == (SimpleQueueView { tracks: old(self)@.tracks + tracks@, ..old(self)@ }),
    {
        let mut tracks = tracks;
        self.tracks.append(&mut tracks);
    }

    /// Empties the queue and resets the position.
    pub fn clear(&mut self)
        ensures
            final(self)@.tracks.len() == 0,
            final(self)@.current_index == 0,
    {
        self.tracks.clear();
        self.current_index = 0;
    }

    /// The track at the current position.
    pub fn current_track(&self) -> (r: Option<&Track>)
        ensures
            r == borrowed(self@.current()),
    {
        if self.current_index < self.tracks.len() {
            Some(&self.tracks[self.current_index])
        } else {
            None
        }
    }

    /// Moves to the next track; stays put at the last one.
    pub fn next(&mut self) -> (r: Option<&Track>)
        requires
            old(self)@.tracks.len() > 0,
        ensures
            final(self)@.tracks == old(self)@.tracks,
            old(self)@.current_index + 1 < old(self)@.tracks.len() ==> final(self)@.current_index
                == old(self)@.current_index + 1 && r == borrowed(final(self)@.current()),
            !(old(self)@.current_index + 1 < old(self)@.tracks.len()) ==> final(self)@
                == old(self)@ && r is None,
    {
        if self.current_index < self.tracks.len() - 1 {
            self.current_index = self.current_index + 1;
            self.current_track()
        } else {
            None
        }
    }

    /// Moves to the previous track; stays put at the first one.
    pub fn previous(&mut self) -> (r: Option<&Track>)
        ensures
            final(self)@.tracks == old(self)@.tracks,
            old(self)@.current_index > 0 ==> final(self)@.current_index == old(self)@.current_index
                - 1 && r == borrowed(final(self)@.current()),
            old(self)@.current_index == 0 ==> final(self)@ == old(self)@ && r is None,
    {
        if self.current_index > 0 {
            self.current_index = self.current_index - 1;
            self.current_track()
        } else {
            None
        }
    }

    /// Number of tracks in the queue.
    pub fn len(&self) -> (r: usize)
        ensures
            r == self@.tracks.len(),
    {
        self.tracks.len()
    }

    /// Whether the queue has no tracks.
    pub fn is_empty(&self) -> (r: bool)
        ensures
            r == (self@.tracks.len() == 0),
    {
        self.tracks.is_empty()
    }
}

/// Playback manager: the queue and the playback status.
#[derive(Debug)]
pub struct PlaybackManager {
    pub queue: PlaybackQueue,
    pub info: PlaybackInfo,
}

impl PlaybackManager {
    /// An empty queue and the initial status.
    pub fn new() -> (r: PlaybackManager)
        ensures
            r.queue@.tracks.len() == 0,
            r.queue@.current_index == 0,
            r.info.state == PlaybackState::Stopped,
            r.info.current_track is None,
            r.info.volume == 50,
    {
        PlaybackManager { queue: PlaybackQueue::new(), info: PlaybackInfo::new() }
    }

    /// Adds a track to the queue.
    pub fn queue_track(&mut self, track: Track)
        ensures
            final(self).queue@.tracks == old(self).queue@.tracks.push(track),
            final(self).queue@.current_index == old(self).queue@.current_index,
    {
        self.queue.add_track(track);
    }

    /// Adds tracks to the queue, in order.
    pub fn queue_tracks(&mut self, tracks: Vec<Track>)
        ensures
            final(self).queue@.tracks == old(self).queue@.tracks + tracks@,
            final(self).queue@.current_index == old(self).queue@.current_index,
    {
        self.queue.add_tracks(tracks);
    }

    /// Clears the queue; nothing is current and playback stops.
    pub fn clear_queue(&mut self)
        ensures
            final(self).queue@.tracks.len() == 0,
            final(self).queue@.current_index == 0,
            final(self).info.state == PlaybackState::Stopped,
            final(self).info.current_track is None,
            final(self).info.volume == old(self).info.volume,
    {
        self.queue.clear();
        self.info.state = PlaybackState::Stopped;
        self.info.current_track = None;
    }

    /// Starts playback.
    pub fn play(&mut self)
        ensures
            final(self).info.state == PlaybackState::Playing,
            final(self).queue@ == old(self).queue@,
    {
        self.info.state = PlaybackState::Playing;
    }

    /// Pauses playback.
    pub fn pause(&mut self)
        ensures
            final(self).info.state == PlaybackState::Paused,
            final(self).queue@ == old(self).queue@,
    {
        self.info.state = PlaybackState::Paused;
    }

    /// Toggles between playing and paused (a stopped player starts).
    pub fn toggle_play_pause(&mut self)
        ensures
            final(self).info.state == toggled_spec(old(self).info.state),
            final(self).queue@ == old(self).queue@,
    {
        self.info.state = toggled_state(self.info.state);
    }

    /// Moves to the next track and makes it current, from its start.
    pub fn next_track(&mut self) -> (r: Option<Track>)
        requires
            old(self).queue@.tracks.len() > 0,
        ensures
            final(self).queue@.tracks == old(self).queue@.tracks,
            old(self).queue@.current_index + 1 < old(self).queue@.tracks.len() ==> ({
                let i = old(self).queue@.current_index + 1;
                &&& final(self).queue@.current_index == i
                &&& r is Some && r.unwrap()@ == old(self).queue@.tracks[i]@
                &&& final(self).info.current_track is Some
                &&& final(self).info.current_track.unwrap()@ == old(self).queue@.tracks[i]@
                &&& final(self).info.position_ms == 0
            }),
            !(old(self).queue@.current_index + 1 < old(self).queue@.tracks.len()) ==> r is None
                && final(self).queue@ == old(self).queue@ && final(self).info.current_track
                == old(self).info.current_track,
    {
        match self.queue.next() {
            Some(track) => {
                let t = track.duplicate();
                self.info.current_track = Some(t.duplicate());
                self.info.position_ms = 0;
                Some(t)
            },
            None => None,
        }
    }

    /// Moves to the previous track and makes it current, from its start.
    pub fn previous_track(&mut self) -> (r: Option<Track>)
        ensures
            final(self).queue@.tracks == old(self).queue@.tracks,
            old(self).queue@.current_index > 0 ==> ({
                let i = old(self).queue@.current_index - 1;
                &&& final(self).queue@.current_index == i
                &&& i < old(self).queue@.tracks.len() ==> r is Some && r.unwrap()@ == old(
                    self,
                ).queue@.tracks[i]@ && final(self).info.current_track is Some
                    && final(self).info.current_track.unwrap()@ == old(self).queue@.tracks[i]@
                    && final(self).info.position_ms == 0
            }),
            old(self).queue@.current_index == 0 ==> r is None && final(self).queue@ == old(
                self,
            ).queue@,
    {
        match self.queue.previous() {
            Some(track) => {
                let t = track.duplicate();
                self.info.current_track = Some(t.duplicate());
                self.info.position_ms = 0;
                Some(t)
            },
            None => None,
        }
    }

    /// Moves the playback position.
    pub fn seek(&mut self, position_ms: u64)
        ensures
            final(self).info.position_ms == position_ms,
            final(self).info.state == old(self).info.state,
            final(self).queue@ == old(self).queue@,
    {
        self.info.position_ms = position_ms;
    }

    /// Sets the volume, limited to 100.
    pub fn set_volume(&mut self, volume: u32)
        ensures
            final(self).info.volume == (if volume <= 100 {
                volume
            } else {
                100
            }),
            final(self).queue@ == old(self).queue@,
    {
        self.info.volume = clamp_volume(volume);
    }

    /// Turns shuffle on or off.
    pub fn toggle_shuffle(&mut self)
        ensures
            final(self).info.shuffle == !old(self).info.shuffle,
            final(self).queue@ == old(self).queue@,
    {
        self.info.shuffle = !self.info.shuffle;
    }

    /// Sets the repeat mode.
    pub fn set_repeat_mode(&mut self, mode: RepeatMode)
        ensures
            final(self).info.repeat_mode == mode,
            final(self).queue@ == old(self).queue@,
    {
        self.info.repeat_mode = mode;
    }

    /// Number of tracks in the queue.
    pub fn queue_length(&self) -> (r: usize)
        ensures
            r == self.queue@.tracks.len(),
    {
        self.queue.len()
    }

    /// A copy of the track at the current position of the queue.
    pub fn current_track(&self) -> (r: Option<Track>)
        ensures
            match self.queue@.current() {
                Some(t) => (r matches Some(c) && c@ == t@),
                None => r is None,
            },
    {
        match self.queue.current_track() {
            Some(t) => Some(t.duplicate()),
            None => None,
        }
    }
}

} // verus!
