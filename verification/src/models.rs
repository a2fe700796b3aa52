//! Core data model shared by the player: tracks, playlists, sources and
//! playback status.
use vstd::prelude::*;

verus! {

/// The music service a track or playlist comes from.
#[derive(Clone, Copy, Debug, PartialEq, Eq, Structural, Hash)]
pub enum Source {
    Spotify,
    Jellyfin,
    Plex,
    Custom,
}

/// The lower-case key of a source, as used in cache keys, database rows and
/// the frontend.
pub open spec fn source_key_spec(source: Source) -> Seq<char> {
    match source {
        Source::Spotify => "spotify"@,
        Source::Jellyfin => "jellyfin"@,
        Source::Plex => "plex"@,
        Source::Custom => "custom"@,
    }
}

impl Source {
    /// The lower-case key of this source (`"spotify"`, `"jellyfin"`, ...).
    pub fn key(&self) -> (r: &'static str)
        ensures
            r@ == source_key_spec(*self),
    {
        proof {
            reveal_strlit("spotify");
            reveal_strlit("jellyfin");
            reveal_strlit("plex");
            reveal_strlit("custom");
        }
        match self {
            Source::Spotify => "spotify",
            Source::Jellyfin => "jellyfin",
            Source::Plex => "plex",
            Source::Custom => "custom",
        }
    }
}

/// Whether the player is playing, paused or stopped.
#[derive(Clone, Copy, Debug, PartialEq, Eq, Structural)]
pub enum PlaybackState {
    Playing,
    Paused,
    Stopped,
}

/// What happens when the end of the queue (or of a track) is reached.
#[derive(Clone, Copy, Debug, PartialEq, Eq, Structural)]
pub enum RepeatMode {
    Off,
    One,
    All,
}

/// A single playable track.
#[derive(Clone, Debug, PartialEq)]
pub struct Track {
    pub id: String,
    pub title: String,
    pub artist: String,
    pub album: String,
    pub duration_ms: u64,
    pub image_url: Option<String>,
    pub source: Source,
    pub url: Option<String>,
    /// Bit rate of the stream in kbit/s, where the provider reports it.
    pub bitrate_kbps: Option<u32>,
    /// Sample rate of the stream in Hz, where the provider reports it.
    pub sample_rate_hz: Option<u32>,
    /// Extra HTTP headers a streaming request for this track needs.
    pub auth_headers: Option<Vec<(String, String)>>,
    /// Whether the track's full details were fetched from its provider.
    pub enriched: bool,
}

/// Copies an optional string, keeping it equal to the one given.
pub fn copy_opt_string(s: &Option<String>) -> (r: Option<String>)
    ensures
        r == *s,
{
    match s {
        Some(v) => Some(v.clone()),
        None => None,
    }
}

/// Copies a list of header pairs, keeping it equal to the one given.
pub fn copy_headers(headers: &Vec<(String, String)>) -> (r: Vec<(String, String)>)
    ensures
        r@ == headers@,
{
    let mut out: Vec<(String, String)> = Vec::new();
    let mut i: usize = 0;
    while i < headers.len()
        invariant
            i <= headers@.len(),
            out@ == headers@.subrange(0, i as int),
        decreases headers@.len() - i,
    {
        let pair = &headers[i];
        out.push((pair.0.clone(), pair.1.clone()));
        i = i + 1;
        assert(out@ == headers@.subrange(0, i as int));
    }
    assert(headers@.subrange(0, headers@.len() as int) == headers@);
    out
}

/// The abstract value of a track: its text fields as character sequences.
pub struct TrackView {
    pub id: Seq<char>,
    pub title: Seq<char>,
    pub artist: Seq<char>,
    pub album: Seq<char>,
    pub duration_ms: u64,
    pub image_url: Option<Seq<char>>,
    pub source: Source,
    pub url: Option<Seq<char>>,
    pub bitrate_kbps: Option<u32>,
    pub sample_rate_hz: Option<u32>,
    pub auth_headers: Option<Seq<(Seq<char>, Seq<char>)>>,
    pub enriched: bool,
}

/// The character view of an optional string.
pub open spec fn opt_view(s: Option<String>) -> Option<Seq<char>> {
    match s {
        Some(v) => Some(v@),
        None => None,
    }
}

/// The character view of a list of header pairs.
pub open spec fn headers_view(h: Seq<(String, String)>) -> Seq<(Seq<char>, Seq<char>)> {
    h.map_values(|p: (String, String)| (p.0@, p.1@))
}

impl View for Track {
    type V = TrackView;

    open spec fn view(&self) -> TrackView {
        TrackView {
            id: self.id@,
            title: self.title@,
            artist: self.artist@,
            album: self.album@,
            duration_ms: self.duration_ms,
            image_url: opt_view(self.image_url),
            source: self.source,
            url: opt_view(self.url),
            bitrate_kbps: self.bitrate_kbps,
            sample_rate_hz: self.sample_rate_hz,
            auth_headers: match self.auth_headers {
                Some(h) => Some(headers_view(h@)),
                None => None,
            },
            enriched: self.enriched,
        }
    }
}

impl Track {
    /// A copy of this track, equal to it in every field.
    pub fn duplicate(&self) -> (r: Track)
        ensures
            r@ == self@,
    {
        let headers = match &self.auth_headers {
            Some(h) => Some(copy_headers(h)),
            None => None,
        };
        Track {
            id: self.id.clone(),
            title: self.title.clone(),
            artist: self.artist.clone(),
            album: self.album.clone(),
            duration_ms: self.duration_ms,
            image_url: copy_opt_string(&self.image_url),
            source: self.source,
            url: copy_opt_string(&self.url),
            bitrate_kbps: self.bitrate_kbps,
            sample_rate_hz: self.sample_rate_hz,
            auth_headers: headers,
            enriched: self.enriched,
        }
    }

    /// A copy of this track without any authentication headers.
    pub fn without_auth_headers(&self) -> (r: Track)
        ensures
            r@ == (TrackView { auth_headers: None, ..self@ }),
    {
        Track {
            id: self.id.clone(),
            title: self.title.clone(),
            artist: self.artist.clone(),
            album: self.album.clone(),
            duration_ms: self.duration_ms,
            image_url: copy_opt_string(&self.image_url),
            source: self.source,
            url: copy_opt_string(&self.url),
            bitrate_kbps: self.bitrate_kbps,
            sample_rate_hz: self.sample_rate_hz,
            auth_headers: None,
            enriched: self.enriched,
        }
    }
}

/// The views of a list of tracks.
pub open spec fn tracks_view(t: Seq<Track>) -> Seq<TrackView> {
    t.map_values(|x: Track| x@)
}

/// Copies a list of tracks, keeping it equal to the one given.
pub fn copy_tracks(tracks: &Vec<Track>) -> (r: Vec<Track>)
    ensures
        r@.len() == tracks@.len(),
        forall|j: int| 0 <= j < tracks@.len() ==> (#[trigger] r@[j])@ == tracks@[j]@,
        tracks_view(r@) == tracks_view(tracks@),
{
    let mut out: Vec<Track> = Vec::new();
    let mut i: usize = 0;
    while i < tracks.len()
        invariant
            i <= tracks@.len(),
            out@.len() == i,
            forall|j: int| 0 <= j < i ==> (#[trigger] out@[j])@ == tracks@[j]@,
        decreases tracks@.len() - i,
    {
        let d = tracks[i].duplicate();
        out.push(d);
        i = i + 1;
    }
    assert(tracks_view(out@) =~= tracks_view(tracks@));
    out
}

/// A playlist of a provider, with its tracks where they were fetched.
#[derive(Clone, Debug)]
pub struct Playlist {
    pub id: String,
    pub name: String,
    pub description: Option<String>,
    pub owner: String,
    pub image_url: Option<String>,
    pub track_count: usize,
    pub tracks: Vec<Track>,
    pub source: Source,
}

/// A snapshot of the player: state, current track and queue.
#[derive(Clone, Debug)]
pub struct PlaybackInfo {
    pub state: PlaybackState,
    pub current_track: Option<Track>,
    pub position_ms: u64,
    pub volume: u32,
    pub shuffle: bool,
    pub repeat_mode: RepeatMode,
    pub queue: Vec<Track>,
    pub current_index: usize,
    pub shuffle_order: Vec<usize>,
}

impl PlaybackInfo {
    /// The initial snapshot: stopped, nothing loaded, volume 50.
    pub fn new() -> (r: PlaybackInfo)
        ensures
            r.state == PlaybackState::Stopped,
            r.current_track is None,
            r.position_ms == 0,
            r.volume == 50,
            !r.shuffle,
            r.repeat_mode == RepeatMode::Off,
            r.queue@.len() == 0,
            r.current_index == 0,
            r.shuffle_order@.len() == 0,
    {
        PlaybackInfo {
            state: PlaybackState::Stopped,
            current_track: None,
            position_ms: 0,
            volume: 50,
            shuffle: false,
            repeat_mode: RepeatMode::Off,
            queue: Vec::new(),
            current_index: 0,
            shuffle_order: Vec::new(),
        }
    }
}

} // verus!
