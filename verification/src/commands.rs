//! Records exchanged with the frontend, and the conversions and parsing that
//! the command handlers perform on them.
use crate::models::{
    copy_opt_string, opt_view, source_key_spec, PlaybackInfo, PlaybackState, Playlist, RepeatMode,
    Source, Track, TrackView,
};
use crate::text::{concat, lowercase_of, text_eq, to_lowercase};
use crate::queue::QueueView;
use vstd::prelude::*;
use vstd::string::*;

verus! {

/// Summary of a playlist for the frontend.
#[derive(Debug, Clone)]
pub struct PlaylistInfo {
    pub id: String,
    pub name: String,
    pub description: Option<String>,
    pub track_count: usize,
    pub owner: String,
    pub source: String,
}

/// A track as the frontend sees it.
#[derive(Debug, Clone)]
pub struct TrackInfo {
    pub id: String,
    pub title: String,
    pub artist: String,
    pub album: String,
    pub duration: u64,
    pub source: String,
    pub url: Option<String>,
    pub image_url: Option<String>,
    pub bitrate_kbps: Option<u32>,
    pub sample_rate_hz: Option<u32>,
}

/// A playlist with its tracks, for the frontend.
#[derive(Debug, Clone)]
pub struct PlaylistResponse {
    pub id: String,
    pub name: String,
    pub description: Option<String>,
    pub track_count: usize,
    pub owner: String,
    pub source: String,
    pub tracks: Vec<TrackInfo>,
}

/// The player's status as reported to the frontend.
#[derive(Debug, Clone)]
pub struct PlaybackStatus {
    pub state: String,
    pub current_track: Option<TrackInfo>,
    pub position: u64,
    pub volume: u32,
    pub shuffle: bool,
    pub repeat_mode: String,
    pub duration: u64,
    /// The tracks still to play after the current one, in play order.
    pub queue: Vec<TrackInfo>,
}

/// Credentials the frontend sends to sign in to a Jellyfin server.
#[derive(Debug)]
pub struct JellyfinAuthRequest {
    pub url: String,
    pub api_key: String,
}

/// `info` describes `track` under the source label `source`.
pub open spec fn describes(info: TrackInfo, track: TrackView, source: Seq<char>) -> bool {
    &&& info.id@ == track.id
    &&& info.title@ == track.title
    &&& info.artist@ == track.artist
    &&& info.album@ == track.album
    &&& info.duration == track.duration_ms
    &&& info.source@ == source
    &&& opt_view(info.url) == track.url
    &&& opt_view(info.image_url) == track.image_url
    &&& info.bitrate_kbps == track.bitrate_kbps
    &&& info.sample_rate_hz == track.sample_rate_hz
}

/// The source a lower-case label names, if any (`"custom"` included).
pub open spec fn source_from_label(label: Seq<char>) -> Option<Source> {
    if label == "spotify"@ {
        Some(Source::Spotify)
    } else if label == "jellyfin"@ {
        Some(Source::Jellyfin)
    } else if label == "plex"@ {
        Some(Source::Plex)
    } else if label == "custom"@ {
        Some(Source::Custom)
    } else {
        None
    }
}

/// The lower-case key of a source.
pub fn source_key(source: Source) -> (r: &'static str)
    ensures
        r@ == source_key_spec(source),
{
    source.key()
}

/// The source a lower-case label names (`"spotify"`, `"jellyfin"`, `"plex"`
/// or `"custom"`).
pub fn source_from_lowercase(label: &str) -> (r: Option<Source>)
    ensures
        r == source_from_label(label@),
{
    if text_eq(label, "spotify") {
        Some(Source::Spotify)
    } else if text_eq(label, "jellyfin") {
        Some(Source::Jellyfin)
    } else if text_eq(label, "plex") {
        Some(Source::Plex)
    } else if text_eq(label, "custom") {
        Some(Source::Custom)
    } else {
        None
    }
}

/// The message for a source label that names no source.
pub open spec fn unknown_source_message(source: Seq<char>) -> Seq<char> {
    "Unknown source: '"@ + source + "'. Supported sources are: spotify, jellyfin, plex, custom"@
}

/// Parses a source label, ignoring case.
pub fn parse_source(source: &str) -> (r: Result<Source, String>)
    ensures
        source_from_label(lowercase_of(source@)) matches Some(s) ==> r == Ok::<Source, String>(s),
        source_from_label(lowercase_of(source@)) is None ==> (r matches Err(e) && e@
            == unknown_source_message(source@)),
{
    let lower = to_lowercase(source);
    match source_from_lowercase(lower.as_str()) {
        Some(s) => Ok(s),
        None => {
            let head = concat("Unknown source: '", source);
            let msg = concat(
                head.as_str(),
                "'. Supported sources are: spotify, jellyfin, plex, custom",
            );
            Err(msg)
        },
    }
}

/// The provider a union-playlist source type names, ignoring case; custom
/// and unknown types name none.
pub fn provider_source_from_str(source_type: &str) -> (r: Option<Source>)
    ensures
        r == (match source_from_label(lowercase_of(source_type@)) {
            Some(Source::Custom) => None,
            other => other,
        }),
{
    let lower = to_lowercase(source_type);
    match source_from_lowercase(lower.as_str()) {
        Some(Source::Custom) => None,
        other => other,
    }
}

/// The source a frontend track label names, ignoring case; anything that is
/// not Spotify, Jellyfin or Plex counts as custom.
pub fn track_source_from_label(label: &str) -> (r: Source)
    ensures
        r == (match source_from_label(lowercase_of(label@)) {
            Some(s) => s,
            None => Source::Custom,
        }),
{
    let lower = to_lowercase(label);
    match source_from_lowercase(lower.as_str()) {
        Some(s) => s,
        None => Source::Custom,
    }
}

/// The repeat mode a frontend label names, if any.
pub open spec fn repeat_mode_from_label(mode: Seq<char>) -> Option<RepeatMode> {
    if mode == "off"@ {
        Some(RepeatMode::Off)
    } else if mode == "one"@ {
        Some(RepeatMode::One)
    } else if mode == "all"@ {
        Some(RepeatMode::All)
    } else {
        None
    }
}

/// Parses a repeat mode label (`"off"`, `"one"` or `"all"`, exactly).
pub fn parse_repeat_mode(mode: &str) -> (r: Result<RepeatMode, String>)
    ensures
        repeat_mode_from_label(mode@) matches Some(m) ==> r == Ok::<RepeatMode, String>(m),
        repeat_mode_from_label(mode@) is None ==> (r matches Err(e) && e@
            == "Invalid repeat mode"@),
{
    if text_eq(mode, "off") {
        Ok(RepeatMode::Off)
    } else if text_eq(mode, "one") {
        Ok(RepeatMode::One)
    } else if text_eq(mode, "all") {
        Ok(RepeatMode::All)
    } else {
        Err(String::from_str("Invalid repeat mode"))
    }
}

/// The frontend label of a playback state.
pub open spec fn state_label_spec(state: PlaybackState) -> Seq<char> {
    match state {
        PlaybackState::Playing => "playing"@,
        PlaybackState::Paused => "paused"@,
        PlaybackState::Stopped => "stopped"@,
    }
}

/// The frontend label of a repeat mode.
pub open spec fn repeat_label_spec(mode: RepeatMode) -> Seq<char> {
    match mode {
        RepeatMode::Off => "off"@,
        RepeatMode::One => "one"@,
        RepeatMode::All => "all"@,
    }
}

/// The frontend label of a playback state.
pub fn state_label(state: PlaybackState) -> (r: String)
    ensures
        r@ == state_label_spec(state),
{
    match state {
        PlaybackState::Playing => String::from_str("playing"),
        PlaybackState::Paused => String::from_str("paused"),
        PlaybackState::Stopped => String::from_str("stopped"),
    }
}

/// The frontend label of a repeat mode.
pub fn repeat_label(mode: RepeatMode) -> (r: String)
    ensures
        r@ == repeat_label_spec(mode),
{
    match mode {
        RepeatMode::Off => String::from_str("off"),
        RepeatMode::One => String::from_str("one"),
        RepeatMode::All => String::from_str("all"),
    }
}

/// Converts a track into its frontend record under the given source label.
pub fn to_track_info(track: Track, source: &str) -> (r: TrackInfo)
    ensures
        describes(r, track@, source@),
{
    TrackInfo {
        id: track.id,
        title: track.title,
        artist: track.artist,
        album: track.album,
        duration: track.duration_ms,
        source: String::from_str(source),
        url: track.url,
        image_url: track.image_url,
        bitrate_kbps: track.bitrate_kbps,
        sample_rate_hz: track.sample_rate_hz,
    }
}

/// The frontend record of a borrowed track.
pub fn track_info_of(track: &Track, source: &str) -> (r: TrackInfo)
    ensures
        describes(r, track@, source@),
{
    TrackInfo {
        id: track.id.clone(),
        title: track.title.clone(),
        artist: track.artist.clone(),
        album: track.album.clone(),
        duration: track.duration_ms,
        source: String::from_str(source),
        url: copy_opt_string(&track.url),
        image_url: copy_opt_string(&track.image_url),
        bitrate_kbps: track.bitrate_kbps,
        sample_rate_hz: track.sample_rate_hz,
    }
}

/// Summarises a playlist for the frontend with the given track count.
pub fn to_playlist_info(playlist: Playlist, source: &str, track_count: usize) -> (r: PlaylistInfo)
    ensures
        r.id == playlist.id,
        r.name == playlist.name,
        r.description == playlist.description,
        r.track_count == track_count,
        r.owner == playlist.owner,
        r.source@ == source@,
{
    PlaylistInfo {
        id: playlist.id,
        name: playlist.name,
        description: playlist.description,
        track_count,
        owner: playlist.owner,
        source: String::from_str(source),
    }
}

/// Converts a playlist with its tracks for the frontend; the track count is
/// the number of tracks it holds.
pub fn to_playlist_response(playlist: Playlist, source: &str) -> (r: PlaylistResponse)
    ensures
        r.id == playlist.id,
        r.name == playlist.name,
        r.description == playlist.description,
        r.track_count == playlist.tracks@.len(),
        r.owner == playlist.owner,
        r.source@ == source@,
        r.tracks@.len() == playlist.tracks@.len(),
        forall|i: int|
            0 <= i < playlist.tracks@.len() ==> describes(
                #[trigger] r.tracks@[i],
                playlist.tracks@[i]@,
                source@,
            ),
{
    let track_count = playlist.tracks.len();
    let mut tracks: Vec<TrackInfo> = Vec::new();
    let mut i: usize = 0;
    while i < playlist.tracks.len()
        invariant
            i <= playlist.tracks@.len(),
            tracks@.len() == i,
            forall|j: int|
                0 <= j < i ==> describes(#[trigger] tracks@[j], playlist.tracks@[j]@, source@),
        decreases playlist.tracks@.len() - i,
    {
        tracks.push(track_info_of(&playlist.tracks[i], source));
        i = i + 1;
    }
    PlaylistResponse {
        id: playlist.id,
        name: playlist.name,
        description: playlist.description,
        track_count,
        owner: playlist.owner,
        source: String::from_str(source),
        tracks,
    }
}

/// The queue indices the shuffle order lists, in order, keeping only those
/// that are valid indices of a queue of `n` tracks.
pub open spec fn valid_indices(order: Seq<usize>, n: nat) -> Seq<usize>
    decreases order.len(),
{
    if order.len() == 0 {
        Seq::empty()
    } else {
        valid_indices(order.drop_last(), n) + (if (order.last() as nat) < n {
            seq![order.last()]
        } else {
            Seq::empty()
        })
    }
}

/// The tracks still to play after the current one, in play order: in shuffle
/// mode those the shuffle order lists after the current position, otherwise
/// those after the current index.
pub open spec fn upcoming_tracks(info: PlaybackInfo) -> Seq<Track> {
    if info.shuffle && info.shuffle_order@.len() > 0 {
        let from = if info.current_index + 1 <= info.shuffle_order@.len() {
            info.current_index + 1
        } else {
            info.shuffle_order@.len() as int
        };
        valid_indices(
            info.shuffle_order@.subrange(from, info.shuffle_order@.len() as int),
            info.queue@.len(),
        ).map_values(|i: usize| info.queue@[i as int])
    } else {
        let from = if info.current_index + 1 <= info.queue@.len() {
            info.current_index + 1
        } else {
            info.queue@.len() as int
        };
        info.queue@.subrange(from, info.queue@.len() as int)
    }
}

/// When every entry of the order names a queue index, none is dropped.
proof fn lemma_valid_indices_keeps_valid(order: Seq<usize>, n: nat)
    requires
        forall|i: int| 0 <= i < order.len() ==> (#[trigger] order[i] as nat) < n,
    ensures
        valid_indices(order, n) == order,
    decreases order.len(),
{
    if order.len() > 0 {
        let rest = order.drop_last();
        assert forall|i: int| 0 <= i < rest.len() implies (#[trigger] rest[i] as nat) < n by {
            assert(rest[i] == order[i]);
        }
        lemma_valid_indices_keeps_valid(rest, n);
        assert(order.last() == order[order.len() - 1]);
        assert(rest.push(order.last()) =~= order);
        assert(rest + seq![order.last()] =~= rest.push(order.last()));
    } else {
        assert(order =~= Seq::<usize>::empty());
    }
}

/// The status lists every track after the current play position, in play
/// order: without shuffle, each queue track after the current index; with a
/// shuffle order whose entries all name queue tracks, the track of each
/// order entry after the current position. Past the end, nothing.
pub proof fn lemma_upcoming_lists_every_later_track(info: PlaybackInfo)
    ensures
        !(info.shuffle && info.shuffle_order@.len() > 0) && info.current_index < info.queue@.len()
            ==> upcoming_tracks(info).len() == info.queue@.len() - info.current_index - 1 && forall|k: int|
            0 <= k < upcoming_tracks(info).len() ==> #[trigger] upcoming_tracks(info)[k]
                == info.queue@[info.current_index + 1 + k],
        !(info.shuffle && info.shuffle_order@.len() > 0) && info.current_index >= info.queue@.len()
            ==> upcoming_tracks(info).len() == 0,
        info.shuffle && info.shuffle_order@.len() > 0 && info.current_index < info.shuffle_order@.len()
            && (forall|i: int|
            0 <= i < info.shuffle_order@.len() ==> (#[trigger] info.shuffle_order@[i] as nat)
                < info.queue@.len()) ==> upcoming_tracks(info).len() == info.shuffle_order@.len()
            - info.current_index - 1 && forall|k: int|
            0 <= k < upcoming_tracks(info).len() ==> #[trigger] upcoming_tracks(info)[k]
                == info.queue@[info.shuffle_order@[info.current_index + 1 + k] as int],
        info.shuffle && info.shuffle_order@.len() > 0 && info.current_index >= info.shuffle_order@.len()
            ==> upcoming_tracks(info).len() == 0,
{
    let order = info.shuffle_order@;
    if info.shuffle && order.len() > 0 {
        let from = if info.current_index + 1 <= order.len() {
            info.current_index + 1
        } else {
            order.len() as int
        };
        let sub = order.subrange(from, order.len() as int);
        if info.current_index >= order.len() {
            assert(sub =~= Seq::<usize>::empty());
            assert(valid_indices(sub, info.queue@.len()) =~= Seq::<usize>::empty());
        }
        if info.current_index < order.len() && (forall|i: int|
            0 <= i < order.len() ==> (#[trigger] order[i] as nat) < info.queue@.len()) {
            assert forall|i: int| 0 <= i < sub.len() implies (#[trigger] sub[i] as nat) < info.queue@.len() by {
                assert(sub[i] == order[from + i]);
            }
            lemma_valid_indices_keeps_valid(sub, info.queue@.len());
        }
    }
}

/// Skipping to entry `k` of the queue the frontend shows (the tracks after
/// the current one, in play order) plays exactly the track shown there,
/// provided the shuffle order names only queue indices (as one made by the
/// queue does).
pub proof fn lemma_skip_plays_displayed_entry(info: PlaybackInfo, q: QueueView, k: nat)
    requires
        q.tracks == info.queue@,
        q.current_index == info.current_index,
        q.shuffle_order == info.shuffle_order@,
        forall|i: int|
            0 <= i < info.shuffle_order@.len() ==> (#[trigger] info.shuffle_order@[i] as nat)
                < info.queue@.len(),
        k < upcoming_tracks(info).len(),
    ensures
        q.can_skip(k as int, info.shuffle),
        q.after_skip(k as int, info.shuffle).current_in_mode(info.shuffle) == Some(
            upcoming_tracks(info)[k as int],
        ),
{
    let order = info.shuffle_order@;
    let n = info.queue@.len();
    if info.shuffle && order.len() > 0 {
        let from = if info.current_index + 1 <= order.len() {
            info.current_index + 1
        } else {
            order.len() as int
        };
        let sub = order.subrange(from, order.len() as int);
        assert forall|i: int| 0 <= i < sub.len() implies (#[trigger] sub[i] as nat) < n by {
            assert(sub[i] == order[from + i]);
        }
        lemma_valid_indices_keeps_valid(sub, n);
        assert(from == info.current_index + 1);
        assert(sub[k as int] == order[info.current_index + 1 + k]);
    } else {
        let from = if info.current_index + 1 <= n {
            info.current_index + 1
        } else {
            n as int
        };
        assert(from == info.current_index + 1);
    }
}

/// Builds the status the frontend shows from a playback snapshot.
pub fn playback_status(info: &PlaybackInfo) -> (r: PlaybackStatus)
    requires
        info.current_index < usize::MAX,
    ensures
        r.state@ == state_label_spec(info.state),
        r.repeat_mode@ == repeat_label_spec(info.repeat_mode),
        r.position == info.position_ms,
        r.volume == info.volume,
        r.shuffle == info.shuffle,
        r.duration == (match info.current_track {
            Some(t) => t.duration_ms,
            None => 0,
        }),
        r.current_track is Some <==> info.current_track is Some,
        r.current_track matches Some(ti) ==> describes(
            ti,
            info.current_track.unwrap()@,
            source_key_spec(info.current_track.unwrap().source),
        ),
        r.queue@.len() == upcoming_tracks(*info).len(),
        forall|i: int|
            0 <= i < r.queue@.len() ==> describes(
                #[trigger] r.queue@[i],
                upcoming_tracks(*info)[i]@,
                source_key_spec(upcoming_tracks(*info)[i].source),
            ),
        !(info.shuffle && info.shuffle_order@.len() > 0) && info.current_index < info.queue@.len()
            ==> r.queue@.len() == info.queue@.len() - info.current_index - 1,
        info.shuffle && info.shuffle_order@.len() > 0 && info.current_index < info.shuffle_order@.len()
            && (forall|i: int|
            0 <= i < info.shuffle_order@.len() ==> (#[trigger] info.shuffle_order@[i] as nat)
                < info.queue@.len()) ==> r.queue@.len() == info.shuffle_order@.len()
            - info.current_index - 1,
{
    proof {
        lemma_upcoming_lists_every_later_track(*info);
    }
    let duration = match &info.current_track {
        Some(t) => t.duration_ms,
        None => 0,
    };
    let current_track = match &info.current_track {
        Some(t) => Some(track_info_of(t, t.source.key())),
        None => None,
    };
    let mut queue: Vec<TrackInfo> = Vec::new();
    let start = info.current_index + 1;
    if info.shuffle && !info.shuffle_order.is_empty() {
        let n = info.shuffle_order.len();
        let from = if start <= n {
            start
        } else {
            n
        };
        let ghost order = info.shuffle_order@.subrange(from as int, n as int);
        let ghost qlen = info.queue@.len();
        let mut j: usize = from;
        while j < n
            invariant
                from <= j <= n,
                n == info.shuffle_order@.len(),
                order == info.shuffle_order@.subrange(from as int, n as int),
                qlen == info.queue@.len(),
                queue@.len() == valid_indices(order.subrange(0, j - from), qlen).len(),
                forall|k: int|
                    0 <= k < queue@.len() ==> describes(
                        #[trigger] queue@[k],
                        info.queue@[valid_indices(order.subrange(0, j - from), qlen)[k] as int]@,
                        source_key_spec(
                            info.queue@[valid_indices(
                                order.subrange(0, j - from),
                                qlen,
                            )[k] as int].source,
                        ),
                    ),
                forall|k: int|
                    0 <= k < valid_indices(order.subrange(0, j - from), qlen).len() ==> (
                    #[trigger] valid_indices(order.subrange(0, j - from), qlen)[k] as nat) < qlen,
            decreases n - j,
        {
            let idx = info.shuffle_order[j];
            let ghost prev = order.subrange(0, j - from);
            let ghost next = order.subrange(0, j + 1 - from);
            assert(next.drop_last() =~= prev);
            assert(next.last() == idx);
            if idx < info.queue.len() {
                let t = &info.queue[idx];
                queue.push(track_info_of(t, t.source.key()));
            }
            j = j + 1;
        }
        assert(order.subrange(0, n - from) =~= order);
    } else {
        let n = info.queue.len();
        let from = if start <= n {
            start
        } else {
            n
        };
        let mut j: usize = from;
        while j < n
            invariant
                from <= j <= n,
                n == info.queue@.len(),
                queue@.len() == j - from,
                forall|k: int|
                    0 <= k < queue@.len() ==> describes(
                        #[trigger] queue@[k],
                        info.queue@[from + k]@,
                        source_key_spec(info.queue@[from + k].source),
                    ),
            decreases n - j,
        {
            let t = &info.queue[j];
            queue.push(track_info_of(t, t.source.key()));
            j = j + 1;
        }
    }
    PlaybackStatus {
        state: state_label(info.state),
        current_track,
        position: info.position_ms,
        volume: info.volume,
        shuffle: info.shuffle,
        repeat_mode: repeat_label(info.repeat_mode),
        duration,
        queue,
    }
}

/// The queue index playback starts at after loading a queue: the first entry
/// of the shuffle order when it names a valid index, else the first track.
pub fn first_play_index(shuffle_order: &Vec<usize>, track_count: usize) -> (r: usize)
    ensures
        r == (if shuffle_order@.len() > 0 && shuffle_order@[0] < track_count {
            shuffle_order@[0]
        } else {
            0
        }),
{
    if !shuffle_order.is_empty() && shuffle_order[0] < track_count {
        shuffle_order[0]
    } else {
        0
    }
}

/// Builds the queue track for a frontend record, with the source its label
/// names and the given authentication headers.
pub fn track_from_info(info: TrackInfo, auth_headers: Option<Vec<(String, String)>>) -> (r: Track)
    ensures
        r.id == info.id,
        r.title == info.title,
        r.artist == info.artist,
        r.album == info.album,
        r.duration_ms == info.duration,
        r.image_url == info.image_url,
        r.url == info.url,
        r.bitrate_kbps == info.bitrate_kbps,
        r.sample_rate_hz == info.sample_rate_hz,
        r.auth_headers == auth_headers,
        !r.enriched,
        r.source == (match source_from_label(lowercase_of(info.source@)) {
            Some(Source::Spotify) => Source::Spotify,
            Some(Source::Jellyfin) => Source::Jellyfin,
            Some(Source::Plex) => Source::Plex,
            _ => Source::Custom,
        }),
{
    let source = track_source_from_label(info.source.as_str());
    Track {
        id: info.id,
        title: info.title,
        artist: info.artist,
        album: info.album,
        duration_ms: info.duration,
        image_url: info.image_url,
        source,
        url: info.url,
        bitrate_kbps: info.bitrate_kbps,
        sample_rate_hz: info.sample_rate_hz,
        auth_headers,
        enriched: false,
    }
}

} // verus!
