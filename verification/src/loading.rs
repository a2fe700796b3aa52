//! Starting playback from a list of tracks: loading the queue and choosing
//! the track that plays first, routing a track to the backend that plays it,
//! and gathering the tracks of custom and union playlists.
use crate::commands::{
    first_play_index, parse_source, source_from_label, track_source_from_label, unknown_source_message,
    TrackInfo,
};
use crate::database::{row_track, CustomPlaylist, PlaylistTrack};
use crate::models::{
    copy_headers, copy_opt_string, headers_view, opt_view, source_key_spec, tracks_view, PlaybackInfo,
    PlaybackState, Playlist, Source, Track, TrackView,
};
use crate::playback::{is_first_position, is_first_with_id, is_play_position, position_queue_at_track, start_track};
use crate::providers::ProviderError;
use crate::text::concat;
use crate::queue::{is_shuffle_of_range, lemma_shuffle_order_is_permutation, PlaybackQueue, QueueView};
use crate::text::{eq_ignore_ascii_case, eq_ignore_ascii_case_spec, lowercase_of, strip_prefix};
use vstd::prelude::*;
use vstd::string::*;

verus! {

/// Replaces the queue with `tracks` and prepares the order they play in.
/// With shuffle on, a fresh shuffle order is made (keeping the first track
/// first when `keep_first` is set) and playback starts at the track the
/// order puts first; otherwise it starts at the first track. Returns the
/// queue index of the track to play.
pub fn load_queue(queue: &mut PlaybackQueue, tracks: Vec<Track>, shuffle: bool, keep_first: bool) -> (first: usize)
    ensures
        final(queue)@.tracks == tracks@,
        final(queue)@.current_index == 0,
        shuffle ==> is_shuffle_of_range(final(queue)@.shuffle_order, tracks@.len()),
        shuffle && keep_first && tracks@.len() > 0 ==> final(queue)@.shuffle_order[0] == 0,
        !shuffle ==> final(queue)@.shuffle_order.len() == 0,
        first == (if shuffle && tracks@.len() > 0 {
            final(queue)@.shuffle_order[0]
        } else {
            0
        }),
        tracks@.len() > 0 ==> first < tracks@.len(),
        tracks@.len() > 0 ==> final(queue)@.current_in_mode(shuffle) == Some(tracks@[first as int]),
{
    queue.clear();
    let n = tracks.len();
    queue.add_tracks(tracks);
    assert(queue@.tracks =~= tracks@);
    if !shuffle {
        return 0;
    }
    if keep_first {
        queue.generate_shuffle_order_keep_first();
    } else {
        queue.generate_shuffle_order();
    }
    queue.current_index = 0;
    proof {
        lemma_shuffle_order_is_permutation(queue@.shuffle_order, n as nat);
    }
    first_play_index(&queue.shuffle_order, n)
}

/// Puts an enriched copy of a track into the queue in place of the entry at
/// `index`; an index past the end leaves the queue as it was.
pub fn install_enriched(queue: &mut PlaybackQueue, index: usize, track: Track)
    ensures
        index < old(queue)@.tracks.len() ==> final(queue)@ == (QueueView {
            tracks: old(queue)@.tracks.update(index as int, track),
            ..old(queue)@
        }),
        index >= old(queue)@.tracks.len() ==> final(queue)@ == old(queue)@,
{
    if index < queue.tracks.len() {
        queue.tracks.set(index, track);
    }
}

/// The track that plays after a direct play or queue request for the first
/// track: the enriched copy when one was fetched, else the track as it was.
pub fn track_to_play(loaded: &Track, enriched: Option<Track>) -> (r: Track)
    ensures
        enriched matches Some(t) ==> r == t,
        enriched is None ==> r@ == loaded@,
{
    match enriched {
        Some(t) => t,
        None => loaded.duplicate(),
    }
}

/// Whether a track from the frontend is fetched from its provider before it
/// plays: every source but custom keeps its stream details with the provider.
pub fn needs_enrichment_before_play(source: Source) -> (r: bool)
    ensures
        r == (source != Source::Custom),
{
    match source {
        Source::Custom => false,
        _ => true,
    }
}

/// Whether the authentication headers for a track's stream come from its
/// provider at play time (Jellyfin) rather than from the track itself.
pub fn uses_provider_auth_headers(source: Source) -> (r: bool)
    ensures
        r == (source == Source::Jellyfin),
{
    match source {
        Source::Jellyfin => true,
        _ => false,
    }
}

/// The scheme of stream URLs that name a Spotify track.
pub const SPOTIFY_TRACK_URI_PREFIX: &'static str = "spotify:track:";

/// How a track's stream is played.
#[derive(Debug, Clone, PartialEq, Eq)]
pub enum PlaybackRoute {
    /// There is no stream URL: nothing can be played.
    Unplayable,
    /// A Spotify track, played on a Spotify Connect device by its track id.
    SpotifyConnect { track_id: String },
    /// A stream fetched over HTTP and decoded locally.
    Http { url: String },
}

/// The route for a stream URL: `spotify:track:<id>` goes to Spotify
/// Connect with the id, any other URL is fetched over HTTP.
pub fn playback_route(url: &Option<String>) -> (r: PlaybackRoute)
    ensures
        match url {
            None => r is Unplayable,
            Some(u) => if SPOTIFY_TRACK_URI_PREFIX@.is_prefix_of(u@) {
                (r matches PlaybackRoute::SpotifyConnect { track_id } && track_id@ == u@.subrange(
                    SPOTIFY_TRACK_URI_PREFIX@.len() as int,
                    u@.len() as int,
                ))
            } else {
                (r matches PlaybackRoute::Http { url: h } && h@ == u@)
            },
        },
{
    match url {
        None => PlaybackRoute::Unplayable,
        Some(u) => match strip_prefix(u.as_str(), SPOTIFY_TRACK_URI_PREFIX) {
            Some(track_id) => PlaybackRoute::SpotifyConnect { track_id },
            None => PlaybackRoute::Http { url: u.clone() },
        },
    }
}

/// Whether the player is driven through Spotify Connect: play, pause, seek
/// and volume go to the Connect device when the current track is a Spotify
/// track, and to the local player otherwise.
pub fn controls_via_connect(current: &Option<Track>) -> (r: bool)
    ensures
        r == (current matches Some(t) && t.source == Source::Spotify),
{
    match current {
        Some(t) => match t.source {
            Source::Spotify => true,
            _ => false,
        },
        None => false,
    }
}

/// The position a Spotify track restarts from when it is started afresh on
/// a Connect device: the saved position, unless playback was at the start.
pub fn connect_start_position(position_ms: u64) -> (r: Option<i64>)
    ensures
        r == (if position_ms > 0 {
            Some(position_ms as i64)
        } else {
            None::<i64>
        }),
{
    if position_ms > 0 {
        Some(position_ms as i64)
    } else {
        None
    }
}

/// The Spotify track id a stream URL names, if it is a `spotify:track:` URI.
pub open spec fn connect_track_id(url: Option<Seq<char>>) -> Option<Seq<char>> {
    match url {
        Some(u) => if SPOTIFY_TRACK_URI_PREFIX@.is_prefix_of(u) {
            Some(u.subrange(SPOTIFY_TRACK_URI_PREFIX@.len() as int, u.len() as int))
        } else {
            None
        },
        None => None,
    }
}

/// What restarting the current track afresh on a Connect device plays (when
/// resuming it there failed): its Spotify track id and the position to start
/// from. Nothing is restarted without a current track or when its URL is not
/// a `spotify:track:` URI.
pub fn connect_restart(current: &Option<Track>, position_ms: u64) -> (r: Option<(String, Option<i64>)>)
    ensures
        match current {
            None => r is None,
            Some(t) => match connect_track_id(opt_view(t.url)) {
                None => r is None,
                Some(id) => (r matches Some(p) && p.0@ == id && p.1 == (if position_ms > 0 {
                    Some(position_ms as i64)
                } else {
                    None::<i64>
                })),
            },
        },
{
    match current {
        None => None,
        Some(t) => match &t.url {
            None => None,
            Some(u) => match strip_prefix(u.as_str(), SPOTIFY_TRACK_URI_PREFIX) {
                None => None,
                Some(id) => Some((id, connect_start_position(position_ms))),
            },
        },
    }
}

/// A Spotify track's playback URI (`spotify:track:` and its bare id) is
/// routed to Spotify Connect with that id.
pub proof fn lemma_track_uri_routes_to_connect(id: Seq<char>)
    ensures
        connect_track_id(Some(SPOTIFY_TRACK_URI_PREFIX@ + id)) == Some(id),
{
    let p = SPOTIFY_TRACK_URI_PREFIX@;
    let u = p + id;
    assert(u.subrange(0, p.len() as int) =~= p);
    assert(u.subrange(p.len() as int, u.len() as int) =~= id);
}

/// A direct request for a single track from the frontend.
#[derive(Debug, Clone, Copy, PartialEq, Eq, Structural)]
pub enum TrackRequest {
    Play,
    Queue,
}

/// Why a custom track cannot be requested directly.
pub open spec fn custom_request_message(request: TrackRequest) -> Seq<char> {
    match request {
        TrackRequest::Play => "Playing custom tracks directly is not yet supported. Please play from a custom playlist instead."@,
        TrackRequest::Queue => "Queuing custom tracks directly is not yet supported. Please queue from a custom playlist instead."@,
    }
}

/// The provider a direct track request goes to: the source its label names,
/// ignoring case. Unknown labels and custom tracks are refused.
pub fn requested_track_source(source: &str, request: TrackRequest) -> (r: Result<Source, String>)
    ensures
        match source_from_label(lowercase_of(source@)) {
            None => (r matches Err(e) && e@ == unknown_source_message(source@)),
            Some(Source::Custom) => (r matches Err(e) && e@ == custom_request_message(request)),
            Some(s) => r == Ok::<Source, String>(s),
        },
{
    match parse_source(source) {
        Err(e) => Err(e),
        Ok(Source::Custom) => match request {
            TrackRequest::Play => Err(
                String::from_str(
                    "Playing custom tracks directly is not yet supported. Please play from a custom playlist instead.",
                ),
            ),
            TrackRequest::Queue => Err(
                String::from_str(
                    "Queuing custom tracks directly is not yet supported. Please queue from a custom playlist instead.",
                ),
            ),
        },
        Ok(s) => Ok(s),
    }
}

/// Refuses to start playback from an empty list of tracks.
pub fn check_playlist_tracks(tracks: &Vec<Track>) -> (r: Result<(), String>)
    ensures
        tracks@.len() > 0 <==> r is Ok,
        r matches Err(e) ==> e@ == "Playlist is empty"@,
{
    if tracks.is_empty() {
        Err(String::from_str("Playlist is empty"))
    } else {
        Ok(())
    }
}

/// Where the tracks of one source of a union playlist come from.
#[derive(Debug, Clone, Copy, PartialEq, Eq, Structural)]
pub enum UnionSourceKind {
    /// Another custom playlist of the local database.
    Custom,
    /// A playlist of a provider.
    Provider(Source),
    /// A source type the player does not know; it adds no tracks.
    Unknown,
}

/// The provider a source type names, ignoring case; custom and unknown
/// types name none.
pub open spec fn provider_of_type(source_type: Seq<char>) -> Option<Source> {
    match source_from_label(lowercase_of(source_type)) {
        Some(Source::Custom) => None,
        other => other,
    }
}

/// Where a union source's tracks come from, by its source type: "custom" in
/// any ASCII case is the local database, a provider name in any case is that
/// provider.
pub open spec fn union_source_kind_spec(source_type: Seq<char>) -> UnionSourceKind {
    if eq_ignore_ascii_case_spec(source_type, "custom"@) {
        UnionSourceKind::Custom
    } else {
        match provider_of_type(source_type) {
            Some(s) => UnionSourceKind::Provider(s),
            None => UnionSourceKind::Unknown,
        }
    }
}

/// Classifies the source type of a union source.
pub fn union_source_kind(source_type: &str) -> (r: UnionSourceKind)
    ensures
        r == union_source_kind_spec(source_type@),
{
    if eq_ignore_ascii_case(source_type, "custom") {
        UnionSourceKind::Custom
    } else {
        match crate::commands::provider_source_from_str(source_type) {
            Some(s) => UnionSourceKind::Provider(s),
            None => UnionSourceKind::Unknown,
        }
    }
}

/// The tracks one source gave: none when it gave nothing.
pub open spec fn source_tracks(fetched: Option<Vec<Track>>) -> Seq<Track> {
    match fetched {
        Some(v) => v@,
        None => Seq::empty(),
    }
}

/// The tracks gathered from the sources of a union playlist, in source
/// order; a source that gave nothing (failed or unknown) adds no tracks.
pub open spec fn gathered(fetched: Seq<Option<Vec<Track>>>) -> Seq<Track>
    decreases fetched.len(),
{
    if fetched.len() == 0 {
        Seq::empty()
    } else {
        source_tracks(fetched[0]) + gathered(fetched.drop_first())
    }
}

/// Concatenates the tracks fetched for each source of a union playlist.
pub fn gather_union_tracks(fetched: Vec<Option<Vec<Track>>>) -> (r: Vec<Track>)
    ensures
        r@ == gathered(fetched@),
{
    let mut rest = fetched;
    let mut out: Vec<Track> = Vec::new();
    while rest.len() > 0
        invariant
            gathered(fetched@) == out@ + gathered(rest@),
        decreases rest@.len(),
    {
        let ghost before = rest@;
        let item = rest.remove(0);
        assert(rest@ =~= before.drop_first());
        let ghost head = source_tracks(item);
        let ghost old_out = out@;
        match item {
            Some(v) => {
                let mut v = v;
                out.append(&mut v);
            },
            None => {},
        }
        assert(out@ =~= old_out + head);
        assert(old_out + (head + gathered(rest@)) =~= (old_out + head) + gathered(rest@));
    }
    assert(out@ + gathered(rest@) =~= out@);
    out
}

/// The tracks that stored rows describe, from their cached metadata.
pub fn rows_to_tracks(rows: &Vec<PlaylistTrack>) -> (r: Vec<Track>)
    ensures
        tracks_view(r@) == rows@.map_values(|row: PlaylistTrack| row_track(row)),
{
    let mut out: Vec<Track> = Vec::new();
    let mut i: usize = 0;
    while i < rows.len()
        invariant
            i <= rows@.len(),
            out@.len() == i,
            forall|j: int| 0 <= j < i ==> (#[trigger] out@[j])@ == row_track(rows@[j]),
        decreases rows@.len() - i,
    {
        let t = rows[i].to_track();
        out.push(t);
        i = i + 1;
    }
    assert(tracks_view(out@) =~= rows@.map_values(|row: PlaylistTrack| row_track(row)));
    out
}

/// The provider a stored row's track is fetched from again before it plays,
/// if any: rows of a provider fetch their stream details, the rest play from
/// the cached metadata.
pub fn refetch_source(row: &PlaylistTrack) -> (r: Option<Source>)
    ensures
        r == provider_of_type(row.track_source@),
{
    crate::commands::provider_source_from_str(row.track_source.as_str())
}

/// The track a stored row plays as: the freshly fetched track when the
/// provider gave one, else the row's cached metadata.
pub fn settle_row_track(row: &PlaylistTrack, fetched: Option<Track>) -> (r: Track)
    ensures
        fetched matches Some(t) ==> r == t,
        fetched is None ==> r@ == row_track(*row),
{
    match fetched {
        Some(t) => t,
        None => row.to_track(),
    }
}

/// Starts a track the player was asked to play: the queue moves to the
/// track's play position when it holds the track (see `is_play_position`),
/// and the track becomes the current one, playing from its start.
pub fn play_queued_track(queue: &mut PlaybackQueue, info: &mut PlaybackInfo, track: Track) -> (r:
    Option<usize>)
    ensures
        final(queue)@.tracks == old(queue)@.tracks,
        final(queue)@.shuffle_order == old(queue)@.shuffle_order,
        is_play_position(old(queue)@, track.id@, old(info).shuffle, r),
        r matches Some(p) ==> final(queue)@.current_index == p,
        r is None ==> final(queue)@.current_index == old(queue)@.current_index,
        final(info).current_track == Some(track),
        final(info).state == PlaybackState::Playing,
        final(info).position_ms == 0,
        final(info).volume == old(info).volume,
        final(info).shuffle == old(info).shuffle,
        final(info).repeat_mode == old(info).repeat_mode,
{
    let shuffle = info.shuffle;
    let r = position_queue_at_track(queue, track.id.as_str(), shuffle);
    start_track(info, track);
    r
}

/// The queue `q` and status `info` after a list of tracks started playing
/// from a player whose status was `before`: the queue holds the tracks (in a
/// fresh shuffle order when shuffle is on, the first track kept first when
/// `keep_first`), the track at play position 0 (`first`) is current and
/// playing from its start, and the queue stands at the play position of the
/// first queue entry with that track's id.
pub open spec fn started_list(
    before: PlaybackInfo,
    q: QueueView,
    info: PlaybackInfo,
    tracks: Seq<Track>,
    keep_first: bool,
    first: usize,
) -> bool {
    &&& q.tracks == tracks
    &&& (before.shuffle ==> is_shuffle_of_range(q.shuffle_order, tracks.len()))
    &&& (before.shuffle && keep_first ==> q.shuffle_order[0] == 0)
    &&& (!before.shuffle ==> q.shuffle_order.len() == 0)
    &&& first == (if before.shuffle {
        q.shuffle_order[0]
    } else {
        0usize
    })
    &&& first < tracks.len()
    &&& (info.current_track matches Some(t) && t@ == tracks[first as int]@)
    &&& (q.current_in_mode(before.shuffle) matches Some(c) && c.id@ == tracks[first as int].id@)
    &&& 0 <= q.current_index
    &&& is_play_position(
        QueueView { current_index: 0, ..q },
        tracks[first as int].id@,
        before.shuffle,
        Some(q.current_index as usize),
    )
    &&& info.state == PlaybackState::Playing
    &&& info.position_ms == 0
    &&& info.volume == before.volume
    &&& info.shuffle == before.shuffle
    &&& info.repeat_mode == before.repeat_mode
}

proof fn lemma_first_with_id_exists(tracks: Seq<Track>, id: Seq<char>, k: int)
    requires
        0 <= k < tracks.len(),
        tracks.len() <= usize::MAX,
        tracks[k].id@ == id,
    ensures
        exists|i: usize| is_first_with_id(tracks, id, Some(i)),
    decreases k,
{
    if exists|j: int| 0 <= j < k && (#[trigger] tracks[j]).id@ == id {
        let j = choose|j: int| 0 <= j < k && (#[trigger] tracks[j]).id@ == id;
        lemma_first_with_id_exists(tracks, id, j);
    } else {
        assert(is_first_with_id(tracks, id, Some(k as usize)));
    }
}

/// Replaces the queue with `tracks` and plays the track that comes first
/// in the current mode; returns its queue index.
pub fn start_list(queue: &mut PlaybackQueue, info: &mut PlaybackInfo, tracks: Vec<Track>, keep_first: bool) -> (first: usize)
    requires
        tracks@.len() > 0,
    ensures
        started_list(*old(info), final(queue)@, *final(info), tracks@, keep_first, first),
{
    let ghost all = tracks@;
    let n = tracks.len();
    let shuffle = info.shuffle;
    let first = load_queue(queue, tracks, shuffle, keep_first);
    let ghost q1 = queue@;
    assert(all.len() == n);
    let t = queue.tracks[first].duplicate();
    let r = play_queued_track(queue, info, t);
    proof {
        let id = all[first as int].id@;
        lemma_first_with_id_exists(all, id, first as int);
        let i0 = choose|i: usize| is_first_with_id(all, id, Some(i));
        if q1.uses_shuffle(shuffle) {
            lemma_shuffle_order_is_permutation(q1.shuffle_order, all.len());
            assert(i0 < all.len());
            assert(q1.shuffle_order.contains((i0 as int) as usize));
            if r is None {
                assert(is_first_position(q1.shuffle_order, i0, None));
                let k = choose|k: int| 0 <= k < q1.shuffle_order.len() && q1.shuffle_order[k] == i0;
                assert(q1.shuffle_order[k] != i0);
            }
        } else {
            if r is None {
                assert(all[first as int].id@ != id);
            }
        }
        assert(q1 == QueueView { current_index: 0, ..queue@ });
        match r {
            Some(p) => {
                if q1.uses_shuffle(shuffle) {
                    let i = choose|i: usize|
                        is_first_with_id(q1.tracks, all[first as int].id@, Some(i))
                            && #[trigger] is_first_position(q1.shuffle_order, i, Some(p));
                    assert(q1.shuffle_order[p as int] == i);
                } else {
                    assert(is_first_with_id(q1.tracks, all[first as int].id@, Some(p)));
                }
            },
            None => {},
        }
    }
    first
}

/// The message for an empty playlist.
pub open spec fn empty_playlist_message() -> Seq<char> {
    "Playlist is empty"@
}

/// Plays the tracks a playlist resolved to: an empty list is refused and
/// leaves queue and status as they were; otherwise the list starts playing.
pub fn play_resolved_tracks(queue: &mut PlaybackQueue, info: &mut PlaybackInfo, tracks: Vec<Track>) -> (r:
    Result<usize, String>)
    ensures
        tracks@.len() == 0 <==> r is Err,
        r matches Err(m) ==> m@ == empty_playlist_message(),
        r is Err ==> final(queue)@ == old(queue)@ && *final(info) == *old(info),
        r matches Ok(first) ==> started_list(*old(info), final(queue)@, *final(info), tracks@, false, first),
{
    if tracks.is_empty() {
        return Err(String::from_str("Playlist is empty"));
    }
    Ok(start_list(queue, info, tracks, false))
}

/// The message when a provider could not give a playlist.
pub open spec fn playlist_failure_message(source: Source, error: Seq<char>) -> Seq<char> {
    "Failed to get "@ + source_key_spec(source) + " playlist: "@ + error
}

/// Plays a provider playlist from what the provider answered: its failure
/// is reported with the source, an empty playlist is refused (both leave
/// queue and status as they were), and otherwise its tracks start playing.
pub fn play_fetched_playlist(
    queue: &mut PlaybackQueue,
    info: &mut PlaybackInfo,
    source: Source,
    fetched: Result<Playlist, ProviderError>,
) -> (r: Result<usize, String>)
    ensures
        fetched matches Err(e) ==> (r matches Err(m) && m@ == playlist_failure_message(source, e.0@)),
        fetched matches Ok(p) ==> (p.tracks@.len() == 0 <==> r is Err),
        fetched matches Ok(p) ==> (r matches Err(m) ==> m@ == empty_playlist_message()),
        r is Err ==> final(queue)@ == old(queue)@ && *final(info) == *old(info),
        fetched matches Ok(p) ==> (r matches Ok(first) ==> started_list(
            *old(info),
            final(queue)@,
            *final(info),
            p.tracks@,
            false,
            first,
        )),
{
    match fetched {
        Err(e) => {
            let a = concat("Failed to get ", source.key());
            let b = concat(a.as_str(), " playlist: ");
            Err(concat(b.as_str(), e.0.as_str()))
        },
        Ok(p) => play_resolved_tracks(queue, info, p.tracks),
    }
}

/// The message for a custom playlist id the database does not hold.
pub open spec fn playlist_not_found_message(playlist_id: Seq<char>) -> Seq<char> {
    "Playlist not found: "@ + playlist_id
}

/// The custom playlist a play request names, or the not-found refusal.
pub fn require_custom_playlist(found: Option<CustomPlaylist>, playlist_id: &str) -> (r: Result<
    CustomPlaylist,
    String,
>)
    ensures
        found matches Some(p) ==> r == Ok::<CustomPlaylist, String>(p),
        found is None ==> (r matches Err(m) && m@ == playlist_not_found_message(playlist_id@)),
{
    match found {
        Some(p) => Ok(p),
        None => Err(concat("Playlist not found: ", playlist_id)),
    }
}

/// The authentication headers each provider adds to its tracks' streams.
#[derive(Debug, Clone)]
pub struct ProviderHeaders {
    pub spotify: Option<Vec<(String, String)>>,
    pub jellyfin: Option<Vec<(String, String)>>,
    pub plex: Option<Vec<(String, String)>>,
    pub custom: Option<Vec<(String, String)>>,
}

/// The headers of one source.
pub open spec fn headers_for(h: ProviderHeaders, source: Source) -> Option<Vec<(String, String)>> {
    match source {
        Source::Spotify => h.spotify,
        Source::Jellyfin => h.jellyfin,
        Source::Plex => h.plex,
        Source::Custom => h.custom,
    }
}

/// The view of optional headers.
pub open spec fn opt_headers_view(h: Option<Vec<(String, String)>>) -> Option<Seq<(Seq<char>, Seq<char>)>> {
    match h {
        Some(v) => Some(headers_view(v@)),
        None => None,
    }
}

/// The source a frontend track label names, ignoring case; other labels
/// count as custom.
pub open spec fn label_track_source(label: Seq<char>) -> Source {
    match source_from_label(lowercase_of(label)) {
        Some(s) => s,
        None => Source::Custom,
    }
}

/// The queue track a frontend record stands for, with its source's headers.
pub open spec fn info_track_view(info: TrackInfo, h: ProviderHeaders) -> TrackView {
    let source = label_track_source(info.source@);
    TrackView {
        id: info.id@,
        title: info.title@,
        artist: info.artist@,
        album: info.album@,
        duration_ms: info.duration,
        image_url: opt_view(info.image_url),
        source,
        url: opt_view(info.url),
        bitrate_kbps: info.bitrate_kbps,
        sample_rate_hz: info.sample_rate_hz,
        auth_headers: opt_headers_view(headers_for(h, source)),
        enriched: false,
    }
}

fn copy_opt_headers(h: &Option<Vec<(String, String)>>) -> (r: Option<Vec<(String, String)>>)
    ensures
        opt_headers_view(r) == opt_headers_view(*h),
{
    match h {
        Some(v) => Some(copy_headers(v)),
        None => None,
    }
}

fn info_to_track(info: &TrackInfo, headers: &ProviderHeaders) -> (r: Track)
    ensures
        r@ == info_track_view(*info, *headers),
{
    let source = track_source_from_label(info.source.as_str());
    let auth_headers = match source {
        Source::Spotify => copy_opt_headers(&headers.spotify),
        Source::Jellyfin => copy_opt_headers(&headers.jellyfin),
        Source::Plex => copy_opt_headers(&headers.plex),
        Source::Custom => copy_opt_headers(&headers.custom),
    };
    Track {
        id: info.id.clone(),
        title: info.title.clone(),
        artist: info.artist.clone(),
        album: info.album.clone(),
        duration_ms: info.duration,
        image_url: copy_opt_string(&info.image_url),
        source,
        url: copy_opt_string(&info.url),
        bitrate_kbps: info.bitrate_kbps,
        sample_rate_hz: info.sample_rate_hz,
        auth_headers,
        enriched: false,
    }
}

/// The message for a play request without tracks.
pub open spec fn no_tracks_message() -> Seq<char> {
    "No tracks provided"@
}

/// Loads the tracks the frontend sent for immediate playback: an empty list
/// is refused with the queue left as it was; otherwise the queue holds the
/// converted tracks in order (shuffled when shuffle is on, the first one kept
/// first when `preserve_first_in_shuffle` is `Some(true)`), stands at play
/// position 0, and the queue index of the track to play first is returned.
/// The caller fetches that track's full details and then plays it.
pub fn load_track_infos(
    queue: &mut PlaybackQueue,
    shuffle: bool,
    infos: &Vec<TrackInfo>,
    headers: &ProviderHeaders,
    preserve_first_in_shuffle: Option<bool>,
) -> (r: Result<usize, String>)
    ensures
        infos@.len() == 0 <==> r is Err,
        r matches Err(m) ==> m@ == no_tracks_message() && final(queue)@ == old(queue)@,
        r is Ok ==> tracks_view(final(queue)@.tracks) == infos@.map_values(
            |i: TrackInfo| info_track_view(i, *headers),
        ),
        r is Ok ==> final(queue)@.current_index == 0,
        r is Ok && shuffle ==> is_shuffle_of_range(final(queue)@.shuffle_order, infos@.len()),
        r is Ok && shuffle && preserve_first_in_shuffle == Some(true) ==> final(queue)@.shuffle_order[0] == 0,
        r is Ok && !shuffle ==> final(queue)@.shuffle_order.len() == 0,
        r matches Ok(first) ==> first == (if shuffle {
            final(queue)@.shuffle_order[0]
        } else {
            0usize
        }) && first < infos@.len() && final(queue)@.current_in_mode(shuffle) == Some(
            final(queue)@.tracks[first as int],
        ),
{
    if infos.len() == 0 {
        return Err(String::from_str("No tracks provided"));
    }
    let mut tracks: Vec<Track> = Vec::new();
    let mut i: usize = 0;
    while i < infos.len()
        invariant
            i <= infos@.len(),
            tracks@.len() == i,
            forall|k: int| 0 <= k < i ==> (#[trigger] tracks@[k])@ == info_track_view(infos@[k], *headers),
        decreases infos@.len() - i,
    {
        tracks.push(info_to_track(&infos[i], headers));
        i = i + 1;
    }
    let ghost converted = tracks@;
    assert(tracks_view(converted) =~= infos@.map_values(|i: TrackInfo| info_track_view(i, *headers)));
    let keep_first = match preserve_first_in_shuffle {
        Some(b) => b,
        None => false,
    };
    let first = load_queue(queue, tracks, shuffle, keep_first);
    Ok(first)
}

} // verus!
