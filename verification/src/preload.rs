//! Local playback of HTTP streams: which upcoming tracks are downloaded
//! ahead and under which key they are kept, which downloads are given up,
//! which URLs the local player accepts, and where a track's loudness gain
//! comes from.
use crate::commands::source_key;
use crate::loading::SPOTIFY_TRACK_URI_PREFIX;
use crate::models::{opt_view, source_key_spec, Source, Track};
use crate::text::{concat, starts_with};
use vstd::prelude::*;
use vstd::string::*;

verus! {

/// The key a downloaded track is kept under: its source and its id.
pub open spec fn preload_key_spec(source: Source, id: Seq<char>) -> Seq<char> {
    source_key_spec(source) + ":"@ + id
}

/// The key a downloaded track is kept under (`<source>:<id>`).
pub fn preload_key(track: &Track) -> (r: String)
    ensures
        r@ == preload_key_spec(track.source, track.id@),
{
    let head = concat(source_key(track.source), ":");
    concat(head.as_str(), track.id.as_str())
}

/// The keys of the downloads to keep when the upcoming tracks are `tracks`:
/// all others are dropped.
pub fn preload_keys(tracks: &Vec<Track>) -> (r: Vec<String>)
    ensures
        r@.len() == tracks@.len(),
        forall|i: int| 0 <= i < tracks@.len() ==> (#[trigger] r@[i])@ == preload_key_spec(
            tracks@[i].source,
            tracks@[i].id@,
        ),
{
    let mut out: Vec<String> = Vec::new();
    let mut i: usize = 0;
    while i < tracks.len()
        invariant
            i <= tracks@.len(),
            out@.len() == i,
            forall|j: int| 0 <= j < i ==> (#[trigger] out@[j])@ == preload_key_spec(
                tracks@[j].source,
                tracks@[j].id@,
            ),
        decreases tracks@.len() - i,
    {
        out.push(preload_key(&tracks[i]));
        i = i + 1;
    }
    out
}

/// Whether an upcoming track is downloaded ahead: it has a stream URL that
/// is fetched over HTTP (not a Spotify Connect URI) and is not downloaded
/// already.
pub fn should_preload(track: &Track, already_cached: bool) -> (r: bool)
    ensures
        r == (match opt_view(track.url) {
            Some(u) => !SPOTIFY_TRACK_URI_PREFIX@.is_prefix_of(u) && !already_cached,
            None => false,
        }),
{
    match &track.url {
        Some(u) => !starts_with(u.as_str(), SPOTIFY_TRACK_URI_PREFIX) && !already_cached,
        None => false,
    }
}

/// Downloads announced larger than this many bytes (50 MiB) are skipped.
pub const MAX_PRELOAD_BYTES: u64 = 52_428_800;

/// Whether a download of the announced size is kept: an unknown size is
/// accepted, a known one up to the limit.
pub fn preload_size_ok(content_length: Option<u64>) -> (r: bool)
    ensures
        r == (match content_length {
            Some(len) => len <= MAX_PRELOAD_BYTES,
            None => true,
        }),
{
    match content_length {
        Some(len) => len <= MAX_PRELOAD_BYTES,
        None => true,
    }
}

/// Whether the loudness analysis of a downloaded track is skipped (its gain
/// is taken as neutral): for Plex tracks unless strict normalization is on.
pub fn skips_loudness_analysis(source: Source, strict_mode: bool) -> (r: bool)
    ensures
        r == (source == Source::Plex && !strict_mode),
{
    match source {
        Source::Plex => !strict_mode,
        _ => false,
    }
}

/// Where the loudness gain applied to a local track comes from.
#[derive(Debug, Clone, Copy, PartialEq, Eq, Structural)]
pub enum GainSource {
    /// No adjustment (normalization is off, or the analysis is skipped).
    Neutral,
    /// The gain measured when the track was downloaded ahead.
    Precomputed,
    /// The gain is measured from the downloaded audio now.
    Analyze,
}

/// Which loudness gain a local track plays with: none when normalization is
/// off; the one measured ahead when there is one; otherwise a new analysis,
/// unless it is skipped for the source.
pub fn gain_source(normalize_enabled: bool, has_precomputed: bool, source: Source, strict_mode: bool) -> (r: GainSource)
    ensures
        !normalize_enabled ==> r == GainSource::Neutral,
        normalize_enabled && has_precomputed ==> r == GainSource::Precomputed,
        normalize_enabled && !has_precomputed ==> r == (if source == Source::Plex && !strict_mode {
            GainSource::Neutral
        } else {
            GainSource::Analyze
        }),
{
    if !normalize_enabled {
        GainSource::Neutral
    } else if has_precomputed {
        GainSource::Precomputed
    } else if skips_loudness_analysis(source, strict_mode) {
        GainSource::Neutral
    } else {
        GainSource::Analyze
    }
}

/// Why a stream URL cannot be played by the local player.
pub open spec fn http_url_problem(url: Seq<char>) -> Option<Seq<char>> {
    if SPOTIFY_TRACK_URI_PREFIX@.is_prefix_of(url) {
        Some("Spotify URI is not supported in HTTP playback path"@)
    } else if !"http"@.is_prefix_of(url) {
        Some("Invalid playback URL format. Expected HTTP URL or spotify: URI, got: "@ + url)
    } else {
        None
    }
}

/// Accepts only HTTP(S) stream URLs for local playback.
pub fn check_http_playback_url(url: &str) -> (r: Result<(), String>)
    ensures
        match http_url_problem(url@) {
            Some(m) => (r matches Err(e) && e@ == m),
            None => r is Ok,
        },
{
    if starts_with(url, SPOTIFY_TRACK_URI_PREFIX) {
        return Err(String::from_str("Spotify URI is not supported in HTTP playback path"));
    }
    if !starts_with(url, "http") {
        return Err(concat("Invalid playback URL format. Expected HTTP URL or spotify: URI, got: ", url));
    }
    Ok(())
}

} // verus!
