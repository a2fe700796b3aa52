//! Names of the files the application keeps in its cache directory and in
//! the system's temporary directory, and when old ones are cleaned up.
use crate::ids::{is_uuid_v4_text, new_uuid_v4};
use crate::text::{concat, ends_with, starts_with};
use vstd::prelude::*;

verus! {

/// The cache file of the provider playlist summaries.
pub const PLAYLISTS_CACHE_FILE: &'static str = "playlists_cache.json";

/// The cache file of the custom playlists.
pub const CUSTOM_PLAYLISTS_CACHE_FILE: &'static str = "custom_playlists_cache.json";

/// The name prefix of the cache files of custom playlists' tracks.
pub const CUSTOM_PLAYLIST_TRACKS_CACHE_PREFIX: &'static str = "custom_playlist_tracks_";

/// The name prefix of the cache files of union playlists' tracks.
pub const UNION_PLAYLIST_TRACKS_CACHE_PREFIX: &'static str = "union_playlist_tracks_";

/// The name prefix of the cache files of provider playlist details.
pub const PROVIDER_PLAYLIST_CACHE_PREFIX: &'static str = "provider_playlist_";

/// The cache file of a custom playlist's tracks.
pub fn custom_playlist_tracks_cache_file(playlist_id: &str) -> (r: String)
    ensures
        r@ == "custom_playlist_tracks_"@ + playlist_id@ + ".json"@,
{
    let head = concat(CUSTOM_PLAYLIST_TRACKS_CACHE_PREFIX, playlist_id);
    concat(head.as_str(), ".json")
}

/// The cache file of a union playlist's tracks.
pub fn union_playlist_tracks_cache_file(playlist_id: &str) -> (r: String)
    ensures
        r@ == "union_playlist_tracks_"@ + playlist_id@ + ".json"@,
{
    let head = concat(UNION_PLAYLIST_TRACKS_CACHE_PREFIX, playlist_id);
    concat(head.as_str(), ".json")
}

/// The cache file of a provider playlist's details.
pub fn provider_playlist_cache_file(source: &str, playlist_id: &str) -> (r: String)
    ensures
        r@ == "provider_playlist_"@ + source@ + "_"@ + playlist_id@ + ".json"@,
{
    let a = concat(PROVIDER_PLAYLIST_CACHE_PREFIX, source);
    let b = concat(a.as_str(), "_");
    let c = concat(b.as_str(), playlist_id);
    concat(c.as_str(), ".json")
}

/// Whether a file in the cache directory holds a provider playlist's
/// details (its name has the provider playlist prefix).
pub fn is_provider_playlist_cache_file(file_name: &str) -> (r: bool)
    ensures
        r == "provider_playlist_"@.is_prefix_of(file_name@),
{
    starts_with(file_name, PROVIDER_PLAYLIST_CACHE_PREFIX)
}

/// The cache files among `names` that hold provider playlist details, in
/// order.
pub open spec fn provider_cache_names(names: Seq<String>) -> Seq<String>
    decreases names.len(),
{
    if names.len() == 0 {
        Seq::empty()
    } else {
        let rest = provider_cache_names(names.drop_last());
        if "provider_playlist_"@.is_prefix_of(names.last()@) {
            rest.push(names.last())
        } else {
            rest
        }
    }
}

/// Picks, from the names of the files in the cache directory, the provider
/// playlist caches that clearing them removes.
pub fn provider_cache_files(names: &Vec<String>) -> (r: Vec<String>)
    ensures
        r@ == provider_cache_names(names@),
{
    let mut out: Vec<String> = Vec::new();
    let mut i: usize = 0;
    while i < names.len()
        invariant
            i <= names@.len(),
            out@ == provider_cache_names(names@.subrange(0, i as int)),
        decreases names@.len() - i,
    {
        let ghost pre = names@.subrange(0, i + 1);
        assert(pre.drop_last() =~= names@.subrange(0, i as int));
        if is_provider_playlist_cache_file(names[i].as_str()) {
            out.push(names[i].clone());
        }
        i = i + 1;
    }
    assert(names@.subrange(0, names@.len() as int) =~= names@);
    out
}

/// Downloaded audio older than this (in seconds) is removed.
pub const TEMP_FILE_MAX_AGE_SECONDS: u64 = 3600;

/// The cleanup of old downloaded audio runs at most this often (in seconds).
pub const CLEANUP_INTERVAL_SECONDS: u64 = 300;

/// Whether a file in the temporary directory is downloaded audio of the
/// application.
pub open spec fn is_temp_audio_spec(name: Seq<char>) -> bool {
    "any-player-audio-"@.is_prefix_of(name) && ".mp3"@.is_suffix_of(name)
}

/// Whether a file in the temporary directory is downloaded audio of the
/// application (named `any-player-audio-<id>.mp3`).
pub fn is_temp_audio_file(name: &str) -> (r: bool)
    ensures
        r == is_temp_audio_spec(name@),
{
    starts_with(name, "any-player-audio-") && ends_with(name, ".mp3")
}

/// Whether a cleanup of old downloaded audio is due at `now` (seconds), the
/// last one having run at `last`.
pub fn cleanup_due(now: u64, last: u64) -> (r: bool)
    ensures
        r == (if now >= last {
            now - last >= CLEANUP_INTERVAL_SECONDS
        } else {
            0 >= CLEANUP_INTERVAL_SECONDS
        }),
{
    now.saturating_sub(last) >= CLEANUP_INTERVAL_SECONDS
}

/// Whether a file of the temporary directory, last modified `age_secs`
/// seconds ago, is removed by the cleanup of old downloaded audio.
pub fn is_stale_temp_audio(name: &str, age_secs: u64) -> (r: bool)
    ensures
        r == (is_temp_audio_spec(name@) && age_secs > TEMP_FILE_MAX_AGE_SECONDS),
{
    is_temp_audio_file(name) && age_secs > TEMP_FILE_MAX_AGE_SECONDS
}

/// A fresh name for downloaded audio: `any-player-audio-<random id>.mp3`.
/// Every such name is one the cleanups recognise.
pub fn new_temp_audio_file_name() -> (r: String)
    ensures
        is_temp_audio_spec(r@),
        exists|id: Seq<char>| is_uuid_v4_text(id) && r@ == "any-player-audio-"@ + id + ".mp3"@,
{
    let id = new_uuid_v4();
    let head = concat("any-player-audio-", id.as_str());
    let name = concat(head.as_str(), ".mp3");
    assert("any-player-audio-"@.is_prefix_of(name@)) by {
        assert(name@.subrange(0, "any-player-audio-"@.len() as int) =~= "any-player-audio-"@);
    }
    assert(".mp3"@.is_suffix_of(name@)) by {
        assert(name@.subrange(name@.len() - ".mp3"@.len(), name@.len() as int) =~= ".mp3"@);
    }
    name
}

} // verus!
