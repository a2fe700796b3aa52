use any_player::models::{Source, Track};
use any_player::preload::{
    check_http_playback_url, gain_source, preload_key, preload_keys, preload_size_ok,
    should_preload, skips_loudness_analysis, GainSource, MAX_PRELOAD_BYTES,
};

fn track(id: &str, source: Source, url: Option<&str>) -> Track {
    Track {
        id: id.to_string(),
        title: id.to_string(),
        artist: "A".to_string(),
        album: "B".to_string(),
        duration_ms: 1,
        image_url: None,
        source,
        url: url.map(|u| u.to_string()),
        bitrate_kbps: None,
        sample_rate_hz: None,
        auth_headers: None,
        enriched: false,
    }
}

#[test]
fn preload_keys_name_source_and_id() {
    assert_eq!(preload_key(&track("42", Source::Jellyfin, None)), "jellyfin:42");
    let keys = preload_keys(&vec![track("a", Source::Plex, None), track("b", Source::Spotify, None)]);
    assert_eq!(keys, vec!["plex:a", "spotify:b"]);
}

#[test]
fn only_http_tracks_not_yet_cached_are_preloaded() {
    assert!(should_preload(&track("a", Source::Jellyfin, Some("http://x/a")), false));
    assert!(!should_preload(&track("a", Source::Jellyfin, Some("http://x/a")), true));
    assert!(!should_preload(&track("a", Source::Spotify, Some("spotify:track:a")), false));
    assert!(!should_preload(&track("a", Source::Plex, None), false));
}

#[test]
fn oversized_downloads_are_skipped() {
    assert!(preload_size_ok(None));
    assert!(preload_size_ok(Some(MAX_PRELOAD_BYTES)));
    assert!(!preload_size_ok(Some(50 * 1024 * 1024 + 1)));
}

#[test]
fn loudness_gain_sources() {
    assert!(skips_loudness_analysis(Source::Plex, false));
    assert!(!skips_loudness_analysis(Source::Plex, true));
    assert_eq!(gain_source(false, true, Source::Jellyfin, true), GainSource::Neutral);
    assert_eq!(gain_source(true, true, Source::Plex, false), GainSource::Precomputed);
    assert_eq!(gain_source(true, false, Source::Plex, false), GainSource::Neutral);
    assert_eq!(gain_source(true, false, Source::Jellyfin, false), GainSource::Analyze);
}

#[test]
fn local_player_accepts_only_http_urls() {
    assert!(check_http_playback_url("https://server/a.mp3").is_ok());
    assert_eq!(
        check_http_playback_url("spotify:track:1").unwrap_err(),
        "Spotify URI is not supported in HTTP playback path"
    );
    assert_eq!(
        check_http_playback_url("file:///tmp/a.mp3").unwrap_err(),
        "Invalid playback URL format. Expected HTTP URL or spotify: URI, got: file:///tmp/a.mp3"
    );
}
