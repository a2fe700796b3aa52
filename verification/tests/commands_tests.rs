use any_player::commands::{
    first_play_index, parse_repeat_mode, parse_source, playback_status, provider_source_from_str,
    repeat_label, source_key, state_label, to_playlist_info, to_playlist_response, to_track_info,
    track_from_info, track_source_from_label, TrackInfo,
};
use any_player::models::{PlaybackInfo, PlaybackState, Playlist, RepeatMode, Source, Track};

fn track(id: &str, source: Source) -> Track {
    Track {
        id: id.to_string(),
        title: format!("Title {}", id),
        artist: "Artist".to_string(),
        album: "Album".to_string(),
        duration_ms: 1000,
        image_url: Some("http://img".to_string()),
        source,
        url: Some(format!("http://stream/{}", id)),
        bitrate_kbps: None,
        sample_rate_hz: None,
        auth_headers: None,
        enriched: false,
    }
}

#[test]
fn parse_source_ignores_case() {
    assert_eq!(parse_source("Spotify").unwrap(), Source::Spotify);
    assert_eq!(parse_source("JELLYFIN").unwrap(), Source::Jellyfin);
    assert_eq!(parse_source("plex").unwrap(), Source::Plex);
    assert_eq!(parse_source("Custom").unwrap(), Source::Custom);
}

#[test]
fn parse_source_rejects_unknown_labels() {
    let err = parse_source("Tidal").unwrap_err();
    assert_eq!(
        err,
        "Unknown source: 'Tidal'. Supported sources are: spotify, jellyfin, plex, custom"
    );
}

#[test]
fn provider_source_excludes_custom() {
    assert_eq!(provider_source_from_str("SPOTIFY"), Some(Source::Spotify));
    assert_eq!(provider_source_from_str("Plex"), Some(Source::Plex));
    assert_eq!(provider_source_from_str("custom"), None);
    assert_eq!(provider_source_from_str("other"), None);
}

#[test]
fn track_source_defaults_to_custom() {
    assert_eq!(track_source_from_label("Jellyfin"), Source::Jellyfin);
    assert_eq!(track_source_from_label("youtube"), Source::Custom);
}

#[test]
fn source_keys_are_lower_case_names() {
    assert_eq!(source_key(Source::Spotify), "spotify");
    assert_eq!(source_key(Source::Jellyfin), "jellyfin");
    assert_eq!(source_key(Source::Plex), "plex");
    assert_eq!(source_key(Source::Custom), "custom");
}

#[test]
fn repeat_modes_parse_exactly() {
    assert_eq!(parse_repeat_mode("off").unwrap(), RepeatMode::Off);
    assert_eq!(parse_repeat_mode("one").unwrap(), RepeatMode::One);
    assert_eq!(parse_repeat_mode("all").unwrap(), RepeatMode::All);
    assert_eq!(parse_repeat_mode("All").unwrap_err(), "Invalid repeat mode");
}

#[test]
fn labels_round_trip_with_parsing() {
    for mode in [RepeatMode::Off, RepeatMode::One, RepeatMode::All] {
        assert_eq!(parse_repeat_mode(&repeat_label(mode)).unwrap(), mode);
    }
    assert_eq!(state_label(PlaybackState::Playing), "playing");
    assert_eq!(state_label(PlaybackState::Paused), "paused");
    assert_eq!(state_label(PlaybackState::Stopped), "stopped");
}

#[test]
fn track_info_carries_the_track() {
    let info = to_track_info(track("x", Source::Spotify), "spotify");
    assert_eq!(info.id, "x");
    assert_eq!(info.title, "Title x");
    assert_eq!(info.duration, 1000);
    assert_eq!(info.source, "spotify");
    assert_eq!(info.url.as_deref(), Some("http://stream/x"));
    assert_eq!(info.image_url.as_deref(), Some("http://img"));
}

#[test]
fn playlist_info_and_response() {
    let playlist = Playlist {
        id: "p".to_string(),
        name: "Mix".to_string(),
        description: None,
        owner: "me".to_string(),
        image_url: None,
        track_count: 99,
        tracks: vec![track("a", Source::Plex), track("b", Source::Plex)],
        source: Source::Plex,
    };
    let info = to_playlist_info(playlist.clone(), "plex", 7);
    assert_eq!(info.track_count, 7);
    assert_eq!(info.owner, "me");
    assert_eq!(info.source, "plex");
    let response = to_playlist_response(playlist, "plex");
    assert_eq!(response.track_count, 2);
    assert_eq!(response.tracks.len(), 2);
    assert_eq!(response.tracks[1].id, "b");
}

#[test]
fn first_play_index_uses_a_valid_first_shuffle_entry() {
    assert_eq!(first_play_index(&vec![2, 0, 1], 3), 2);
    assert_eq!(first_play_index(&vec![5, 0, 1], 3), 0);
    assert_eq!(first_play_index(&vec![], 3), 0);
}

#[test]
fn track_from_frontend_record() {
    let info = TrackInfo {
        id: "t".to_string(),
        title: "T".to_string(),
        artist: "A".to_string(),
        album: "B".to_string(),
        duration: 42,
        source: "JellyFin".to_string(),
        url: None,
        image_url: Some("i".to_string()),
        bitrate_kbps: Some(320),
        sample_rate_hz: None,
    };
    let headers = Some(vec![("X".to_string(), "y".to_string())]);
    let t = track_from_info(info, headers.clone());
    assert_eq!(t.source, Source::Jellyfin);
    assert_eq!(t.duration_ms, 42);
    assert_eq!(t.auth_headers, headers);
    assert_eq!(t.image_url.as_deref(), Some("i"));
}

#[test]
fn playback_status_lists_upcoming_tracks() {
    let mut info = PlaybackInfo::new();
    info.queue = vec![track("a", Source::Jellyfin), track("b", Source::Jellyfin), track("c", Source::Spotify)];
    info.current_index = 0;
    info.current_track = Some(track("a", Source::Jellyfin));
    info.state = PlaybackState::Playing;
    info.repeat_mode = RepeatMode::All;
    let status = playback_status(&info);
    assert_eq!(status.state, "playing");
    assert_eq!(status.repeat_mode, "all");
    assert_eq!(status.duration, 1000);
    assert_eq!(status.current_track.as_ref().unwrap().source, "jellyfin");
    let ids: Vec<&str> = status.queue.iter().map(|t| t.id.as_str()).collect();
    assert_eq!(ids, vec!["b", "c"]);
    assert_eq!(status.queue[1].source, "spotify");
}

#[test]
fn playback_status_in_shuffle_mode_follows_the_order() {
    let mut info = PlaybackInfo::new();
    info.queue = vec![track("a", Source::Plex), track("b", Source::Plex), track("c", Source::Plex)];
    info.shuffle = true;
    info.shuffle_order = vec![1, 2, 0];
    info.current_index = 0;
    let status = playback_status(&info);
    assert!(status.current_track.is_none());
    assert_eq!(status.duration, 0);
    let ids: Vec<&str> = status.queue.iter().map(|t| t.id.as_str()).collect();
    assert_eq!(ids, vec!["c", "a"]);
}

#[test]
fn skipping_plays_the_displayed_entry() {
    use_skip_scenario(false);
    use_skip_scenario(true);
}

fn use_skip_scenario(shuffle: bool) {
    let mut queue = any_player::queue::PlaybackQueue::new();
    queue.add_tracks(vec![
        track("a", Source::Plex),
        track("b", Source::Plex),
        track("c", Source::Plex),
        track("d", Source::Plex),
    ]);
    if shuffle {
        queue.shuffle_order = vec![2, 0, 3, 1];
    }
    let mut info = PlaybackInfo::new();
    info.shuffle = shuffle;
    info.queue = queue.tracks.clone();
    info.shuffle_order = queue.shuffle_order.clone();
    info.current_index = queue.current_index;
    let shown = playback_status(&info).queue;
    for k in 0..shown.len() {
        let mut q = any_player::queue::PlaybackQueue::new();
        q.add_tracks(queue.tracks.clone());
        q.shuffle_order = queue.shuffle_order.clone();
        let played = q.skip_to_queue_index(k, shuffle).unwrap().id.clone();
        assert_eq!(played, shown[k].id);
    }
}
