use any_player::models::{PlaybackInfo, PlaybackState, RepeatMode, Source, Track};
use any_player::queue::PlaybackQueue;
use any_player::state::PersistentPlaybackState;

fn track(id: &str, with_auth: bool) -> Track {
    Track {
        id: id.to_string(),
        title: format!("Test Track {}", id),
        artist: "Test Artist".to_string(),
        album: "Test Album".to_string(),
        duration_ms: 180000,
        image_url: None,
        source: Source::Jellyfin,
        url: Some(format!("http://example.com/{}", id)),
        bitrate_kbps: None,
        sample_rate_hz: None,
        auth_headers: if with_auth {
            Some(vec![
                ("X-Auth-Token".to_string(), "secret-token-123".to_string()),
                ("X-API-Key".to_string(), "api-key-456".to_string()),
            ])
        } else {
            None
        },
        enriched: false,
    }
}

#[test]
fn sanitized_state_holds_no_credentials() {
    let state = PersistentPlaybackState {
        current_track: Some(track("1", true)),
        queue: vec![track("1", true), track("2", true)],
        current_index: 0,
        position_ms: 5000,
        shuffle: false,
        repeat_mode: RepeatMode::Off,
        volume: 75,
        shuffle_order: vec![],
        state: PlaybackState::Playing,
    };
    let clean = state.sanitized();
    assert!(clean.current_track.as_ref().unwrap().auth_headers.is_none());
    assert!(clean.queue.iter().all(|t| t.auth_headers.is_none()));
    assert_eq!(clean.current_track.as_ref().unwrap().title, "Test Track 1");
    assert_eq!(clean.queue.len(), 2);
    assert_eq!(clean.position_ms, 5000);
    assert_eq!(clean.volume, 75);
    assert_eq!(clean.state, PlaybackState::Playing);
}

#[test]
fn sanitizing_twice_changes_nothing_more() {
    let state = PersistentPlaybackState {
        current_track: Some(track("1", true)),
        queue: vec![track("2", true)],
        ..PersistentPlaybackState::default()
    };
    let once = state.sanitized();
    let twice = once.sanitized();
    assert_eq!(once, twice);
}

#[test]
fn save_then_restore_gives_back_the_session_paused() {
    let mut queue = PlaybackQueue::new();
    queue.add_tracks(vec![track("a", false), track("b", false), track("c", false)]);
    queue.current_index = 1;
    queue.shuffle_order = vec![2, 0, 1];
    let mut info = PlaybackInfo::new();
    info.current_track = Some(track("b", false));
    info.position_ms = 45000;
    info.shuffle = true;
    info.repeat_mode = RepeatMode::All;
    info.volume = 80;
    info.state = PlaybackState::Playing;

    let saved = PersistentPlaybackState::from_playback(&info, &queue);
    assert!(saved.should_restore());

    let mut queue2 = PlaybackQueue::new();
    let mut info2 = PlaybackInfo::new();
    saved.restore_into(&mut queue2, &mut info2);
    assert_eq!(queue2.tracks, queue.tracks);
    assert_eq!(queue2.current_index, 1);
    assert_eq!(queue2.shuffle_order, vec![2, 0, 1]);
    assert_eq!(info2.current_track, info.current_track);
    assert_eq!(info2.position_ms, 45000);
    assert!(info2.shuffle);
    assert_eq!(info2.repeat_mode, RepeatMode::All);
    assert_eq!(info2.volume, 80);
    assert_eq!(info2.state, PlaybackState::Paused);
}

#[test]
fn state_without_current_track_is_not_restored() {
    assert!(!PersistentPlaybackState::default().should_restore());
}
