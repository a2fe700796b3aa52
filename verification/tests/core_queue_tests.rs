use any_player::core_playback::PlaybackQueue;
use any_player::models::{Source, Track};
use any_player::core_playback::PlaybackManager;
use any_player::models::{PlaybackState, RepeatMode};

fn track(id: &str) -> Track {
    Track {
        id: id.to_string(),
        title: id.to_string(),
        artist: "Artist".to_string(),
        album: "Album".to_string(),
        duration_ms: 1000,
        image_url: None,
        source: Source::Spotify,
        url: None,
        bitrate_kbps: None,
        sample_rate_hz: None,
        auth_headers: None,
        enriched: false,
    }
}

#[test]
fn cli_queue_walks_forward_and_back() {
    let mut q = PlaybackQueue::new();
    assert!(q.is_empty());
    q.add_tracks(vec![track("a"), track("b")]);
    q.add_track(track("c"));
    assert_eq!(q.len(), 3);
    assert_eq!(q.current_track().unwrap().id, "a");
    assert_eq!(q.next().unwrap().id, "b");
    assert_eq!(q.next().unwrap().id, "c");
    assert!(q.next().is_none());
    assert_eq!(q.previous().unwrap().id, "b");
    q.clear();
    assert!(q.is_empty());
    assert!(q.current_track().is_none());
}

#[test]
fn cli_manager_tracks_queue_and_status() {
    let mut m = PlaybackManager::new();
    assert_eq!(m.info.volume, 50);
    m.queue_tracks(vec![track("a"), track("b")]);
    m.queue_track(track("c"));
    assert_eq!(m.queue_length(), 3);
    assert_eq!(m.current_track().unwrap().id, "a");
    m.info.position_ms = 500;
    assert_eq!(m.next_track().unwrap().id, "b");
    assert_eq!(m.info.current_track.as_ref().unwrap().id, "b");
    assert_eq!(m.info.position_ms, 0);
    assert_eq!(m.previous_track().unwrap().id, "a");
    assert!(m.previous_track().is_none());
    m.toggle_play_pause();
    assert_eq!(m.info.state, PlaybackState::Playing);
    m.toggle_play_pause();
    assert_eq!(m.info.state, PlaybackState::Paused);
    m.play();
    assert_eq!(m.info.state, PlaybackState::Playing);
    m.pause();
    assert_eq!(m.info.state, PlaybackState::Paused);
    m.seek(1234);
    assert_eq!(m.info.position_ms, 1234);
    m.set_volume(180);
    assert_eq!(m.info.volume, 100);
    m.toggle_shuffle();
    assert!(m.info.shuffle);
    m.set_repeat_mode(RepeatMode::One);
    assert_eq!(m.info.repeat_mode, RepeatMode::One);
    m.clear_queue();
    assert_eq!(m.queue_length(), 0);
    assert_eq!(m.info.state, PlaybackState::Stopped);
    assert!(m.info.current_track.is_none());
}
