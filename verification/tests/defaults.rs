use any_player::config::Config;
use any_player::models::{PlaybackState, RepeatMode};
use any_player::state::PersistentPlaybackState;

#[test]
fn test_default_config() {
    let config = Config::default();
    assert_eq!(config.general.log_level, "info");
    assert!(config.general.enable_images);
}

#[test]
fn test_default_persistent_state() {
    let state = PersistentPlaybackState::default();
    assert_eq!(state.current_track, None);
    assert_eq!(state.queue.len(), 0);
    assert_eq!(state.current_index, 0);
    assert_eq!(state.position_ms, 0);
    assert!(!state.shuffle);
    assert_eq!(state.repeat_mode, RepeatMode::Off);
    assert_eq!(state.volume, 50);
    assert_eq!(state.shuffle_order.len(), 0);
    assert_eq!(state.state, PlaybackState::Stopped);
}

#[test]
fn test_token_storage_default() {
    let storage = any_player::config::TokenStorage::default();
    assert!(storage.spotify_token.is_none());
    assert!(storage.jellyfin_api_key.is_none());
}
