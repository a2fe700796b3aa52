use any_player::models::{PlaybackInfo, PlaybackState, RepeatMode, Source, Track};
use any_player::playback::{
    apply_shuffle_toggle, clamp_volume, clear_current, connect_poll_update, connect_volume_percent,
    enrichment_indices, find_order_position, find_track_index, http_track_finished,
    lookahead_indices, monitor_tick, pause_clock_step, playback_elapsed_ms,
    position_queue_at_track, select_for_enrichment, snapshot_info, start_track, toggled_state,
    PauseClock,
};
use any_player::queue::PlaybackQueue;

fn track(id: &str, url: Option<&str>) -> Track {
    Track {
        id: id.to_string(),
        title: id.to_string(),
        artist: "Artist".to_string(),
        album: "Album".to_string(),
        duration_ms: 200000,
        image_url: None,
        source: Source::Jellyfin,
        url: url.map(|u| u.to_string()),
        bitrate_kbps: None,
        sample_rate_hz: None,
        auth_headers: None,
        enriched: false,
    }
}

fn queue_of(ids: &[&str]) -> PlaybackQueue {
    let mut q = PlaybackQueue::new();
    q.add_tracks(ids.iter().map(|i| track(i, None)).collect());
    q
}

#[test]
fn toggling_plays_or_pauses() {
    assert_eq!(toggled_state(PlaybackState::Playing), PlaybackState::Paused);
    assert_eq!(toggled_state(PlaybackState::Paused), PlaybackState::Playing);
    assert_eq!(toggled_state(PlaybackState::Stopped), PlaybackState::Playing);
}

#[test]
fn volume_is_limited_to_one_hundred() {
    assert_eq!(clamp_volume(42), 42);
    assert_eq!(clamp_volume(100), 100);
    assert_eq!(clamp_volume(250), 100);
    assert_eq!(connect_volume_percent(77), 77u8);
    assert_eq!(connect_volume_percent(4000), 100u8);
}

#[test]
fn connect_poll_reads_progress_and_state() {
    let out = connect_poll_update(false, 10, Some(5000), true, Some(180000));
    assert_eq!(out.position_ms, 5000);
    assert_eq!(out.state, PlaybackState::Playing);
    assert_eq!(out.track_duration_ms, Some(180000));
    assert!(!out.track_completed);
    assert!(out.was_playing);
}

#[test]
fn connect_poll_signals_completion_at_track_end_once() {
    let first = connect_poll_update(true, 0, Some(179000), false, Some(180000));
    assert!(first.track_completed);
    assert_eq!(first.state, PlaybackState::Paused);
    let second = connect_poll_update(first.was_playing, first.position_ms, Some(179000), false, Some(180000));
    assert!(!second.track_completed);
}

#[test]
fn connect_pause_mid_track_is_not_completion() {
    let out = connect_poll_update(true, 0, Some(60000), false, Some(180000));
    assert!(!out.track_completed);
}

#[test]
fn connect_poll_without_progress_keeps_position() {
    let out = connect_poll_update(false, 1234, None, false, None);
    assert_eq!(out.position_ms, 1234);
    assert_eq!(out.track_duration_ms, None);
    let negative = connect_poll_update(false, 1234, Some(-5), false, Some(0));
    assert_eq!(negative.position_ms, 0);
    assert_eq!(negative.track_duration_ms, None);
}

#[test]
fn pause_clock_accumulates_pauses() {
    let clock = PauseClock { paused_at_ms: None, accumulated_pause_ms: 0 };
    assert_eq!(playback_elapsed_ms(clock, 1000, 0), 1000);
    let paused = pause_clock_step(clock, true, 1000);
    assert_eq!(paused.paused_at_ms, Some(1000));
    assert_eq!(playback_elapsed_ms(paused, 1500, 0), 1000);
    assert_eq!(playback_elapsed_ms(paused, 4000, 0), 1000);
    let resumed = pause_clock_step(paused, false, 4000);
    assert_eq!(resumed.paused_at_ms, None);
    assert_eq!(resumed.accumulated_pause_ms, 3000);
    assert_eq!(playback_elapsed_ms(resumed, 5000, 250), 2250);
}

#[test]
fn http_track_finishes_at_its_duration() {
    assert!(http_track_finished(180000, 180000));
    assert!(!http_track_finished(179999, 180000));
    assert!(!http_track_finished(10, 0));
}

#[test]
fn monitor_tick_states() {
    let t = monitor_tick(PlaybackState::Playing, true, false);
    assert_eq!(t.state, PlaybackState::Paused);
    assert!(!t.track_completed);
    let t = monitor_tick(PlaybackState::Paused, false, false);
    assert_eq!(t.state, PlaybackState::Playing);
    let t = monitor_tick(PlaybackState::Playing, false, true);
    assert_eq!(t.state, PlaybackState::Stopped);
    assert!(t.track_completed);
}

#[test]
fn finding_tracks_and_positions() {
    let tracks = vec![track("a", None), track("b", None), track("b", None)];
    assert_eq!(find_track_index(&tracks, "b"), Some(1));
    assert_eq!(find_track_index(&tracks, "z"), None);
    assert_eq!(find_order_position(&vec![2, 1, 1], 1), Some(1));
    assert_eq!(find_order_position(&vec![2, 1], 0), None);
}

#[test]
fn played_track_moves_the_queue_position() {
    let mut q = queue_of(&["a", "b", "c"]);
    assert_eq!(position_queue_at_track(&mut q, "c", false), Some(2));
    assert_eq!(q.current_index, 2);
    q.shuffle_order = vec![2, 0, 1];
    assert_eq!(position_queue_at_track(&mut q, "a", true), Some(1));
    assert_eq!(q.current_index, 1);
    assert_eq!(position_queue_at_track(&mut q, "zz", true), None);
    assert_eq!(q.current_index, 1);
}

#[test]
fn lookahead_follows_play_order() {
    let mut q = queue_of(&["a", "b", "c", "d"]);
    q.current_index = 1;
    assert_eq!(lookahead_indices(&q, false), vec![2, 3]);
    q.shuffle_order = vec![3, 1, 0, 2];
    assert_eq!(lookahead_indices(&q, true), vec![0, 2]);
}

#[test]
fn lookahead_is_at_most_ten_tracks() {
    let ids: Vec<String> = (0..30).map(|i| i.to_string()).collect();
    let refs: Vec<&str> = ids.iter().map(|s| s.as_str()).collect();
    let q = queue_of(&refs);
    assert_eq!(lookahead_indices(&q, false), (1..=10).collect::<Vec<usize>>());
}

#[test]
fn enrichment_wraps_around_the_queue() {
    assert_eq!(enrichment_indices(3, 5, &vec![]), vec![4, 0, 1, 2]);
    assert_eq!(enrichment_indices(0, 3, &vec![2, 0, 1]), vec![0, 1]);
    assert_eq!(enrichment_indices(0, 1, &vec![]), Vec::<usize>::new());
    assert_eq!(enrichment_indices(0, 50, &vec![]).len(), 10);
}

#[test]
fn enrichment_skips_tracks_with_urls() {
    let tracks = vec![track("a", Some("u")), track("b", None), track("c", None)];
    assert_eq!(select_for_enrichment(&tracks, &vec![0, 2, 7, 1]), vec![2, 1]);
}

#[test]
fn shuffle_toggle_resets_position() {
    let mut q = queue_of(&["a", "b", "c"]);
    q.current_index = 2;
    apply_shuffle_toggle(&mut q, true);
    assert_eq!(q.current_index, 0);
    let mut order = q.shuffle_order.clone();
    order.sort();
    assert_eq!(order, vec![0, 1, 2]);
    apply_shuffle_toggle(&mut q, false);
    assert!(q.shuffle_order.is_empty());
    assert_eq!(q.current_index, 0);
}

#[test]
fn snapshot_copies_queue_state() {
    let mut q = queue_of(&["a", "b"]);
    q.current_index = 1;
    q.shuffle_order = vec![1, 0];
    let mut info = PlaybackInfo::new();
    info.volume = 80;
    info.repeat_mode = RepeatMode::One;
    let snap = snapshot_info(&info, &q);
    assert_eq!(snap.queue.len(), 2);
    assert_eq!(snap.current_index, 1);
    assert_eq!(snap.shuffle_order, vec![1, 0]);
    assert_eq!(snap.volume, 80);
    assert_eq!(snap.repeat_mode, RepeatMode::One);
}

#[test]
fn starting_and_clearing_the_current_track() {
    let mut info = PlaybackInfo::new();
    info.position_ms = 999;
    start_track(&mut info, track("a", None));
    assert_eq!(info.state, PlaybackState::Playing);
    assert_eq!(info.position_ms, 0);
    assert_eq!(info.current_track.as_ref().unwrap().id, "a");
    clear_current(&mut info);
    assert!(info.current_track.is_none());
    assert_eq!(info.state, PlaybackState::Stopped);
}
