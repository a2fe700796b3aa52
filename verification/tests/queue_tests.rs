use any_player::models::{Source, Track};
use any_player::queue::PlaybackQueue;

fn track(id: &str) -> Track {
    Track {
        id: id.to_string(),
        title: format!("Song {}", id),
        artist: "Artist".to_string(),
        album: "Album".to_string(),
        duration_ms: 180000,
        image_url: None,
        source: Source::Jellyfin,
        url: None,
        bitrate_kbps: None,
        sample_rate_hz: None,
        auth_headers: None,
        enriched: false,
    }
}

fn queue_of(ids: &[&str]) -> PlaybackQueue {
    let mut q = PlaybackQueue::new();
    q.add_tracks(ids.iter().map(|i| track(i)).collect());
    q
}

#[test]
fn new_queue_is_empty() {
    let q = PlaybackQueue::new();
    assert!(q.is_empty());
    assert_eq!(q.len(), 0);
    assert_eq!(q.current_index, 0);
    assert!(q.current_track().is_none());
}

#[test]
fn next_and_previous_walk_in_queue_order() {
    let mut q = queue_of(&["a", "b", "c"]);
    assert_eq!(q.current_track().unwrap().id, "a");
    assert_eq!(q.next_track().unwrap().id, "b");
    assert_eq!(q.next_track().unwrap().id, "c");
    assert!(q.next_track().is_none());
    assert_eq!(q.current_index, 2);
    assert_eq!(q.previous().unwrap().id, "b");
    assert_eq!(q.previous().unwrap().id, "a");
    assert!(q.previous().is_none());
    assert_eq!(q.current_index, 0);
}

#[test]
fn next_then_previous_returns_to_the_same_track() {
    let mut q = queue_of(&["a", "b", "c"]);
    q.current_index = 1;
    q.next_track();
    q.previous();
    assert_eq!(q.current_index, 1);
    assert_eq!(q.current_track().unwrap().id, "b");
}

#[test]
fn clear_empties_everything() {
    let mut q = queue_of(&["a", "b"]);
    q.current_index = 1;
    q.shuffle_order = vec![1, 0];
    q.clear();
    assert!(q.is_empty());
    assert_eq!(q.current_index, 0);
    assert!(q.shuffle_order.is_empty());
}

#[test]
fn add_track_appends_and_keeps_position() {
    let mut q = queue_of(&["a", "b"]);
    q.current_index = 1;
    q.add_track(track("c"));
    assert_eq!(q.len(), 3);
    assert_eq!(q.current_track().unwrap().id, "b");
    assert_eq!(q.tracks[2].id, "c");
}

#[test]
fn shuffle_order_is_a_permutation_of_all_indices() {
    let mut q = queue_of(&["a", "b", "c", "d", "e", "f", "g"]);
    q.generate_shuffle_order();
    let mut order = q.shuffle_order.clone();
    order.sort();
    assert_eq!(order, vec![0, 1, 2, 3, 4, 5, 6]);
}

#[test]
fn shuffle_order_of_empty_queue_is_empty() {
    let mut q = PlaybackQueue::new();
    q.shuffle_order = vec![3, 1];
    q.generate_shuffle_order();
    assert!(q.shuffle_order.is_empty());
}

#[test]
fn shuffle_order_keep_first_starts_with_first_track() {
    for _ in 0..20 {
        let mut q = queue_of(&["a", "b", "c", "d", "e"]);
        q.generate_shuffle_order_keep_first();
        assert_eq!(q.shuffle_order[0], 0);
        let mut order = q.shuffle_order.clone();
        order.sort();
        assert_eq!(order, vec![0, 1, 2, 3, 4]);
    }
}

#[test]
fn shuffle_order_keep_first_single_track() {
    let mut q = queue_of(&["a"]);
    q.generate_shuffle_order_keep_first();
    assert_eq!(q.shuffle_order, vec![0]);
}

#[test]
fn shuffled_walk_follows_the_order() {
    let mut q = queue_of(&["a", "b", "c"]);
    q.shuffle_order = vec![2, 0, 1];
    assert_eq!(q.current_track_shuffled(true).unwrap().id, "c");
    assert_eq!(q.current_track_shuffled(false).unwrap().id, "a");
    assert_eq!(q.next_track_shuffled(true).unwrap().id, "a");
    assert_eq!(q.next_track_shuffled(true).unwrap().id, "b");
    assert!(q.next_track_shuffled(true).is_none());
    assert_eq!(q.current_index, 2);
    assert_eq!(q.previous_shuffled(true).unwrap().id, "a");
    assert_eq!(q.previous_shuffled(true).unwrap().id, "c");
    assert!(q.previous_shuffled(true).is_none());
}

#[test]
fn shuffled_walk_plays_every_track_once() {
    let mut q = queue_of(&["a", "b", "c", "d", "e", "f"]);
    q.generate_shuffle_order();
    let mut seen = vec![q.current_track_shuffled(true).unwrap().id.clone()];
    while let Some(t) = q.next_track_shuffled(true) {
        seen.push(t.id.clone());
    }
    seen.sort();
    assert_eq!(seen, vec!["a", "b", "c", "d", "e", "f"]);
}

#[test]
fn shuffle_disabled_ignores_the_order() {
    let mut q = queue_of(&["a", "b", "c"]);
    q.shuffle_order = vec![2, 1, 0];
    assert_eq!(q.next_track_shuffled(false).unwrap().id, "b");
    assert_eq!(q.previous_shuffled(false).unwrap().id, "a");
}

#[test]
fn clear_shuffle_order_keeps_tracks_and_position() {
    let mut q = queue_of(&["a", "b", "c"]);
    q.shuffle_order = vec![2, 1, 0];
    q.current_index = 2;
    q.clear_shuffle_order();
    assert!(q.shuffle_order.is_empty());
    assert_eq!(q.current_index, 2);
    assert_eq!(q.len(), 3);
}

#[test]
fn skip_to_queue_index_moves_past_the_current_track() {
    let mut q = queue_of(&["a", "b", "c", "d"]);
    assert_eq!(q.skip_to_queue_index(1, false).unwrap().id, "c");
    assert_eq!(q.current_index, 2);
    assert!(q.skip_to_queue_index(1, false).is_none());
    assert_eq!(q.current_index, 2);
}

#[test]
fn skip_to_queue_index_in_shuffle_mode() {
    let mut q = queue_of(&["a", "b", "c", "d"]);
    q.shuffle_order = vec![3, 2, 1, 0];
    assert_eq!(q.skip_to_queue_index(0, true).unwrap().id, "c");
    assert_eq!(q.current_index, 1);
    assert_eq!(q.skip_to_queue_index(1, true).unwrap().id, "a");
    assert!(q.skip_to_queue_index(0, true).is_none());
}

#[test]
fn skip_equals_repeated_next() {
    let mut a = queue_of(&["a", "b", "c", "d", "e"]);
    let mut b = queue_of(&["a", "b", "c", "d", "e"]);
    a.skip_to_queue_index(2, false);
    for _ in 0..3 {
        b.next_track();
    }
    assert_eq!(a.current_index, b.current_index);
}

#[test]
fn shuffle_actually_rearranges() {
    let mut rearranged = false;
    for _ in 0..10 {
        let mut q = queue_of(&["a", "b", "c", "d", "e", "f", "g", "h"]);
        q.generate_shuffle_order();
        if q.shuffle_order != (0..8).collect::<Vec<usize>>() {
            rearranged = true;
        }
    }
    assert!(rearranged);
}
