use any_player::database::{
    next_position, reorder_shift, source_column, union_track_count, update_statement,
    ColumnPreferences, CustomPlaylist, PlaylistTrack, PositionShift, ProviderTrackCounts,
    UnionPlaylistSource,
};
use any_player::models::{Source, Track};
use any_player::database::{fill_union_counts, union_track_count_checked};

fn track(source: Source) -> Track {
    Track {
        id: "t1".to_string(),
        title: "Song 1".to_string(),
        artist: "Artist 1".to_string(),
        album: "Album 1".to_string(),
        duration_ms: 180000,
        image_url: None,
        source,
        url: None,
        bitrate_kbps: None,
        sample_rate_hz: None,
        auth_headers: None,
        enriched: false,
    }
}

fn apply(positions: &mut Vec<i64>, moved: usize, new_position: i64) {
    let shift = reorder_shift(positions[moved], new_position);
    for (i, p) in positions.iter_mut().enumerate() {
        if i == moved {
            continue;
        }
        match shift {
            PositionShift::Unchanged => {}
            PositionShift::Up { after, through } => {
                if *p > after && *p <= through {
                    *p -= 1;
                }
            }
            PositionShift::Down { from, before } => {
                if *p >= from && *p < before {
                    *p += 1;
                }
            }
        }
    }
    positions[moved] = new_position;
}

#[test]
fn rows_store_and_read_back_tracks() {
    let row = PlaylistTrack::for_track(7, "pl", &track(Source::Jellyfin), 3, 1000);
    assert_eq!(row.track_source, "jellyfin");
    assert_eq!(row.position, 3);
    assert_eq!(row.album.as_deref(), Some("Album 1"));
    assert_eq!(row.duration_ms, Some(180000));
    let back = row.to_track();
    assert_eq!(back.id, "t1");
    assert_eq!(back.title, "Song 1");
    assert_eq!(back.source, Source::Jellyfin);
    assert_eq!(back.duration_ms, 180000);
}

#[test]
fn plex_rows_read_back_as_spotify() {
    let row = PlaylistTrack::for_track(1, "pl", &track(Source::Plex), 0, 0);
    assert_eq!(row.track_source, "plex");
    assert_eq!(row.to_track().source, Source::Spotify);
    assert_eq!(source_column(Source::Custom), "custom");
}

#[test]
fn new_rows_go_after_the_last() {
    assert_eq!(next_position(-1), 0);
    assert_eq!(next_position(4), 5);
}

#[test]
fn reorder_shifts() {
    assert_eq!(reorder_shift(2, 2), PositionShift::Unchanged);
    assert_eq!(reorder_shift(0, 2), PositionShift::Up { after: 0, through: 2 });
    assert_eq!(reorder_shift(3, 1), PositionShift::Down { from: 1, before: 3 });
}

#[test]
fn test_reorder_scenario_keeps_positions_dense() {
    let mut positions: Vec<i64> = vec![0, 1, 2, 3, 4];
    apply(&mut positions, 0, 2);
    assert_eq!(positions, vec![2, 0, 1, 3, 4]);
    apply(&mut positions, 4, 0);
    assert_eq!(positions, vec![3, 1, 2, 4, 0]);
    let mut sorted = positions.clone();
    sorted.sort();
    assert_eq!(sorted, vec![0, 1, 2, 3, 4]);
}

#[test]
fn update_statements() {
    assert_eq!(update_statement(false, false, false), None);
    assert_eq!(
        update_statement(true, false, true).unwrap(),
        "UPDATE custom_playlists SET name = ?, image_url = ?, updated_at = ? WHERE id = ?"
    );
    assert_eq!(
        update_statement(false, true, false).unwrap(),
        "UPDATE custom_playlists SET description = ?, updated_at = ? WHERE id = ?"
    );
}

#[test]
fn default_column_preferences() {
    let prefs = ColumnPreferences::default();
    assert_eq!(prefs.columns, vec!["title", "artist", "album", "duration", "source"]);
    assert_eq!(prefs.column_order, vec![0, 1, 2, 3, 4]);
    assert_eq!(prefs.column_widths[0], ("title".to_string(), 300));
    assert_eq!(prefs.column_widths[4], ("source".to_string(), 100));
}

#[test]
fn new_playlist_records() {
    let p = CustomPlaylist::new_record("Mine".to_string(), None, None, 1700, "standard".to_string());
    assert_eq!(p.id.len(), 36);
    assert_eq!(p.track_count, 0);
    assert_eq!(p.created_at, 1700);
    assert_eq!(p.updated_at, 1700);
    let q = CustomPlaylist::new_record("Mine".to_string(), None, None, 1700, "union".to_string());
    assert_ne!(p.id, q.id);
    assert_eq!(q.playlist_type, "union");
}

fn source(kind: &str, id: &str) -> UnionPlaylistSource {
    UnionPlaylistSource {
        id: 1,
        union_playlist_id: "u".to_string(),
        source_type: kind.to_string(),
        source_playlist_id: id.to_string(),
        position: 0,
        added_at: 0,
    }
}

#[test]
fn union_counts_add_up_known_sources() {
    let sources = vec![
        source("Custom", "c1"),
        source("spotify", "s1"),
        source("PLEX", "x1"),
        source("jellyfin", "missing"),
        source("tidal", "t1"),
    ];
    let custom = vec![("c1".to_string(), 4i64)];
    let providers = ProviderTrackCounts {
        spotify: vec![("s1".to_string(), 10), ("s2".to_string(), 99)],
        jellyfin: vec![],
        plex: vec![("x1".to_string(), 7)],
    };
    assert_eq!(union_track_count(&sources, &custom, &providers), 21);
}

#[test]
fn union_counts_report_overflow() {
    let sources = vec![source("spotify", "a"), source("spotify", "b")];
    let providers = ProviderTrackCounts {
        spotify: vec![("a".to_string(), i64::MAX), ("b".to_string(), 1)],
        jellyfin: vec![],
        plex: vec![],
    };
    assert_eq!(union_track_count_checked(&sources, &vec![], &providers), None);
    let fine = ProviderTrackCounts {
        spotify: vec![("a".to_string(), 5), ("b".to_string(), 6), ("a".to_string(), 7)],
        jellyfin: vec![],
        plex: vec![],
    };
    assert_eq!(union_track_count_checked(&sources, &vec![], &fine), Some(13));
}

#[test]
fn new_playlist_ids_are_uuids() {
    let p = CustomPlaylist::new_record("x".to_string(), None, None, 0, "standard".to_string());
    let chars: Vec<char> = p.id.chars().collect();
    assert_eq!(chars.len(), 36);
    for (i, c) in chars.iter().enumerate() {
        if [8, 13, 18, 23].contains(&i) {
            assert_eq!(*c, '-');
        } else {
            assert!(c.is_ascii_hexdigit() && !c.is_ascii_uppercase());
        }
    }
    assert_eq!(chars[14], '4');
}

fn listed(id: &str, kind: &str, count: i64) -> CustomPlaylist {
    CustomPlaylist {
        id: id.to_string(),
        name: format!("List {}", id),
        description: None,
        image_url: None,
        created_at: 1,
        updated_at: 2,
        track_count: count,
        playlist_type: kind.to_string(),
    }
}

#[test]
fn listing_fills_union_counts_and_keeps_the_rest() {
    let mut playlists = vec![
        listed("a", "custom", 3),
        listed("u", "union", 0),
        listed("b", "custom", 9),
        listed("v", "union", 42),
    ];
    let sources = vec![
        vec![],
        vec![source("custom", "a"), source("Spotify", "s1")],
        vec![],
        vec![],
    ];
    let custom = vec![("a".to_string(), 3i64)];
    let providers = ProviderTrackCounts {
        spotify: vec![("s1".to_string(), 10)],
        jellyfin: vec![],
        plex: vec![],
    };
    fill_union_counts(&mut playlists, &sources, &custom, &providers);
    let counts: Vec<(String, i64)> = playlists.iter().map(|p| (p.id.clone(), p.track_count)).collect();
    assert_eq!(
        counts,
        vec![("a".to_string(), 3), ("u".to_string(), 13), ("b".to_string(), 9), ("v".to_string(), 0)]
    );
    assert_eq!(playlists[1].name, "List u");
    assert_eq!(playlists[1].playlist_type, "union");
}
