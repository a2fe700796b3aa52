//! Records of the local playlist database and the decisions its operations
//! take: how rows map to tracks, where a new row goes, and how positions
//! shift when a row moves or leaves.
use crate::models::{copy_opt_string, opt_view, Source, Track, TrackView};
use crate::commands::source_from_label;
use crate::ids::{is_uuid_v4_text, new_uuid_v4};
use crate::text::{
    concat, eq_ignore_ascii_case, eq_ignore_ascii_case_spec, lowercase_of, text_eq, to_lowercase,
};
use crate::commands::source_from_lowercase;
use vstd::prelude::*;
use vstd::string::*;

verus! {

/// A playlist kept in the local database ("standard" or "union").
#[derive(Debug, Clone)]
pub struct CustomPlaylist {
    pub id: String,
    pub name: String,
    pub description: Option<String>,
    pub image_url: Option<String>,
    pub created_at: i64,
    pub updated_at: i64,
    pub track_count: i64,
    pub playlist_type: String,
}

/// One source playlist of a union playlist.
#[derive(Debug, Clone)]
pub struct UnionPlaylistSource {
    pub id: i64,
    pub union_playlist_id: String,
    pub source_type: String,
    pub source_playlist_id: String,
    pub position: i64,
    pub added_at: i64,
}

/// A track stored in a custom playlist, with cached metadata.
#[derive(Debug, Clone)]
pub struct PlaylistTrack {
    pub id: i64,
    pub playlist_id: String,
    pub track_source: String,
    pub track_id: String,
    pub position: i64,
    pub added_at: i64,
    pub title: String,
    pub artist: String,
    pub album: Option<String>,
    pub duration_ms: Option<i64>,
    pub image_url: Option<String>,
}

impl CustomPlaylist {
    /// The record of a newly created playlist: a fresh random id, created and
    /// updated `now`, no tracks yet.
    pub fn new_record(
        name: String,
        description: Option<String>,
        image_url: Option<String>,
        now: i64,
        playlist_type: String,
    ) -> (r: CustomPlaylist)
        ensures
            is_uuid_v4_text(r.id@),
            r.name == name,
            r.description == description,
            r.image_url == image_url,
            r.created_at == now,
            r.updated_at == now,
            r.track_count == 0,
            r.playlist_type == playlist_type,
    {
        CustomPlaylist {
            id: new_uuid_v4(),
            name,
            description,
            image_url,
            created_at: now,
            updated_at: now,
            track_count: 0,
            playlist_type,
        }
    }
}

/// The source a stored source column names; unknown columns read as Spotify.
pub open spec fn source_of_column(column: Seq<char>) -> Source {
    if column == "spotify"@ {
        Source::Spotify
    } else if column == "jellyfin"@ {
        Source::Jellyfin
    } else if column == "custom"@ {
        Source::Custom
    } else {
        Source::Spotify
    }
}

/// The source column stored for a track of a source.
pub open spec fn column_of_source(source: Source) -> Seq<char> {
    match source {
        Source::Spotify => "spotify"@,
        Source::Jellyfin => "jellyfin"@,
        Source::Plex => "plex"@,
        Source::Custom => "custom"@,
    }
}

/// The source column stored for a track of a source.
pub fn source_column(source: Source) -> (r: &'static str)
    ensures
        r@ == column_of_source(source),
{
    match source {
        Source::Spotify => "spotify",
        Source::Jellyfin => "jellyfin",
        Source::Plex => "plex",
        Source::Custom => "custom",
    }
}

/// The track a stored row describes, from its cached metadata.
pub open spec fn row_track(row: PlaylistTrack) -> TrackView {
    TrackView {
        id: row.track_id@,
        title: row.title@,
        artist: row.artist@,
        album: match row.album {
            Some(a) => a@,
            None => Seq::<char>::empty(),
        },
        duration_ms: match row.duration_ms {
            Some(d) => d as u64,
            None => 0u64,
        },
        image_url: opt_view(row.image_url),
        source: source_of_column(row.track_source@),
        url: None,
        bitrate_kbps: None,
        sample_rate_hz: None,
        auth_headers: None,
        enriched: false,
    }
}

impl PlaylistTrack {
    /// The track a stored row describes, from its cached metadata; it has no
    /// stream URL and no credentials.
    pub fn to_track(&self) -> (r: Track)
        ensures
            r.id@ == self.track_id@,
            r.title@ == self.title@,
            r.artist@ == self.artist@,
            r.album@ == (match self.album {
                Some(a) => a@,
                None => Seq::<char>::empty(),
            }),
            r.duration_ms == (match self.duration_ms {
                Some(d) => d as u64,
                None => 0u64,
            }),
            opt_view(r.image_url) == opt_view(self.image_url),
            r.source == source_of_column(self.track_source@),
            r.url is None,
            r.auth_headers is None,
            r@ == row_track(*self),
    {
        let source = if text_eq(self.track_source.as_str(), "spotify") {
            Source::Spotify
        } else if text_eq(self.track_source.as_str(), "jellyfin") {
            Source::Jellyfin
        } else if text_eq(self.track_source.as_str(), "custom") {
            Source::Custom
        } else {
            Source::Spotify
        };
        let album = match &self.album {
            Some(a) => a.clone(),
            None => String::new(),
        };
        let duration_ms: u64 = match self.duration_ms {
            Some(d) => d as u64,
            None => 0,
        };
        Track {
            id: self.track_id.clone(),
            title: self.title.clone(),
            artist: self.artist.clone(),
            album,
            duration_ms,
            image_url: copy_opt_string(&self.image_url),
            source,
            url: None,
            bitrate_kbps: None,
            sample_rate_hz: None,
            auth_headers: None,
            enriched: false,
        }
    }

    /// The row stored when a track is added to a playlist at a position.
    pub fn for_track(id: i64, playlist_id: &str, track: &Track, position: i64, added_at: i64) -> (r:
        PlaylistTrack)
        ensures
            r.id == id,
            r.playlist_id@ == playlist_id@,
            r.track_source@ == column_of_source(track.source),
            r.track_id@ == track.id@,
            r.position == position,
            r.added_at == added_at,
            r.title@ == track.title@,
            r.artist@ == track.artist@,
            opt_view(r.album) == Some(track.album@),
            r.duration_ms == Some(track.duration_ms as i64),
            opt_view(r.image_url) == opt_view(track.image_url),
    {
        PlaylistTrack {
            id,
            playlist_id: String::from_str(playlist_id),
            track_source: String::from_str(source_column(track.source)),
            track_id: track.id.clone(),
            position,
            added_at,
            title: track.title.clone(),
            artist: track.artist.clone(),
            album: Some(track.album.clone()),
            duration_ms: Some(track.duration_ms as i64),
            image_url: copy_opt_string(&track.image_url),
        }
    }
}

/// A stored row and the track it was made from agree on everything the row
/// keeps, for sources other than Plex (whose column reads back as Spotify).
pub proof fn lemma_row_round_trip(
    id: i64,
    playlist_id: Seq<char>,
    track: Track,
    row: PlaylistTrack,
    back: Track,
)
    requires
        track.source != Source::Plex,
        row.track_source@ == column_of_source(track.source),
        row.track_id@ == track.id@,
        opt_view(row.album) == Some(track.album@),
        row.duration_ms == Some(track.duration_ms as i64),
        back.source == source_of_column(row.track_source@),
        back.id@ == row.track_id@,
        back.album@ == (match row.album {
            Some(a) => a@,
            None => Seq::<char>::empty(),
        }),
        back.duration_ms == (match row.duration_ms {
            Some(d) => d as u64,
            None => 0u64,
        }),
    ensures
        back.source == track.source,
        back.id@ == track.id@,
        back.album@ == track.album@,
        back.duration_ms == track.duration_ms,
{
    assert(("spotify"@)[0] != ("jellyfin"@)[0]) by {
        reveal_strlit("spotify");
        reveal_strlit("jellyfin");
    }
    assert(("spotify"@)[0] != ("custom"@)[0]) by {
        reveal_strlit("spotify");
        reveal_strlit("custom");
    }
    assert(("jellyfin"@)[0] != ("custom"@)[0]) by {
        reveal_strlit("jellyfin");
        reveal_strlit("custom");
    }
    let d = track.duration_ms;
    assert((d as i64) as u64 == d) by (bit_vector);
}

/// The column settings of the track table.
#[derive(Debug, Clone)]
pub struct ColumnPreferences {
    pub columns: Vec<String>,
    pub column_order: Vec<usize>,
    /// Width of each column, by column name.
    pub column_widths: Vec<(String, i64)>,
}

impl Default for ColumnPreferences {
    /// Title, artist, album, duration and source columns in that order,
    /// 300/200/200/100/100 wide.
    fn default() -> (r: ColumnPreferences)
        ensures
            r.columns@.len() == 5,
            r.columns@[0]@ == "title"@,
            r.columns@[1]@ == "artist"@,
            r.columns@[2]@ == "album"@,
            r.columns@[3]@ == "duration"@,
            r.columns@[4]@ == "source"@,
            r.column_order@ == seq![0usize, 1, 2, 3, 4],
            r.column_widths@.len() == 5,
            r.column_widths@[0].0@ == "title"@ && r.column_widths@[0].1 == 300,
            r.column_widths@[1].0@ == "artist"@ && r.column_widths@[1].1 == 200,
            r.column_widths@[2].0@ == "album"@ && r.column_widths@[2].1 == 200,
            r.column_widths@[3].0@ == "duration"@ && r.column_widths@[3].1 == 100,
            r.column_widths@[4].0@ == "source"@ && r.column_widths@[4].1 == 100,
    {
        let mut columns: Vec<String> = Vec::new();
        columns.push(String::from_str("title"));
        columns.push(String::from_str("artist"));
        columns.push(String::from_str("album"));
        columns.push(String::from_str("duration"));
        columns.push(String::from_str("source"));
        let mut column_order: Vec<usize> = Vec::new();
        column_order.push(0);
        column_order.push(1);
        column_order.push(2);
        column_order.push(3);
        column_order.push(4);
        let mut column_widths: Vec<(String, i64)> = Vec::new();
        column_widths.push((String::from_str("title"), 300));
        column_widths.push((String::from_str("artist"), 200));
        column_widths.push((String::from_str("album"), 200));
        column_widths.push((String::from_str("duration"), 100));
        column_widths.push((String::from_str("source"), 100));
        assert(column_order@ =~= seq![0usize, 1, 2, 3, 4]);
        ColumnPreferences { columns, column_order, column_widths }
    }
}

/// The position a new row takes: one past the highest position in use, or 0
/// in an empty playlist (`highest` is -1 there).
pub fn next_position(highest: i64) -> (r: i64)
    requires
        highest < i64::MAX,
    ensures
        r == highest + 1,
{
    highest + 1
}

/// Which rows' positions move when a row goes from `old` to `new`.
#[derive(Debug, Clone, Copy, PartialEq, Eq, Structural)]
pub enum PositionShift {
    /// Nothing moves (the row stays where it is).
    Unchanged,
    /// Rows with `after < position <= through` move one place up (position - 1).
    Up { after: i64, through: i64 },
    /// Rows with `from <= position < before` move one place down (position + 1).
    Down { from: i64, before: i64 },
}

/// Which rows move when a row is moved from `old_position` to
/// `new_position`.
pub fn reorder_shift(old_position: i64, new_position: i64) -> (r: PositionShift)
    ensures
        old_position == new_position ==> r == PositionShift::Unchanged,
        old_position < new_position ==> r == (PositionShift::Up {
            after: old_position,
            through: new_position,
        }),
        old_position > new_position ==> r == (PositionShift::Down {
            from: new_position,
            before: old_position,
        }),
{
    if old_position == new_position {
        PositionShift::Unchanged
    } else if old_position < new_position {
        PositionShift::Up { after: old_position, through: new_position }
    } else {
        PositionShift::Down { from: new_position, before: old_position }
    }
}

/// A position after a shift is applied to it.
pub open spec fn shifted(p: int, shift: PositionShift) -> int {
    match shift {
        PositionShift::Unchanged => p,
        PositionShift::Up { after, through } => if after < p <= through {
            p - 1
        } else {
            p
        },
        PositionShift::Down { from, before } => if from <= p < before {
            p + 1
        } else {
            p
        },
    }
}

/// The positions of a playlist's rows after row `moved` goes to
/// `new_position`: the other rows shift as `reorder_shift` decides, then the
/// moved row takes its new position.
pub open spec fn positions_after_move(positions: Seq<int>, moved: int, new_position: int) -> Seq<int> {
    let old_position = positions[moved];
    let shift = if old_position == new_position {
        PositionShift::Unchanged
    } else if old_position < new_position {
        PositionShift::Up { after: old_position as i64, through: new_position as i64 }
    } else {
        PositionShift::Down { from: new_position as i64, before: old_position as i64 }
    };
    Seq::new(
        positions.len(),
        |j: int|
            if j == moved {
                new_position
            } else {
                shifted(positions[j], shift)
            },
    )
}

/// The rows of a playlist occupy positions `0..n`, one row each.
pub open spec fn is_dense(positions: Seq<int>) -> bool {
    &&& forall|j: int| 0 <= j < positions.len() ==> 0 <= #[trigger] positions[j] < positions.len()
    &&& forall|j: int, k: int|
        0 <= j < positions.len() && 0 <= k < positions.len() && j != k ==> #[trigger] positions[j]
            != #[trigger] positions[k]
}

/// Moving a row keeps the playlist's positions dense (`0..n`, one row
/// each), puts the row at its new position, and keeps every other pair of
/// rows in the same relative order.
pub proof fn lemma_move_keeps_positions_dense(positions: Seq<int>, moved: int, new_position: int)
    requires
        is_dense(positions),
        0 <= moved < positions.len(),
        0 <= new_position < positions.len(),
        positions.len() <= i64::MAX,
    ensures
        is_dense(positions_after_move(positions, moved, new_position)),
        positions_after_move(positions, moved, new_position)[moved] == new_position,
        forall|j: int, k: int|
            0 <= j < positions.len() && 0 <= k < positions.len() && j != moved && k != moved
                && positions[j] < positions[k] ==> #[trigger] positions_after_move(
                positions,
                moved,
                new_position,
            )[j] < #[trigger] positions_after_move(positions, moved, new_position)[k],
{
    let r = positions_after_move(positions, moved, new_position);
    let old_position = positions[moved];
    assert forall|j: int| 0 <= j < positions.len() implies 0 <= #[trigger] r[j] < positions.len() by {
        if j != moved {
            assert(positions[j] != old_position);
        }
    }
    assert forall|j: int, k: int|
        0 <= j < positions.len() && 0 <= k < positions.len() && j != k implies #[trigger] r[j]
        != #[trigger] r[k] by {
        if j != moved && k != moved {
            assert(positions[j] != positions[k]);
            assert(positions[j] != old_position);
            assert(positions[k] != old_position);
        } else if j == moved {
            assert(positions[k] != old_position);
        } else {
            assert(positions[j] != old_position);
        }
    }
}

/// The positions of the remaining rows after row `removed` is deleted: rows
/// after it move one place up.
pub open spec fn positions_after_removal(positions: Seq<int>, removed: int) -> Seq<int> {
    let gone = positions[removed];
    positions.remove(removed).map_values(|p: int| if p > gone { p - 1 } else { p })
}

/// Deleting a row and moving the later rows up leaves the remaining rows
/// dense (`0..n-1`, one row each).
pub proof fn lemma_removal_keeps_positions_dense(positions: Seq<int>, removed: int)
    requires
        is_dense(positions),
        0 <= removed < positions.len(),
    ensures
        is_dense(positions_after_removal(positions, removed)),
{
    let r = positions_after_removal(positions, removed);
    let rest = positions.remove(removed);
    let gone = positions[removed];
    assert forall|j: int| 0 <= j < rest.len() implies #[trigger] rest[j] == positions[if j < removed { j } else { j + 1 }] by {}
    assert forall|j: int| 0 <= j < r.len() implies 0 <= #[trigger] r[j] < r.len() by {
        let src = if j < removed { j } else { j + 1 };
        assert(rest[j] == positions[src]);
        assert(positions[src] != gone);
    }
    assert forall|j: int, k: int| 0 <= j < r.len() && 0 <= k < r.len() && j != k implies #[trigger] r[j] != #[trigger] r[k] by {
        let sj = if j < removed { j } else { j + 1 };
        let sk = if k < removed { k } else { k + 1 };
        assert(rest[j] == positions[sj]);
        assert(rest[k] == positions[sk]);
        assert(positions[sj] != positions[sk]);
        assert(positions[sj] != gone);
        assert(positions[sk] != gone);
    }
}

/// The SET clauses of a playlist update, in order: one per field given,
/// then the modification time.
pub open spec fn update_clauses(has_name: bool, has_description: bool, has_image: bool) -> Seq<Seq<char>> {
    (if has_name { seq!["name = ?"@] } else { Seq::empty() }) + (if has_description {
        seq!["description = ?"@]
    } else {
        Seq::empty()
    }) + (if has_image { seq!["image_url = ?"@] } else { Seq::empty() }) + seq!["updated_at = ?"@]
}

/// The clauses joined with `", "`.
pub open spec fn join_clauses(clauses: Seq<Seq<char>>) -> Seq<char>
    decreases clauses.len(),
{
    if clauses.len() == 0 {
        Seq::empty()
    } else if clauses.len() == 1 {
        clauses[0]
    } else {
        join_clauses(clauses.drop_last()) + ", "@ + clauses.last()
    }
}

/// The statement that updates a playlist: `None` when no field is given
/// (nothing is written), else the UPDATE with the given fields and the
/// modification time, in that order.
pub fn update_statement(has_name: bool, has_description: bool, has_image: bool) -> (r: Option<String>)
    ensures
        !has_name && !has_description && !has_image ==> r is None,
        has_name || has_description || has_image ==> (r matches Some(s) && s@
            == "UPDATE custom_playlists SET "@ + join_clauses(
            update_clauses(has_name, has_description, has_image),
        ) + " WHERE id = ?"@),
{
    if !has_name && !has_description && !has_image {
        return None;
    }
    let ghost mut clauses: Seq<Seq<char>> = Seq::empty();
    let mut joined = String::new();
    let mut first = true;
    if has_name {
        joined = String::from_str("name = ?");
        first = false;
        proof { clauses = clauses.push("name = ?"@); }
        assert(joined@ == join_clauses(clauses));
    }
    if has_description {
        let ghost before = clauses;
        if first {
            joined = String::from_str("description = ?");
        } else {
            joined = concat(concat(joined.as_str(), ", ").as_str(), "description = ?");
        }
        first = false;
        proof {
            clauses = clauses.push("description = ?"@);
            assert(clauses.drop_last() =~= before);
        }
        assert(joined@ == join_clauses(clauses));
    }
    if has_image {
        let ghost before = clauses;
        if first {
            joined = String::from_str("image_url = ?");
        } else {
            joined = concat(concat(joined.as_str(), ", ").as_str(), "image_url = ?");
        }
        proof {
            clauses = clauses.push("image_url = ?"@);
            assert(clauses.drop_last() =~= before);
        }
        assert(joined@ == join_clauses(clauses));
    }
    let ghost before = clauses;
    joined = concat(concat(joined.as_str(), ", ").as_str(), "updated_at = ?");
    proof {
        clauses = clauses.push("updated_at = ?"@);
        assert(clauses.drop_last() =~= before);
        assert(clauses =~= update_clauses(has_name, has_description, has_image));
    }
    let head = concat("UPDATE custom_playlists SET ", joined.as_str());
    Some(concat(head.as_str(), " WHERE id = ?"))
}

/// The count recorded for `key`; when a key occurs more than once the
/// latest entry counts (as when the pairs are collected into a map).
pub open spec fn count_for(counts: Seq<(String, i64)>, key: Seq<char>) -> Option<i64>
    decreases counts.len(),
{
    if counts.len() == 0 {
        None
    } else if counts.last().0@ == key {
        Some(counts.last().1)
    } else {
        count_for(counts.drop_last(), key)
    }
}

/// Looks up the count recorded for a playlist id.
pub fn lookup_count(counts: &Vec<(String, i64)>, key: &str) -> (r: Option<i64>)
    ensures
        r == count_for(counts@, key@),
{
    let mut i: usize = counts.len();
    assert(counts@.subrange(0, counts@.len() as int) =~= counts@);
    while i > 0
        invariant
            i <= counts@.len(),
            count_for(counts@, key@) == count_for(counts@.subrange(0, i as int), key@),
        decreases i,
    {
        let ghost pre = counts@.subrange(0, i as int);
        assert(pre.drop_last() =~= counts@.subrange(0, i - 1));
        if text_eq(counts[i - 1].0.as_str(), key) {
            return Some(counts[i - 1].1);
        }
        i = i - 1;
    }
    None
}

/// A lookup gives the count of the last entry recorded for the id, and
/// nothing exactly when no entry has that id.
pub proof fn lemma_count_for_finds_last_entry(counts: Seq<(String, i64)>, key: Seq<char>)
    ensures
        count_for(counts, key) is None <==> forall|i: int| 0 <= i < counts.len() ==> (#[trigger] counts[i]).0@ != key,
        count_for(counts, key) matches Some(c) ==> exists|j: int|
            0 <= j < counts.len() && (#[trigger] counts[j]).0@ == key && counts[j].1 == c && forall|k: int|
                j < k < counts.len() ==> (#[trigger] counts[k]).0@ != key,
    decreases counts.len(),
{
    if counts.len() > 0 {
        let rest = counts.drop_last();
        lemma_count_for_finds_last_entry(rest, key);
        let last = counts.len() - 1;
        if counts.last().0@ == key {
            assert(counts[last].0@ == key);
        } else {
            assert(counts[last].0@ != key);
            assert forall|i: int| 0 <= i < rest.len() implies #[trigger] rest[i] == counts[i] by {}
            if count_for(rest, key) is Some {
                let j = choose|j: int|
                    0 <= j < rest.len() && (#[trigger] rest[j]).0@ == key && rest[j].1 == count_for(rest, key).unwrap()
                        && forall|k: int| j < k < rest.len() ==> (#[trigger] rest[k]).0@ != key;
                assert(counts[j] == rest[j]);
                assert forall|k: int| j < k < counts.len() implies (#[trigger] counts[k]).0@ != key by {
                    if k < rest.len() {
                        assert(counts[k] == rest[k]);
                    }
                }
            } else {
                assert forall|i: int| 0 <= i < counts.len() implies (#[trigger] counts[i]).0@ != key by {
                    if i < rest.len() {
                        assert(counts[i] == rest[i]);
                    }
                }
            }
        }
    }
}

/// Track counts of the playlists of each provider, by playlist id.
#[derive(Debug, Clone)]
pub struct ProviderTrackCounts {
    pub spotify: Vec<(String, i64)>,
    pub jellyfin: Vec<(String, i64)>,
    pub plex: Vec<(String, i64)>,
}

/// How many tracks one source of a union playlist adds: for a custom
/// playlist its number of stored tracks, for a provider playlist the count
/// the provider reports; unknown playlists and source types add none.
pub open spec fn source_track_count(
    source: UnionPlaylistSource,
    custom: Seq<(String, i64)>,
    providers: ProviderTrackCounts,
) -> int {
    let found = if eq_ignore_ascii_case_spec(source.source_type@, "custom"@) {
        count_for(custom, source.source_playlist_id@)
    } else {
        match source_from_label(lowercase_of(source.source_type@)) {
            Some(Source::Spotify) => count_for(providers.spotify@, source.source_playlist_id@),
            Some(Source::Jellyfin) => count_for(providers.jellyfin@, source.source_playlist_id@),
            Some(Source::Plex) => count_for(providers.plex@, source.source_playlist_id@),
            _ => None,
        }
    };
    match found {
        Some(c) => c as int,
        None => 0,
    }
}

/// The track count of a union playlist whose sources are `sources`.
pub open spec fn union_total(
    sources: Seq<UnionPlaylistSource>,
    custom: Seq<(String, i64)>,
    providers: ProviderTrackCounts,
) -> int
    decreases sources.len(),
{
    if sources.len() == 0 {
        0
    } else {
        union_total(sources.drop_last(), custom, providers) + source_track_count(
            sources.last(),
            custom,
            providers,
        )
    }
}

/// A looked-up count, 0 when there is none.
pub open spec fn count_or_zero(c: Option<i64>) -> int {
    match c {
        Some(v) => v as int,
        None => 0,
    }
}

/// Adding a source to a union playlist adds the count of its playlist in
/// the list its type names: the custom playlists' counts for `custom` (in
/// any case), the Spotify, Jellyfin or Plex counts for a type naming that
/// provider (in any case); any other type adds nothing.
pub proof fn lemma_union_total_adds_each_source(
    sources: Seq<UnionPlaylistSource>,
    s: UnionPlaylistSource,
    custom: Seq<(String, i64)>,
    providers: ProviderTrackCounts,
)
    ensures
        eq_ignore_ascii_case_spec(s.source_type@, "custom"@) ==> union_total(sources.push(s), custom, providers)
            == union_total(sources, custom, providers) + count_or_zero(count_for(custom, s.source_playlist_id@)),
        !eq_ignore_ascii_case_spec(s.source_type@, "custom"@) && source_from_label(lowercase_of(s.source_type@))
            == Some(Source::Spotify) ==> union_total(sources.push(s), custom, providers) == union_total(
            sources,
            custom,
            providers,
        ) + count_or_zero(count_for(providers.spotify@, s.source_playlist_id@)),
        !eq_ignore_ascii_case_spec(s.source_type@, "custom"@) && source_from_label(lowercase_of(s.source_type@))
            == Some(Source::Jellyfin) ==> union_total(sources.push(s), custom, providers) == union_total(
            sources,
            custom,
            providers,
        ) + count_or_zero(count_for(providers.jellyfin@, s.source_playlist_id@)),
        !eq_ignore_ascii_case_spec(s.source_type@, "custom"@) && source_from_label(lowercase_of(s.source_type@))
            == Some(Source::Plex) ==> union_total(sources.push(s), custom, providers) == union_total(
            sources,
            custom,
            providers,
        ) + count_or_zero(count_for(providers.plex@, s.source_playlist_id@)),
        !eq_ignore_ascii_case_spec(s.source_type@, "custom"@) && (source_from_label(lowercase_of(s.source_type@))
            is None || source_from_label(lowercase_of(s.source_type@)) == Some(Source::Custom)) ==> union_total(
            sources.push(s),
            custom,
            providers,
        ) == union_total(sources, custom, providers),
{
    assert(sources.push(s).drop_last() =~= sources);
    assert(sources.push(s).last() == s);
}

/// The count of a union playlist split in two is the sum of the counts of
/// the two parts: every source counts once, wherever it stands.
pub proof fn lemma_union_total_of_concat(
    a: Seq<UnionPlaylistSource>,
    b: Seq<UnionPlaylistSource>,
    custom: Seq<(String, i64)>,
    providers: ProviderTrackCounts,
)
    ensures
        union_total(a + b, custom, providers) == union_total(a, custom, providers) + union_total(
            b,
            custom,
            providers,
        ),
    decreases b.len(),
{
    if b.len() == 0 {
        assert(a + b =~= a);
    } else {
        lemma_union_total_of_concat(a, b.drop_last(), custom, providers);
        assert((a + b).drop_last() =~= a + b.drop_last());
        assert((a + b).last() == b.last());
    }
}

/// The track count of a union playlist: the sum over its sources.
pub fn union_track_count(
    sources: &Vec<UnionPlaylistSource>,
    custom: &Vec<(String, i64)>,
    providers: &ProviderTrackCounts,
) -> (r: i64)
    requires
        union_total_fits(sources@, custom@, *providers),
    ensures
        r == union_total(sources@, custom@, *providers),
{
    let mut total: i64 = 0;
    let mut i: usize = 0;
    assert(sources@.subrange(0, 0) =~= Seq::<UnionPlaylistSource>::empty());
    while i < sources.len()
        invariant
            i <= sources@.len(),
            total == union_total(sources@.subrange(0, i as int), custom@, *providers),
            forall|k: int|
                0 <= k <= sources@.len() ==> i64::MIN <= #[trigger] union_total(
                    sources@.subrange(0, k),
                    custom@,
                    *providers,
                ) <= i64::MAX,
        decreases sources@.len() - i,
    {
        let source = &sources[i];
        let ghost next = sources@.subrange(0, i + 1);
        assert(next.drop_last() =~= sources@.subrange(0, i as int));
        assert(next.last() == *source);
        let found = if eq_ignore_ascii_case(source.source_type.as_str(), "custom") {
            lookup_count(custom, source.source_playlist_id.as_str())
        } else {
            let lower = to_lowercase(source.source_type.as_str());
            match source_from_lowercase(lower.as_str()) {
                Some(Source::Spotify) => lookup_count(&providers.spotify, source.source_playlist_id.as_str()),
                Some(Source::Jellyfin) => lookup_count(&providers.jellyfin, source.source_playlist_id.as_str()),
                Some(Source::Plex) => lookup_count(&providers.plex, source.source_playlist_id.as_str()),
                _ => None,
            }
        };
        assert(union_total(next, custom@, *providers) == total + source_track_count(*source, custom@, *providers));
        match found {
            Some(c) => {
                total = total + c;
            },
            None => {},
        }
        i = i + 1;
    }
    assert(sources@.subrange(0, sources@.len() as int) =~= sources@);
    total
}

/// Every partial sum of a union playlist's count, source by source, fits
/// in an `i64`.
pub open spec fn union_total_fits(
    sources: Seq<UnionPlaylistSource>,
    custom: Seq<(String, i64)>,
    providers: ProviderTrackCounts,
) -> bool {
    forall|k: int|
        0 <= k <= sources.len() ==> i64::MIN <= #[trigger] union_total(
            sources.subrange(0, k),
            custom,
            providers,
        ) <= i64::MAX
}

/// The track count of a union playlist, or `None` when adding up its
/// sources goes past the range of an `i64`.
pub fn union_track_count_checked(
    sources: &Vec<UnionPlaylistSource>,
    custom: &Vec<(String, i64)>,
    providers: &ProviderTrackCounts,
) -> (r: Option<i64>)
    ensures
        union_total_fits(sources@, custom@, *providers) ==> r == Some(
            union_total(sources@, custom@, *providers) as i64,
        ),
        !union_total_fits(sources@, custom@, *providers) ==> r is None,
{
    let mut total: i64 = 0;
    let mut i: usize = 0;
    assert(sources@.subrange(0, 0) =~= Seq::<UnionPlaylistSource>::empty());
    while i < sources.len()
        invariant
            i <= sources@.len(),
            total == union_total(sources@.subrange(0, i as int), custom@, *providers),
            forall|k: int|
                0 <= k <= i ==> i64::MIN <= #[trigger] union_total(
                    sources@.subrange(0, k),
                    custom@,
                    *providers,
                ) <= i64::MAX,
        decreases sources@.len() - i,
    {
        let source = &sources[i];
        let ghost next = sources@.subrange(0, i + 1);
        assert(next.drop_last() =~= sources@.subrange(0, i as int));
        assert(next.last() == *source);
        let found = if eq_ignore_ascii_case(source.source_type.as_str(), "custom") {
            lookup_count(custom, source.source_playlist_id.as_str())
        } else {
            let lower = to_lowercase(source.source_type.as_str());
            match source_from_lowercase(lower.as_str()) {
                Some(Source::Spotify) => lookup_count(&providers.spotify, source.source_playlist_id.as_str()),
                Some(Source::Jellyfin) => lookup_count(&providers.jellyfin, source.source_playlist_id.as_str()),
                Some(Source::Plex) => lookup_count(&providers.plex, source.source_playlist_id.as_str()),
                _ => None,
            }
        };
        assert(union_total(next, custom@, *providers) == total + source_track_count(*source, custom@, *providers));
        match found {
            Some(c) => {
                match total.checked_add(c) {
                    Some(t) => {
                        total = t;
                    },
                    None => {
                        assert(!(i64::MIN <= union_total(sources@.subrange(0, i + 1), custom@, *providers) <= i64::MAX));
                        return None;
                    },
                }
            },
            None => {},
        }
        i = i + 1;
    }
    assert(sources@.subrange(0, sources@.len() as int) =~= sources@);
    Some(total)
}

/// Whether a stored playlist is a union playlist.
pub open spec fn is_union_playlist(p: CustomPlaylist) -> bool {
    p.playlist_type@ == "union"@
}

/// A playlist as listed: union playlists carry the total of their sources
/// (`sources` holds the sources of the playlist at the same position), the
/// others are listed as stored.
pub open spec fn listed_playlist(
    p: CustomPlaylist,
    sources: Seq<UnionPlaylistSource>,
    custom: Seq<(String, i64)>,
    providers: ProviderTrackCounts,
) -> CustomPlaylist {
    if is_union_playlist(p) {
        CustomPlaylist { track_count: union_total(sources, custom, providers) as i64, ..p }
    } else {
        p
    }
}

fn with_track_count(p: &CustomPlaylist, track_count: i64) -> (r: CustomPlaylist)
    ensures
        r == (CustomPlaylist { track_count, ..*p }),
{
    CustomPlaylist {
        id: p.id.clone(),
        name: p.name.clone(),
        description: copy_opt_string(&p.description),
        image_url: copy_opt_string(&p.image_url),
        created_at: p.created_at,
        updated_at: p.updated_at,
        track_count,
        playlist_type: p.playlist_type.clone(),
    }
}

/// Fills in the track counts of the union playlists of a listing, in place:
/// the list keeps its length and order, every union playlist gets the total
/// of its sources, every other playlist stays as it was.
pub fn fill_union_counts(
    playlists: &mut Vec<CustomPlaylist>,
    sources: &Vec<Vec<UnionPlaylistSource>>,
    custom: &Vec<(String, i64)>,
    providers: &ProviderTrackCounts,
)
    requires
        sources@.len() == old(playlists)@.len(),
        forall|i: int|
            0 <= i < old(playlists)@.len() && is_union_playlist(#[trigger] old(playlists)@[i])
                ==> union_total_fits(sources@[i]@, custom@, *providers),
    ensures
        final(playlists)@.len() == old(playlists)@.len(),
        forall|i: int|
            0 <= i < old(playlists)@.len() ==> #[trigger] final(playlists)@[i] == listed_playlist(
                old(playlists)@[i],
                sources@[i]@,
                custom@,
                *providers,
            ),
{
    let ghost before = playlists@;
    let mut i: usize = 0;
    while i < playlists.len()
        invariant
            playlists@.len() == before.len(),
            sources@.len() == before.len(),
            i <= before.len(),
            forall|k: int|
                0 <= k < before.len() && is_union_playlist(#[trigger] before[k]) ==> union_total_fits(
                    sources@[k]@,
                    custom@,
                    *providers,
                ),
            forall|k: int|
                0 <= k < i ==> #[trigger] playlists@[k] == listed_playlist(
                    before[k],
                    sources@[k]@,
                    custom@,
                    *providers,
                ),
            forall|k: int| i <= k < before.len() ==> #[trigger] playlists@[k] == before[k],
        decreases before.len() - i,
    {
        proof {
            reveal_strlit("union");
        }
        if text_eq(playlists[i].playlist_type.as_str(), "union") {
            assert(is_union_playlist(before[i as int]));
            let total = union_track_count(&sources[i], custom, providers);
            let updated = with_track_count(&playlists[i], total);
            playlists.set(i, updated);
        }
        i = i + 1;
    }
}

} // verus!
