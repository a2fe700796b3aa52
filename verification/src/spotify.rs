//! The Spotify provider's own logic: reading track and playlist ids out of
//! URIs and links, shaping Web API records into tracks and playlists, and
//! deciding when to refresh the OAuth token.
use crate::config::SpotifyToken;
use crate::models::{Playlist, Source, Track};
use crate::providers::ProviderError;
use crate::text::{concat, contains, contains_text};
use vstd::prelude::*;
use vstd::string::*;

verus! {

/// A token is refreshed this long (in milliseconds) before it expires.
pub const REFRESH_WINDOW_MS: i64 = 600_000;

/// Whether a token needs refreshing at time `now_ms`: it is expired, has no
/// expiry time, or expires within the refresh window.
pub open spec fn needs_refresh(is_expired: bool, expires_at_ms: Option<i64>, now_ms: i64) -> bool {
    is_expired || match expires_at_ms {
        Some(t) => t <= now_ms + REFRESH_WINDOW_MS,
        None => true,
    }
}

/// What a refresh attempt does, given the stored token (if any) at `now_ms`:
/// `Ok(true)` refresh, `Ok(false)` nothing to do, or an error when there is
/// no token or no way to refresh it.
pub fn refresh_plan(
    has_token: bool,
    is_expired: bool,
    expires_at_ms: Option<i64>,
    has_refresh_token: bool,
    now_ms: i64,
) -> (r: Result<bool, ProviderError>)
    requires
        now_ms <= i64::MAX - REFRESH_WINDOW_MS,
    ensures
        !has_token ==> (r matches Err(e) && e.0@ == "No Spotify token is available to refresh"@),
        has_token && !needs_refresh(is_expired, expires_at_ms, now_ms) ==> r == Ok::<bool, ProviderError>(false),
        has_token && needs_refresh(is_expired, expires_at_ms, now_ms) && !has_refresh_token ==> (r matches Err(e)
            && e.0@ == "Spotify token is expiring/expired but has no refresh token"@),
        has_token && needs_refresh(is_expired, expires_at_ms, now_ms) && has_refresh_token ==> r
            == Ok::<bool, ProviderError>(true),
{
    if !has_token {
        return Err(ProviderError(String::from_str("No Spotify token is available to refresh")));
    }
    let should_refresh = is_expired || match expires_at_ms {
        Some(t) => t <= now_ms + REFRESH_WINDOW_MS,
        None => true,
    };
    if !should_refresh {
        return Ok(false);
    }
    if !has_refresh_token {
        return Err(
            ProviderError(
                String::from_str("Spotify token is expiring/expired but has no refresh token"),
            ),
        );
    }
    Ok(true)
}

/// What happens to a token handed in from storage.
#[derive(Debug, Clone, Copy, PartialEq, Eq, Structural)]
pub enum TokenAction {
    /// The token is valid: install it as is.
    Install,
    /// The token is expired but refreshable: refresh it first.
    Refresh,
}

/// What to do with a token handed in from storage: install a valid one,
/// refresh an expired one that can be refreshed, refuse the rest.
pub fn set_token_action(is_expired: bool, has_refresh_token: bool) -> (r: Result<TokenAction, ProviderError>)
    ensures
        !is_expired ==> r == Ok::<TokenAction, ProviderError>(TokenAction::Install),
        is_expired && has_refresh_token ==> r == Ok::<TokenAction, ProviderError>(TokenAction::Refresh),
        is_expired && !has_refresh_token ==> (r matches Err(e) && e.0@
            == "Provided Spotify token is expired and has no refresh token"@),
{
    if is_expired {
        if has_refresh_token {
            Ok(TokenAction::Refresh)
        } else {
            Err(ProviderError(String::from_str("Provided Spotify token is expired and has no refresh token")))
        }
    } else {
        Ok(TokenAction::Install)
    }
}

/// The part of `s` after its last `c` (all of `s` when it has none).
pub open spec fn after_last(s: Seq<char>, c: char) -> Seq<char>
    decreases s.len(),
{
    if s.len() == 0 {
        s
    } else if s.last() == c {
        Seq::empty()
    } else {
        after_last(s.drop_last(), c).push(s.last())
    }
}

/// The part of `s` after its last `c` (`s.split(c).next_back()`).
pub fn last_segment(s: &str, c: char) -> (r: String)
    ensures
        r@ == after_last(s@, c),
{
    let n = s.unicode_len();
    let mut i: usize = n;
    assert(s@.subrange(0, n as int) =~= s@);
    assert(s@.subrange(n as int, n as int) =~= Seq::<char>::empty());
    while i > 0 && s.get_char(i - 1) != c
        invariant
            n == s@.len(),
            i <= n,
            after_last(s@, c) == after_last(s@.subrange(0, i as int), c) + s@.subrange(i as int, n as int),
        decreases i,
    {
        let ghost pre = s@.subrange(0, i as int);
        assert(pre.drop_last() =~= s@.subrange(0, i - 1));
        assert(s@.subrange(i - 1, n as int) =~= seq![pre.last()] + s@.subrange(i as int, n as int));
        assert(after_last(pre.drop_last(), c).push(pre.last()) + s@.subrange(i as int, n as int)
            =~= after_last(pre.drop_last(), c) + s@.subrange(i - 1, n as int));
        i = i - 1;
    }
    if i > 0 {
        let ghost pre = s@.subrange(0, i as int);
        assert(pre.last() == c);
    } else {
        assert(s@.subrange(0, 0) =~= Seq::<char>::empty());
    }
    assert(Seq::<char>::empty() + s@.subrange(i as int, n as int) =~= s@.subrange(i as int, n as int));
    String::from_str(s.substring_char(i, n))
}

/// The bare id in a Spotify reference: the last `:`-separated part of a URI
/// (when it holds `uri_marker`), the last `/`-separated part of a link (when
/// it holds `link_marker`), or the reference itself.
pub open spec fn clean_id_spec(id: Seq<char>, uri_marker: Seq<char>, link_marker: Seq<char>) -> Seq<char> {
    if contains_text(id, uri_marker) {
        after_last(id, ':')
    } else if contains_text(id, link_marker) {
        after_last(id, '/')
    } else {
        id
    }
}

fn clean_id(id: &str, uri_marker: &str, link_marker: &str) -> (r: String)
    ensures
        r@ == clean_id_spec(id@, uri_marker@, link_marker@),
{
    if contains(id, uri_marker) {
        last_segment(id, ':')
    } else if contains(id, link_marker) {
        last_segment(id, '/')
    } else {
        String::from_str(id)
    }
}

/// The bare track id in a track id, `spotify:track:` URI or track link.
pub fn clean_track_id(id: &str) -> (r: String)
    ensures
        r@ == clean_id_spec(id@, "spotify:track:"@, "/track/"@),
{
    clean_id(id, "spotify:track:", "/track/")
}

/// The bare playlist id in a playlist id, `spotify:playlist:` URI or
/// playlist link.
pub fn clean_playlist_id(id: &str) -> (r: String)
    ensures
        r@ == clean_id_spec(id@, "spotify:playlist:"@, "/playlist/"@),
{
    clean_id(id, "spotify:playlist:", "/playlist/")
}

/// The playback URI of a track: `spotify:track:` and its bare id.
pub fn track_uri(track_id: &str) -> (r: String)
    ensures
        r@ == "spotify:track:"@ + clean_id_spec(track_id@, "spotify:track:"@, "/track/"@),
{
    let clean = clean_track_id(track_id);
    concat("spotify:track:", clean.as_str())
}

/// `names` joined with `sep` between each two.
pub open spec fn joined(names: Seq<String>, sep: Seq<char>) -> Seq<char>
    decreases names.len(),
{
    if names.len() == 0 {
        Seq::empty()
    } else if names.len() == 1 {
        names[0]@
    } else {
        joined(names.drop_last(), sep) + sep + names.last()@
    }
}

/// Joins names with a separator (`[String]::join`).
pub fn join_names(names: &Vec<String>, sep: &str) -> (r: String)
    ensures
        r@ == joined(names@, sep@),
{
    let mut out = String::new();
    let mut i: usize = 0;
    while i < names.len()
        invariant
            i <= names@.len(),
            out@ == joined(names@.subrange(0, i as int), sep@),
        decreases names@.len() - i,
    {
        let ghost pre = names@.subrange(0, i + 1);
        assert(pre.drop_last() =~= names@.subrange(0, i as int));
        if i == 0 {
            out = names[0].clone();
            assert(out@ == joined(pre, sep@));
        } else {
            let with_sep = concat(out.as_str(), sep);
            out = concat(with_sep.as_str(), names[i].as_str());
        }
        i = i + 1;
    }
    assert(names@.subrange(0, names@.len() as int) =~= names@);
    out
}

/// What the Web API reports of a track, as the provider reads it.
#[derive(Debug, Clone)]
pub struct SpotifyTrackData {
    /// The track id, as the API's id type displays it (absent for local
    /// files).
    pub id: Option<String>,
    pub name: String,
    pub artists: Vec<String>,
    pub album: String,
    pub duration_ms: i64,
    /// The album's image URLs, largest first.
    pub album_images: Vec<String>,
}

/// The first entry of a list, if any.
pub open spec fn first_of(v: Seq<String>) -> Option<Seq<char>> {
    if v.len() > 0 {
        Some(v[0]@)
    } else {
        None
    }
}

fn first_entry(v: &Vec<String>) -> (r: Option<String>)
    ensures
        opt_str(r) == first_of(v@),
{
    if v.len() > 0 {
        Some(v[0].clone())
    } else {
        None
    }
}

/// The character view of an optional string.
pub open spec fn opt_str(s: Option<String>) -> Option<Seq<char>> {
    match s {
        Some(x) => Some(x@),
        None => None,
    }
}

/// The track for a track record of a listing or a search: its id (empty
/// when it has none), title, artists joined with ", ", album, duration,
/// the album's first image, and a `spotify:track:` URI for Connect playback
/// when it has an id.
pub fn track_from_spotify(data: &SpotifyTrackData) -> (r: Track)
    ensures
        r.id@ == (match data.id {
            Some(i) => i@,
            None => Seq::<char>::empty(),
        }),
        r.title@ == data.name@,
        r.artist@ == joined(data.artists@, ", "@),
        r.album@ == data.album@,
        r.duration_ms == data.duration_ms as u64,
        opt_str(r.image_url) == first_of(data.album_images@),
        r.source == Source::Spotify,
        opt_str(r.url) == (match data.id {
            Some(i) => Some("spotify:track:"@ + i@),
            None => None,
        }),
        r.auth_headers is None,
        r.bitrate_kbps is None,
        r.sample_rate_hz is None,
        !r.enriched,
{
    let id = match &data.id {
        Some(i) => i.clone(),
        None => String::new(),
    };
    let url = match &data.id {
        Some(i) => Some(concat("spotify:track:", i.as_str())),
        None => None,
    };
    Track {
        id,
        title: data.name.clone(),
        artist: join_names(&data.artists, ", "),
        album: data.album.clone(),
        duration_ms: data.duration_ms as u64,
        image_url: first_entry(&data.album_images),
        source: Source::Spotify,
        url,
        bitrate_kbps: None,
        sample_rate_hz: None,
        auth_headers: None,
        enriched: false,
    }
}

/// The track for a track fetched by its reference: the bare id from the
/// reference, and the `spotify:track:` URI of that id.
pub fn track_from_lookup(clean_id: &str, data: &SpotifyTrackData) -> (r: Track)
    ensures
        r.id@ == clean_id@,
        r.title@ == data.name@,
        r.artist@ == joined(data.artists@, ", "@),
        r.album@ == data.album@,
        r.duration_ms == data.duration_ms as u64,
        opt_str(r.image_url) == first_of(data.album_images@),
        r.source == Source::Spotify,
        opt_str(r.url) == Some("spotify:track:"@ + clean_id@),
        r.auth_headers is None,
        r.bitrate_kbps is None,
        r.sample_rate_hz is None,
        !r.enriched,
{
    Track {
        id: String::from_str(clean_id),
        title: data.name.clone(),
        artist: join_names(&data.artists, ", "),
        album: data.album.clone(),
        duration_ms: data.duration_ms as u64,
        image_url: first_entry(&data.album_images),
        source: Source::Spotify,
        url: Some(concat("spotify:track:", clean_id)),
        bitrate_kbps: None,
        sample_rate_hz: None,
        auth_headers: None,
        enriched: false,
    }
}

/// What the Web API reports of a playlist, as the provider reads it.
#[derive(Debug, Clone)]
pub struct SpotifyPlaylistData {
    pub id: String,
    pub name: String,
    pub description: Option<String>,
    pub owner_display_name: Option<String>,
    pub owner_id: String,
    pub images: Vec<String>,
    pub total_tracks: u32,
}

/// The playlist for a playlist record: the owner is shown by display name,
/// or by id when there is none; `tracks` are the tracks fetched with it (the
/// count is theirs when there are any, else the total the API reports).
pub fn playlist_from_spotify(data: &SpotifyPlaylistData, tracks: Option<Vec<Track>>) -> (r: Playlist)
    ensures
        r.id@ == data.id@,
        r.name@ == data.name@,
        r.owner@ == (match data.owner_display_name {
            Some(n) => n@,
            None => data.owner_id@,
        }),
        opt_str(r.image_url) == first_of(data.images@),
        r.source == Source::Spotify,
        match tracks {
            Some(t) => r.tracks@ == t@ && r.track_count == t@.len() && opt_str(r.description)
                == opt_str(data.description),
            None => r.tracks@.len() == 0 && r.track_count == data.total_tracks && r.description is None,
        },
{
    let owner = match &data.owner_display_name {
        Some(n) => n.clone(),
        None => data.owner_id.clone(),
    };
    let image_url = first_entry(&data.images);
    match tracks {
        Some(t) => {
            let count = t.len();
            Playlist {
                id: data.id.clone(),
                name: data.name.clone(),
                description: match &data.description {
                    Some(d) => Some(d.clone()),
                    None => None,
                },
                owner,
                image_url,
                track_count: count,
                tracks: t,
                source: Source::Spotify,
            }
        },
        None => Playlist {
            id: data.id.clone(),
            name: data.name.clone(),
            description: None,
            owner,
            image_url,
            track_count: data.total_tracks as usize,
            tracks: Vec::new(),
            source: Source::Spotify,
        },
    }
}

/// Consecutive failed items after which reading a playlist's tracks gives up.
pub const MAX_CONSECUTIVE_ERRORS: u32 = 3;

/// The count of consecutive failures after one more item of a playlist's
/// tracks arrives (`ok`) or fails, and whether reading gives up.
pub fn after_stream_item(consecutive: u32, ok: bool) -> (r: (u32, bool))
    requires
        consecutive < MAX_CONSECUTIVE_ERRORS,
    ensures
        ok ==> r == (0u32, false),
        !ok ==> r.0 == consecutive + 1 && r.1 == (consecutive + 1 >= MAX_CONSECUTIVE_ERRORS),
{
    if ok {
        (0, false)
    } else {
        let next = consecutive + 1;
        (next, next >= MAX_CONSECUTIVE_ERRORS)
    }
}

/// A token counts as expired ten seconds (in milliseconds here) before its
/// expiry time, so that it is not used up in flight.
pub const EXPIRY_MARGIN_MS: i64 = 10_000;

/// Whether a token is expired at `now_ms`: it has no known expiry time, or
/// the expiry time is within the margin.
pub open spec fn expired_at(expires_at_ms: Option<i64>, now_ms: i64) -> bool {
    match expires_at_ms {
        Some(t) => now_ms + EXPIRY_MARGIN_MS >= t,
        None => true,
    }
}

/// Whether a stored token is expired at `now_ms`.
pub fn token_is_expired(token: &SpotifyToken, now_ms: i64) -> (r: bool)
    requires
        now_ms <= i64::MAX - EXPIRY_MARGIN_MS,
    ensures
        r == expired_at(token.expires_at_ms, now_ms),
{
    match token.expires_at_ms {
        Some(t) => now_ms + EXPIRY_MARGIN_MS >= t,
        None => true,
    }
}

/// What a refresh attempt does with the client's current token at
/// `now_ms`: `Ok(true)` refresh it, `Ok(false)` keep it, or an error when
/// there is none or it cannot be refreshed.
pub fn token_refresh_plan(token: &Option<SpotifyToken>, now_ms: i64) -> (r: Result<bool, ProviderError>)
    requires
        now_ms <= i64::MAX - REFRESH_WINDOW_MS,
    ensures
        match token {
            None => (r matches Err(e) && e.0@ == "No Spotify token is available to refresh"@),
            Some(t) => {
                let due = needs_refresh(expired_at(t.expires_at_ms, now_ms), t.expires_at_ms, now_ms);
                &&& !due ==> r == Ok::<bool, ProviderError>(false)
                &&& due && t.refresh_token is None ==> (r matches Err(e) && e.0@
                    == "Spotify token is expiring/expired but has no refresh token"@)
                &&& due && t.refresh_token is Some ==> r == Ok::<bool, ProviderError>(true)
            },
        },
{
    match token {
        None => refresh_plan(false, false, None, false, now_ms),
        Some(t) => {
            let expired = token_is_expired(t, now_ms);
            refresh_plan(true, expired, t.expires_at_ms, t.refresh_token.is_some(), now_ms)
        },
    }
}

/// What to do with a token handed in from storage at `now_ms`.
pub fn stored_token_action(token: &SpotifyToken, now_ms: i64) -> (r: Result<TokenAction, ProviderError>)
    requires
        now_ms <= i64::MAX - EXPIRY_MARGIN_MS,
    ensures
        !expired_at(token.expires_at_ms, now_ms) ==> r == Ok::<TokenAction, ProviderError>(TokenAction::Install),
        expired_at(token.expires_at_ms, now_ms) && token.refresh_token is Some ==> r == Ok::<
            TokenAction,
            ProviderError,
        >(TokenAction::Refresh),
        expired_at(token.expires_at_ms, now_ms) && token.refresh_token is None ==> (r matches Err(e)
            && e.0@ == "Provided Spotify token is expired and has no refresh token"@),
{
    set_token_action(token_is_expired(token, now_ms), token.refresh_token.is_some())
}

/// What the Spotify provider holds between calls: whether its API client is
/// configured, the token in that client, the access token it caches, and
/// whether it counts as signed in.
#[derive(Debug)]
pub struct SpotifyProviderState {
    pub client_configured: bool,
    pub token: Option<SpotifyToken>,
    pub access_token: Option<String>,
    pub is_authenticated: bool,
}

/// The message when a token is given to a provider without a client.
pub open spec fn no_client_message() -> Seq<char> {
    "Client not configured"@
}

impl SpotifyProviderState {
    /// A provider without a client.
    pub fn new() -> (r: SpotifyProviderState)
        ensures
            !r.client_configured,
            r.token is None,
            r.access_token is None,
            !r.is_authenticated,
    {
        SpotifyProviderState { client_configured: false, token: None, access_token: None, is_authenticated: false }
    }

    /// A provider with a configured client that holds no token yet.
    pub fn with_client() -> (r: SpotifyProviderState)
        ensures
            r.client_configured,
            r.token is None,
            r.access_token is None,
            !r.is_authenticated,
    {
        SpotifyProviderState { client_configured: true, token: None, access_token: None, is_authenticated: false }
    }

    /// Hands a stored token to the provider at `now_ms`. Without a client it
    /// is refused. A valid token is installed: the client holds it, its
    /// access token is cached and the provider counts as signed in. An
    /// expired token with a refresh token is put in the client and the
    /// caller is asked to refresh (then `finish_refresh`); one without a
    /// refresh token is refused. A refusal changes nothing.
    pub fn set_token(&mut self, token: SpotifyToken, now_ms: i64) -> (r: Result<TokenAction, ProviderError>)
        requires
            now_ms <= i64::MAX - EXPIRY_MARGIN_MS,
        ensures
            !old(self).client_configured ==> (r matches Err(e) && e.0@ == no_client_message()),
            r is Err ==> *final(self) == *old(self),
            old(self).client_configured && !expired_at(token.expires_at_ms, now_ms) ==> r == Ok::<
                TokenAction,
                ProviderError,
            >(TokenAction::Install) && final(self).token == Some(token) && (final(self).access_token
                matches Some(a) && a@ == token.access_token@) && final(self).is_authenticated
                && final(self).client_configured,
            old(self).client_configured && expired_at(token.expires_at_ms, now_ms) && token.refresh_token
                is Some ==> r == Ok::<TokenAction, ProviderError>(TokenAction::Refresh) && final(self).token
                == Some(token) && final(self).access_token == old(self).access_token
                && final(self).is_authenticated == old(self).is_authenticated
                && final(self).client_configured,
            old(self).client_configured && expired_at(token.expires_at_ms, now_ms) && token.refresh_token
                is None ==> (r matches Err(e) && e.0@
                == "Provided Spotify token is expired and has no refresh token"@),
    {
        if !self.client_configured {
            return Err(ProviderError(String::from_str("Client not configured")));
        }
        let action = stored_token_action(&token, now_ms);
        match action {
            Ok(TokenAction::Install) => {
                let access = token.access_token.clone();
                self.token = Some(token);
                self.access_token = Some(access);
                self.is_authenticated = true;
                Ok(TokenAction::Install)
            },
            Ok(TokenAction::Refresh) => {
                self.token = Some(token);
                Ok(TokenAction::Refresh)
            },
            Err(e) => Err(e),
        }
    }

    /// Takes the outcome of refreshing an expired token: the token the client
    /// holds afterwards, or the refresh error. A refreshed token is cached and
    /// signs the provider in.
    pub fn finish_refresh(&mut self, refreshed: Result<Option<SpotifyToken>, String>) -> (r: Result<(), ProviderError>)
        ensures
            refreshed matches Ok(Some(t)) ==> r is Ok && final(self).token == Some(t) && (final(self).access_token
                matches Some(a) && a@ == t.access_token@) && final(self).is_authenticated
                && final(self).client_configured == old(self).client_configured,
            refreshed matches Ok(None) ==> (r matches Err(e) && e.0@
                == "Token refresh succeeded but no token found in client"@) && *final(self) == *old(self),
            refreshed matches Err(m) ==> (r matches Err(e) && e.0@
                == "Provided Spotify token is expired and refresh failed: "@ + m@) && *final(self) == *old(self),
    {
        match refreshed {
            Ok(Some(t)) => {
                let access = t.access_token.clone();
                self.token = Some(t);
                self.access_token = Some(access);
                self.is_authenticated = true;
                Ok(())
            },
            Ok(None) => Err(ProviderError(String::from_str("Token refresh succeeded but no token found in client"))),
            Err(m) => Err(ProviderError(concat("Provided Spotify token is expired and refresh failed: ", m.as_str()))),
        }
    }

    /// The token in the client (none without a client).
    pub fn get_token(&self) -> (r: Option<&SpotifyToken>)
        ensures
            !self.client_configured ==> r is None,
            self.client_configured ==> (match self.token {
                Some(t) => r == Some(&t),
                None => r is None,
            }),
    {
        if !self.client_configured {
            return None;
        }
        match &self.token {
            Some(t) => Some(t),
            None => None,
        }
    }

    /// The access token cached when a token was installed or refreshed.
    pub fn cached_access_token(&self) -> (r: Option<&str>)
        ensures
            match self.access_token {
                Some(a) => (r matches Some(x) && x@ == a@),
                None => r is None,
            },
    {
        match &self.access_token {
            Some(a) => Some(a.as_str()),
            None => None,
        }
    }

    /// Whether the provider counts as signed in.
    pub fn is_authenticated_status(&self) -> (r: bool)
        ensures
            r == self.is_authenticated,
    {
        self.is_authenticated
    }
}

} // verus!
