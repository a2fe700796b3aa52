use any_player::jellyfin::{
    audio_quality, auth_headers, image_url, item_to_playlist, item_to_track, jellyfin_credentials,
    JellyfinItem, JellyfinMediaSource, JellyfinMediaStream,
};
use any_player::models::Source;
use any_player::plex::{
    authed_url, is_tls_error, map_auth_status, map_connect_error, normalize_base_url,
    plex_credentials, retry_without_tls_validation, tls_mode_changed, validate_base_url,
};
use any_player::spotify::{
    after_stream_item, clean_playlist_id, clean_track_id, join_names, last_segment,
    playlist_from_spotify, refresh_plan, set_token_action, stored_token_action, token_is_expired,
    token_refresh_plan, track_from_lookup, track_from_spotify, track_uri, SpotifyPlaylistData,
    SpotifyProviderState, SpotifyTrackData, TokenAction,
};
use any_player::config::SpotifyToken;

fn item(id: &str) -> JellyfinItem {
    JellyfinItem {
        id: id.to_string(),
        name: "Song".to_string(),
        item_type: "Audio".to_string(),
        album: None,
        album_id: None,
        artists: None,
        runtime_ticks: Some(1_800_000_000),
        primary_image_tag: None,
        album_primary_image_tag: None,
        child_count: None,
        recursive_item_count: None,
        bitrate: Some(320_000),
        sample_rate: Some(44100),
        media_streams: None,
        media_sources: None,
    }
}

fn stream(kind: &str, bit_rate: Option<u32>, sample_rate: Option<u32>) -> JellyfinMediaStream {
    JellyfinMediaStream { stream_type: Some(kind.to_string()), bit_rate, sample_rate }
}

#[test]
fn jellyfin_track_from_item() {
    let mut it = item("i1");
    it.artists = Some(vec!["First".to_string(), "Second".to_string()]);
    it.album_id = Some("al".to_string());
    it.album_primary_image_tag = Some("tag9".to_string());
    let t = item_to_track("http://jf", "KEY", Some("u1"), &it);
    assert_eq!(t.id, "i1");
    assert_eq!(t.artist, "First");
    assert_eq!(t.album, "Unknown Album");
    assert_eq!(t.duration_ms, 180_000);
    assert_eq!(t.source, Source::Jellyfin);
    assert_eq!(
        t.url.as_deref(),
        Some("http://jf/Audio/i1/universal?UserId=u1&Container=opus,mp3,aac,m4a,flac,webma,webm,wav,ogg&AudioCodec=aac,mp3,vorbis,opus")
    );
    assert_eq!(t.image_url.as_deref(), Some("http://jf/Items/al/Images/Primary?tag=tag9&api_key=KEY"));
    assert_eq!((t.bitrate_kbps, t.sample_rate_hz), (Some(320), Some(44100)));
    assert!(!t.enriched);
    let headers = t.auth_headers.unwrap();
    assert_eq!(headers[0], ("X-Emby-Token".to_string(), "KEY".to_string()));
    assert_eq!(headers[1].0, "X-Emby-Authorization");
}

#[test]
fn jellyfin_track_without_user_or_artist() {
    let t = item_to_track("http://jf", "KEY", None, &item("i2"));
    assert_eq!(t.artist, "Unknown Artist");
    assert!(t.url.unwrap().contains("UserId=&Container"));
    assert!(t.image_url.is_none());
}

#[test]
fn jellyfin_image_falls_back_to_the_item() {
    let mut it = item("i3");
    it.primary_image_tag = Some("own".to_string());
    assert_eq!(image_url("http://jf", "K", &it).as_deref(), Some("http://jf/Items/i3/Images/Primary?tag=own&api_key=K"));
}

#[test]
fn jellyfin_authorization_header() {
    let h = auth_headers("abc");
    assert_eq!(h.len(), 2);
    assert_eq!(h[1].0, "X-Emby-Authorization");
    assert_eq!(
        h[1].1,
        "MediaBrowser Token=\"abc\", Client=\"AnyPlayer\", Device=\"AnyPlayer\", DeviceId=\"AnyPlayer\", Version=\"1.0.0\""
    );
}

#[test]
fn jellyfin_audio_quality_prefers_the_media_source_stream() {
    let mut it = item("q");
    it.media_sources = Some(vec![JellyfinMediaSource {
        bitrate: Some(256_000),
        media_streams: Some(vec![stream("Video", Some(1), Some(1)), stream("audio", None, Some(48000))]),
    }]);
    assert_eq!(audio_quality(&it), (Some(256), Some(48000)));
    it.media_sources = Some(vec![JellyfinMediaSource { bitrate: Some(128_000), media_streams: None }]);
    assert_eq!(audio_quality(&it), (Some(128), None));
    it.media_sources = None;
    it.media_streams = Some(vec![stream("Audio", Some(192_000), Some(22050))]);
    assert_eq!(audio_quality(&it), (Some(192), Some(22050)));
    it.media_streams = None;
    assert_eq!(audio_quality(&it), (Some(320), Some(44100)));
}

#[test]
fn jellyfin_playlist_counts_children() {
    let mut it = item("pl");
    it.item_type = "Playlist".to_string();
    it.recursive_item_count = Some(12);
    let p = item_to_playlist("http://jf", "K", &it);
    assert_eq!(p.track_count, 12);
    assert_eq!(p.owner, "Jellyfin");
    it.child_count = Some(3);
    assert_eq!(item_to_playlist("http://jf", "K", &it).track_count, 3);
}

#[test]
fn jellyfin_credentials_need_url_and_key() {
    assert_eq!(jellyfin_credentials(None, Some("k")).unwrap_err().0, "Missing Jellyfin url");
    assert_eq!(jellyfin_credentials(Some("u"), None).unwrap_err().0, "Missing Jellyfin api_key");
    assert_eq!(jellyfin_credentials(Some("u"), Some("k")).unwrap(), ("u".to_string(), "k".to_string()));
}

#[test]
fn plex_base_url_is_normalised_and_validated() {
    assert_eq!(normalize_base_url("http://plex:32400///"), "http://plex:32400");
    assert!(validate_base_url("http://127.0.0.1:32400").is_ok());
    assert_eq!(
        validate_base_url("127.0.0.1:32400").unwrap_err().0,
        "Invalid Plex URL. Include http:// or https:// (for example: http://127.0.0.1:32400)"
    );
    assert_eq!(
        validate_base_url("http://[bad").unwrap_err().0,
        "Invalid Plex URL format. Check the server URL and try again."
    );
}

#[test]
fn plex_credentials_normalise_the_url() {
    assert_eq!(
        plex_credentials(Some("https://plex.local/"), Some("tok")).unwrap(),
        ("https://plex.local".to_string(), "tok".to_string())
    );
    assert_eq!(plex_credentials(Some("u"), None).unwrap_err().0, "Missing Plex token");
    assert_eq!(plex_credentials(None, None).unwrap_err().0, "Missing Plex url");
}

#[test]
fn plex_messages() {
    assert_eq!(
        map_auth_status(401, "401 Unauthorized"),
        "Plex rejected the token (unauthorized). Verify your Plex token and try again."
    );
    assert_eq!(
        map_auth_status(404, "404 Not Found"),
        "Plex server endpoint was not found. Verify the server URL and port."
    );
    assert_eq!(map_auth_status(500, "500 Internal Server Error"), "Plex authentication failed (HTTP 500 Internal Server Error).");
    assert!(is_tls_error("invalid peer certificate: UnknownIssuer"));
    assert!(!is_tls_error("connection refused"));
    assert_eq!(
        map_connect_error("tcp connect error: Connection refused", false, true),
        "Plex server refused the connection. Confirm the host/port and that Plex is running."
    );
    assert_eq!(
        map_connect_error("operation timed out", false, false),
        "Timed out connecting to Plex. Check that the server URL is reachable and the server is online."
    );
    assert_eq!(map_connect_error("boom", false, false), "Failed to connect to Plex: boom");
}

#[test]
fn plex_urls_carry_the_token() {
    assert_eq!(authed_url("http://p", "T", "/identity"), "http://p/identity?X-Plex-Token=T");
    assert_eq!(authed_url("http://p", "T", "library?x=1"), "http://p/library?x=1&X-Plex-Token=T");
}

#[test]
fn plex_tls_retry_decisions() {
    assert!(retry_without_tls_validation("https://plex.local", true));
    assert!(!retry_without_tls_validation("http://plex.local", true));
    assert!(!retry_without_tls_validation("https://plex.local", false));
    assert!(tls_mode_changed(false, false, false));
    assert!(tls_mode_changed(true, false, true));
    assert!(!tls_mode_changed(true, true, true));
}

#[test]
fn spotify_ids_from_uris_and_links() {
    assert_eq!(clean_track_id("spotify:track:abc123"), "abc123");
    assert_eq!(clean_track_id("https://open.spotify.com/track/xyz"), "xyz");
    assert_eq!(clean_track_id("plainid"), "plainid");
    assert_eq!(clean_playlist_id("spotify:playlist:37i9"), "37i9");
    assert_eq!(clean_playlist_id("https://open.spotify.com/playlist/pl1"), "pl1");
    assert_eq!(track_uri("https://open.spotify.com/track/xyz"), "spotify:track:xyz");
    assert_eq!(last_segment("a:b:c", ':'), "c");
    assert_eq!(last_segment("abc", ':'), "abc");
    assert_eq!(last_segment("abc:", ':'), "");
}

#[test]
fn spotify_artists_are_joined() {
    assert_eq!(join_names(&vec![], ", "), "");
    assert_eq!(join_names(&vec!["A".to_string()], ", "), "A");
    assert_eq!(join_names(&vec!["A".to_string(), "B".to_string(), "C".to_string()], ", "), "A, B, C");
}

fn spotify_data(id: Option<&str>) -> SpotifyTrackData {
    SpotifyTrackData {
        id: id.map(|s| s.to_string()),
        name: "Song".to_string(),
        artists: vec!["X".to_string(), "Y".to_string()],
        album: "Record".to_string(),
        duration_ms: 215_000,
        album_images: vec!["big.jpg".to_string(), "small.jpg".to_string()],
    }
}

#[test]
fn spotify_tracks_from_records() {
    let t = track_from_spotify(&spotify_data(Some("id1")));
    assert_eq!(t.id, "id1");
    assert_eq!(t.artist, "X, Y");
    assert_eq!(t.url.as_deref(), Some("spotify:track:id1"));
    assert_eq!(t.image_url.as_deref(), Some("big.jpg"));
    assert_eq!(t.duration_ms, 215_000);
    let local = track_from_spotify(&spotify_data(None));
    assert_eq!(local.id, "");
    assert!(local.url.is_none());
    let looked_up = track_from_lookup("clean", &spotify_data(Some("ignored")));
    assert_eq!(looked_up.id, "clean");
    assert_eq!(looked_up.url.as_deref(), Some("spotify:track:clean"));
}

#[test]
fn spotify_playlists_from_records() {
    let data = SpotifyPlaylistData {
        id: "p".to_string(),
        name: "Mix".to_string(),
        description: Some("desc".to_string()),
        owner_display_name: None,
        owner_id: "owner1".to_string(),
        images: vec![],
        total_tracks: 40,
    };
    let summary = playlist_from_spotify(&data, None);
    assert_eq!(summary.owner, "owner1");
    assert_eq!(summary.track_count, 40);
    assert!(summary.description.is_none());
    assert!(summary.image_url.is_none());
    let full = playlist_from_spotify(&data, Some(vec![track_from_spotify(&spotify_data(Some("a")))]));
    assert_eq!(full.track_count, 1);
    assert_eq!(full.description.as_deref(), Some("desc"));
}

#[test]
fn spotify_stream_gives_up_after_three_failures() {
    assert_eq!(after_stream_item(0, false), (1, false));
    assert_eq!(after_stream_item(1, false), (2, false));
    assert_eq!(after_stream_item(2, false), (3, true));
    assert_eq!(after_stream_item(2, true), (0, false));
}

fn token(expires_at_ms: Option<i64>, refresh: bool) -> SpotifyToken {
    SpotifyToken {
        access_token: "at".to_string(),
        expires_in_secs: 3600,
        expires_at_ms,
        refresh_token: if refresh { Some("rt".to_string()) } else { None },
        scopes: vec![],
    }
}

#[test]
fn spotify_token_expiry_and_refresh() {
    let now = 1_000_000;
    assert!(token_is_expired(&token(None, true), now));
    assert!(token_is_expired(&token(Some(now + 5_000), true), now));
    assert!(!token_is_expired(&token(Some(now + 60_000), true), now));
    assert_eq!(token_refresh_plan(&None, now).unwrap_err().0, "No Spotify token is available to refresh");
    assert_eq!(token_refresh_plan(&Some(token(Some(now + 3_600_000), true)), now).unwrap(), false);
    assert_eq!(token_refresh_plan(&Some(token(Some(now + 300_000), true)), now).unwrap(), true);
    assert_eq!(
        token_refresh_plan(&Some(token(Some(now + 300_000), false)), now).unwrap_err().0,
        "Spotify token is expiring/expired but has no refresh token"
    );
    assert_eq!(refresh_plan(true, false, Some(now + 600_000), true, now).unwrap(), true);
}

#[test]
fn spotify_stored_token_actions() {
    let now = 5_000_000;
    assert_eq!(stored_token_action(&token(Some(now + 60_000), false), now).unwrap(), TokenAction::Install);
    assert_eq!(stored_token_action(&token(Some(now - 1), true), now).unwrap(), TokenAction::Refresh);
    assert_eq!(
        set_token_action(true, false).unwrap_err().0,
        "Provided Spotify token is expired and has no refresh token"
    );
}

#[test]
fn valid_token_is_installed_and_read_back() {
    let mut p = SpotifyProviderState::with_client();
    let t = token(Some(10_000_000), false);
    assert!(matches!(p.set_token(t.clone(), 1_000), Ok(TokenAction::Install)));
    assert!(p.is_authenticated_status());
    assert_eq!(p.cached_access_token(), Some(t.access_token.as_str()));
    assert_eq!(p.get_token().map(|x| x.access_token.clone()), Some(t.access_token.clone()));
}

#[test]
fn token_without_client_is_refused() {
    let mut p = SpotifyProviderState::new();
    match p.set_token(token(Some(10_000_000), false), 1_000) {
        Err(e) => assert_eq!(e.0, "Client not configured"),
        Ok(_) => panic!("expected a refusal"),
    }
    assert!(!p.is_authenticated_status());
    assert!(p.get_token().is_none());
    assert!(p.cached_access_token().is_none());
}

#[test]
fn expired_token_is_refreshed_before_use() {
    let mut p = SpotifyProviderState::with_client();
    assert!(matches!(p.set_token(token(Some(5), true), 1_000), Ok(TokenAction::Refresh)));
    assert!(!p.is_authenticated_status());
    let mut fresh = token(Some(99_000_000), true);
    fresh.access_token = "fresh".to_string();
    assert!(p.finish_refresh(Ok(Some(fresh.clone()))).is_ok());
    assert!(p.is_authenticated_status());
    assert_eq!(p.cached_access_token(), Some(fresh.access_token.as_str()));
    let mut q = SpotifyProviderState::with_client();
    match q.finish_refresh(Err("bad grant".to_string())) {
        Err(e) => assert_eq!(e.0, "Provided Spotify token is expired and refresh failed: bad grant"),
        Ok(_) => panic!("expected a refusal"),
    }
    match q.set_token(token(Some(5), false), 1_000) {
        Err(e) => assert_eq!(e.0, "Provided Spotify token is expired and has no refresh token"),
        Ok(_) => panic!("expected a refusal"),
    }
}
