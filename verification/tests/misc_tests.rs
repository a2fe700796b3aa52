use any_player::cache::{
    cleanup_due, custom_playlist_tracks_cache_file, is_provider_playlist_cache_file,
    is_stale_temp_audio, is_temp_audio_file, new_temp_audio_file_name, provider_cache_files,
    provider_playlist_cache_file, union_playlist_tracks_cache_file,
};
use any_player::oauth::{code_from_path, parse_oauth_callback, request_path, OAuthCallback};
use any_player::providers::ProviderError;
use any_player::spotify_connect::{
    device_search_step, no_device_error, require_device, DeviceSearch, DeviceSearchEvent,
    DeviceSearchStep, SpotifyConnectError, DEVICE_WAIT_ATTEMPTS,
};
use any_player::text::{contains, ends_with, eq_ignore_ascii_case, find_from, strip_prefix, trim_start_matches};
use any_player::export::{decimal_string, export_file_name, export_target};
use any_player::ui::{AppPage, AppState};
use any_player::websocket::{origin_allowed, spotify_auth_status};
use any_player::startup::{
    playback_restore_failed, session_start_failed, session_start_timed_out,
    should_start_spotify_session, startup_finished, step_started, StartupStep,
};

#[test]
fn oauth_callback_delivers_the_code() {
    assert_eq!(
        parse_oauth_callback("GET /login?code=AQB123&state=xyz HTTP/1.1\r\n"),
        OAuthCallback::Code("AQB123".to_string())
    );
    assert_eq!(
        parse_oauth_callback("GET /login?code=abc HTTP/1.1"),
        OAuthCallback::Code("abc".to_string())
    );
}

#[test]
fn oauth_callback_refusals_and_other_requests() {
    assert_eq!(
        parse_oauth_callback("GET /login?error=access_denied HTTP/1.1"),
        OAuthCallback::Denied
    );
    assert_eq!(parse_oauth_callback("GET /favicon.ico HTTP/1.1"), OAuthCallback::NotFound);
    assert_eq!(parse_oauth_callback("GET"), OAuthCallback::NotFound);
    assert_eq!(parse_oauth_callback(""), OAuthCallback::NotFound);
}

#[test]
fn oauth_path_and_code_parsing() {
    assert_eq!(request_path("  GET\t/x?y   HTTP/1.1").as_deref(), Some("/x?y"));
    assert_eq!(request_path("GET"), None);
    assert_eq!(code_from_path("/cb?a=1&code=c1&b=2").as_deref(), Some("c1"));
    assert_eq!(code_from_path("/cb?code=c1code=c2").as_deref(), Some("c1"));
    assert_eq!(code_from_path("/cb?code=").as_deref(), Some(""));
    assert_eq!(code_from_path("/cb?nothing"), None);
}

#[test]
fn cache_file_names() {
    assert_eq!(custom_playlist_tracks_cache_file("p1"), "custom_playlist_tracks_p1.json");
    assert_eq!(union_playlist_tracks_cache_file("u1"), "union_playlist_tracks_u1.json");
    assert_eq!(provider_playlist_cache_file("spotify", "x"), "provider_playlist_spotify_x.json");
    assert!(is_provider_playlist_cache_file("provider_playlist_plex_1.json"));
    assert!(!is_provider_playlist_cache_file("playlists_cache.json"));
    let names = vec![
        "provider_playlist_a.json".to_string(),
        "playlists_cache.json".to_string(),
        "provider_playlist_b.json".to_string(),
    ];
    assert_eq!(provider_cache_files(&names), vec!["provider_playlist_a.json", "provider_playlist_b.json"]);
}

#[test]
fn temp_audio_cleanup_decisions() {
    assert!(is_temp_audio_file("any-player-audio-123.mp3"));
    assert!(!is_temp_audio_file("any-player-audio-123.wav"));
    assert!(!is_temp_audio_file("other-123.mp3"));
    assert!(is_stale_temp_audio("any-player-audio-1.mp3", 3601));
    assert!(!is_stale_temp_audio("any-player-audio-1.mp3", 3600));
    assert!(cleanup_due(1000, 700));
    assert!(!cleanup_due(1000, 701));
    assert!(!cleanup_due(5, 10));
}

#[test]
fn new_temp_audio_names_are_recognised() {
    let a = new_temp_audio_file_name();
    let b = new_temp_audio_file_name();
    assert!(is_temp_audio_file(&a));
    assert_eq!(a.len(), "any-player-audio-".len() + 36 + ".mp3".len());
    assert_ne!(a, b);
}

#[test]
fn websocket_origins() {
    assert!(origin_allowed("http://localhost:1420"));
    assert!(origin_allowed("http://127.0.0.1:8990"));
    assert!(origin_allowed("tauri://localhost"));
    assert!(!origin_allowed("https://evil.example.com"));
    assert!(!origin_allowed("null"));
}

#[test]
fn spotify_status_hides_premium_when_signed_out() {
    let s = spotify_auth_status(false, Some(true), false);
    assert!(s.premium.is_none());
    let s = spotify_auth_status(true, Some(true), true);
    assert_eq!(s.premium, Some(true));
    assert!(s.session_ready);
}

#[test]
fn connect_device_errors() {
    assert_eq!(require_device(Some("dev".to_string())).unwrap(), "dev");
    match require_device(None) {
        Err(SpotifyConnectError::NoDevice(m)) => {
            assert_eq!(m, "No active Spotify Connect device. Press play to start one.")
        }
        _ => panic!("expected a missing device"),
    }
    assert_eq!(
        no_device_error(false).message(),
        "Spotify isn't installed. Install it, open it, and try again."
    );
    assert_eq!(SpotifyConnectError::NotAuthenticated.message(), "Spotify is not authenticated");
}

#[test]
fn text_helpers() {
    assert_eq!(strip_prefix("spotify:track:x", "spotify:track:").as_deref(), Some("x"));
    assert_eq!(strip_prefix("x", "spotify:"), None);
    assert!(ends_with("a.mp3", ".mp3"));
    assert!(eq_ignore_ascii_case("CuStOm", "custom"));
    assert!(!eq_ignore_ascii_case("custom", "custo"));
    assert!(contains("hello world", "o w"));
    assert_eq!(find_from("abcabc", "bc", 2), Some(4));
    assert_eq!(find_from("abc", "z", 0), None);
    assert_eq!(trim_start_matches("//a/b", '/'), "a/b");
}

#[test]
fn provider_error_message() {
    assert_eq!(ProviderError("oops".to_string()).message(), "oops");
}

#[test]
fn tui_starts_on_home() {
    let s = AppState::new();
    assert_eq!(s.current_page, AppPage::Home);
    assert!(!s.exit);
}

#[test]
fn startup_reports() {
    let s = step_started(StartupStep::JellyfinRestore);
    assert_eq!(s.stage, "jellyfin-restore");
    assert_eq!(s.message, "Restoring Jellyfin session...");
    assert!(!s.done && s.success);
    assert!(should_start_spotify_session(true, Some(true), true));
    assert!(!should_start_spotify_session(true, Some(false), true));
    assert!(!should_start_spotify_session(true, Some(true), false));
    assert!(!should_start_spotify_session(false, Some(true), true));
    assert_eq!(session_start_failed("boom").message, "Failed to initialize Spotify session: boom");
    assert_eq!(session_start_timed_out().message, "Spotify session initialization timed out");
    assert_eq!(playback_restore_failed("bad").stage, "playback-restore");
    let done = startup_finished(false);
    assert!(done.done && done.success);
    assert_eq!(done.message, "");
    let failed = startup_finished(true);
    assert!(!failed.success);
    assert_eq!(failed.message, "Backend startup completed with some failures");
}

fn run_device_search(lookups: &[Option<&str>], launch_ok: bool) -> (DeviceSearchStep, usize, usize) {
    let mut state = DeviceSearch::new();
    let mut event = DeviceSearchEvent::Looked(lookups[0].map(|d| d.to_string()));
    let mut looked = 1;
    let mut waits = 0;
    loop {
        match device_search_step(state, event) {
            DeviceSearchStep::Launch => event = DeviceSearchEvent::LaunchAttempted(launch_ok),
            DeviceSearchStep::WaitThenLook(next) => {
                state = next;
                waits += 1;
                let found = lookups.get(looked).copied().flatten().map(|d| d.to_string());
                looked += 1;
                event = DeviceSearchEvent::Looked(found);
            }
            done => return (done, looked, waits),
        }
    }
}

#[test]
fn device_search_uses_an_active_device_at_once() {
    let (step, looked, waits) = run_device_search(&[Some("dev-1")], true);
    assert!(matches!(step, DeviceSearchStep::Found(ref d) if d == "dev-1"));
    assert_eq!((looked, waits), (1, 0));
}

#[test]
fn device_search_waits_for_the_launched_app() {
    let (step, looked, waits) = run_device_search(&[None, None, Some("desktop")], true);
    assert!(matches!(step, DeviceSearchStep::Found(ref d) if d == "desktop"));
    assert_eq!((looked, waits), (3, 2));
}

#[test]
fn device_search_gives_up_after_the_last_wait() {
    let (step, looked, waits) = run_device_search(&[None], true);
    assert_eq!(waits, DEVICE_WAIT_ATTEMPTS as usize);
    assert_eq!(looked, 1 + DEVICE_WAIT_ATTEMPTS as usize);
    match step {
        DeviceSearchStep::Failed(e) => assert_eq!(e.message(), no_device_error(true).message()),
        _ => panic!("expected the search to fail"),
    }
}

#[test]
fn device_search_reports_a_missing_spotify_app() {
    let (step, looked, waits) = run_device_search(&[None], false);
    assert_eq!((looked, waits), (1, 0));
    match step {
        DeviceSearchStep::Failed(SpotifyConnectError::NoDevice(m)) => {
            assert_eq!(m, "Spotify isn't installed. Install it, open it, and try again.")
        }
        _ => panic!("expected the search to fail"),
    }
}

#[test]
fn export_file_names_count_up_from_the_plain_name() {
    assert_eq!(export_file_name("2024-05-01", 0), "any-player-config-2024-05-01.json");
    assert_eq!(export_file_name("2024-05-01", 1), "any-player-config-2024-05-01-1.json");
    assert_eq!(export_file_name("2024-05-01", 12), "any-player-config-2024-05-01-12.json");
    assert_eq!(decimal_string(0), "0");
    assert_eq!(decimal_string(4294967295), "4294967295");
}

#[test]
fn export_paths_are_trimmed_and_must_not_be_empty() {
    assert_eq!(export_target("  /tmp/out.json \n"), Ok("/tmp/out.json".to_string()));
    assert_eq!(export_target("\u{a0}a b\t"), Ok("a b".to_string()));
    assert_eq!(export_target(" \t\n "), Err("Export path cannot be empty".to_string()));
    assert_eq!(export_target(""), Err("Export path cannot be empty".to_string()));
}
