use any_player::auth::{
    begin_auth_plan, can_restore_session, complete_auth_plan, credentials_to_store,
    jellyfin_session_request, plex_session_request, record_sign_in, spotify_oauth_settings,
    AuthRequest, BeginAuth, CompleteAuth,
};
use any_player::config::{Config, SpotifyToken, TokenStorage};
use any_player::models::Source;

fn request(pairs: &[(&str, &str)]) -> AuthRequest {
    AuthRequest::from_pairs(pairs.iter().map(|(k, v)| (k.to_string(), v.to_string())).collect())
}

#[test]
fn request_fields_read_back_what_was_inserted() {
    let mut r = request(&[("url", "http://a"), ("api_key", "k")]);
    assert_eq!(r.get("url"), Some("http://a"));
    assert_eq!(r.get("token"), None);
    r.insert("url".to_string(), "http://b".to_string());
    r.insert("user_id".to_string(), "u7".to_string());
    assert_eq!(r.get("url"), Some("http://b"));
    assert_eq!(r.get("user_id"), Some("u7"));
    assert_eq!(r.get("api_key"), Some("k"));
    assert_eq!(r.fields.len(), 3);
}

#[test]
fn session_requests() {
    let j = jellyfin_session_request("http://jf", "KEY", &Some("me".to_string()));
    assert_eq!(j.get("url"), Some("http://jf"));
    assert_eq!(j.get("api_key"), Some("KEY"));
    assert_eq!(j.get("user_id"), Some("me"));
    let j2 = jellyfin_session_request("http://jf", "KEY", &None);
    assert_eq!(j2.get("user_id"), None);
    let p = plex_session_request("http://plex", "TOK");
    assert_eq!(p.get("token"), Some("TOK"));
}

#[test]
fn begin_auth_plans() {
    assert_eq!(begin_auth_plan(Source::Jellyfin, true).unwrap(), BeginAuth::UseRegistered);
    assert_eq!(begin_auth_plan(Source::Spotify, false).unwrap(), BeginAuth::RegisterSpotify);
    assert_eq!(
        begin_auth_plan(Source::Jellyfin, false).unwrap_err().0,
        "Jellyfin authentication must be completed with credentials"
    );
    assert_eq!(
        begin_auth_plan(Source::Plex, false).unwrap_err().0,
        "Plex authentication must be completed with credentials"
    );
    assert_eq!(
        begin_auth_plan(Source::Custom, false).unwrap_err().0,
        "Custom provider does not support authentication"
    );
}

#[test]
fn spotify_oauth_settings_need_all_three() {
    let full = request(&[("client_id", "id"), ("client_secret", "s"), ("redirect_uri", "r")]);
    assert_eq!(
        spotify_oauth_settings(&full),
        Some(("id".to_string(), "s".to_string(), "r".to_string()))
    );
    assert_eq!(spotify_oauth_settings(&request(&[("client_id", "id")])), None);
}

#[test]
fn complete_auth_plans() {
    assert!(matches!(complete_auth_plan(Source::Plex, true, &request(&[])), Ok(CompleteAuth::UseRegistered)));
    assert_eq!(
        complete_auth_plan(Source::Spotify, false, &request(&[])).unwrap_err().0,
        "Spotify provider not initialized. Call begin_auth first."
    );
    match complete_auth_plan(Source::Jellyfin, false, &request(&[("url", "http://jf"), ("api_key", "k")])) {
        Ok(CompleteAuth::RegisterServer { url, secret }) => {
            assert_eq!(url, "http://jf");
            assert_eq!(secret, "k");
        }
        _ => panic!("expected a server registration"),
    }
    assert_eq!(
        complete_auth_plan(Source::Jellyfin, false, &request(&[("url", "http://jf")])).unwrap_err().0,
        "Missing Jellyfin api_key"
    );
    match complete_auth_plan(Source::Plex, false, &request(&[("url", "https://plex/"), ("token", "t")])) {
        Ok(CompleteAuth::RegisterServer { url, secret }) => {
            assert_eq!(url, "https://plex");
            assert_eq!(secret, "t");
        }
        _ => panic!("expected a server registration"),
    }
    assert_eq!(
        complete_auth_plan(Source::Plex, false, &request(&[("url", "plex:32400"), ("token", "t")])).unwrap_err().0,
        "Invalid Plex URL. Include http:// or https:// (for example: http://127.0.0.1:32400)"
    );
    assert_eq!(
        complete_auth_plan(Source::Custom, false, &request(&[])).unwrap_err().0,
        "Custom provider does not support authentication"
    );
}

#[test]
fn completed_sign_in_is_recorded_and_restorable() {
    let req = request(&[("url", "http://jf"), ("api_key", "k")]);
    assert_eq!(credentials_to_store(Source::Jellyfin, &req), Some(("http://jf".to_string(), "k".to_string())));
    assert_eq!(credentials_to_store(Source::Plex, &req), None);
    let mut tokens = TokenStorage::default();
    assert!(!can_restore_session(&tokens, Source::Jellyfin));
    record_sign_in(&mut tokens, Source::Jellyfin, &req, None);
    assert_eq!(tokens.jellyfin_url.as_deref(), Some("http://jf"));
    assert_eq!(tokens.jellyfin_api_key.as_deref(), Some("k"));
    assert!(can_restore_session(&tokens, Source::Jellyfin));
    assert_eq!(tokens.server_credentials(Source::Jellyfin), Some(("http://jf".to_string(), "k".to_string())));
    assert!(!can_restore_session(&tokens, Source::Plex));
    assert!(!can_restore_session(&tokens, Source::Custom));
}

#[test]
fn spotify_token_is_recorded() {
    let mut tokens = TokenStorage::default();
    let token = SpotifyToken {
        access_token: "at".to_string(),
        expires_in_secs: 3600,
        expires_at_ms: Some(1),
        refresh_token: None,
        scopes: vec!["streaming".to_string()],
    };
    record_sign_in(&mut tokens, Source::Spotify, &request(&[]), Some(token));
    assert_eq!(tokens.spotify_token.as_ref().unwrap().access_token, "at");
    assert!(can_restore_session(&tokens, Source::Spotify));
}

#[test]
fn disconnecting_forgets_only_that_provider() {
    let mut tokens = TokenStorage::default();
    tokens.remember_server(Source::Jellyfin, "http://jf".to_string(), "k".to_string());
    tokens.remember_server(Source::Plex, "http://plex".to_string(), "t".to_string());
    tokens.forget(Source::Jellyfin);
    assert!(tokens.server_credentials(Source::Jellyfin).is_none());
    assert_eq!(tokens.server_credentials(Source::Plex), Some(("http://plex".to_string(), "t".to_string())));
    tokens.forget(Source::Plex);
    assert!(tokens.plex_url.is_none());
    assert!(tokens.plex_token.is_none());
}

#[test]
fn data_dir_prefers_the_configured_one() {
    let mut config = Config::default();
    config.general.data_dir = Some("/srv/music".to_string());
    assert_eq!(config.get_data_dir().unwrap(), "/srv/music");
    assert_eq!(config.general.theme, "default");
    assert!(config.general.logging_enabled);
    assert!(config.spotify.is_none());
}

#[test]
fn application_directories_end_in_the_app_name() {
    if let Ok(dir) = Config::cache_dir() {
        assert!(dir.ends_with("any-player"));
        assert!(dir.len() > "any-player".len());
    }
    if let Ok(dir) = Config::config_dir() {
        assert!(dir.ends_with("any-player"));
    }
    let config = Config::default();
    if let Ok(dir) = config.get_data_dir() {
        assert!(dir.ends_with("any-player"));
    }
}
