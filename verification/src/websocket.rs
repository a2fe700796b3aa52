//! The status records pushed to the frontend over the local WebSocket, and
//! the rule on where a WebSocket connection may come from.
use crate::net::{parse_url_host, parsed_view, url_host_of};
use crate::text::text_eq;
use vstd::prelude::*;

verus! {

/// Spotify sign-in status.
#[derive(Debug, Clone)]
pub struct SpotifyAuthStatus {
    pub authenticated: bool,
    pub premium: Option<bool>,
    pub session_ready: bool,
}

/// Jellyfin sign-in status.
#[derive(Debug, Clone)]
pub struct JellyfinAuthStatus {
    pub authenticated: bool,
}

/// The Spotify status to report: the premium flag is only reported for a
/// signed-in account.
pub fn spotify_auth_status(authenticated: bool, premium: Option<bool>, session_ready: bool) -> (r:
    SpotifyAuthStatus)
    ensures
        r.authenticated == authenticated,
        r.premium == (if authenticated {
            premium
        } else {
            None
        }),
        r.session_ready == session_ready,
{
    SpotifyAuthStatus {
        authenticated,
        premium: if authenticated {
            premium
        } else {
            None
        },
        session_ready,
    }
}

/// Whether a connection whose Origin header is `origin`, with the given URL
/// parse of it, is let in: a URL whose host is localhost, 127.0.0.1 or ::1,
/// or, when the origin is not a URL at all, exactly `tauri://localhost`.
pub open spec fn origin_allowed_spec(origin: Seq<char>, parsed: Option<Option<Seq<char>>>) -> bool {
    match parsed {
        Some(Some(host)) => host == "localhost"@ || host == "127.0.0.1"@ || host == "::1"@,
        Some(None) => false,
        None => origin == "tauri://localhost"@,
    }
}

/// Decides on an Origin header given how it parses as a URL.
pub fn origin_allowed_for(origin: &str, parsed: &Option<Option<String>>) -> (r: bool)
    ensures
        r == origin_allowed_spec(origin@, parsed_view(*parsed)),
{
    match parsed {
        Some(Some(host)) => text_eq(host.as_str(), "localhost") || text_eq(host.as_str(), "127.0.0.1")
            || text_eq(host.as_str(), "::1"),
        Some(None) => false,
        None => text_eq(origin, "tauri://localhost"),
    }
}

/// Whether a WebSocket connection with this Origin header is let in.
pub fn origin_allowed(origin: &str) -> (r: bool)
    ensures
        r == origin_allowed_spec(origin@, url_host_of(origin@)),
{
    let parsed = parse_url_host(origin);
    origin_allowed_for(origin, &parsed)
}

} // verus!
