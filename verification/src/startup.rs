//! Application start-up: which stored sessions are brought back, and the
//! progress reports the frontend shows while that happens.
use crate::text::concat;
use vstd::prelude::*;
use vstd::string::*;

verus! {

/// A progress report of the start-up sequence.
#[derive(Debug, Clone)]
pub struct BackendInitStatus {
    /// Which step the report is about.
    pub stage: String,
    /// What the frontend shows (empty when there is nothing to show).
    pub message: String,
    /// Whether start-up has finished.
    pub done: bool,
    /// Whether the step went well so far.
    pub success: bool,
}

/// A step of the start-up sequence that is announced when it begins.
#[derive(Debug, Clone, Copy, PartialEq, Eq, Structural)]
pub enum StartupStep {
    RestoreProviders,
    SpotifySession,
    JellyfinRestore,
    PlexRestore,
}

/// The stage name and message announcing a step.
pub open spec fn step_text(step: StartupStep) -> (Seq<char>, Seq<char>) {
    match step {
        StartupStep::RestoreProviders => ("startup"@, "Restoring provider sessions..."@),
        StartupStep::SpotifySession => ("spotify-session"@, "Initializing Spotify playback session..."@),
        StartupStep::JellyfinRestore => ("jellyfin-restore"@, "Restoring Jellyfin session..."@),
        StartupStep::PlexRestore => ("plex-restore"@, "Restoring Plex session..."@),
    }
}

fn status(stage: &str, message: &str, done: bool, success: bool) -> (r: BackendInitStatus)
    ensures
        r.stage@ == stage@,
        r.message@ == message@,
        r.done == done,
        r.success == success,
{
    BackendInitStatus {
        stage: String::from_str(stage),
        message: String::from_str(message),
        done,
        success,
    }
}

/// The report announcing that a step begins.
pub fn step_started(step: StartupStep) -> (r: BackendInitStatus)
    ensures
        r.stage@ == step_text(step).0,
        r.message@ == step_text(step).1,
        !r.done,
        r.success,
{
    match step {
        StartupStep::RestoreProviders => status("startup", "Restoring provider sessions...", false, true),
        StartupStep::SpotifySession => status(
            "spotify-session",
            "Initializing Spotify playback session...",
            false,
            true,
        ),
        StartupStep::JellyfinRestore => status("jellyfin-restore", "Restoring Jellyfin session...", false, true),
        StartupStep::PlexRestore => status("plex-restore", "Restoring Plex session...", false, true),
    }
}

/// Whether the Spotify playback session is started at start-up: only for a
/// restored premium account whose access token is at hand.
pub fn should_start_spotify_session(restored: bool, premium: Option<bool>, has_access_token: bool) -> (r: bool)
    ensures
        r == (restored && premium == Some(true) && has_access_token),
{
    restored && match premium {
        Some(p) => p,
        None => false,
    } && has_access_token
}

/// The report of a Spotify session that failed to start with `error`.
pub fn session_start_failed(error: &str) -> (r: BackendInitStatus)
    ensures
        r.stage@ == "spotify-session"@,
        r.message@ == "Failed to initialize Spotify session: "@ + error@,
        !r.done,
        !r.success,
{
    let message = concat("Failed to initialize Spotify session: ", error);
    status("spotify-session", message.as_str(), false, false)
}

/// The report of a Spotify session that did not start in time.
pub fn session_start_timed_out() -> (r: BackendInitStatus)
    ensures
        r.stage@ == "spotify-session"@,
        r.message@ == "Spotify session initialization timed out"@,
        !r.done,
        !r.success,
{
    status("spotify-session", "Spotify session initialization timed out", false, false)
}

/// The report of a saved playback session that could not be restored.
pub fn playback_restore_failed(error: &str) -> (r: BackendInitStatus)
    ensures
        r.stage@ == "playback-restore"@,
        r.message@ == "Failed to restore playback state: "@ + error@,
        !r.done,
        !r.success,
{
    let message = concat("Failed to restore playback state: ", error);
    status("playback-restore", message.as_str(), false, false)
}

/// The final report: success with nothing to show, or a note that some step
/// failed.
pub fn startup_finished(has_failures: bool) -> (r: BackendInitStatus)
    ensures
        r.stage@ == "complete"@,
        r.done,
        r.success == !has_failures,
        has_failures ==> r.message@ == "Backend startup completed with some failures"@,
        !has_failures ==> r.message@ == Seq::<char>::empty(),
{
    if has_failures {
        status("complete", "Backend startup completed with some failures", true, false)
    } else {
        let r = status("complete", "", true, true);
        proof {
            reveal_strlit("");
        }
        r
    }
}

} // verus!
