//! Errors of Spotify Connect playback control and the search for a Connect
//! device to play on.
use vstd::prelude::*;
use vstd::string::*;

verus! {

/// Why a Spotify Connect command failed.
#[derive(Debug, Clone)]
pub enum SpotifyConnectError {
    NotAuthenticated,
    NoDevice(String),
    Api(String),
}

impl SpotifyConnectError {
    /// The message shown for this error.
    pub fn message(&self) -> (r: String)
        ensures
            self is NotAuthenticated ==> r@ == "Spotify is not authenticated"@,
            self matches SpotifyConnectError::NoDevice(m) ==> r@ == m@,
            self matches SpotifyConnectError::Api(m) ==> r@ == m@,
    {
        match self {
            SpotifyConnectError::NotAuthenticated => String::from_str("Spotify is not authenticated"),
            SpotifyConnectError::NoDevice(message) => message.clone(),
            SpotifyConnectError::Api(message) => message.clone(),
        }
    }
}

/// The active Connect device a control command targets; without one the
/// command fails with a hint to start playback first.
pub fn require_device(active: Option<String>) -> (r: Result<String, SpotifyConnectError>)
    ensures
        active matches Some(d) ==> r == Ok::<String, SpotifyConnectError>(d),
        active is None ==> (r matches Err(SpotifyConnectError::NoDevice(m)) && m@
            == "No active Spotify Connect device. Press play to start one."@),
{
    match active {
        Some(d) => Ok(d),
        None => Err(
            SpotifyConnectError::NoDevice(
                String::from_str("No active Spotify Connect device. Press play to start one."),
            ),
        ),
    }
}

/// The error when no Connect device appears: Spotify is missing when it could
/// not be launched, else no device registered in time.
pub fn no_device_error(launched: bool) -> (r: SpotifyConnectError)
    ensures
        !launched ==> (r matches SpotifyConnectError::NoDevice(m) && m@
            == "Spotify isn't installed. Install it, open it, and try again."@),
        launched ==> (r matches SpotifyConnectError::NoDevice(m) && m@
            == "No active Spotify Connect device found. Open Spotify on this computer (or another device on the same account) and try again."@),
{
    if !launched {
        SpotifyConnectError::NoDevice(
            String::from_str("Spotify isn't installed. Install it, open it, and try again."),
        )
    } else {
        SpotifyConnectError::NoDevice(
            String::from_str(
                "No active Spotify Connect device found. Open Spotify on this computer (or another device on the same account) and try again.",
            ),
        )
    }
}

/// How many times the search waits for a device after launching Spotify.
pub const DEVICE_WAIT_ATTEMPTS: u32 = 5;

/// How long each of those waits lasts, in milliseconds.
pub const DEVICE_WAIT_INTERVAL_MS: u64 = 1500;

/// Where a search for a Connect device stands: whether the local Spotify app
/// has been launched, and how many waits have been made since.
#[derive(Debug, Clone, Copy, PartialEq, Eq)]
pub struct DeviceSearch {
    pub launched: bool,
    pub waits: u32,
}

/// What the caller observed since the last step: the active device a lookup
/// found, or whether launching the Spotify app succeeded.
#[derive(Debug, Clone)]
pub enum DeviceSearchEvent {
    Looked(Option<String>),
    LaunchAttempted(bool),
}

/// What the caller does next.
#[derive(Debug, Clone)]
pub enum DeviceSearchStep {
    /// Play on this device.
    Found(String),
    /// Launch the local Spotify app and report whether that worked.
    Launch,
    /// Wait `DEVICE_WAIT_INTERVAL_MS`, look the active device up again and
    /// continue from this state.
    WaitThenLook(DeviceSearch),
    /// Give up with this error.
    Failed(SpotifyConnectError),
}

impl DeviceSearch {
    /// A search that has not looked yet: the caller's first action is a lookup.
    pub fn new() -> (r: DeviceSearch)
        ensures
            !r.launched,
            r.waits == 0,
    {
        DeviceSearch { launched: false, waits: 0 }
    }
}

/// One step of the search: a found device ends it; with none, the first miss
/// launches Spotify, a failed launch gives up, and after a launch the search
/// waits and looks again until `DEVICE_WAIT_ATTEMPTS` waits have passed.
pub fn device_search_step(state: DeviceSearch, event: DeviceSearchEvent) -> (r: DeviceSearchStep)
    requires
        state.waits <= DEVICE_WAIT_ATTEMPTS,
        state.waits > 0 ==> state.launched,
    ensures
        event matches DeviceSearchEvent::Looked(Some(d)) ==> r == DeviceSearchStep::Found(d),
        (event matches DeviceSearchEvent::Looked(None)) && !state.launched ==> r
            == DeviceSearchStep::Launch,
        (event matches DeviceSearchEvent::Looked(None)) && state.launched && state.waits
            < DEVICE_WAIT_ATTEMPTS ==> r == DeviceSearchStep::WaitThenLook(
            DeviceSearch { launched: true, waits: (state.waits + 1) as u32 },
        ),
        (event matches DeviceSearchEvent::Looked(None)) && state.launched && state.waits
            == DEVICE_WAIT_ATTEMPTS ==> (r matches DeviceSearchStep::Failed(
            SpotifyConnectError::NoDevice(m),
        ) && m@
            == "No active Spotify Connect device found. Open Spotify on this computer (or another device on the same account) and try again."@),
        event == DeviceSearchEvent::LaunchAttempted(false) ==> (r matches DeviceSearchStep::Failed(
            SpotifyConnectError::NoDevice(m),
        ) && m@ == "Spotify isn't installed. Install it, open it, and try again."@),
        event == DeviceSearchEvent::LaunchAttempted(true) ==> r == DeviceSearchStep::WaitThenLook(
            DeviceSearch { launched: true, waits: 1 },
        ),
        r matches DeviceSearchStep::WaitThenLook(next) ==> next.launched && 0 < next.waits
            <= DEVICE_WAIT_ATTEMPTS,
{
    match event {
        DeviceSearchEvent::Looked(Some(device_id)) => DeviceSearchStep::Found(device_id),
        DeviceSearchEvent::Looked(None) => {
            if !state.launched {
                DeviceSearchStep::Launch
            } else if state.waits < DEVICE_WAIT_ATTEMPTS {
                DeviceSearchStep::WaitThenLook(
                    DeviceSearch { launched: true, waits: state.waits + 1 },
                )
            } else {
                DeviceSearchStep::Failed(no_device_error(true))
            }
        },
        DeviceSearchEvent::LaunchAttempted(ok) => {
            if ok {
                DeviceSearchStep::WaitThenLook(DeviceSearch { launched: true, waits: 1 })
            } else {
                DeviceSearchStep::Failed(no_device_error(false))
            }
        },
    }
}

} // verus!
