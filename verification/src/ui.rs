//! The pages of the terminal interface and its state.
use vstd::prelude::*;

verus! {

/// UI state for the application.
#[derive(Debug, Clone, Copy, PartialEq, Eq, Structural)]
pub enum AppPage {
    Home,
    SearchPlaylists,
    ViewPlaylist,
    NowPlaying,
    Queue,
    Settings,
}

/// Application UI state.
#[derive(Debug)]
pub struct AppState {
    pub current_page: AppPage,
    pub exit: bool,
}

impl AppState {
    /// The start state: the home page, not exiting.
    pub fn new() -> (r: AppState)
        ensures
            r.current_page == AppPage::Home,
            !r.exit,
    {
        AppState { current_page: AppPage::Home, exit: false }
    }
}

} // verus!
