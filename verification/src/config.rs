//! Application configuration: its sections, defaults, and the directories
//! the application keeps its files in.
use crate::models::{opt_view, Source};
use vstd::prelude::*;
use vstd::string::*;

verus! {

/// Application configuration.
#[derive(Debug, Clone)]
pub struct Config {
    pub general: GeneralConfig,
    pub spotify: Option<SpotifyConfig>,
    pub jellyfin: Option<JellyfinConfig>,
}

/// General application settings.
#[derive(Debug, Clone)]
pub struct GeneralConfig {
    /// Application data directory.
    pub data_dir: Option<String>,
    /// Enable logging.
    pub logging_enabled: bool,
    /// Log level (error, warn, info, debug, trace).
    pub log_level: String,
    /// Enable image rendering.
    pub enable_images: bool,
    /// Theme name.
    pub theme: String,
}

/// Spotify-specific configuration.
#[derive(Debug, Clone)]
pub struct SpotifyConfig {
    /// Spotify Client ID (OAuth application).
    pub client_id: Option<String>,
    /// Spotify Client Secret (OAuth application).
    pub client_secret: Option<String>,
    /// Redirect URI for OAuth flow.
    pub redirect_uri: Option<String>,
    /// Enable direct playback via librespot.
    pub enable_streaming: bool,
}

/// Jellyfin-specific configuration.
#[derive(Debug, Clone)]
pub struct JellyfinConfig {
    /// Jellyfin server URL (e.g., http://192.168.1.100:8096).
    pub server_url: String,
    /// Jellyfin API key.
    pub api_key: String,
    /// Username for authentication.
    pub username: Option<String>,
    /// User ID (populated after authentication).
    pub user_id: Option<String>,
}

/// A Spotify OAuth token as it is kept in secure storage.
#[derive(Debug, Clone)]
pub struct SpotifyToken {
    pub access_token: String,
    /// Lifetime of the access token when it was issued, in seconds.
    pub expires_in_secs: i64,
    /// When the access token expires, in milliseconds since the Unix epoch.
    pub expires_at_ms: Option<i64>,
    pub refresh_token: Option<String>,
    pub scopes: Vec<String>,
}

/// Credentials kept in the platform's secure storage (the keyring).
#[derive(Debug, Clone)]
pub struct TokenStorage {
    /// Spotify token.
    pub spotify_token: Option<SpotifyToken>,
    /// Jellyfin API key.
    pub jellyfin_api_key: Option<String>,
    /// Jellyfin server URL.
    pub jellyfin_url: Option<String>,
    /// Plex token.
    pub plex_token: Option<String>,
    /// Plex server URL.
    pub plex_url: Option<String>,
}

impl Default for TokenStorage {
    /// Nothing stored.
    fn default() -> (r: TokenStorage)
        ensures
            r.spotify_token is None,
            r.jellyfin_api_key is None,
            r.jellyfin_url is None,
            r.plex_token is None,
            r.plex_url is None,
    {
        TokenStorage {
            spotify_token: None,
            jellyfin_api_key: None,
            jellyfin_url: None,
            plex_token: None,
            plex_url: None,
        }
    }
}

/// Both parts of a pair, when both are there.
pub open spec fn both(a: Option<String>, b: Option<String>) -> Option<(Seq<char>, Seq<char>)> {
    match (a, b) {
        (Some(x), Some(y)) => Some((x@, y@)),
        _ => None,
    }
}

/// The server URL and secret stored for a provider that signs in to a
/// server (Jellyfin: URL and API key; Plex: URL and token), when both are
/// stored.
pub open spec fn server_credentials_spec(t: TokenStorage, source: Source) -> Option<(Seq<char>, Seq<char>)> {
    match source {
        Source::Jellyfin => both(t.jellyfin_url, t.jellyfin_api_key),
        Source::Plex => both(t.plex_url, t.plex_token),
        _ => None,
    }
}

/// The storage with a server sign-in recorded for a provider; other
/// providers' entries are untouched, and sources without server sign-in
/// record nothing.
pub open spec fn remembered(t: TokenStorage, source: Source, url: String, secret: String) -> TokenStorage {
    match source {
        Source::Jellyfin => TokenStorage { jellyfin_url: Some(url), jellyfin_api_key: Some(secret), ..t },
        Source::Plex => TokenStorage { plex_url: Some(url), plex_token: Some(secret), ..t },
        _ => t,
    }
}

/// The storage with every credential of a provider removed (what
/// disconnecting it does); other providers' entries are untouched.
pub open spec fn forgotten(t: TokenStorage, source: Source) -> TokenStorage {
    match source {
        Source::Spotify => TokenStorage { spotify_token: None, ..t },
        Source::Jellyfin => TokenStorage { jellyfin_url: None, jellyfin_api_key: None, ..t },
        Source::Plex => TokenStorage { plex_url: None, plex_token: None, ..t },
        Source::Custom => t,
    }
}

fn both_exec(a: &Option<String>, b: &Option<String>) -> (r: Option<(String, String)>)
    ensures
        match r {
            Some(p) => both(*a, *b) == Some((p.0@, p.1@)),
            None => both(*a, *b) is None,
        },
{
    match (a, b) {
        (Some(x), Some(y)) => Some((x.clone(), y.clone())),
        _ => None,
    }
}

impl TokenStorage {
    /// The stored server URL and secret of a provider, when both are stored.
    pub fn server_credentials(&self, source: Source) -> (r: Option<(String, String)>)
        ensures
            match r {
                Some(p) => server_credentials_spec(*self, source) == Some((p.0@, p.1@)),
                None => server_credentials_spec(*self, source) is None,
            },
    {
        match source {
            Source::Jellyfin => both_exec(&self.jellyfin_url, &self.jellyfin_api_key),
            Source::Plex => both_exec(&self.plex_url, &self.plex_token),
            _ => None,
        }
    }

    /// Records a successful server sign-in of a provider.
    pub fn remember_server(&mut self, source: Source, url: String, secret: String)
        ensures
            *final(self) == remembered(*old(self), source, url, secret),
    {
        match source {
            Source::Jellyfin => {
                self.jellyfin_url = Some(url);
                self.jellyfin_api_key = Some(secret);
            },
            Source::Plex => {
                self.plex_url = Some(url);
                self.plex_token = Some(secret);
            },
            _ => {},
        }
    }

    /// Records the Spotify token.
    pub fn remember_spotify_token(&mut self, token: SpotifyToken)
        ensures
            *final(self) == (TokenStorage { spotify_token: Some(token), ..*old(self) }),
    {
        self.spotify_token = Some(token);
    }

    /// Removes every stored credential of a provider.
    pub fn forget(&mut self, source: Source)
        ensures
            *final(self) == forgotten(*old(self), source),
    {
        match source {
            Source::Spotify => {
                self.spotify_token = None;
            },
            Source::Jellyfin => {
                self.jellyfin_url = None;
                self.jellyfin_api_key = None;
            },
            Source::Plex => {
                self.plex_url = None;
                self.plex_token = None;
            },
            Source::Custom => {},
        }
    }
}

/// What is stored for a server sign-in is what reading the credentials back
/// gives.
pub proof fn lemma_remembered_credentials_read_back(
    t: TokenStorage,
    source: Source,
    url: String,
    secret: String,
)
    requires
        source == Source::Jellyfin || source == Source::Plex,
    ensures
        server_credentials_spec(remembered(t, source, url, secret), source) == Some((url@, secret@)),
{
}

/// After a provider is disconnected no credentials of it can be read back,
/// and the other providers' credentials are as they were.
pub proof fn lemma_forget_removes_only_that_provider(t: TokenStorage, source: Source, other: Source)
    requires
        other != source,
    ensures
        server_credentials_spec(forgotten(t, source), source) is None,
        source == Source::Spotify ==> forgotten(t, source).spotify_token is None,
        server_credentials_spec(forgotten(t, source), other) == server_credentials_spec(t, other),
        other == Source::Spotify ==> forgotten(t, source).spotify_token == t.spotify_token,
{
}

/// Why a configuration directory could not be determined.
#[derive(Debug, Clone)]
pub struct ConfigError {
    pub message: String,
}

impl Default for Config {
    /// Logging on at level "info", images on, the "default" theme, the default
    /// data directory, and no provider sections.
    fn default() -> (r: Config)
        ensures
            r.general.data_dir is None,
            r.general.logging_enabled,
            r.general.log_level@ == "info"@,
            r.general.enable_images,
            r.general.theme@ == "default"@,
            r.spotify is None,
            r.jellyfin is None,
    {
        Config {
            general: GeneralConfig {
                data_dir: None,
                logging_enabled: true,
                log_level: String::from_str("info"),
                enable_images: true,
                theme: String::from_str("default"),
            },
            spotify: None,
            jellyfin: None,
        }
    }
}

/// The user's cache directory, if the platform has one.
///
/// Calls `dirs::cache_dir` and converts the path to text. The answer depends
/// on the platform and the environment, so nothing is stated of it.
#[verifier::external_body]
fn user_cache_dir() -> Option<String> {
    dirs::cache_dir().map(|p| p.to_string_lossy().into_owned())
}

/// The user's configuration directory, if the platform has one.
///
/// Calls `dirs::config_dir` and converts the path to text. The answer depends
/// on the platform and the environment, so nothing is stated of it.
#[verifier::external_body]
fn user_config_dir() -> Option<String> {
    dirs::config_dir().map(|p| p.to_string_lossy().into_owned())
}

/// Whether a character separates path components on some platform.
pub open spec fn is_path_sep(c: char) -> bool {
    c == '/' || c == '\\'
}

/// Whether a path begins with a verbatim prefix (`\\?\`), which Windows
/// rebuilds from its components when a component is added.
pub open spec fn is_verbatim_path(p: Seq<char>) -> bool {
    p.len() >= 3 && is_path_sep(p[0]) && is_path_sep(p[1]) && p[2] == '?'
}

/// A single plain path component: not empty, not `.` or `..`, and holding no
/// separator and no drive colon.
pub open spec fn is_plain_component(c: Seq<char>) -> bool {
    &&& c.len() > 0
    &&& c != "."@
    &&& c != ".."@
    &&& forall|i: int| 0 <= i < c.len() ==> !is_path_sep(#[trigger] c[i]) && c[i] != ':'
}

/// `r` is `base` and `child` joined by nothing or by one separator.
pub open spec fn joined_path(base: Seq<char>, child: Seq<char>, r: Seq<char>) -> bool {
    ||| r == base + child
    ||| r == base + seq!['/'] + child
    ||| r == base + seq!['\\'] + child
}

/// A path with one more component.
///
/// Calls `std::path::Path::join` (`PathBuf::push`) and converts the result,
/// built from UTF-8 text and ASCII separators, back to text. For a plain child
/// the source appends the child after the base, with the platform separator
/// unless the base is empty, already ends in a separator, or is a bare drive
/// (`C:`). A base with a verbatim prefix is instead rebuilt from its
/// components, so for it the contract claims only that the result ends with
/// the child.
#[verifier::external_body]
fn join_path(base: &str, child: &str) -> (r: String)
    requires
        is_plain_component(child@),
    ensures
        child@.is_suffix_of(r@),
        !is_verbatim_path(base@) ==> joined_path(base@, child@, r@),
        !is_verbatim_path(base@) && base@.len() > 0 && !is_path_sep(base@.last()) && base@.last()
            != ':' ==> r@ != base@ + child@,
{
    std::path::Path::new(base).join(child).to_string_lossy().into_owned()
}

/// The application's directory inside a base directory, or the error message
/// when there is no base directory.
fn app_dir_in(base: Option<String>, missing: &str) -> (r: Result<String, ConfigError>)
    ensures
        base is None ==> (r matches Err(e) && e.message@ == missing@),
        base matches Some(b) ==> (r matches Ok(p) && "any-player"@.is_suffix_of(p@)),
        base matches Some(b) ==> (!is_verbatim_path(b@) ==> (r matches Ok(p) && joined_path(b@, "any-player"@, p@))),
        base matches Some(b) ==> (!is_verbatim_path(b@) && b@.len() > 0 && !is_path_sep(b@.last())
            && b@.last() != ':' ==> (r matches Ok(p) && p@ != b@ + "any-player"@)),
{
    proof {
        reveal_strlit("any-player");
        assert("any-player"@ != "."@) by { reveal_strlit("."); assert("any-player"@.len() != "."@.len()); }
        assert("any-player"@ != ".."@) by { reveal_strlit(".."); assert("any-player"@.len() != ".."@.len()); }
    }
    match base {
        Some(dir) => Ok(join_path(dir.as_str(), "any-player")),
        None => Err(ConfigError { message: String::from_str(missing) }),
    }
}

impl Config {
    /// The application's configuration directory ("any-player" inside the
    /// user's configuration directory).
    pub fn config_dir() -> (r: Result<String, ConfigError>)
        ensures
            r matches Err(e) ==> e.message@ == "Unable to determine config directory"@,
            r matches Ok(p) ==> "any-player"@.is_suffix_of(p@),
    {
        app_dir_in(user_config_dir(), "Unable to determine config directory")
    }

    /// The application's cache directory ("any-player" inside the user's cache
    /// directory).
    pub fn cache_dir() -> (r: Result<String, ConfigError>)
        ensures
            r matches Err(e) ==> e.message@ == "Unable to determine cache directory"@,
            r matches Ok(p) ==> "any-player"@.is_suffix_of(p@),
    {
        app_dir_in(user_cache_dir(), "Unable to determine cache directory")
    }

    /// The data directory: the configured one when set, else the cache
    /// directory.
    pub fn get_data_dir(&self) -> (r: Result<String, ConfigError>)
        ensures
            self.general.data_dir matches Some(d) ==> (r matches Ok(p) && p@ == d@),
            self.general.data_dir is None ==> (r matches Err(e) ==> e.message@
                == "Unable to determine cache directory"@),
            self.general.data_dir is None ==> (r matches Ok(p) ==> "any-player"@.is_suffix_of(p@)),
    {
        match &self.general.data_dir {
            Some(custom_dir) => Ok(custom_dir.clone()),
            None => Self::cache_dir(),
        }
    }
}

} // verus!
