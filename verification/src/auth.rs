//! Signing in to providers: the fields of a sign-in request and the
//! decisions the provider registry takes when a sign-in starts, completes or
//! is restored.
use crate::config::{server_credentials_spec, TokenStorage};
use crate::jellyfin::jellyfin_credentials;
use crate::models::Source;
use crate::plex::plex_credentials;
use crate::providers::ProviderError;
use crate::net::url_host_of;
use crate::plex::validation_spec;
use crate::text::{text_eq, trim_end_char};
use vstd::prelude::*;
use vstd::string::*;

verus! {

/// The named fields of a sign-in request (client id, server URL, API key,
/// token, ...).
#[derive(Debug, Clone)]
pub struct AuthRequest {
    pub fields: Vec<(String, String)>,
}

/// The value of the first field named `key`.
pub open spec fn field_value(fields: Seq<(String, String)>, key: Seq<char>) -> Option<Seq<char>>
    decreases fields.len(),
{
    if fields.len() == 0 {
        None
    } else if fields[0].0@ == key {
        Some(fields[0].1@)
    } else {
        field_value(fields.drop_first(), key)
    }
}

impl AuthRequest {
    /// The value of the field named `key`, if the request has one.
    pub fn get(&self, key: &str) -> (r: Option<&str>)
        ensures
            match field_value(self.fields@, key@) {
                Some(v) => (r matches Some(x) && x@ == v),
                None => r is None,
            },
    {
        let mut i: usize = 0;
        assert(self.fields@.subrange(0, self.fields@.len() as int) =~= self.fields@);
        while i < self.fields.len()
            invariant
                i <= self.fields@.len(),
                field_value(self.fields@, key@) == field_value(self.fields@.subrange(i as int, self.fields@.len() as int), key@),
            decreases self.fields@.len() - i,
        {
            let ghost rest = self.fields@.subrange(i as int, self.fields@.len() as int);
            assert(rest.drop_first() =~= self.fields@.subrange(i + 1, self.fields@.len() as int));
            if text_eq(self.fields[i].0.as_str(), key) {
                return Some(self.fields[i].1.as_str());
            }
            i = i + 1;
        }
        None
    }
}

/// Looking a key up in a list whose entry `i` was replaced by a pair with
/// the same key gives the new value for that key and leaves other keys alone,
/// when no earlier entry has that key.
proof fn lemma_field_value_update(fields: Seq<(String, String)>, i: int, pair: (String, String))
    requires
        0 <= i < fields.len(),
        fields[i].0@ == pair.0@,
        forall|j: int| 0 <= j < i ==> (#[trigger] fields[j]).0@ != pair.0@,
    ensures
        field_value(fields.update(i, pair), pair.0@) == Some(pair.1@),
        forall|k: Seq<char>| k != pair.0@ ==> field_value(fields.update(i, pair), k) == field_value(fields, k),
    decreases fields.len(),
{
    let updated = fields.update(i, pair);
    if i == 0 {
        assert(updated.drop_first() =~= fields.drop_first());
        assert forall|k: Seq<char>| k != pair.0@ implies field_value(updated, k) == field_value(fields, k) by {
            assert(updated[0].0@ != k);
            assert(fields[0].0@ != k);
        }
    } else {
        assert(updated.drop_first() =~= fields.drop_first().update(i - 1, pair));
        lemma_field_value_update(fields.drop_first(), i - 1, pair);
        assert(updated[0] == fields[0]);
        assert(fields[0].0@ != pair.0@);
        assert forall|k: Seq<char>| k != pair.0@ implies field_value(updated, k) == field_value(fields, k) by {
            assert(field_value(updated.drop_first(), k) == field_value(fields.drop_first(), k));
            if fields[0].0@ == k {
            } else {
            }
        }
    }
}

/// Appending a pair whose key no entry has makes the key give its value and
/// leaves other keys alone.
proof fn lemma_field_value_push(fields: Seq<(String, String)>, pair: (String, String))
    requires
        forall|j: int| 0 <= j < fields.len() ==> (#[trigger] fields[j]).0@ != pair.0@,
    ensures
        field_value(fields.push(pair), pair.0@) == Some(pair.1@),
        forall|k: Seq<char>| k != pair.0@ ==> field_value(fields.push(pair), k) == field_value(fields, k),
    decreases fields.len(),
{
    let pushed = fields.push(pair);
    if fields.len() == 0 {
        assert(pushed.drop_first() =~= Seq::<(String, String)>::empty());
        assert forall|k: Seq<char>| k != pair.0@ implies field_value(pushed, k) == field_value(fields, k) by {
            assert(pushed[0].0@ != k);
            assert(field_value(pushed.drop_first(), k) is None);
        }
    } else {
        assert(pushed.drop_first() =~= fields.drop_first().push(pair));
        lemma_field_value_push(fields.drop_first(), pair);
        assert(pushed[0] == fields[0]);
        assert(fields[0].0@ != pair.0@);
        assert forall|k: Seq<char>| k != pair.0@ implies field_value(pushed, k) == field_value(fields, k) by {
            assert(field_value(pushed.drop_first(), k) == field_value(fields.drop_first(), k));
            if fields[0].0@ == k {
            } else {
            }
        }
    }
}

impl AuthRequest {
    /// A request with the given fields, in order.
    pub fn from_pairs(fields: Vec<(String, String)>) -> (r: AuthRequest)
        ensures
            r.fields@ == fields@,
    {
        AuthRequest { fields }
    }

    /// Sets the field `key` to `value`, replacing the value it had.
    pub fn insert(&mut self, key: String, value: String)
        ensures
            field_value(final(self).fields@, key@) == Some(value@),
            forall|k: Seq<char>| k != key@ ==> field_value(final(self).fields@, k) == field_value(
                old(self).fields@,
                k,
            ),
    {
        let mut i: usize = 0;
        while i < self.fields.len()
            invariant
                i <= self.fields@.len(),
                self.fields@ == old(self).fields@,
                forall|j: int| 0 <= j < i ==> (#[trigger] self.fields@[j]).0@ != key@,
            decreases self.fields@.len() - i,
        {
            if text_eq(self.fields[i].0.as_str(), key.as_str()) {
                let ghost before = self.fields@;
                let pair = (key, value);
                proof {
                    lemma_field_value_update(before, i as int, pair);
                }
                self.fields.set(i, pair);
                return;
            }
            i = i + 1;
        }
        let ghost before = self.fields@;
        let pair = (key, value);
        proof {
            lemma_field_value_push(before, pair);
        }
        self.fields.push(pair);
    }
}

/// The request a Jellyfin provider sends with its calls: its server URL and
/// API key, and its user id once known.
pub fn jellyfin_session_request(base_url: &str, api_key: &str, user_id: &Option<String>) -> (r: AuthRequest)
    ensures
        field_value(r.fields@, "url"@) == Some(base_url@),
        field_value(r.fields@, "api_key"@) == Some(api_key@),
        field_value(r.fields@, "user_id"@) == (match user_id {
            Some(u) => Some(u@),
            None => None::<Seq<char>>,
        }),
{
    let mut request = AuthRequest::from_pairs(vec![
        (String::from_str("url"), String::from_str(base_url)),
        (String::from_str("api_key"), String::from_str(api_key)),
    ]);
    proof {
        reveal_strlit("url");
        reveal_strlit("api_key");
        reveal_strlit("user_id");
        let f = request.fields@;
        assert(f.len() == 2);
        assert(f[0].0@ == "url"@);
        assert(f[1].0@ == "api_key"@);
        assert(f.drop_first()[0] == f[1]);
        assert(f.drop_first().drop_first() =~= Seq::<(String, String)>::empty());
        assert(field_value(f.drop_first().drop_first(), "user_id"@) is None);
        assert("api_key"@[0] != "user_id"@[0]);
        assert(field_value(f.drop_first(), "user_id"@) is None);
        assert("url"@.len() == 3 && "user_id"@.len() == 7);
        assert("url"@ != "user_id"@);
        assert(field_value(f, "user_id"@) is None);
        assert(field_value(f.drop_first(), "api_key"@) == Some(api_key@));
        assert("url"@.len() == 3 && "api_key"@.len() == 7);
        assert("url"@ != "api_key"@);
        assert(field_value(f, "api_key"@) == Some(api_key@));
        assert(field_value(f, "url"@) == Some(base_url@));
    }
    match user_id {
        Some(u) => request.insert(String::from_str("user_id"), u.clone()),
        None => {},
    }
    request
}

/// The request a Plex provider sends with its calls: its server URL and
/// token.
pub fn plex_session_request(base_url: &str, token: &str) -> (r: AuthRequest)
    ensures
        field_value(r.fields@, "url"@) == Some(base_url@),
        field_value(r.fields@, "token"@) == Some(token@),
{
    let request = AuthRequest::from_pairs(vec![
        (String::from_str("url"), String::from_str(base_url)),
        (String::from_str("token"), String::from_str(token)),
    ]);
    proof {
        reveal_strlit("url");
        reveal_strlit("token");
        let f = request.fields@;
        assert(f.len() == 2);
        assert(f[0].0@ == "url"@);
        assert(f[1].0@ == "token"@);
        assert(f.drop_first()[0] == f[1]);
        assert(field_value(f.drop_first(), "token"@) == Some(token@));
        assert("url"@.len() == 3 && "token"@.len() == 5);
        assert("url"@ != "token"@);
        assert(field_value(f, "token"@) == Some(token@));
        assert(field_value(f, "url"@) == Some(base_url@));
    }
    request
}

/// How a sign-in starts.
#[derive(Debug, Clone, Copy, PartialEq, Eq, Structural)]
pub enum BeginAuth {
    /// The provider is registered already: it starts the sign-in.
    UseRegistered,
    /// A Spotify provider is registered first, then starts the sign-in.
    RegisterSpotify,
}

/// How a sign-in starts for a source: a registered provider starts it
/// itself; Spotify is registered on demand; Jellyfin and Plex sign in with
/// credentials at completion, and custom playlists have no sign-in.
pub fn begin_auth_plan(source: Source, registered: bool) -> (r: Result<BeginAuth, ProviderError>)
    ensures
        registered ==> r == Ok::<BeginAuth, ProviderError>(BeginAuth::UseRegistered),
        !registered && source == Source::Spotify ==> r == Ok::<BeginAuth, ProviderError>(BeginAuth::RegisterSpotify),
        !registered && source == Source::Jellyfin ==> (r matches Err(e) && e.0@
            == "Jellyfin authentication must be completed with credentials"@),
        !registered && source == Source::Plex ==> (r matches Err(e) && e.0@
            == "Plex authentication must be completed with credentials"@),
        !registered && source == Source::Custom ==> (r matches Err(e) && e.0@
            == "Custom provider does not support authentication"@),
{
    if registered {
        return Ok(BeginAuth::UseRegistered);
    }
    match source {
        Source::Spotify => Ok(BeginAuth::RegisterSpotify),
        Source::Jellyfin => Err(
            ProviderError(String::from_str("Jellyfin authentication must be completed with credentials")),
        ),
        Source::Plex => Err(
            ProviderError(String::from_str("Plex authentication must be completed with credentials")),
        ),
        Source::Custom => Err(ProviderError(String::from_str("Custom provider does not support authentication"))),
    }
}

/// The OAuth application a Spotify sign-in request names: client id, client
/// secret and redirect URI, when it names all three (otherwise the default
/// application is used).
pub fn spotify_oauth_settings(request: &AuthRequest) -> (r: Option<(String, String, String)>)
    ensures
        match (
            field_value(request.fields@, "client_id"@),
            field_value(request.fields@, "client_secret"@),
            field_value(request.fields@, "redirect_uri"@),
        ) {
            (Some(id), Some(secret), Some(uri)) => (r matches Some(t) && t.0@ == id && t.1@ == secret
                && t.2@ == uri),
            _ => r is None,
        },
{
    let id = request.get("client_id");
    let secret = request.get("client_secret");
    let uri = request.get("redirect_uri");
    match (id, secret, uri) {
        (Some(a), Some(b), Some(c)) => Some((String::from_str(a), String::from_str(b), String::from_str(c))),
        _ => None,
    }
}

/// How a sign-in completes.
#[derive(Debug, Clone)]
pub enum CompleteAuth {
    /// The registered provider completes it.
    UseRegistered,
    /// A server provider is registered with this URL and secret, then
    /// completes it.
    RegisterServer { url: String, secret: String },
}

/// The secret field of a server sign-in request: Jellyfin's API key, Plex's
/// token.
pub open spec fn secret_field(source: Source) -> Seq<char> {
    match source {
        Source::Plex => "token"@,
        _ => "api_key"@,
    }
}

/// How a sign-in completes for a source: a registered provider completes it;
/// otherwise Jellyfin and Plex are registered from the request's URL and
/// secret (refused when one is missing or, for Plex, when the URL is not a
/// valid server URL), while Spotify must have begun a sign-in first and
/// custom playlists have none.
pub fn complete_auth_plan(source: Source, registered: bool, request: &AuthRequest) -> (r: Result<
    CompleteAuth,
    ProviderError,
>)
    ensures
        registered ==> r matches Ok(CompleteAuth::UseRegistered),
        !registered && source == Source::Spotify ==> (r matches Err(e) && e.0@
            == "Spotify provider not initialized. Call begin_auth first."@),
        !registered && source == Source::Custom ==> (r matches Err(e) && e.0@
            == "Custom provider does not support authentication"@),
        !registered && source == Source::Jellyfin ==> match (
            field_value(request.fields@, "url"@),
            field_value(request.fields@, "api_key"@),
        ) {
            (None, _) => (r matches Err(e) && e.0@ == "Missing Jellyfin url"@),
            (Some(_), None) => (r matches Err(e) && e.0@ == "Missing Jellyfin api_key"@),
            (Some(u), Some(k)) => (r matches Ok(CompleteAuth::RegisterServer { url, secret }) && url@
                == u && secret@ == k),
        },
        !registered && source == Source::Plex ==> match (
            field_value(request.fields@, "url"@),
            field_value(request.fields@, "token"@),
        ) {
            (None, _) => (r matches Err(e) && e.0@ == "Missing Plex url"@),
            (Some(_), None) => (r matches Err(e) && e.0@ == "Missing Plex token"@),
            (Some(u), Some(t)) => match validation_spec(
                trim_end_char(u, '/'),
                url_host_of(trim_end_char(u, '/')),
            ) {
                Some(m) => (r matches Err(e) && e.0@ == m),
                None => (r matches Ok(CompleteAuth::RegisterServer { url, secret }) && url@
                    == trim_end_char(u, '/') && secret@ == t),
            },
        },
{
    if registered {
        return Ok(CompleteAuth::UseRegistered);
    }
    match source {
        Source::Spotify => Err(
            ProviderError(String::from_str("Spotify provider not initialized. Call begin_auth first.")),
        ),
        Source::Jellyfin => {
            match jellyfin_credentials(request.get("url"), request.get("api_key")) {
                Ok(pair) => Ok(CompleteAuth::RegisterServer { url: pair.0, secret: pair.1 }),
                Err(e) => Err(e),
            }
        },
        Source::Plex => {
            match plex_credentials(request.get("url"), request.get("token")) {
                Ok(pair) => Ok(CompleteAuth::RegisterServer { url: pair.0, secret: pair.1 }),
                Err(e) => Err(e),
            }
        },
        Source::Custom => Err(ProviderError(String::from_str("Custom provider does not support authentication"))),
    }
}

/// The server credentials a completed sign-in stores: Jellyfin's URL and API
/// key, Plex's URL and token, when the request carries both.
pub fn credentials_to_store(source: Source, request: &AuthRequest) -> (r: Option<(String, String)>)
    ensures
        match source {
            Source::Jellyfin | Source::Plex => match (
                field_value(request.fields@, "url"@),
                field_value(request.fields@, secret_field(source)),
            ) {
                (Some(u), Some(k)) => (r matches Some(p) && p.0@ == u && p.1@ == k),
                _ => r is None,
            },
            _ => r is None,
        },
{
    let secret_key = match source {
        Source::Jellyfin => "api_key",
        Source::Plex => "token",
        _ => return None,
    };
    match (request.get("url"), request.get(secret_key)) {
        (Some(u), Some(k)) => Some((String::from_str(u), String::from_str(k))),
        _ => None,
    }
}

/// Records a completed sign-in in the stored credentials: the server
/// credentials the request carries (for Jellyfin and Plex), and the Spotify
/// token the provider now holds, if any.
pub fn record_sign_in(
    tokens: &mut TokenStorage,
    source: Source,
    request: &AuthRequest,
    spotify_token: Option<crate::config::SpotifyToken>,
)
    ensures
        match credentials_to_store_spec(source, request.fields@) {
            Some(p) => server_credentials_spec(*final(tokens), source) == Some(p),
            None => server_credentials_spec(*final(tokens), source) == server_credentials_spec(
                *old(tokens),
                source,
            ),
        },
        spotify_token is Some ==> final(tokens).spotify_token == spotify_token,
        spotify_token is None ==> final(tokens).spotify_token == old(tokens).spotify_token,
{
    match spotify_token {
        Some(t) => tokens.remember_spotify_token(t),
        None => {},
    }
    match credentials_to_store(source, request) {
        Some(pair) => tokens.remember_server(source, pair.0, pair.1),
        None => {},
    }
}

/// The server credentials a completed sign-in stores, by the request's
/// fields.
pub open spec fn credentials_to_store_spec(source: Source, fields: Seq<(String, String)>) -> Option<
    (Seq<char>, Seq<char>),
> {
    match source {
        Source::Jellyfin | Source::Plex => match (
            field_value(fields, "url"@),
            field_value(fields, secret_field(source)),
        ) {
            (Some(u), Some(k)) => Some((u, k)),
            _ => None,
        },
        _ => None,
    }
}

/// Whether the stored credentials let a session of a source be restored.
pub open spec fn restorable(tokens: TokenStorage, source: Source) -> bool {
    match source {
        Source::Spotify => tokens.spotify_token is Some,
        Source::Jellyfin | Source::Plex => server_credentials_spec(tokens, source) is Some,
        Source::Custom => false,
    }
}

/// Whether a stored session of a source can be restored: Spotify needs its
/// token, Jellyfin and Plex need both their server URL and secret; custom
/// playlists have nothing to restore.
pub fn can_restore_session(tokens: &TokenStorage, source: Source) -> (r: bool)
    ensures
        r == restorable(*tokens, source),
{
    match source {
        Source::Spotify => tokens.spotify_token.is_some(),
        Source::Jellyfin | Source::Plex => tokens.server_credentials(source).is_some(),
        Source::Custom => false,
    }
}

/// A recorded server sign-in can be restored, with exactly the credentials
/// the sign-in request carried.
pub proof fn lemma_recorded_sign_in_is_restorable(
    tokens: TokenStorage,
    source: Source,
    fields: Seq<(String, String)>,
    after: TokenStorage,
)
    requires
        source == Source::Jellyfin || source == Source::Plex,
        credentials_to_store_spec(source, fields) is Some,
        server_credentials_spec(after, source) == credentials_to_store_spec(source, fields),
    ensures
        restorable(after, source),
        server_credentials_spec(after, source) == credentials_to_store_spec(source, fields),
{
}

/// After a provider is disconnected its session can no longer be restored,
/// while whether another provider's can is unchanged.
pub proof fn lemma_disconnect_prevents_restore(tokens: TokenStorage, source: Source, other: Source)
    requires
        other != source,
    ensures
        !restorable(crate::config::forgotten(tokens, source), source),
        restorable(crate::config::forgotten(tokens, source), other) == restorable(tokens, other),
{
}

} // verus!
