//! Plex server handling: base URL normalisation and validation, request URLs
//! carrying the token, and the messages shown for failed connections.
use crate::net::{parse_url_host, parsed_view, url_host_of};
use crate::providers::ProviderError;
use crate::text::{
    concat, contains, contains_text, lowercase_of, starts_with, to_lowercase, trim_end_char,
    trim_end_matches, trim_start_char, trim_start_matches,
};
use vstd::prelude::*;
use vstd::string::*;

verus! {

/// The base URL without trailing slashes.
pub fn normalize_base_url(url: &str) -> (r: String)
    ensures
        r@ == trim_end_char(url@, '/'),
{
    trim_end_matches(url, '/')
}

/// Message for a base URL without an http(s) scheme.
pub open spec fn missing_scheme_message() -> Seq<char> {
    "Invalid Plex URL. Include http:// or https:// (for example: http://127.0.0.1:32400)"@
}

/// Message for a base URL that does not parse.
pub open spec fn bad_url_message() -> Seq<char> {
    "Invalid Plex URL format. Check the server URL and try again."@
}

/// The outcome of validating a base URL that parses as `parsed`: it must
/// start with `http://` or `https://` and parse as a URL.
pub open spec fn validation_spec(url: Seq<char>, parsed: Option<Option<Seq<char>>>) -> Option<
    Seq<char>,
> {
    if !("http://"@.is_prefix_of(url) || "https://"@.is_prefix_of(url)) {
        Some(missing_scheme_message())
    } else if parsed is None {
        Some(bad_url_message())
    } else {
        None
    }
}

/// Validates a base URL given how it parses.
pub fn validate_parsed_base_url(url: &str, parsed: &Option<Option<String>>) -> (r: Result<(), ProviderError>)
    ensures
        validation_spec(url@, parsed_view(*parsed)) is None ==> r is Ok,
        validation_spec(url@, parsed_view(*parsed)) matches Some(m) ==> (r matches Err(e) && e.0@ == m),
{
    if !(starts_with(url, "http://") || starts_with(url, "https://")) {
        return Err(
            ProviderError(
                String::from_str(
                    "Invalid Plex URL. Include http:// or https:// (for example: http://127.0.0.1:32400)",
                ),
            ),
        );
    }
    if parsed.is_none() {
        return Err(
            ProviderError(
                String::from_str("Invalid Plex URL format. Check the server URL and try again."),
            ),
        );
    }
    Ok(())
}

/// Validates a Plex base URL: an http(s) URL that parses.
pub fn validate_base_url(url: &str) -> (r: Result<(), ProviderError>)
    ensures
        validation_spec(url@, url_host_of(url@)) is None ==> r is Ok,
        validation_spec(url@, url_host_of(url@)) matches Some(m) ==> (r matches Err(e) && e.0@ == m),
{
    let parsed = parse_url_host(url);
    validate_parsed_base_url(url, &parsed)
}

/// The base URL and token of a Plex sign-in request, with the URL
/// normalised and validated.
pub fn plex_credentials(url: Option<&str>, token: Option<&str>) -> (r: Result<(String, String), ProviderError>)
    ensures
        url is None ==> (r matches Err(e) && e.0@ == "Missing Plex url"@),
        url is Some && token is None ==> (r matches Err(e) && e.0@ == "Missing Plex token"@),
        url is Some && token is Some ==> ({
            let normalized = trim_end_char(url.unwrap()@, '/');
            let t = token.unwrap();
            match validation_spec(normalized, url_host_of(normalized)) {
                Some(m) => r matches Err(e) && e.0@ == m,
                None => r matches Ok(pair) && pair.0@ == normalized && pair.1@ == t@,
            }
        }),
{
    let url = match url {
        Some(u) => u,
        None => return Err(ProviderError(String::from_str("Missing Plex url"))),
    };
    let token = match token {
        Some(t) => t,
        None => return Err(ProviderError(String::from_str("Missing Plex token"))),
    };
    let normalized = normalize_base_url(url);
    match validate_base_url(normalized.as_str()) {
        Ok(()) => Ok((normalized, String::from_str(token))),
        Err(e) => Err(e),
    }
}

/// The message for a failed token check, by HTTP status.
pub open spec fn auth_status_message(code: u16, status_text: Seq<char>) -> Seq<char> {
    if code == 401 || code == 403 {
        "Plex rejected the token (unauthorized). Verify your Plex token and try again."@
    } else if code == 404 {
        "Plex server endpoint was not found. Verify the server URL and port."@
    } else {
        "Plex authentication failed (HTTP "@ + status_text + ")."@
    }
}

/// The message for a failed token check; `status_text` is how the status
/// displays (code and reason).
pub fn map_auth_status(code: u16, status_text: &str) -> (r: String)
    ensures
        r@ == auth_status_message(code, status_text@),
{
    if code == 401 || code == 403 {
        String::from_str(
            "Plex rejected the token (unauthorized). Verify your Plex token and try again.",
        )
    } else if code == 404 {
        String::from_str("Plex server endpoint was not found. Verify the server URL and port.")
    } else {
        let head = concat("Plex authentication failed (HTTP ", status_text);
        concat(head.as_str(), ").")
    }
}

/// Whether a lower-cased error message speaks of a TLS problem.
pub open spec fn mentions_tls(lower: Seq<char>) -> bool {
    contains_text(lower, "certificate"@) || contains_text(lower, "tls"@) || contains_text(
        lower,
        "ssl"@,
    ) || contains_text(lower, "unknown issuer"@) || contains_text(lower, "self signed"@)
        || contains_text(lower, "invalid peer certificate"@)
}

fn mentions_tls_exec(lower: &str) -> (r: bool)
    ensures
        r == mentions_tls(lower@),
{
    contains(lower, "certificate") || contains(lower, "tls") || contains(lower, "ssl") || contains(
        lower,
        "unknown issuer",
    ) || contains(lower, "self signed") || contains(lower, "invalid peer certificate")
}

/// Whether a connection error (by its message) is a TLS failure.
pub fn is_tls_error(message: &str) -> (r: bool)
    ensures
        r == mentions_tls(lowercase_of(message@)),
{
    let lower = to_lowercase(message);
    mentions_tls_exec(lower.as_str())
}

/// The message shown for a failed connection to Plex, from the error's
/// message and whether it was a timeout or a connection failure.
pub open spec fn connect_error_message(raw: Seq<char>, is_timeout: bool, is_connect: bool) -> Seq<char> {
    let m = lowercase_of(raw);
    if mentions_tls(m) {
        "TLS/SSL handshake failed while connecting to Plex. This often happens with self-signed or locally-issued certificates."@
    } else if is_timeout || contains_text(m, "timed out"@) {
        "Timed out connecting to Plex. Check that the server URL is reachable and the server is online."@
    } else if is_connect && (contains_text(m, "dns"@) || contains_text(m, "name or service not known"@)
        || contains_text(m, "failed to lookup address information"@) || contains_text(
        m,
        "no such host"@,
    )) {
        "Could not resolve the Plex server host. Verify the URL hostname/IP and try again."@
    } else if is_connect && contains_text(m, "connection refused"@) {
        "Plex server refused the connection. Confirm the host/port and that Plex is running."@
    } else if is_connect {
        "Could not connect to the Plex server. Check the server URL, network, and firewall settings."@
    } else {
        "Failed to connect to Plex: "@ + raw
    }
}

/// The message shown for a failed connection to Plex.
pub fn map_connect_error(raw: &str, is_timeout: bool, is_connect: bool) -> (r: String)
    ensures
        r@ == connect_error_message(raw@, is_timeout, is_connect),
{
    let lower = to_lowercase(raw);
    let m = lower.as_str();
    if mentions_tls_exec(m) {
        return String::from_str(
            "TLS/SSL handshake failed while connecting to Plex. This often happens with self-signed or locally-issued certificates.",
        );
    }
    if is_timeout || contains(m, "timed out") {
        return String::from_str(
            "Timed out connecting to Plex. Check that the server URL is reachable and the server is online.",
        );
    }
    if is_connect && (contains(m, "dns") || contains(m, "name or service not known") || contains(
        m,
        "failed to lookup address information",
    ) || contains(m, "no such host")) {
        return String::from_str(
            "Could not resolve the Plex server host. Verify the URL hostname/IP and try again.",
        );
    }
    if is_connect && contains(m, "connection refused") {
        return String::from_str(
            "Plex server refused the connection. Confirm the host/port and that Plex is running.",
        );
    }
    if is_connect {
        return String::from_str(
            "Could not connect to the Plex server. Check the server URL, network, and firewall settings.",
        );
    }
    concat("Failed to connect to Plex: ", raw)
}

/// A request URL on the server carrying the token: the path (without leading
/// slashes) after the base URL, with the token appended to its query.
pub open spec fn authed_url_spec(base_url: Seq<char>, token: Seq<char>, path_with_query: Seq<char>) -> Seq<
    char,
> {
    let path = trim_start_char(path_with_query, '/');
    if contains_text(path, "?"@) {
        base_url + "/"@ + path + "&X-Plex-Token="@ + token
    } else {
        base_url + "/"@ + path + "?X-Plex-Token="@ + token
    }
}

/// A request URL on the server carrying the token.
pub fn authed_url(base_url: &str, token: &str, path_with_query: &str) -> (r: String)
    ensures
        r@ == authed_url_spec(base_url@, token@, path_with_query@),
{
    let path = trim_start_matches(path_with_query, '/');
    let a = concat(base_url, "/");
    let b = concat(a.as_str(), path.as_str());
    let c = if contains(path.as_str(), "?") {
        concat(b.as_str(), "&X-Plex-Token=")
    } else {
        concat(b.as_str(), "?X-Plex-Token=")
    };
    concat(c.as_str(), token)
}

/// Whether a failed identity request is tried again without certificate
/// validation: only for an `https://` server and an error about TLS.
pub fn retry_without_tls_validation(base_url: &str, tls_error: bool) -> (r: bool)
    ensures
        r == ("https://"@.is_prefix_of(base_url@) && tls_error),
{
    starts_with(base_url, "https://") && tls_error
}

/// Whether the API client is rebuilt after a successful identity check: on
/// the first sign-in, and whenever certificate validation was switched on
/// or off.
pub fn tls_mode_changed(authenticated: bool, was_insecure: bool, now_insecure: bool) -> (r: bool)
    ensures
        r == (!authenticated || was_insecure != now_insecure),
{
    !authenticated || was_insecure != now_insecure
}

} // verus!
