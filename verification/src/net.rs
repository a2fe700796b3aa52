//! URL parsing, through the `url` crate.
use vstd::prelude::*;

verus! {

/// What `url::Url::parse` makes of a text: `None` when it is not an
/// absolute URL, else `Some` of the URL's host as `Url::host_str` gives it
/// (`None` for URLs without a host).
pub uninterp spec fn url_host_of(input: Seq<char>) -> Option<Option<Seq<char>>>;

/// The character view of a parse result.
pub open spec fn parsed_view(p: Option<Option<String>>) -> Option<Option<Seq<char>>> {
    match p {
        Some(Some(h)) => Some(Some(h@)),
        Some(None) => Some(None),
        None => None,
    }
}

/// Parses an absolute URL and gives its host.
///
/// Calls `url::Url::parse` and then `Url::host_str`; `None` when parsing
/// fails. The result is named `url_host_of` of the input's characters.
#[verifier::external_body]
pub(crate) fn parse_url_host(input: &str) -> (r: Option<Option<String>>)
    ensures
        parsed_view(r) == url_host_of(input@),
{
    match url::Url::parse(input) {
        Ok(u) => Some(u.host_str().map(|h| h.to_string())),
        Err(_) => None,
    }
}

} // verus!
