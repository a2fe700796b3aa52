//! The local OAuth callback: reading the authorization code (or the refusal)
//! out of the request line a browser sends after sign-in.
use crate::text::{find_from, find_spec};
use vstd::prelude::*;
use vstd::string::*;

verus! {

/// Whether a character is white space: it has the Unicode `White_Space`
/// property, the test `char::is_whitespace` makes.
pub open spec fn is_ws(c: char) -> bool {
    ||| ('\u{9}' <= c && c <= '\u{d}')
    ||| c == ' '
    ||| c == '\u{85}'
    ||| c == '\u{a0}'
    ||| c == '\u{1680}'
    ||| ('\u{2000}' <= c && c <= '\u{200a}')
    ||| c == '\u{2028}'
    ||| c == '\u{2029}'
    ||| c == '\u{202f}'
    ||| c == '\u{205f}'
    ||| c == '\u{3000}'
}

pub(crate) fn is_ws_exec(c: char) -> (r: bool)
    ensures
        r == is_ws(c),
{
    ('\u{9}' <= c && c <= '\u{d}') || c == ' ' || c == '\u{85}' || c == '\u{a0}' || c == '\u{1680}'
        || ('\u{2000}' <= c && c <= '\u{200a}') || c == '\u{2028}' || c == '\u{2029}' || c
        == '\u{202f}' || c == '\u{205f}' || c == '\u{3000}'
}

/// The position of the first non-white-space character at or after `i`
/// (or the end).
pub open spec fn skip_ws(s: Seq<char>, i: int) -> int
    decreases s.len() - i,
{
    if 0 <= i < s.len() && is_ws(s[i]) {
        skip_ws(s, i + 1)
    } else {
        i
    }
}

/// The position of the first white-space character at or after `i` (or the
/// end).
pub open spec fn skip_word(s: Seq<char>, i: int) -> int
    decreases s.len() - i,
{
    if 0 <= i < s.len() && !is_ws(s[i]) {
        skip_word(s, i + 1)
    } else {
        i
    }
}

/// The second white-space separated word of `s`, if it has two
/// (`s.split_whitespace().nth(1)`).
pub open spec fn second_word(s: Seq<char>) -> Option<Seq<char>> {
    let a0 = skip_ws(s, 0);
    let b0 = skip_word(s, a0);
    let a1 = skip_ws(s, b0);
    let b1 = skip_word(s, a1);
    if a1 < s.len() {
        Some(s.subrange(a1, b1))
    } else {
        None
    }
}

pub(crate) proof fn lemma_skip_ws_bounds(s: Seq<char>, i: int)
    requires
        0 <= i <= s.len(),
    ensures
        i <= skip_ws(s, i) <= s.len(),
    decreases s.len() - i,
{
    if i < s.len() && is_ws(s[i]) {
        lemma_skip_ws_bounds(s, i + 1);
    }
}

proof fn lemma_skip_word_bounds(s: Seq<char>, i: int)
    requires
        0 <= i <= s.len(),
    ensures
        i <= skip_word(s, i) <= s.len(),
    decreases s.len() - i,
{
    if i < s.len() && !is_ws(s[i]) {
        lemma_skip_word_bounds(s, i + 1);
    }
}

pub(crate) fn skip_ws_exec(s: &str, n: usize, i: usize) -> (r: usize)
    requires
        n == s@.len(),
        i <= n,
    ensures
        r == skip_ws(s@, i as int),
{
    let mut j = i;
    while j < n && is_ws_exec(s.get_char(j))
        invariant
            n == s@.len(),
            i <= j <= n,
            skip_ws(s@, j as int) == skip_ws(s@, i as int),
        decreases n - j,
    {
        j = j + 1;
    }
    j
}

fn skip_word_exec(s: &str, n: usize, i: usize) -> (r: usize)
    requires
        n == s@.len(),
        i <= n,
    ensures
        r == skip_word(s@, i as int),
{
    let mut j = i;
    while j < n && !is_ws_exec(s.get_char(j))
        invariant
            n == s@.len(),
            i <= j <= n,
            skip_word(s@, j as int) == skip_word(s@, i as int),
        decreases n - j,
    {
        j = j + 1;
    }
    j
}

/// The path of an HTTP request line: its second word.
pub fn request_path(request_line: &str) -> (r: Option<String>)
    ensures
        match second_word(request_line@) {
            Some(w) => (r matches Some(p) && p@ == w),
            None => r is None,
        },
{
    let s = request_line;
    let n = s.unicode_len();
    let a0 = skip_ws_exec(s, n, 0);
    proof {
        lemma_skip_ws_bounds(s@, 0);
    }
    let b0 = skip_word_exec(s, n, a0);
    proof {
        lemma_skip_word_bounds(s@, a0 as int);
    }
    let a1 = skip_ws_exec(s, n, b0);
    proof {
        lemma_skip_ws_bounds(s@, b0 as int);
    }
    if a1 < n {
        let b1 = skip_word_exec(s, n, a1);
        proof {
            lemma_skip_word_bounds(s@, a1 as int);
        }
        Some(String::from_str(s.substring_char(a1, b1)))
    } else {
        None
    }
}

/// The authorization code a callback path carries: the text after the first
/// `code=`, up to the next `code=` or the first `&` after it, whichever
/// comes first (`path.split("code=").nth(1)` cut at `&`).
pub open spec fn code_in_path(path: Seq<char>) -> Option<Seq<char>> {
    match find_spec(path, "code="@, 0) {
        None => None,
        Some(p) => {
            let start = p + "code="@.len();
            let end = match find_spec(path, "code="@, start) {
                Some(q) => q,
                None => path.len() as int,
            };
            let cut = match find_spec(path, "&"@, start) {
                Some(a) => if a < end {
                    a
                } else {
                    end
                },
                None => end,
            };
            Some(path.subrange(start, cut))
        },
    }
}

/// What a request to the callback server asks for.
#[derive(Debug, Clone, PartialEq, Eq)]
pub enum OAuthCallback {
    /// Sign-in succeeded and sent this authorization code.
    Code(String),
    /// Sign-in was refused or failed (`error=` in the path).
    Denied,
    /// Anything else.
    NotFound,
}

/// The abstract value of a callback request.
pub enum OAuthCallbackView {
    Code(Seq<char>),
    Denied,
    NotFound,
}

impl View for OAuthCallback {
    type V = OAuthCallbackView;

    open spec fn view(&self) -> OAuthCallbackView {
        match self {
            OAuthCallback::Code(c) => OAuthCallbackView::Code(c@),
            OAuthCallback::Denied => OAuthCallbackView::Denied,
            OAuthCallback::NotFound => OAuthCallbackView::NotFound,
        }
    }
}

/// What a request line asks for: a path with `code=` delivers the code, one
/// with `error=` reports a refusal, anything else is not found.
pub open spec fn callback_of(request_line: Seq<char>) -> OAuthCallbackView {
    match second_word(request_line) {
        None => OAuthCallbackView::NotFound,
        Some(path) => match code_in_path(path) {
            Some(code) => OAuthCallbackView::Code(code),
            None => if find_spec(path, "error="@, 0) is Some {
                OAuthCallbackView::Denied
            } else {
                OAuthCallbackView::NotFound
            },
        },
    }
}

proof fn lemma_find_bounds(s: Seq<char>, needle: Seq<char>, from: int)
    requires
        0 <= from,
    ensures
        find_spec(s, needle, from) matches Some(i) ==> from <= i && i + needle.len() <= s.len(),
    decreases s.len() + 1 - from,
{
    if from + needle.len() > s.len() {
    } else if crate::text::occurs_at(s, needle, from) {
    } else {
        lemma_find_bounds(s, needle, from + 1);
    }
}

/// Reads the authorization code out of a callback path.
pub fn code_from_path(path: &str) -> (r: Option<String>)
    ensures
        match code_in_path(path@) {
            Some(c) => (r matches Some(x) && x@ == c),
            None => r is None,
        },
{
    let n = path.unicode_len();
    let k = "code=".unicode_len();
    match find_from(path, "code=", 0) {
        None => None,
        Some(p) => {
            proof {
                lemma_find_bounds(path@, "code="@, 0);
            }
            let start = p + k;
            let end = match find_from(path, "code=", start) {
                Some(q) => q,
                None => n,
            };
            proof {
                lemma_find_bounds(path@, "code="@, start as int);
                lemma_find_bounds(path@, "&"@, start as int);
            }
            let cut = match find_from(path, "&", start) {
                Some(a) => if a < end {
                    a
                } else {
                    end
                },
                None => end,
            };
            Some(String::from_str(path.substring_char(start, cut)))
        },
    }
}

/// Decides what a request line sent to the callback server asks for.
pub fn parse_oauth_callback(request_line: &str) -> (r: OAuthCallback)
    ensures
        r@ == callback_of(request_line@),
{
    match request_path(request_line) {
        None => OAuthCallback::NotFound,
        Some(path) => match code_from_path(path.as_str()) {
            Some(code) => OAuthCallback::Code(code),
            None => match find_from(path.as_str(), "error=", 0) {
                Some(_) => OAuthCallback::Denied,
                None => OAuthCallback::NotFound,
            },
        },
    }
}

} // verus!
