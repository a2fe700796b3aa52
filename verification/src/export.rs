//! Where a configuration export is written: the default file name for a
//! date, with a counter that keeps it from overwriting an earlier export, and
//! the check of a path the user chose.
use crate::oauth::{is_ws, is_ws_exec, lemma_skip_ws_bounds, skip_ws, skip_ws_exec};
use crate::text::concat;
use vstd::prelude::*;
use vstd::string::*;

verus! {

/// The decimal digit for `d` (below ten).
pub open spec fn digit_char(d: nat) -> char {
    if d == 0 { '0' }
    else if d == 1 { '1' }
    else if d == 2 { '2' }
    else if d == 3 { '3' }
    else if d == 4 { '4' }
    else if d == 5 { '5' }
    else if d == 6 { '6' }
    else if d == 7 { '7' }
    else if d == 8 { '8' }
    else { '9' }
}

/// The decimal notation of `n`, without leading zeros.
pub open spec fn decimal(n: nat) -> Seq<char>
    decreases n,
{
    if n < 10 {
        seq![digit_char(n)]
    } else {
        decimal(n / 10).push(digit_char(n % 10))
    }
}

fn digit_str(d: u32) -> (r: &'static str)
    requires
        d < 10,
    ensures
        r@ == seq![digit_char(d as nat)],
{
    proof {
        reveal_strlit("0");
        reveal_strlit("1");
        reveal_strlit("2");
        reveal_strlit("3");
        reveal_strlit("4");
        reveal_strlit("5");
        reveal_strlit("6");
        reveal_strlit("7");
        reveal_strlit("8");
        reveal_strlit("9");
    }
    if d == 0 { "0" }
    else if d == 1 { "1" }
    else if d == 2 { "2" }
    else if d == 3 { "3" }
    else if d == 4 { "4" }
    else if d == 5 { "5" }
    else if d == 6 { "6" }
    else if d == 7 { "7" }
    else if d == 8 { "8" }
    else { "9" }
}

/// `n` written in decimal.
pub fn decimal_string(n: u32) -> (r: String)
    ensures
        r@ == decimal(n as nat),
    decreases n,
{
    if n < 10 {
        String::from_str(digit_str(n))
    } else {
        let head = decimal_string(n / 10);
        concat(head.as_str(), digit_str(n % 10))
    }
}

/// The default export file name for `date`; a `suffix` above zero is added
/// when files of the lower numbers already exist.
pub open spec fn export_file_name_spec(date: Seq<char>, suffix: nat) -> Seq<char> {
    if suffix == 0 {
        "any-player-config-"@ + date + ".json"@
    } else {
        "any-player-config-"@ + date + "-"@ + decimal(suffix) + ".json"@
    }
}

/// The file name of an export made on `date` (`YYYY-MM-DD`): the plain name
/// first, then the same name with `-1`, `-2`, ... while those exist.
pub fn export_file_name(date: &str, suffix: u32) -> (r: String)
    ensures
        r@ == export_file_name_spec(date@, suffix as nat),
{
    let head = concat("any-player-config-", date);
    if suffix == 0 {
        concat(head.as_str(), ".json")
    } else {
        let dashed = concat(head.as_str(), "-");
        let numbered = concat(dashed.as_str(), decimal_string(suffix).as_str());
        concat(numbered.as_str(), ".json")
    }
}

/// The end of `s` up to position `j` with trailing white space removed.
pub open spec fn skip_ws_back(s: Seq<char>, j: int) -> int
    decreases j,
{
    if 0 < j <= s.len() && is_ws(s[j - 1]) {
        skip_ws_back(s, j - 1)
    } else {
        j
    }
}

/// `s` without leading and trailing white space (`str::trim`).
pub open spec fn trim_ws(s: Seq<char>) -> Seq<char> {
    let a = skip_ws(s, 0);
    if a >= s.len() {
        Seq::empty()
    } else {
        s.subrange(a, skip_ws_back(s, s.len() as int))
    }
}

proof fn lemma_skip_ws_back_bounds(s: Seq<char>, lo: int, j: int)
    requires
        0 <= lo < j <= s.len(),
        !is_ws(s[lo]),
    ensures
        lo < skip_ws_back(s, j) <= j,
    decreases j,
{
    if is_ws(s[j - 1]) {
        lemma_skip_ws_back_bounds(s, lo, j - 1);
    }
}

proof fn lemma_skip_ws_stops(s: Seq<char>, i: int)
    requires
        0 <= i <= s.len(),
    ensures
        skip_ws(s, i) < s.len() ==> !is_ws(s[skip_ws(s, i)]),
    decreases s.len() - i,
{
    if i < s.len() && is_ws(s[i]) {
        lemma_skip_ws_stops(s, i + 1);
    }
}

/// The message for an export path that is empty once trimmed.
pub open spec fn empty_export_path_message() -> Seq<char> {
    "Export path cannot be empty"@
}

/// The path an export is written to: the given path without surrounding
/// white space, refused when nothing is left.
pub fn export_target(path: &str) -> (r: Result<String, String>)
    ensures
        trim_ws(path@).len() == 0 <==> r is Err,
        r matches Ok(p) ==> p@ == trim_ws(path@),
        r matches Err(m) ==> m@ == empty_export_path_message(),
{
    let n = path.unicode_len();
    let a = skip_ws_exec(path, n, 0);
    proof {
        lemma_skip_ws_bounds(path@, 0);
        lemma_skip_ws_stops(path@, 0);
    }
    if a >= n {
        return Err(String::from_str("Export path cannot be empty"));
    }
    let mut b = n;
    proof {
        lemma_skip_ws_back_bounds(path@, a as int, n as int);
    }
    while b > a && is_ws_exec(path.get_char(b - 1))
        invariant
            n == path@.len(),
            a < n,
            a < b <= n,
            !is_ws(path@[a as int]),
            skip_ws_back(path@, b as int) == skip_ws_back(path@, n as int),
        decreases b,
    {
        b = b - 1;
    }
    Ok(String::from_str(path.substring_char(a, b)))
}

} // verus!
