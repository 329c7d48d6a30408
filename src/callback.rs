use crate::error::AuthError;
use vstd::prelude::*;
use vstd::string::*;

verus! {

/// The origin against which the callback's request target is resolved.
pub const CALLBACK_BASE: &'static str = "http://localhost";

/// The page written back to the browser once the code has been captured.
pub const CALLBACK_RESPONSE: &'static str = "HTTP/1.1 200 OK\r\nContent-Type: text/html\r\n\r\n<html><body><h1>Successfully authenticated with AniList</h1><p>You can close this window now and return to the application.</p></body></html>";

/// Whether `c` has the Unicode `White_Space` property (what
/// `char::is_whitespace` tests).
pub open spec fn is_white(c: char) -> bool {
    let n = c as u32;
    (0x09 <= n <= 0x0D) || n == 0x20 || n == 0x85 || n == 0xA0 || n == 0x1680 || (0x2000 <= n
        <= 0x200A) || n == 0x2028 || n == 0x2029 || n == 0x202F || n == 0x205F || n == 0x3000
}

/// The query of `url`, decoded into (name, value) pairs in order, or `None`
/// when `url` is not an absolute URL.
pub uninterp spec fn query_pairs_of(url: Seq<char>) -> Option<Seq<(Seq<char>, Seq<char>)>>;

fn char_is_whitespace(c: char) -> (r: bool)
    ensures
        r == is_white(c),
{
    let n = c as u32;
    (0x09 <= n && n <= 0x0D) || n == 0x20 || n == 0x85 || n == 0xA0 || n == 0x1680 || (0x2000 <= n
        && n <= 0x200A) || n == 0x2028 || n == 0x2029 || n == 0x202F || n == 0x205F || n == 0x3000
}

pub open spec fn pairs_view(v: Seq<(String, String)>) -> Seq<(Seq<char>, Seq<char>)> {
    v.map_values(|p: (String, String)| (p.0@, p.1@))
}

/// Relies on `url::Url::parse` and `Url::query_pairs`: whether `url` parses,
/// and the decoded (name, value) pairs of its query, in order.
#[verifier::external_body]
fn url_query_pairs(url: &str) -> (r: Option<Vec<(String, String)>>)
    ensures
        match r {
            Some(v) => query_pairs_of(url@) == Some(pairs_view(v@)),
            None => query_pairs_of(url@) is None,
        },
{
    url::Url::parse(url).ok().map(
        |u| u.query_pairs().map(|(k, v)| (k.into_owned(), v.into_owned())).collect(),
    )
}

/// The first index at or after `i` that is not whitespace.
pub open spec fn skip_white(s: Seq<char>, i: int) -> int
    decreases s.len() - i,
{
    if 0 <= i < s.len() && is_white(s[i]) {
        skip_white(s, i + 1)
    } else {
        i
    }
}

/// The first index at or after `i` that is whitespace.
pub open spec fn skip_word(s: Seq<char>, i: int) -> int
    decreases s.len() - i,
{
    if 0 <= i < s.len() && !is_white(s[i]) {
        skip_word(s, i + 1)
    } else {
        i
    }
}

/// The second whitespace-separated word of an HTTP request line: its
/// request target.
pub open spec fn request_target_of(s: Seq<char>) -> Option<Seq<char>> {
    let a = skip_white(s, 0);
    let b = skip_word(s, a);
    let c = skip_white(s, b);
    let d = skip_word(s, c);
    if c < s.len() {
        Some(s.subrange(c, d))
    } else {
        None
    }
}

/// The value of the first pair named `key`.
pub open spec fn first_value(pairs: Seq<(Seq<char>, Seq<char>)>, key: Seq<char>) -> Option<
    Seq<char>,
>
    decreases pairs.len(),
{
    if pairs.len() == 0 {
        None
    } else if pairs[0].0 == key {
        Some(pairs[0].1)
    } else {
        first_value(pairs.drop_first(), key)
    }
}

/// What a callback whose query is `pairs` yields when `expected` is the
/// state sent out: the code, or the first thing wrong with it (a missing
/// `code`, then a missing `state`, then a `state` that differs).
pub open spec fn callback_result(
    pairs: Seq<(Seq<char>, Seq<char>)>,
    expected: Seq<char>,
    r: Result<String, AuthError>,
) -> bool {
    match first_value(pairs, "code"@) {
        None => r matches Err(AuthError::MissingParameter(n)) && n@ == "code"@,
        Some(code) => match first_value(pairs, "state"@) {
            None => r matches Err(AuthError::MissingParameter(n)) && n@ == "state"@,
            Some(state) => if state == expected {
                r matches Ok(c) && c@ == code
            } else {
                r == Err::<String, AuthError>(AuthError::CsrfMismatch)
            },
        },
    }
}

/// What a callback request line yields when `expected` is the state sent out.
pub open spec fn callback_line_result(
    line: Seq<char>,
    expected: Seq<char>,
    r: Result<String, AuthError>,
) -> bool {
    match request_target_of(line) {
        None => r == Err::<String, AuthError>(AuthError::MalformedCallback),
        Some(target) => match query_pairs_of(CALLBACK_BASE@ + target) {
            None => r == Err::<String, AuthError>(AuthError::MalformedCallback),
            Some(pairs) => callback_result(pairs, expected, r),
        },
    }
}

/// A callback without `code` fails with `MissingParameter("code")`; one
/// that has a code but no `state` fails with `MissingParameter("state")`.
pub proof fn lemma_missing_parameter(
    pairs: Seq<(Seq<char>, Seq<char>)>,
    expected: Seq<char>,
    r: Result<String, AuthError>,
)
    requires
        callback_result(pairs, expected, r),
    ensures
        first_value(pairs, "code"@) is None ==> (r matches Err(AuthError::MissingParameter(n))
            && n@ == "code"@),
        first_value(pairs, "code"@) is Some && first_value(pairs, "state"@) is None ==> (r matches Err(
            AuthError::MissingParameter(n),
        ) && n@ == "state"@),
{
}

proof fn lemma_skip_white_bounds(s: Seq<char>, i: int)
    requires
        0 <= i <= s.len(),
    ensures
        i <= skip_white(s, i) <= s.len(),
        skip_white(s, i) < s.len() ==> !is_white(s[skip_white(s, i)]),
    decreases s.len() - i,
{
    if i < s.len() && is_white(s[i]) {
        lemma_skip_white_bounds(s, i + 1);
    }
}

proof fn lemma_skip_word_bounds(s: Seq<char>, i: int)
    requires
        0 <= i <= s.len(),
    ensures
        i <= skip_word(s, i) <= s.len(),
    decreases s.len() - i,
{
    if i < s.len() && !is_white(s[i]) {
        lemma_skip_word_bounds(s, i + 1);
    }
}

/// Moves `i` past the run of whitespace (or, with `white` false, of
/// non-whitespace) that starts there.
fn skip_run(line: &str, len: usize, i: usize, white: bool) -> (r: usize)
    requires
        len == line@.len(),
        i <= len,
    ensures
        white ==> r == skip_white(line@, i as int),
        !white ==> r == skip_word(line@, i as int),
{
    let mut j = i;
    while j < len && char_is_whitespace(line.get_char(j)) == white
        invariant
            len == line@.len(),
            i <= j <= len,
            white ==> skip_white(line@, j as int) == skip_white(line@, i as int),
            !white ==> skip_word(line@, j as int) == skip_word(line@, i as int),
        decreases len - j,
    {
        j = j + 1;
    }
    j
}

/// The request target of an HTTP request line (its second word), if any.
pub fn request_target(line: &str) -> (r: Option<String>)
    ensures
        match request_target_of(line@) {
            Some(t) => r matches Some(s) && s@ == t,
            None => r is None,
        },
{
    let len = line.unicode_len();
    let a = skip_run(line, len, 0, true);
    proof {
        lemma_skip_white_bounds(line@, 0);
    }
    let b = skip_run(line, len, a, false);
    proof {
        lemma_skip_word_bounds(line@, a as int);
    }
    let c = skip_run(line, len, b, true);
    proof {
        lemma_skip_white_bounds(line@, b as int);
    }
    let d = skip_run(line, len, c, false);
    proof {
        lemma_skip_word_bounds(line@, c as int);
    }
    if c < len {
        Some(String::from_str(line.substring_char(c, d)))
    } else {
        None
    }
}

/// The value of the first pair named `key`, if any.
pub fn find_param(pairs: &Vec<(String, String)>, key: &str) -> (r: Option<String>)
    ensures
        match first_value(pairs_view(pairs@), key@) {
            Some(v) => r matches Some(s) && s@ == v,
            None => r is None,
        },
{
    let key_s = String::from_str(key);
    let ghost all = pairs_view(pairs@);
    let mut i: usize = 0;
    assert(all.subrange(0, all.len() as int) =~= all);
    while i < pairs.len()
        invariant
            i <= pairs@.len(),
            all == pairs_view(pairs@),
            key_s@ == key@,
            first_value(all, key@) == first_value(all.subrange(i as int, all.len() as int), key@),
        decreases pairs.len() - i,
    {
        let ghost rest = all.subrange(i as int, all.len() as int);
        assert(rest.drop_first() =~= all.subrange(i + 1, all.len() as int));
        assert(rest[0] == (pairs@[i as int].0@, pairs@[i as int].1@));
        let pair = &pairs[i];
        if pair.0 == key_s {
            return Some(pair.1.clone());
        }
        i = i + 1;
    }
    assert(all.subrange(i as int, all.len() as int).len() == 0);
    None
}

/// Checks a callback's decoded query against the state sent out and yields
/// the authorization code.
pub fn check_callback(pairs: &Vec<(String, String)>, expected_state: &str) -> (r: Result<
    String,
    AuthError,
>)
    ensures
        callback_result(pairs_view(pairs@), expected_state@, r),
{
    let code = match find_param(pairs, "code") {
        Some(c) => c,
        None => return Err(AuthError::MissingParameter(String::from_str("code"))),
    };
    let state = match find_param(pairs, "state") {
        Some(s) => s,
        None => return Err(AuthError::MissingParameter(String::from_str("state"))),
    };
    if state == String::from_str(expected_state) {
        Ok(code)
    } else {
        Err(AuthError::CsrfMismatch)
    }
}

/// Reads the authorization code out of the callback's request line
/// (`GET /callback?code=..&state=.. HTTP/1.1`), checking its state against
/// `expected_state`.
pub fn parse_callback(request_line: &str, expected_state: &str) -> (r: Result<String, AuthError>)
    ensures
        callback_line_result(request_line@, expected_state@, r),
{
    let target = match request_target(request_line) {
        Some(t) => t,
        None => return Err(AuthError::MalformedCallback),
    };
    let url = String::from_str(CALLBACK_BASE).concat(target.as_str());
    match url_query_pairs(url.as_str()) {
        Some(pairs) => check_callback(&pairs, expected_state),
        None => Err(AuthError::MalformedCallback),
    }
}

} // verus!
