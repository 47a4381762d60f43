//! Reading the authorization code out of the browser's redirect to the local
//! listener during the GitHub sign-in.
use vstd::prelude::*;

use crate::text::{is_white_space, same_text};

verus! {

#[verifier::external_type_specification]
#[verifier::external_body]
pub struct ExUrlParseError(url::ParseError);

/// The decoded query pairs that `url::Url::parse` and `Url::query_pairs` give
/// for a URL text, or nothing when it does not parse.
pub uninterp spec fn url_query_pairs(url: Seq<char>) -> Option<Seq<(Seq<char>, Seq<char>)>>;

/// The character views of a list of string pairs.
pub open spec fn pair_views(v: Seq<(String, String)>) -> Seq<(Seq<char>, Seq<char>)> {
    v.map_values(|p: (String, String)| (p.0@, p.1@))
}

/// Relies on `url::Url::parse` and `Url::query_pairs`: the URL's decoded query
/// pairs in order, a function of the text alone.
#[verifier::external_body]
fn parse_query_pairs(url: &str) -> (r: Result<Vec<(String, String)>, url::ParseError>)
    ensures
        r matches Ok(v) ==> url_query_pairs(url@) == Some(pair_views(v@)),
        r is Err ==> url_query_pairs(url@) is None,
{
    url::Url::parse(url).map(|u| u.query_pairs().into_owned().collect())
}

/// Relies on `char::is_whitespace`: the Unicode `White_Space` property.
#[verifier::external_body]
fn char_is_whitespace(c: char) -> (r: bool)
    ensures
        r == is_white_space(c),
{
    c.is_whitespace()
}

/// First position at or after `i` that is not white space, or the length.
pub open spec fn skip_white_from(s: Seq<char>, i: int) -> int
    decreases s.len() - i,
{
    if i < 0 || i >= s.len() {
        s.len() as int
    } else if is_white_space(s[i]) {
        skip_white_from(s, i + 1)
    } else {
        i
    }
}

/// First position at or after `i` that is white space, or the length.
pub open spec fn token_end_from(s: Seq<char>, i: int) -> int
    decreases s.len() - i,
{
    if i < 0 || i >= s.len() {
        s.len() as int
    } else if is_white_space(s[i]) {
        i
    } else {
        token_end_from(s, i + 1)
    }
}

/// The second white-space separated word of an HTTP request line: the
/// request target.
pub open spec fn request_target(line: Seq<char>) -> Option<Seq<char>> {
    let method_end = token_end_from(line, skip_white_from(line, 0));
    let start = skip_white_from(line, method_end);
    if start < line.len() {
        Some(line.subrange(start, token_end_from(line, start)))
    } else {
        None
    }
}

/// The value of the first pair named `key` from position `i` on.
pub open spec fn first_value_from(pairs: Seq<(Seq<char>, Seq<char>)>, key: Seq<char>, i: int) -> Option<
    Seq<char>,
>
    decreases pairs.len() - i,
{
    if i < 0 || i >= pairs.len() {
        None
    } else if pairs[i].0 == key {
        Some(pairs[i].1)
    } else {
        first_value_from(pairs, key, i + 1)
    }
}

/// The authorization code in a redirect request line: the `code` query value
/// of its target, read relative to `http://localhost`.
pub open spec fn redirect_code(line: Seq<char>) -> Option<Seq<char>> {
    match request_target(line) {
        None => None,
        Some(target) => match url_query_pairs("http://localhost"@ + target) {
            None => None,
            Some(pairs) => first_value_from(pairs, seq!['c', 'o', 'd', 'e'], 0),
        },
    }
}

proof fn lemma_scan_bounds(s: Seq<char>, i: int)
    requires
        0 <= i <= s.len(),
    ensures
        i <= skip_white_from(s, i) <= s.len(),
        i <= token_end_from(s, i) <= s.len(),
    decreases s.len() - i,
{
    if i < s.len() {
        lemma_scan_bounds(s, i + 1);
    }
}

fn skip_white(s: &str, from: usize) -> (r: usize)
    requires
        from <= s@.len(),
    ensures
        r == skip_white_from(s@, from as int),
{
    let n = s.unicode_len();
    let mut i = from;
    while i < n
        invariant
            n == s@.len(),
            from <= i <= n,
            skip_white_from(s@, from as int) == skip_white_from(s@, i as int),
        decreases n - i,
    {
        if !char_is_whitespace(s.get_char(i)) {
            return i;
        }
        i += 1;
    }
    i
}

fn token_end(s: &str, from: usize) -> (r: usize)
    requires
        from <= s@.len(),
    ensures
        r == token_end_from(s@, from as int),
{
    let n = s.unicode_len();
    let mut i = from;
    while i < n
        invariant
            n == s@.len(),
            from <= i <= n,
            token_end_from(s@, from as int) == token_end_from(s@, i as int),
        decreases n - i,
    {
        if char_is_whitespace(s.get_char(i)) {
            return i;
        }
        i += 1;
    }
    i
}

/// The authorization code carried by the redirect request line, if any.
pub fn authorization_code(request_line: &str) -> (r: Option<String>)
    ensures
        match r {
            Some(c) => redirect_code(request_line@) == Some(c@),
            None => redirect_code(request_line@) is None,
        },
{
    let n = request_line.unicode_len();
    let a = skip_white(request_line, 0);
    proof {
        lemma_scan_bounds(request_line@, 0);
        lemma_scan_bounds(request_line@, a as int);
    }
    let b = token_end(request_line, a);
    proof {
        lemma_scan_bounds(request_line@, b as int);
    }
    let start = skip_white(request_line, b);
    if start >= n {
        return None;
    }
    proof {
        lemma_scan_bounds(request_line@, start as int);
    }
    let end = token_end(request_line, start);
    let target = request_line.substring_char(start, end);
    let mut url = String::from_str("http://localhost");
    url.append(target);
    let pairs = match parse_query_pairs(url.as_str()) {
        Ok(p) => p,
        Err(_) => return None,
    };
    let key = "code";
    proof {
        reveal_strlit("code");
    }
    assert(key@ =~= seq!['c', 'o', 'd', 'e']);
    let m = pairs.len();
    assert(request_target(request_line@) == Some(target@));
    assert(url@ == "http://localhost"@ + target@);
    let mut i: usize = 0;
    while i < m
        invariant
            m == pairs@.len(),
            i <= m,
            request_target(request_line@) == Some(target@),
            url@ == "http://localhost"@ + target@,
            url_query_pairs(url@) == Some(pair_views(pairs@)),
            key@ == seq!['c', 'o', 'd', 'e'],
            first_value_from(pair_views(pairs@), key@, 0) == first_value_from(
                pair_views(pairs@),
                key@,
                i as int,
            ),
        decreases m - i,
    {
        if same_text(pairs[i].0.as_str(), key) {
            assert(pair_views(pairs@)[i as int] == (pairs@[i as int].0@, pairs@[i as int].1@));
            return Some(pairs[i].1.clone());
        }
        assert(pair_views(pairs@)[i as int] == (pairs@[i as int].0@, pairs@[i as int].1@));
        i += 1;
    }
    None
}

} // verus!
