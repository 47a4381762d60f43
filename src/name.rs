//! Canonical names for vault secrets: free text becomes a `vault_` key made of
//! ASCII letters, digits and underscores.
use regex::Regex;
use vstd::prelude::*;

use crate::text::{has_prefix, is_white_space, starts_with, trim, trim_of};

verus! {

#[verifier::external_type_specification]
#[verifier::external_body]
pub struct ExRegexError(regex::Error);

/// An ASCII letter or digit: the characters a secret name keeps as they are.
pub open spec fn is_name_char(c: char) -> bool {
    ('a' <= c && c <= 'z') || ('A' <= c && c <= 'Z') || ('0' <= c && c <= '9')
}

/// Every character outside `[A-Za-z0-9]` replaced by `_`.
pub open spec fn escaped(s: Seq<char>) -> Seq<char> {
    Seq::new(s.len(), |i: int| if is_name_char(s[i]) { s[i] } else { '_' })
}

/// The prefix every secret name carries.
pub open spec fn secret_prefix() -> Seq<char> {
    seq!['v', 'a', 'u', 'l', 't', '_']
}

/// The canonical key for the free text `raw`: trimmed, escaped, and prefixed
/// with `vault_` unless it already starts with it.
pub open spec fn normalized_name(raw: Seq<char>) -> Seq<char> {
    let e = escaped(trim_of(raw));
    if has_prefix(e, secret_prefix()) {
        e
    } else {
        secret_prefix() + e
    }
}

/// Shape of a well-formed secret name: `^vault_[A-Za-z0-9_]+$`.
pub open spec fn is_secret_name(s: Seq<char>) -> bool {
    &&& has_prefix(s, secret_prefix())
    &&& s.len() > secret_prefix().len()
    &&& forall|i: int| 0 <= i < s.len() ==> is_name_char(#[trigger] s[i]) || s[i] == '_'
}

/// Relies on `regex::Regex::new` and `Regex::replace_all` for the one
/// pattern `[^A-Za-z0-9]` with replacement `_`: that class compiles, each
/// character outside ASCII letters and digits is a match of its own, and every
/// match is replaced, left to right.
#[verifier::external_body]
fn replace_all_matches(pattern: &str, text: &str, replacement: &str) -> (r: Result<String, regex::Error>)
    requires
        pattern@ == "[^A-Za-z0-9]"@,
        replacement@ == "_"@,
    ensures
        r is Ok,
        r matches Ok(s) ==> s@ == escaped(text@),
{
    Regex::new(pattern).map(|re| re.replace_all(text, replacement).into_owned())
}

/// Turns free text into the canonical secret name.
pub fn normalize_secret_name(raw: &str) -> (r: String)
    ensures
        r@ == normalized_name(raw@),
{
    let t = trim(raw);
    let body = match replace_all_matches("[^A-Za-z0-9]", t, "_") {
        Ok(b) => b,
        Err(_) => String::new(),
    };
    let prefix = "vault_";
    proof {
        reveal_strlit("vault_");
    }
    assert(prefix@ =~= secret_prefix());
    if starts_with(body.as_str(), prefix) {
        body
    } else {
        let mut r = String::from_str(prefix);
        r.append(body.as_str());
        r
    }
}

/// Every character of a normalized name is a letter, a digit or `_`, and it
/// starts with `vault_`.
proof fn lemma_normalized_chars(raw: Seq<char>)
    ensures
        has_prefix(normalized_name(raw), secret_prefix()),
        forall|i: int|
            0 <= i < normalized_name(raw).len() ==> is_name_char(#[trigger] normalized_name(raw)[i])
                || normalized_name(raw)[i] == '_',
{
    let e = escaped(trim_of(raw));
    if !has_prefix(e, secret_prefix()) {
        let r = secret_prefix() + e;
        assert(r.subrange(0, 6) =~= secret_prefix());
        assert forall|i: int| 0 <= i < r.len() implies is_name_char(#[trigger] r[i]) || r[i] == '_' by {
            if i >= 6 {
                assert(r[i] == e[i - 6]);
            }
        }
    }
}

/// A name made only of letters, digits and `_` has no white space to trim.
proof fn lemma_trim_name_chars(s: Seq<char>)
    requires
        forall|i: int| 0 <= i < s.len() ==> is_name_char(#[trigger] s[i]) || s[i] == '_',
    ensures
        trim_of(s) == s,
{
    if s.len() > 0 {
        assert(!is_white_space(s[0]));
        assert(!is_white_space(s.last()));
    }
}

/// Normalizing is idempotent: a normalized name normalizes to itself.
pub proof fn lemma_normalize_idempotent(raw: Seq<char>)
    ensures
        normalized_name(normalized_name(raw)) == normalized_name(raw),
{
    let y = normalized_name(raw);
    lemma_normalized_chars(raw);
    lemma_trim_name_chars(y);
    assert(escaped(y) =~= y);
}

/// A name normalized from text that is not blank, and does not escape to a
/// bare `vault_`, matches `^vault_[A-Za-z0-9_]+$`.
pub proof fn lemma_normalized_shape(raw: Seq<char>)
    requires
        trim_of(raw).len() > 0,
        escaped(trim_of(raw)) != secret_prefix(),
    ensures
        is_secret_name(normalized_name(raw)),
{
    lemma_normalized_chars(raw);
    let e = escaped(trim_of(raw));
    if has_prefix(e, secret_prefix()) && e.len() == 6 {
        assert(e =~= secret_prefix());
    }
}

/// Blank text, and text that escapes to `vault_`, normalize to the bare
/// prefix `vault_`.
pub proof fn lemma_degenerate_name(raw: Seq<char>)
    requires
        trim_of(raw).len() == 0 || escaped(trim_of(raw)) == secret_prefix(),
    ensures
        normalized_name(raw) == secret_prefix(),
{
    let e = escaped(trim_of(raw));
    if e.len() == 0 {
        assert(secret_prefix() + e =~= secret_prefix());
    }
    assert(secret_prefix().subrange(0, 6) =~= secret_prefix());
}

} // verus!
