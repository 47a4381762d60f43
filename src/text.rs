//! Character-level helpers shared by the workflows: whitespace, trimming,
//! prefixes and redaction of sensitive text.
use vstd::prelude::*;

verus! {

/// The Unicode `White_Space` property, which `char::is_whitespace` and the
/// `trim` family of `str` use.
pub open spec fn is_white_space(c: char) -> bool {
    ||| ('\u{9}' <= c && c <= '\u{d}')
    ||| c == ' '
    ||| c == '\u{85}'
    ||| c == '\u{a0}'
    ||| c == '\u{1680}'
    ||| ('\u{2000}' <= c && c <= '\u{200a}')
    ||| c == '\u{2028}'
    ||| c == '\u{2029}'
    ||| c == '\u{202f}'
    ||| c == '\u{205f}'
    ||| c == '\u{3000}'
}

/// `s` without its leading white space.
pub open spec fn trim_start_of(s: Seq<char>) -> Seq<char>
    decreases s.len(),
{
    if s.len() > 0 && is_white_space(s[0]) {
        trim_start_of(s.drop_first())
    } else {
        s
    }
}

/// `s` without its trailing white space.
pub open spec fn trim_end_of(s: Seq<char>) -> Seq<char>
    decreases s.len(),
{
    if s.len() > 0 && is_white_space(s.last()) {
        trim_end_of(s.drop_last())
    } else {
        s
    }
}

/// `s` without white space at either end.
pub open spec fn trim_of(s: Seq<char>) -> Seq<char> {
    trim_end_of(trim_start_of(s))
}

/// Relies on `str::trim`: leading and trailing `White_Space` characters removed.
#[verifier::external_body]
pub(crate) fn trim(s: &str) -> (r: &str)
    ensures
        r@ == trim_of(s@),
{
    s.trim()
}

/// Relies on `str::trim_end`: trailing `White_Space` characters removed.
#[verifier::external_body]
pub(crate) fn trim_end(s: &str) -> (r: &str)
    ensures
        r@ == trim_end_of(s@),
{
    s.trim_end()
}

/// Relies on `String::push`: the character is appended at the end.
#[verifier::external_body]
pub(crate) fn push_char(s: &mut String, c: char)
    ensures
        final(s)@ == old(s)@.push(c),
{
    s.push(c)
}

/// `p` is a prefix of `s`.
pub open spec fn has_prefix(s: Seq<char>, p: Seq<char>) -> bool {
    p.len() <= s.len() && s.subrange(0, p.len() as int) == p
}

/// Whether `s` begins with `p`.
pub fn starts_with(s: &str, p: &str) -> (r: bool)
    ensures
        r == has_prefix(s@, p@),
{
    let n = p.unicode_len();
    if n > s.unicode_len() {
        return false;
    }
    let mut i: usize = 0;
    while i < n
        invariant
            n == p@.len(),
            n <= s@.len(),
            i <= n,
            forall|j: int| 0 <= j < i ==> s@[j] == p@[j],
        decreases n - i,
    {
        if s.get_char(i) != p.get_char(i) {
            assert(s@.subrange(0, n as int)[i as int] != p@[i as int]);
            return false;
        }
        i += 1;
    }
    assert(s@.subrange(0, n as int) =~= p@);
    true
}

/// Whether two strings hold the same characters.
pub fn same_text(a: &str, b: &str) -> (r: bool)
    ensures
        r == (a@ == b@),
{
    if a.unicode_len() != b.unicode_len() {
        return false;
    }
    let r = starts_with(a, b);
    assert(a@.subrange(0, b@.len() as int) =~= a@);
    r
}

/// What stands in place of a hidden secret.
pub open spec fn redaction_mask() -> Seq<char> {
    seq!['*', '*', '*', '*', '*', '*', '*', '*']
}

/// `text` with every occurrence of `secret` replaced by the mask, scanning
/// from the left without overlaps. An empty secret hides nothing.
pub open spec fn redacted(text: Seq<char>, secret: Seq<char>) -> Seq<char>
    decreases text.len(),
{
    if secret.len() == 0 || text.len() == 0 {
        text
    } else if has_prefix(text, secret) {
        redaction_mask() + redacted(text.subrange(secret.len() as int, text.len() as int), secret)
    } else {
        seq![text[0]] + redacted(text.drop_first(), secret)
    }
}

/// Replaces every literal occurrence of `secret` in `text` by the mask.
pub fn redact(text: &str, secret: &str) -> (r: String)
    ensures
        r@ == redacted(text@, secret@),
{
    let m = secret.unicode_len();
    let n = text.unicode_len();
    if m == 0 {
        return String::from_str(text);
    }
    let mask = "********";
    proof {
        reveal_strlit("********");
    }
    assert(mask@ =~= redaction_mask());
    let mut out = String::new();
    let mut i: usize = 0;
    assert(text@.subrange(0, n as int) =~= text@);
    assert(out@ + redacted(text@, secret@) =~= redacted(text@, secret@));
    while i < n
        invariant
            n == text@.len(),
            m == secret@.len(),
            m > 0,
            mask@ == redaction_mask(),
            i <= n,
            out@ + redacted(text@.subrange(i as int, n as int), secret@) == redacted(text@, secret@),
        decreases n - i,
    {
        let rest = text.substring_char(i, n);
        if starts_with(rest, secret) {
            assert(rest@.subrange(m as int, rest@.len() as int) =~= text@.subrange(
                (i + m) as int,
                n as int,
            ));
            assert(out@ + mask@ + redacted(text@.subrange((i + m) as int, n as int), secret@)
                =~= out@ + redacted(rest@, secret@));
            out.append(mask);
            i = i + m;
        } else {
            let c = text.get_char(i);
            assert(rest@.drop_first() =~= text@.subrange((i + 1) as int, n as int));
            assert(out@.push(c) + redacted(text@.subrange((i + 1) as int, n as int), secret@)
                =~= out@ + redacted(rest@, secret@));
            push_char(&mut out, c);
            i = i + 1;
        }
    }
    assert(text@.subrange(n as int, n as int) =~= Seq::<char>::empty());
    assert(out@ + Seq::<char>::empty() =~= out@);
    out
}

} // verus!
