//! Text helpers: prefixes, trimming, lower-casing and shortening.
use vstd::prelude::*;
use vstd::string::*;

verus! {

pub open spec fn starts_with(s: Seq<char>, prefix: Seq<char>) -> bool {
    prefix.len() <= s.len() && s.subrange(0, prefix.len() as int) == prefix
}

/// Whether `s` begins with `prefix`.
pub fn has_prefix(s: &str, prefix: &str) -> (r: bool)
    ensures
        r == starts_with(s@, prefix@),
{
    let n = s.unicode_len();
    let m = prefix.unicode_len();
    if m > n {
        return false;
    }
    let mut i: usize = 0;
    while i < m
        invariant
            n == s@.len(),
            m == prefix@.len(),
            m <= n,
            i <= m,
            forall|j: int| 0 <= j < i ==> s@[j] == prefix@[j],
        decreases m - i,
    {
        if s.get_char(i) != prefix.get_char(i) {
            assert(s@.subrange(0, m as int)[i as int] != prefix@[i as int]);
            return false;
        }
        i = i + 1;
    }
    assert(s@.subrange(0, m as int) =~= prefix@);
    true
}

/// The characters with the Unicode property `White_Space`.
pub open spec fn is_white_space(c: char) -> bool {
    ('\u{9}' <= c && c <= '\u{d}') || c == ' ' || c == '\u{85}' || c == '\u{a0}' || c
        == '\u{1680}' || ('\u{2000}' <= c && c <= '\u{200a}') || c == '\u{2028}' || c
        == '\u{2029}' || c == '\u{202f}' || c == '\u{205f}' || c == '\u{3000}'
}

pub open spec fn trim_start(s: Seq<char>) -> Seq<char>
    decreases s.len(),
{
    if s.len() > 0 && is_white_space(s[0]) {
        trim_start(s.drop_first())
    } else {
        s
    }
}

pub open spec fn trim_end(s: Seq<char>) -> Seq<char>
    decreases s.len(),
{
    if s.len() > 0 && is_white_space(s.last()) {
        trim_end(s.drop_last())
    } else {
        s
    }
}

/// `s` without its leading and trailing white space.
pub open spec fn trim_spec(s: Seq<char>) -> Seq<char> {
    trim_end(trim_start(s))
}

fn white_space(c: char) -> (r: bool)
    ensures
        r == is_white_space(c),
{
    ('\u{9}' <= c && c <= '\u{d}') || c == ' ' || c == '\u{85}' || c == '\u{a0}' || c
        == '\u{1680}' || ('\u{2000}' <= c && c <= '\u{200a}') || c == '\u{2028}' || c
        == '\u{2029}' || c == '\u{202f}' || c == '\u{205f}' || c == '\u{3000}'
}

/// `s` without its leading and trailing white space.
pub fn trim(s: &str) -> (r: &str)
    ensures
        r@ == trim_spec(s@),
{
    let n = s.unicode_len();
    let mut a: usize = 0;
    assert(s@.subrange(0, n as int) =~= s@);
    while a < n && white_space(s.get_char(a))
        invariant
            n == s@.len(),
            a <= n,
            trim_start(s@) == trim_start(s@.subrange(a as int, n as int)),
        decreases n - a,
    {
        assert(s@.subrange(a as int, n as int).drop_first() =~= s@.subrange(a + 1, n as int));
        a = a + 1;
    }
    let mut b: usize = n;
    while b > a && white_space(s.get_char(b - 1))
        invariant
            n == s@.len(),
            a <= b <= n,
            trim_start(s@) == s@.subrange(a as int, n as int),
            trim_end(trim_start(s@)) == trim_end(s@.subrange(a as int, b as int)),
        decreases b - a,
    {
        assert(s@.subrange(a as int, b as int).drop_last() =~= s@.subrange(a as int, b - 1));
        b = b - 1;
    }
    s.substring_char(a, b)
}

/// What Unicode lower-casing makes of a text.
pub uninterp spec fn lower_of(s: Seq<char>) -> Seq<char>;

/// Relies on str::to_lowercase: the result depends on the characters alone.
#[verifier::external_body]
pub(crate) fn lowercase(s: &str) -> (r: String)
    ensures
        r@ == lower_of(s@),
{
    s.to_lowercase()
}

pub open spec fn ellipsis() -> Seq<char> {
    seq!['.', '.', '.']
}

/// `s` itself when it has at most `max` characters, else its first `max`
/// characters followed by `...`.
pub open spec fn shortened(s: Seq<char>, max: nat) -> Seq<char> {
    if s.len() <= max {
        s
    } else {
        s.subrange(0, max as int) + ellipsis()
    }
}

/// Bounds a text for diagnostics: at most `max_length` characters are kept,
/// and `...` marks a cut.
pub fn shorten_string(string: &str, max_length: usize) -> (r: String)
    ensures
        r@ == shortened(string@, max_length as nat),
{
    let n = string.unicode_len();
    if n <= max_length {
        return String::from_str(string);
    }
    let kept = String::from_str(string.substring_char(0, max_length));
    proof {
        reveal_strlit("...");
        assert("..."@ =~= ellipsis());
    }
    kept.concat("...")
}

} // verus!
