//! Decoding of the controller's vendor-specific value encodings.
use vstd::prelude::*;
use vstd::string::*;

verus! {

/// Why a raw value could not be turned into a reading.
#[derive(Debug, Clone, Copy, PartialEq, Eq, Structural)]
pub enum DecodeError {
    /// A temperature whose number part is not a valid `i16`.
    NotANumber,
    /// A relay state whose last `_`-separated token is neither `ON` nor `OFF`.
    NotABoolean,
    /// A response body that is not the expected JSON document, or that holds
    /// no string at `response.val`.
    MalformedBody,
}

/// Value of an ASCII decimal digit.
pub open spec fn digit_value(c: char) -> int {
    c as int - '0' as int
}

pub open spec fn is_digit(c: char) -> bool {
    '0' <= c && c <= '9'
}

pub open spec fn all_digits(s: Seq<char>) -> bool {
    forall|i: int| 0 <= i < s.len() ==> is_digit(#[trigger] s[i])
}

/// The number that a string of decimal digits denotes.
pub open spec fn decimal_value(s: Seq<char>) -> int
    decreases s.len(),
{
    if s.len() == 0 {
        0
    } else {
        decimal_value(s.drop_last()) * 10 + digit_value(s.last())
    }
}

/// What `i16` parsing accepts: an optional `+` or `-`, then one or more
/// decimal digits, denoting a value within the range of `i16`.
pub open spec fn parse_i16_spec(s: Seq<char>) -> Option<int> {
    let neg = s.len() > 0 && s[0] == '-';
    let signed = s.len() > 0 && (s[0] == '-' || s[0] == '+');
    let digits = if signed { s.drop_first() } else { s };
    let v = if neg { -decimal_value(digits) } else { decimal_value(digits) };
    if digits.len() > 0 && all_digits(digits) && i16::MIN <= v <= i16::MAX {
        Some(v)
    } else {
        None
    }
}

/// The degree sign followed by `C`.
pub open spec fn celsius_suffix() -> Seq<char> {
    seq!['\u{b0}', 'C']
}

/// The same suffix as the controller sometimes sends it: its UTF-8 bytes read
/// as Latin-1.
pub open spec fn garbled_celsius_suffix() -> Seq<char> {
    seq!['\u{c2}', '\u{b0}', 'C']
}

pub open spec fn ends_with(s: Seq<char>, suffix: Seq<char>) -> bool {
    suffix.len() <= s.len() && s.subrange(s.len() - suffix.len(), s.len() as int) == suffix
}

/// The number part of a temperature: the text without its Celsius suffix.
pub open spec fn celsius_number(raw: Seq<char>) -> Seq<char> {
    if ends_with(raw, garbled_celsius_suffix()) {
        raw.subrange(0, raw.len() - 3)
    } else if ends_with(raw, celsius_suffix()) {
        raw.subrange(0, raw.len() - 2)
    } else {
        raw
    }
}

/// The text after the last `_` (all of it when there is none).
pub open spec fn last_token(s: Seq<char>) -> Seq<char>
    decreases s.len(),
{
    if s.len() == 0 {
        s
    } else if s.last() == '_' {
        Seq::empty()
    } else {
        last_token(s.drop_last()).push(s.last())
    }
}

pub open spec fn on_token() -> Seq<char> {
    seq!['O', 'N']
}

pub open spec fn off_token() -> Seq<char> {
    seq!['O', 'F', 'F']
}

/// The relay reading that a raw relay value denotes.
pub open spec fn relay_spec(raw: Seq<char>) -> Result<i16, DecodeError> {
    if last_token(raw) == on_token() {
        Ok(100)
    } else if last_token(raw) == off_token() {
        Ok(0)
    } else {
        Err(DecodeError::NotABoolean)
    }
}

/// Whether `s[start..]` is exactly `token`.
fn tail_is(s: &str, start: usize, token: &str) -> (r: bool)
    requires
        start <= s@.len(),
    ensures
        r == (s@.subrange(start as int, s@.len() as int) == token@),
{
    let n = s.unicode_len();
    let m = token.unicode_len();
    if n - start != m {
        return false;
    }
    let mut i: usize = 0;
    while i < m
        invariant
            n == s@.len(),
            m == token@.len(),
            n - start == m,
            start <= n,
            i <= m,
            forall|j: int| 0 <= j < i ==> s@[start + j] == token@[j],
        decreases m - i,
    {
        if s.get_char(start + i) != token.get_char(i) {
            assert(s@.subrange(start as int, n as int)[i as int] != token@[i as int]);
            return false;
        }
        i = i + 1;
    }
    assert(s@.subrange(start as int, n as int) =~= token@);
    true
}

proof fn lemma_last_token_after(s: Seq<char>, k: int)
    requires
        0 <= k <= s.len(),
        k == 0 || s[k - 1] == '_',
        forall|j: int| k <= j < s.len() ==> s[j] != '_',
    ensures
        last_token(s) == s.subrange(k, s.len() as int),
    decreases s.len(),
{
    if s.len() == k {
        if k > 0 {
            assert(s.last() == '_');
        }
        assert(s.subrange(k, s.len() as int) =~= Seq::<char>::empty());
    } else {
        lemma_last_token_after(s.drop_last(), k);
        assert(s.subrange(k, s.len() as int) =~= s.drop_last().subrange(k, s.len() - 1).push(
            s.last(),
        ));
    }
}

/// Decodes a relay state: the token after the last `_` is `ON` (100) or `OFF`
/// (0).
pub fn relay_value_getter(value: &str) -> (r: Result<i16, DecodeError>)
    ensures
        r == relay_spec(value@),
{
    let n = value.unicode_len();
    let mut k: usize = n;
    while k > 0 && value.get_char(k - 1) != '_'
        invariant
            n == value@.len(),
            k <= n,
            forall|j: int| k <= j < n ==> value@[j] != '_',
        decreases k,
    {
        k = k - 1;
    }
    proof {
        lemma_last_token_after(value@, k as int);
        reveal_strlit("ON");
        reveal_strlit("OFF");
        assert("ON"@ =~= on_token());
        assert("OFF"@ =~= off_token());
    }
    if tail_is(value, k, "ON") {
        Ok(100)
    } else if tail_is(value, k, "OFF") {
        Ok(0)
    } else {
        Err(DecodeError::NotABoolean)
    }
}

/// The temperature reading that a raw temperature value denotes.
pub open spec fn celsius_spec(raw: Seq<char>) -> Result<i16, DecodeError> {
    match parse_i16_spec(celsius_number(raw)) {
        Some(v) => Ok(v as i16),
        None => Err(DecodeError::NotANumber),
    }
}

proof fn lemma_decimal_prefix(s: Seq<char>, k: int)
    requires
        all_digits(s),
        0 <= k <= s.len(),
    ensures
        0 <= decimal_value(s.subrange(0, k)) <= decimal_value(s),
    decreases s.len(),
{
    if k == s.len() {
        assert(s.subrange(0, k) =~= s);
        if s.len() > 0 {
            lemma_decimal_prefix(s.drop_last(), k - 1);
            assert(is_digit(s[s.len() - 1]));
        }
    } else {
        lemma_decimal_prefix(s.drop_last(), k);
        assert(s.drop_last().subrange(0, k) =~= s.subrange(0, k));
        lemma_decimal_prefix(s.drop_last(), s.len() - 1);
        assert(s.drop_last().subrange(0, s.len() - 1) =~= s.drop_last());
        assert(is_digit(s[s.len() - 1]));
    }
}

/// Parses an `i16` written in decimal, with an optional sign.
fn parse_i16(s: &str) -> (r: Option<i16>)
    ensures
        r matches Some(v) ==> parse_i16_spec(s@) == Some(v as int),
        r is None ==> parse_i16_spec(s@) is None,
{
    let n = s.unicode_len();
    if n == 0 {
        return None;
    }
    let c0 = s.get_char(0);
    let neg = c0 == '-';
    let start: usize = if c0 == '-' || c0 == '+' { 1 } else { 0 };
    let ghost digits = if start == 1 { s@.drop_first() } else { s@ };
    assert(c0 == s@[0]);
    assert(digits =~= s@.subrange(start as int, n as int));
    if start == n {
        return None;
    }
    let mut acc: i32 = 0;
    let mut i: usize = start;
    while i < n
        invariant
            n == s@.len(),
            start <= i <= n,
            digits == s@.subrange(start as int, n as int),
            n > 0,
            neg == (s@[0] == '-'),
            start == 1 <==> (s@[0] == '-' || s@[0] == '+'),
            digits == (if s@[0] == '-' || s@[0] == '+' { s@.drop_first() } else { s@ }),
            all_digits(s@.subrange(start as int, i as int)),
            acc == decimal_value(s@.subrange(start as int, i as int)),
            0 <= acc <= 32768,
        decreases n - i,
    {
        let c = s.get_char(i);
        if c < '0' || c > '9' {
            assert(!is_digit(digits[i - start]));
            return None;
        }
        let d: i32 = (c as u32 - '0' as u32) as i32;
        let next: i32 = acc * 10 + d;
        proof {
            let p = s@.subrange(start as int, i + 1);
            assert(p.drop_last() =~= s@.subrange(start as int, i as int));
            assert(digit_value(p.last()) == d);
            assert(all_digits(p));
        }
        if next > 32768 {
            proof {
                if all_digits(digits) {
                    lemma_decimal_prefix(digits, i + 1 - start);
                    assert(digits.subrange(0, i + 1 - start) =~= s@.subrange(start as int, i + 1));
                }
            }
            return None;
        }
        acc = next;
        i = i + 1;
    }
    assert(s@.subrange(start as int, i as int) =~= digits);
    if neg {
        Some((-acc) as i16)
    } else if acc <= 32767 {
        Some(acc as i16)
    } else {
        None
    }
}

/// Decodes a temperature: strips the Celsius suffix and parses the rest as an
/// `i16`.
pub fn celsius_value_getter(value: &str) -> (r: Result<i16, DecodeError>)
    ensures
        r == celsius_spec(value@),
{
    let n = value.unicode_len();
    let mut e: usize = n;
    if n >= 3 && value.get_char(n - 3) == '\u{c2}' && value.get_char(n - 2) == '\u{b0}'
        && value.get_char(n - 1) == 'C' {
        assert(value@.subrange(n - 3, n as int) =~= garbled_celsius_suffix());
        e = n - 3;
    } else if n >= 2 && value.get_char(n - 2) == '\u{b0}' && value.get_char(n - 1) == 'C' {
        assert(value@.subrange(n - 2, n as int) =~= celsius_suffix());
        proof {
            if ends_with(value@, garbled_celsius_suffix()) {
                assert(value@.subrange(n - 3, n as int)[0] == value@[n - 3]);
            }
        }
        e = n - 2;
    } else {
        proof {
            if ends_with(value@, garbled_celsius_suffix()) {
                assert(value@.subrange(n - 3, n as int)[0] == value@[n - 3]);
                assert(value@.subrange(n - 3, n as int)[1] == value@[n - 2]);
                assert(value@.subrange(n - 3, n as int)[2] == value@[n - 1]);
            }
            if ends_with(value@, celsius_suffix()) {
                assert(value@.subrange(n - 2, n as int)[0] == value@[n - 2]);
                assert(value@.subrange(n - 2, n as int)[1] == value@[n - 1]);
            }
        }
    }
    let number = value.substring_char(0, e);
    assert(number@ =~= celsius_number(value@));
    match parse_i16(number) {
        Some(v) => Ok(v),
        None => Err(DecodeError::NotANumber),
    }
}

} // verus!
