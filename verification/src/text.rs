//! Character and string primitives that the rest of the library is built on.

use vstd::prelude::*;
use vstd::string::*;

verus! {

/// Whether `c` is a letter of the basic Latin alphabet or a decimal digit.
pub open spec fn spec_is_ascii_alphanumeric(c: char) -> bool {
    ('a' <= c && c <= 'z') || ('A' <= c && c <= 'Z') || ('0' <= c && c <= '9')
}

/// Whether `c` is a letter of the basic Latin alphabet or a decimal digit.
pub fn is_ascii_alphanumeric(c: char) -> (r: bool)
    ensures
        r == spec_is_ascii_alphanumeric(c),
{
    ('a' <= c && c <= 'z') || ('A' <= c && c <= 'Z') || ('0' <= c && c <= '9')
}

/// Whether `c` is white space: one of the characters that Unicode gives the
/// property `White_Space`.
pub open spec fn spec_is_whitespace(c: char) -> bool {
    ('\u{9}' <= c && c <= '\u{D}') || c == ' ' || c == '\u{85}' || c == '\u{A0}' || c
        == '\u{1680}' || ('\u{2000}' <= c && c <= '\u{200A}') || c == '\u{2028}' || c
        == '\u{2029}' || c == '\u{202F}' || c == '\u{205F}' || c == '\u{3000}'
}

/// Whether `c` is white space.
pub fn is_whitespace(c: char) -> (r: bool)
    ensures
        r == spec_is_whitespace(c),
{
    ('\u{9}' <= c && c <= '\u{D}') || c == ' ' || c == '\u{85}' || c == '\u{A0}' || c
        == '\u{1680}' || ('\u{2000}' <= c && c <= '\u{200A}') || c == '\u{2028}' || c
        == '\u{2029}' || c == '\u{202F}' || c == '\u{205F}' || c == '\u{3000}'
}

/// Whether `s` holds white space.
pub open spec fn spec_contains_whitespace(s: Seq<char>) -> bool {
    exists|i: int| 0 <= i < s.len() && spec_is_whitespace(#[trigger] s[i])
}

/// Whether `s` holds white space.
pub fn contains_whitespace(s: &str) -> (r: bool)
    ensures
        r == spec_contains_whitespace(s@),
{
    let n = s.unicode_len();
    let mut i: usize = 0;
    while i < n
        invariant
            n == s@.len(),
            i <= n,
            forall|j: int| 0 <= j < i ==> !spec_is_whitespace(#[trigger] s@[j]),
        decreases n - i,
    {
        if is_whitespace(s.get_char(i)) {
            return true;
        }
        i += 1;
    }
    false
}

/// `String::push`. Nothing is proved of it: it is taken to append the given
/// character to the end of the string, as its documentation says.
pub assume_specification[ String::push ](s: &mut String, ch: char)
    ensures
        final(s)@ == old(s)@.push(ch),
;

/// The characters of `s` written as a Rust string literal: quoted and
/// escaped, as `Debug` formats a `str`.
pub uninterp spec fn str_debug(s: Seq<char>) -> Seq<char>;

/// The character `c` written as a Rust character literal: quoted and
/// escaped, as `Debug` formats a `char`.
pub uninterp spec fn char_debug(c: char) -> Seq<char>;

/// Calls `<str as core::fmt::Debug>::fmt` through `format!`. Nothing is
/// proved of it: it is taken to yield the quoted and escaped literal, a text
/// that depends on the characters of `s` alone.
#[verifier::external_body]
pub(crate) fn debug_str(s: &str) -> (r: String)
    ensures
        r@ == str_debug(s@),
{
    format!("{:?}", s)
}

/// Calls `<char as core::fmt::Debug>::fmt` through `format!`. Nothing is
/// proved of it: it is taken to yield the quoted and escaped literal, a text
/// that depends on `c` alone.
#[verifier::external_body]
pub(crate) fn debug_char(c: char) -> (r: String)
    ensures
        r@ == char_debug(c),
{
    format!("{:?}", c)
}

/// Whether two strings hold the same characters.
pub fn str_eq(a: &str, b: &str) -> (r: bool)
    ensures
        r == (a@ == b@),
{
    String::from_str(a) == String::from_str(b)
}

/// `a` followed by `b`.
pub fn joined(a: &str, b: &str) -> (r: String)
    ensures
        r@ == a@ + b@,
{
    let mut r = String::from_str(a);
    r.append(b);
    r
}

/// Whether `c` occurs in `s`.
pub fn contains_char(s: &str, c: char) -> (r: bool)
    ensures
        r == s@.contains(c),
{
    let n = s.unicode_len();
    let mut i: usize = 0;
    while i < n
        invariant
            n == s@.len(),
            i <= n,
            forall|j: int| 0 <= j < i ==> s@[j] != c,
        decreases n - i,
    {
        if s.get_char(i) == c {
            return true;
        }
        i += 1;
    }
    false
}

/// The last character of `s`, if it has one.
pub fn last_char(s: &str) -> (r: Option<char>)
    ensures
        r == (if s@.len() == 0 { None } else { Some(s@.last()) }),
{
    let n = s.unicode_len();
    if n == 0 {
        None
    } else {
        Some(s.get_char(n - 1))
    }
}

} // verus!
