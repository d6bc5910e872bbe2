//! String operations the resolution rules are built from, each with its
//! meaning over sequences of characters.

use vstd::prelude::*;
use vstd::string::StringExecFns;

verus! {

/// The lower-case form of an ASCII capital letter; any other character itself.
pub open spec fn ascii_lower(c: char) -> char {
    if 'A' as u32 <= c as u32 && c as u32 <= 'Z' as u32 {
        ((c as u32) + 32) as char
    } else {
        c
    }
}

/// A text with every ASCII capital letter lowered, all else unchanged.
pub open spec fn ascii_lowercase(s: Seq<char>) -> Seq<char> {
    Seq::new(s.len(), |i: int| ascii_lower(s[i]))
}

/// Whether `needle` occurs in `haystack` as a contiguous run of characters.
pub open spec fn has_substring(haystack: Seq<char>, needle: Seq<char>) -> bool {
    exists|i: int|
        0 <= i && i + needle.len() <= haystack.len() && #[trigger] haystack.subrange(
            i,
            i + needle.len(),
        ) == needle
}

/// A text in which every occurrence of the character `from` has given way to `to`.
pub open spec fn replaced(s: Seq<char>, from: char, to: Seq<char>) -> Seq<char>
    decreases s.len(),
{
    if s.len() == 0 {
        Seq::empty()
    } else {
        replaced(s.drop_last(), from, to) + (if s.last() == from {
            to
        } else {
            seq![s.last()]
        })
    }
}

/// The upper-case form of a text by the Unicode rules, as the standard
/// library computes it. The mapping may change the number of characters.
pub uninterp spec fn unicode_uppercase(s: Seq<char>) -> Seq<char>;

pub open spec fn is_digit(c: char) -> bool {
    '0' as u32 <= c as u32 && c as u32 <= '9' as u32
}

pub open spec fn all_digits(s: Seq<char>) -> bool {
    forall|i: int| 0 <= i < s.len() ==> is_digit(#[trigger] s[i])
}

/// The number that a run of decimal digits writes.
pub open spec fn digits_value(s: Seq<char>) -> nat
    decreases s.len(),
{
    if s.len() == 0 {
        0
    } else {
        (digits_value(s.drop_last()) * 10 + (s.last() as u32 - '0' as u32)) as nat
    }
}

/// What a text reads as in decimal: an optional `+`, then one or more digits
/// whose value fits 64 bits. Any other text reads as nothing.
pub open spec fn decimal_u64(s: Seq<char>) -> Option<u64> {
    let digits = if s.len() > 0 && s[0] == '+' {
        s.skip(1)
    } else {
        s
    };
    if digits.len() > 0 && all_digits(digits) && digits_value(digits) <= u64::MAX {
        Some(digits_value(digits) as u64)
    } else {
        None
    }
}

/// What a text reads as a truth value: only `true` and `false` are read.
pub open spec fn truth_value(s: Seq<char>) -> Option<bool> {
    if s == "true"@ {
        Some(true)
    } else if s == "false"@ {
        Some(false)
    } else {
        None
    }
}

/// The texts of a list of string slices.
pub open spec fn key_names(keys: Seq<&str>) -> Seq<Seq<char>> {
    Seq::new(keys.len(), |i: int| keys[i]@)
}

/// Equality of two string slices, by `str`'s `PartialEq`: true exactly when
/// both hold the same characters.
#[verifier::external_body]
pub(crate) fn str_eq(a: &str, b: &str) -> (same: bool)
    ensures
        same == (a@ == b@),
{
    a == b
}

/// `str::to_ascii_lowercase`: a copy in which the ASCII letters `A` to `Z`
/// are mapped to `a` to `z` and every other character is kept.
#[verifier::external_body]
pub(crate) fn to_ascii_lowercase(s: &str) -> (lower: String)
    ensures
        lower@ == ascii_lowercase(s@),
{
    s.to_ascii_lowercase()
}

/// `str::to_uppercase`: the result is a function of the text alone; it is
/// named, not spelt out.
#[verifier::external_body]
pub(crate) fn to_uppercase(s: &str) -> (upper: String)
    ensures
        upper@ == unicode_uppercase(s@),
{
    s.to_uppercase()
}

/// `str::replace` with a character as the pattern: every match of the
/// character is replaced by `to`, the rest is copied.
#[verifier::external_body]
pub(crate) fn replace_char(s: &str, from: char, to: &str) -> (out: String)
    ensures
        out@ == replaced(s@, from, to@),
{
    s.replace(from, to)
}

/// `str::contains` with a string slice as the pattern: true exactly when the
/// pattern matches a sub-slice of the text.
#[verifier::external_body]
pub(crate) fn str_contains(haystack: &str, needle: &str) -> (found: bool)
    ensures
        found == has_substring(haystack@, needle@),
{
    haystack.contains(needle)
}

/// `str::parse::<u64>`: accepts an optional `+` sign followed by decimal
/// digits only, and fails on the empty text, on any other character and on a
/// value that does not fit.
#[verifier::external_body]
pub(crate) fn parse_u64(s: &str) -> (value: Option<u64>)
    ensures
        value == decimal_u64(s@),
{
    s.parse::<u64>().ok()
}

/// Reads `true` or `false`; any other text is not a truth value.
pub fn parse_bool(s: &str) -> (value: Option<bool>)
    ensures
        value == truth_value(s@),
{
    if str_eq(s, "true") {
        Some(true)
    } else if str_eq(s, "false") {
        Some(false)
    } else {
        None
    }
}

/// Whether a list of names holds the given text.
pub fn contains_text(names: &Vec<&str>, text: &str) -> (found: bool)
    ensures
        found == key_names(names@).contains(text@),
{
    let mut i: usize = 0;
    while i < names.len()
        invariant
            i <= names.len(),
            forall|j: int| 0 <= j < i ==> key_names(names@)[j] != text@,
        decreases names.len() - i,
    {
        if str_eq(names[i], text) {
            assert(key_names(names@)[i as int] == text@);
            return true;
        }
        i += 1;
    }
    false
}

/// Joins two texts, the first in front.
pub fn concat(prefix: &str, suffix: &str) -> (label: String)
    ensures
        label@ == prefix@ + suffix@,
{
    let mut version_label: String = prefix.to_owned();
    version_label.append(suffix);
    version_label
}

} // verus!
