//! Character classification and case mapping from Rust's standard library,
//! which follow the Unicode tables compiled into it. Each wrapper names the
//! result of one standard function; the names are functions of their
//! arguments alone.

use vstd::prelude::*;

verus! {

/// Whether a code point is a Unicode scalar value (what `char` can hold).
pub open spec fn is_scalar(u: u32) -> bool {
    u <= 0x10ffff && !(0xd800 <= u <= 0xdfff)
}

/// The character a code point denotes, or NUL when it is not a scalar
/// value (`char::from_u32(u).unwrap_or('\0')`).
pub open spec fn char_or_nul(u: u32) -> char {
    if is_scalar(u) {
        u as char
    } else {
        '\0'
    }
}

/// `char::from_u32`: documented to return `Some` exactly for the Unicode
/// scalar values, holding that code point.
#[verifier::external_body]
fn char_from_u32(u: u32) -> (res: Option<char>)
    ensures
        res == (if is_scalar(u) { Some(u as char) } else { None::<char> }),
{
    char::from_u32(u)
}

/// The character a code point denotes, or NUL.
pub fn char_of_code(u: u32) -> (c: char)
    ensures
        c == char_or_nul(u),
{
    match char_from_u32(u) {
        Some(c) => c,
        None => '\0',
    }
}

/// The result of `str::to_lowercase`.
pub uninterp spec fn lowercase_of(s: Seq<char>) -> Seq<char>;

/// The result of `str::to_uppercase`.
pub uninterp spec fn uppercase_of(s: Seq<char>) -> Seq<char>;

/// Whether `char::is_alphabetic` holds.
pub uninterp spec fn alphabetic(c: char) -> bool;

/// Whether `char::is_alphanumeric` holds.
pub uninterp spec fn alphanumeric(c: char) -> bool;

/// Whether `char::is_uppercase` holds.
pub uninterp spec fn uppercase(c: char) -> bool;

/// Whether `char::is_lowercase` holds.
pub uninterp spec fn lowercase(c: char) -> bool;

/// The first character that `char::to_lowercase` yields.
pub uninterp spec fn lower_first(c: char) -> char;

/// The first character that `char::to_uppercase` yields.
pub uninterp spec fn upper_first(c: char) -> char;

/// `str::to_lowercase` on the string the characters spell; its result is
/// named by `lowercase_of`.
#[verifier::external_body]
pub(crate) fn to_lowercase(s: &Vec<char>) -> (res: Vec<char>)
    ensures
        res@ == lowercase_of(s@),
{
    let text: String = s.iter().collect();
    text.to_lowercase().chars().collect()
}

/// `str::to_uppercase`; its result is named by `uppercase_of`.
#[verifier::external_body]
pub(crate) fn to_uppercase(s: &Vec<char>) -> (res: Vec<char>)
    ensures
        res@ == uppercase_of(s@),
{
    let text: String = s.iter().collect();
    text.to_uppercase().chars().collect()
}

/// `char::is_alphabetic`.
#[verifier::external_body]
pub(crate) fn is_alphabetic(c: char) -> (res: bool)
    ensures
        res == alphabetic(c),
{
    c.is_alphabetic()
}

/// `char::is_alphanumeric`.
#[verifier::external_body]
pub(crate) fn is_alphanumeric(c: char) -> (res: bool)
    ensures
        res == alphanumeric(c),
{
    c.is_alphanumeric()
}

/// `char::is_uppercase`.
#[verifier::external_body]
pub(crate) fn is_uppercase(c: char) -> (res: bool)
    ensures
        res == uppercase(c),
{
    c.is_uppercase()
}

/// `char::is_lowercase`.
#[verifier::external_body]
pub(crate) fn is_lowercase(c: char) -> (res: bool)
    ensures
        res == lowercase(c),
{
    c.is_lowercase()
}

/// The first character of `char::to_lowercase`, which always yields at
/// least one.
#[verifier::external_body]
pub(crate) fn to_lower_first(c: char) -> (res: char)
    ensures
        res == lower_first(c),
{
    c.to_lowercase().next().unwrap_or(c)
}

/// The first character of `char::to_uppercase`, which always yields at
/// least one.
#[verifier::external_body]
pub(crate) fn to_upper_first(c: char) -> (res: char)
    ensures
        res == upper_first(c),
{
    c.to_uppercase().next().unwrap_or(c)
}

} // verus!
