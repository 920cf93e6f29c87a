//! The regular-expression engine of the `regex` crate, behind trusted
//! wrappers. Compilation and each search are named by uninterpreted spec
//! functions of the pattern text and the haystack.

use vstd::prelude::*;
use crate::utf8::index_of_byte;

verus! {

#[verifier::external_type_specification]
#[verifier::external_body]
pub struct ExRegex(regex::Regex);

/// Whether `Regex::new` accepts the pattern.
pub uninterp spec fn regex_compiles(pattern: Seq<char>) -> bool;

/// Whether `Regex::is_match` finds a match anywhere in the haystack.
pub uninterp spec fn regex_is_match(pattern: Seq<char>, haystack: Seq<char>) -> bool;

/// The byte range of the first match `Regex::find` reports.
pub uninterp spec fn regex_first_match(pattern: Seq<char>, haystack: Seq<char>) -> Option<(usize, usize)>;

/// The pieces `Regex::split` yields.
pub uninterp spec fn regex_split(pattern: Seq<char>, haystack: Seq<char>) -> Seq<Seq<char>>;

/// The pieces `Regex::splitn` yields for a limit.
pub uninterp spec fn regex_splitn(pattern: Seq<char>, haystack: Seq<char>, limit: usize) -> Seq<Seq<char>>;

/// The text `Regex::replace_all` returns for a replacement string.
pub uninterp spec fn regex_replace_all(pattern: Seq<char>, haystack: Seq<char>, replacement: Seq<char>) -> Seq<char>;

/// The text `Regex::replace` returns for a replacement string.
pub uninterp spec fn regex_replace_first(pattern: Seq<char>, haystack: Seq<char>, replacement: Seq<char>) -> Seq<char>;

/// A compiled regex together with the pattern text it was compiled from.
/// Only `compile_regex` builds one.
pub struct CompiledRegex {
    source: Vec<char>,
    re: regex::Regex,
}

impl View for CompiledRegex {
    type V = Seq<char>;

    closed spec fn view(&self) -> Seq<char> {
        self.source@
    }
}

/// The pieces as character sequences.
pub open spec fn pieces(v: Seq<Vec<char>>) -> Seq<Seq<char>> {
    v.map_values(|p: Vec<char>| p@)
}

/// `Regex::new` on the pattern the characters spell. Whether it succeeds is
/// named by `regex_compiles`; the result keeps the pattern text.
#[verifier::external_body]
pub(crate) fn compile_regex(pattern: &Vec<char>) -> (res: Option<CompiledRegex>)
    ensures
        res is Some == regex_compiles(pattern@),
        res matches Some(c) ==> c@ == pattern@,
{
    let text: String = pattern.iter().collect();
    match regex::Regex::new(&text) {
        Ok(re) => Some(CompiledRegex { source: pattern.clone(), re }),
        Err(_) => None,
    }
}

/// `Regex::is_match`, named by `regex_is_match`; the crate documents that it
/// holds exactly when `Regex::find` reports a match.
#[verifier::external_body]
pub(crate) fn is_match(re: &CompiledRegex, haystack: &Vec<char>) -> (res: bool)
    ensures
        res == regex_is_match(re@, haystack@),
        res == regex_first_match(re@, haystack@) is Some,
{
    let text: String = haystack.iter().collect();
    re.re.is_match(&text)
}

/// `Regex::find`: the byte offsets of the first match, named by
/// `regex_first_match`. The crate documents that the start does not exceed
/// the end and that both fall on character boundaries.
#[verifier::external_body]
pub(crate) fn find(re: &CompiledRegex, haystack: &Vec<char>) -> (res: Option<(usize, usize)>)
    ensures
        res == regex_first_match(re@, haystack@),
        res matches Some((s, e)) ==> s <= e && index_of_byte(haystack@, s as int) >= 0
            && index_of_byte(haystack@, e as int) >= 0,
{
    let text: String = haystack.iter().collect();
    re.re.find(&text).map(|m| (m.start(), m.end()))
}

/// `Regex::split`, collected; named by `regex_split`.
#[verifier::external_body]
pub(crate) fn split(re: &CompiledRegex, haystack: &Vec<char>) -> (res: Vec<Vec<char>>)
    ensures
        pieces(res@) == regex_split(re@, haystack@),
{
    let text: String = haystack.iter().collect();
    re.re.split(&text).map(|p| p.chars().collect()).collect()
}

/// `Regex::splitn`, collected; named by `regex_splitn`.
#[verifier::external_body]
pub(crate) fn splitn(re: &CompiledRegex, haystack: &Vec<char>, limit: usize) -> (res: Vec<Vec<char>>)
    ensures
        pieces(res@) == regex_splitn(re@, haystack@, limit),
{
    let text: String = haystack.iter().collect();
    re.re.splitn(&text, limit).map(|p| p.chars().collect()).collect()
}

/// The pieces written one after another with `sep` between each two.
pub open spec fn joined(parts: Seq<Seq<char>>, sep: Seq<char>) -> Seq<char>
    decreases parts.len(),
{
    if parts.len() == 0 {
        Seq::empty()
    } else if parts.len() == 1 {
        parts[0]
    } else {
        joined(parts.drop_last(), sep) + sep + parts.last()
    }
}

/// `Regex::replace_all` with a replacement string; named by
/// `regex_replace_all`. The crate's `replacen` (which `replace_all` calls
/// with no limit) takes a replacement without `$` literally and writes the
/// text between the matches `find_iter` yields with the replacement in
/// place of each match; `split` yields exactly that text between the same
/// matches (the haystack alone when there is no match).
#[verifier::external_body]
pub(crate) fn replace_all(re: &CompiledRegex, haystack: &Vec<char>, replacement: &Vec<char>) -> (res: Vec<char>)
    ensures
        res@ == regex_replace_all(re@, haystack@, replacement@),
        !replacement@.contains('$') ==> res@ == joined(regex_split(re@, haystack@), replacement@),
{
    let text: String = haystack.iter().collect();
    let rep: String = replacement.iter().collect();
    re.re.replace_all(&text, rep.as_str()).chars().collect()
}

/// The haystack with the match `m` (byte offsets), if any, replaced by
/// `replacement` taken literally: the text before the match, the
/// replacement, then the text after the match; the haystack itself when
/// there is no match.
pub open spec fn leftmost_replaced(haystack: Seq<char>, m: Option<(usize, usize)>, replacement: Seq<char>) -> Seq<char> {
    match m {
        None => haystack,
        Some((s, e)) => haystack.subrange(0, index_of_byte(haystack, s as int)) + replacement
            + haystack.subrange(index_of_byte(haystack, e as int), haystack.len() as int),
    }
}

/// `Regex::replace` with a replacement string; named by
/// `regex_replace_first`. The crate's `replacen` (which `replace` calls
/// with a limit of 1) takes a replacement without `$` literally and
/// replaces only the first match `find_iter` yields, the match `find`
/// reports; without a match it returns the haystack.
#[verifier::external_body]
pub(crate) fn replace_first(re: &CompiledRegex, haystack: &Vec<char>, replacement: &Vec<char>) -> (res: Vec<char>)
    ensures
        res@ == regex_replace_first(re@, haystack@, replacement@),
        !replacement@.contains('$') ==> res@ == leftmost_replaced(haystack@, regex_first_match(re@, haystack@), replacement@),
{
    let text: String = haystack.iter().collect();
    let rep: String = replacement.iter().collect();
    re.re.replace(&text, rep.as_str()).chars().collect()
}

} // verus!
