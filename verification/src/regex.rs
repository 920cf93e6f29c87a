//! Natives of `java.util.regex.Pattern` and `java.util.regex.Matcher`.
//!
//! A pattern object keeps its source string in `__regex`; a matcher keeps
//! its pattern and input and the byte offsets of the last match. Every
//! search recompiles the pattern text with the regex engine.

use vstd::prelude::*;
use crate::chars::{eq_str, lit};
use crate::heap::{deref, heap_set_field, object_field, string_of, Heap};
use crate::helpers::{copy_chars, display_string, string_value, stringify_heap, stringify_reference};
use crate::model::{exception, raises, Fault, HeapValue, Obj, Reference, Value, VmError, fields_view};
use crate::native::{answers, done, fail, give, give_bool, give_int, give_new, give_str, next_ref, on_int, on_ref, throw, NativeResult};
use crate::regex_engine::{compile_regex, find, is_match, pieces, regex_compiles, regex_first_match, regex_is_match, regex_replace_all, regex_replace_first, regex_split, regex_splitn, replace_all, replace_first, split, splitn, leftmost_replaced, joined};
use crate::strings::utf8_len;
use crate::utf8::{char_index_of_byte, is_boundary, slice_bytes, suffix_at_byte};

verus! {

/// The `java.util.regex` natives.
#[derive(Clone, Copy, PartialEq, Eq, Structural, Debug)]
pub enum RegexMethod {
    Compile,
    CompileFlags,
    PatternMatches,
    PatternText,
    PatternMatcher,
    SplitLimit,
    Split,
    MatcherInit,
    MatcherMatches,
    Find,
    FindFrom,
    LookingAt,
    Reset,
    ResetInput,
    GroupIndex,
    Group,
    GroupCount,
    Start,
    StartGroup,
    End,
    EndGroup,
    ReplaceAll,
    ReplaceFirst,
}

/// The class, name and descriptor of each native.
pub open spec fn regex_signature(k: RegexMethod) -> (Seq<char>, Seq<char>, Seq<char>) {
    let p = "java/util/regex/Pattern"@;
    let m = "java/util/regex/Matcher"@;
    match k {
        RegexMethod::Compile => (p, "compile"@, "(Ljava/lang/String;)Ljava/util/regex/Pattern;"@),
        RegexMethod::CompileFlags => (p, "compile"@, "(Ljava/lang/String;I)Ljava/util/regex/Pattern;"@),
        RegexMethod::PatternMatches => (p, "matches"@, "(Ljava/lang/String;Ljava/lang/CharSequence;)Z"@),
        RegexMethod::PatternText => (p, "pattern"@, "()Ljava/lang/String;"@),
        RegexMethod::PatternMatcher => (p, "matcher"@, "(Ljava/lang/CharSequence;)Ljava/util/regex/Matcher;"@),
        RegexMethod::SplitLimit => (p, "split"@, "(Ljava/lang/CharSequence;I)[Ljava/lang/String;"@),
        RegexMethod::Split => (p, "split"@, "(Ljava/lang/CharSequence;)[Ljava/lang/String;"@),
        RegexMethod::MatcherInit => (m, "<init>"@, "(Ljava/util/regex/Pattern;Ljava/lang/CharSequence;)V"@),
        RegexMethod::MatcherMatches => (m, "matches"@, "()Z"@),
        RegexMethod::Find => (m, "find"@, "()Z"@),
        RegexMethod::FindFrom => (m, "find"@, "(I)Z"@),
        RegexMethod::LookingAt => (m, "lookingAt"@, "()Z"@),
        RegexMethod::Reset => (m, "reset"@, "()Ljava/util/regex/Matcher;"@),
        RegexMethod::ResetInput => (m, "reset"@, "(Ljava/lang/CharSequence;)Ljava/util/regex/Matcher;"@),
        RegexMethod::GroupIndex => (m, "group"@, "(I)Ljava/lang/String;"@),
        RegexMethod::Group => (m, "group"@, "()Ljava/lang/String;"@),
        RegexMethod::GroupCount => (m, "groupCount"@, "()I"@),
        RegexMethod::Start => (m, "start"@, "()I"@),
        RegexMethod::StartGroup => (m, "start"@, "(I)I"@),
        RegexMethod::End => (m, "end"@, "()I"@),
        RegexMethod::EndGroup => (m, "end"@, "(I)I"@),
        RegexMethod::ReplaceAll => (m, "replaceAll"@, "(Ljava/lang/String;)Ljava/lang/String;"@),
        RegexMethod::ReplaceFirst => (m, "replaceFirst"@, "(Ljava/lang/String;)Ljava/lang/String;"@),
    }
}

pub open spec fn regex_arity(k: RegexMethod) -> nat {
    match k {
        RegexMethod::PatternText | RegexMethod::MatcherMatches | RegexMethod::Find
        | RegexMethod::LookingAt | RegexMethod::Reset | RegexMethod::Group
        | RegexMethod::GroupCount | RegexMethod::Start | RegexMethod::End
        | RegexMethod::Compile => 1,
        RegexMethod::SplitLimit | RegexMethod::MatcherInit => 3,
        _ => 2,
    }
}

/// The error the regex natives raise for a malformed pattern or matcher
/// object, and for a call they do not know: an exception with no class name.
pub open spec fn regex_fault() -> Fault {
    Fault::Exception(Seq::empty())
}

/// The text of a `CharSequence` argument: empty for `null`, the display
/// string otherwise.
pub open spec fn char_sequence_text(heap: Seq<Obj>, r: Reference) -> Result<Seq<char>, VmError> {
    if r == Reference::Null {
        Ok(Seq::empty())
    } else {
        display_string(heap, r)
    }
}

/// The source string a pattern object keeps in `__regex`.
pub open spec fn pattern_source(heap: Seq<Obj>, p: Reference) -> Option<Seq<char>> {
    match object_field(heap, p, "__regex"@) {
        Some(Value::Reference(r)) => string_of(heap, r),
        _ => None,
    }
}

/// A reference-valued field, `null` when absent.
pub open spec fn ref_field(heap: Seq<Obj>, r: Reference, name: Seq<char>) -> Reference {
    match object_field(heap, r, name) {
        Some(Value::Reference(x)) => x,
        _ => Reference::Null,
    }
}

/// An `int`-valued field, `default` when absent.
pub open spec fn int_field(heap: Seq<Obj>, r: Reference, name: Seq<char>, default: i32) -> i32 {
    match object_field(heap, r, name) {
        Some(Value::Int(x)) => x,
        _ => default,
    }
}

/// The pattern text and input text of a matcher.
pub open spec fn pattern_and_input(heap: Seq<Obj>, m: Reference) -> Result<(Seq<char>, Seq<char>), Fault> {
    match deref(heap, m) {
        Some(Obj::Object { .. }) => match pattern_source(heap, ref_field(heap, m, "__pattern"@)) {
            None => Err(regex_fault()),
            Some(p) => match char_sequence_text(heap, ref_field(heap, m, "__input"@)) {
                Ok(t) => Ok((p, t)),
                Err(e) => Err(Fault::Error(e)),
            },
        },
        _ => Err(regex_fault()),
    }
}

/// The input text of a matcher (empty when it has none).
pub open spec fn matcher_input(heap: Seq<Obj>, m: Reference) -> Result<Seq<char>, VmError> {
    char_sequence_text(heap, ref_field(heap, m, "__input"@))
}

/// A new pattern object.
pub open spec fn pattern_object(source: Reference, flags: i32, id: i32) -> Obj {
    Obj::Object {
        class_name: "java/util/regex/Pattern"@,
        fields: seq![
            ("__regex"@, Value::Reference(source)),
            ("__flags"@, Value::Int(flags)),
            ("__regex_id"@, Value::Int(id)),
        ],
    }
}

/// A new matcher object with no match recorded.
pub open spec fn matcher_object(pattern: Reference, input: Reference) -> Obj {
    Obj::Object {
        class_name: "java/util/regex/Matcher"@,
        fields: seq![
            ("__pattern"@, Value::Reference(pattern)),
            ("__input"@, Value::Reference(input)),
            ("__match_start"@, Value::Int(-1i32)),
            ("__match_end"@, Value::Int(-1i32)),
            ("__last_match_start"@, Value::Int(-1i32)),
            ("__group_count"@, Value::Int(0)),
        ],
    }
}

/// The heap after recording a match from `s` to `e` (and remembering `s`
/// as the last match start when `last` holds).
pub open spec fn record_match(heap: Seq<Obj>, m: Reference, s: i32, e: i32, last: bool) -> Seq<Obj> {
    let h1 = heap_set_field(heap_set_field(heap, m, "__match_start"@, Value::Int(s)), m, "__match_end"@, Value::Int(e));
    if last {
        heap_set_field(h1, m, "__last_match_start"@, Value::Int(s))
    } else {
        h1
    }
}

/// A new `String[]` holding new strings with the given texts.
pub open spec fn string_array_heap(heap: Seq<Obj>, parts: Seq<Seq<char>>) -> Seq<Obj> {
    let base = heap.len();
    heap.push(Obj::RefArray {
        component_type: "Ljava/lang/String;"@,
        values: Seq::new(parts.len(), |j: int| Reference::Heap((base + 1 + j) as usize)),
    }) + parts.map_values(|p: Seq<char>| Obj::Str(p))
}

/// At most 2^31 pieces: every index fits the `int` the array store takes.
pub open spec fn few_pieces(parts: Seq<Seq<char>>) -> bool {
    parts.len() <= 0x8000_0000
}

/// Returns a new `String[]` of the pieces.
pub open spec fn give_pieces(heap: Seq<Obj>, parts: Seq<Seq<char>>) -> NativeResult {
    Ok((Some(Value::Reference(next_ref(heap))), string_array_heap(heap, parts)))
}

/// A search of the input from byte offset `from` on; a match found is
/// recorded with offsets relative to the whole input.
pub open spec fn find_from(heap: Seq<Obj>, m: Reference, p: Seq<char>, t: Seq<char>, from: int) -> NativeResult {
    if from <= utf8_len(t) {
        match regex_first_match(p, suffix_at_byte(t, from)) {
            None => give_int(heap, 0),
            Some((s, e)) => done(
                record_match(heap, m, (from as i32 + s as i32) as i32, (from as i32 + e as i32) as i32, true),
                Some(Value::Int(1)),
            ),
        }
    } else {
        give_int(heap, 0)
    }
}

/// `group()`: the text of the recorded match, or `null` when there is none.
pub open spec fn group_text(heap: Seq<Obj>, m: Reference) -> NativeResult {
    let s = int_field(heap, m, "__match_start"@, -1i32);
    let e = int_field(heap, m, "__match_end"@, -1i32);
    match matcher_input(heap, m) {
        Err(err) => fail(err),
        Ok(t) => if s >= 0 && e >= 0 && e <= utf8_len(t) && s < e {
            give_str(heap, slice_bytes(t, s as int, e as int))
        } else {
            give(heap, Value::Reference(Reference::Null))
        },
    }
}

/// Continues with the pattern and input of matcher `m`.
pub open spec fn on_matcher(heap: Seq<Obj>, m: Reference, f: spec_fn(Seq<char>, Seq<char>) -> NativeResult) -> NativeResult {
    match pattern_and_input(heap, m) {
        Err(fault) => Err(fault),
        Ok((p, t)) => f(p, t),
    }
}

/// What `replaceAll` gives: with a replacement that holds no `$`, the
/// pieces of the input between the matches joined by the replacement;
/// otherwise the engine's `replace_all` (which expands group references).
pub open spec fn all_replaced(p: Seq<char>, t: Seq<char>, rep: Seq<char>) -> Seq<char> {
    if rep.contains('$') {
        regex_replace_all(p, t, rep)
    } else {
        joined(regex_split(p, t), rep)
    }
}

/// What `replaceFirst` gives: with a replacement that holds no `$`, the
/// input with its first match replaced literally; otherwise the engine's
/// `replace` (which expands group references).
pub open spec fn first_replaced(p: Seq<char>, t: Seq<char>, rep: Seq<char>) -> Seq<char> {
    if rep.contains('$') {
        regex_replace_first(p, t, rep)
    } else {
        leftmost_replaced(t, regex_first_match(p, t), rep)
    }
}

/// What each regex native does; `compiled` counts the patterns compiled so
/// far (a new pattern's id is one more).
pub open spec fn regex_spec(heap: Seq<Obj>, compiled: nat, k: RegexMethod, args: Seq<Value>) -> NativeResult {
    match k {
        RegexMethod::Compile => on_ref(args, 0, |pr: Reference| compile_spec(heap, compiled, pr, 0)),
        RegexMethod::CompileFlags => on_ref(args, 0, |pr: Reference| on_int(args, 1,
            |flags: i32| compile_spec(heap, compiled, pr, flags))),
        RegexMethod::PatternMatches => on_ref(args, 0, |pr: Reference| on_ref(args, 1, |ir: Reference|
            match string_value(heap, pr) {
                Err(e) => fail(e),
                Ok(p) => match char_sequence_text(heap, ir) {
                    Err(e) => fail(e),
                    Ok(t) => give_bool(heap, regex_compiles(p) && regex_first_match(p, t) is Some),
                },
            })),
        RegexMethod::PatternText => on_ref(args, 0, |this: Reference| match pattern_source(heap, this) {
            Some(s) => give_str(heap, s),
            None => give(heap, Value::Reference(Reference::Null)),
        }),
        RegexMethod::PatternMatcher => on_ref(args, 0, |this: Reference| on_ref(args, 1,
            |ir: Reference| give_new(heap, matcher_object(this, ir)))),
        RegexMethod::SplitLimit => on_ref(args, 0, |this: Reference| on_ref(args, 1, |ir: Reference| on_int(args, 2,
            |limit: i32| split_spec(heap, this, ir, limit)))),
        RegexMethod::Split => on_ref(args, 0, |this: Reference| on_ref(args, 1,
            |ir: Reference| split_spec(heap, this, ir, 0))),
        RegexMethod::MatcherInit => on_ref(args, 0, |pr: Reference| on_ref(args, 1, |ir: Reference| on_ref(args, 2,
            |this: Reference| done(heap_set_field(heap_set_field(heap, this, "__pattern"@, Value::Reference(pr)),
                this, "__input"@, Value::Reference(ir)), None)))),
        RegexMethod::MatcherMatches => on_ref(args, 0, |this: Reference| on_matcher(heap, this,
            |p: Seq<char>, t: Seq<char>| if !regex_compiles(p) {
                give_int(heap, 0)
            } else if regex_is_match(p, t) {
                done(record_match(heap, this, 0i32, utf8_len(t) as i32, false), Some(Value::Int(1)))
            } else {
                done(record_match(heap, this, -1i32, -1i32, false), Some(Value::Int(0)))
            })),
        RegexMethod::Find => on_ref(args, 0, |this: Reference| on_matcher(heap, this,
            |p: Seq<char>, t: Seq<char>| if !regex_compiles(p) {
                give_int(heap, 0)
            } else {
                let last = int_field(heap, this, "__match_end"@, -1i32);
                find_from(heap, this, p, t, if last >= 0 { last as int } else { 0 })
            })),
        RegexMethod::FindFrom => on_int(args, 0, |from: i32| on_ref(args, 1, |this: Reference| on_matcher(heap, this,
            |p: Seq<char>, t: Seq<char>| if !regex_compiles(p) || from < 0 {
                give_int(heap, 0)
            } else {
                find_from(heap, this, p, t, from as int)
            }))),
        RegexMethod::LookingAt => on_ref(args, 0, |this: Reference| on_matcher(heap, this,
            |p: Seq<char>, t: Seq<char>| if regex_compiles(p) && regex_is_match(p, t) {
                done(record_match(heap, this, 0i32, regex_first_match(p, t).unwrap().1 as i32, false), Some(Value::Int(1)))
            } else {
                give_int(heap, 0)
            })),
        RegexMethod::Reset => on_ref(args, 0, |this: Reference|
            Ok((Some(Value::Reference(this)), record_match(heap, this, -1i32, -1i32, true)))),
        RegexMethod::ResetInput => on_ref(args, 0, |ir: Reference| on_ref(args, 1, |this: Reference|
            Ok((Some(Value::Reference(this)), record_match(
                heap_set_field(heap, this, "__input"@, Value::Reference(ir)), this, -1i32, -1i32, true))))),
        RegexMethod::GroupIndex => on_int(args, 0, |g: i32| on_ref(args, 1, |this: Reference|
            if g == 0 { group_text(heap, this) } else { give(heap, Value::Reference(Reference::Null)) })),
        RegexMethod::Group => on_ref(args, 0, |this: Reference| group_text(heap, this)),
        RegexMethod::GroupCount => on_ref(args, 0, |this: Reference| give_int(heap, int_field(heap, this, "__group_count"@, 0i32))),
        RegexMethod::Start => on_ref(args, 0, |this: Reference| give_int(heap, int_field(heap, this, "__match_start"@, -1i32))),
        RegexMethod::StartGroup => on_int(args, 0, |g: i32| on_ref(args, 1,
            |this: Reference| give_int(heap, int_field(heap, this, "__match_start"@, -1i32)))),
        RegexMethod::End => on_ref(args, 0, |this: Reference| give_int(heap, int_field(heap, this, "__match_end"@, -1i32))),
        RegexMethod::EndGroup => on_int(args, 0, |g: i32| on_ref(args, 1,
            |this: Reference| give_int(heap, int_field(heap, this, "__match_end"@, -1i32)))),
        RegexMethod::ReplaceAll => on_ref(args, 0, |rr: Reference| on_ref(args, 1, |this: Reference| on_matcher(heap, this,
            |p: Seq<char>, t: Seq<char>| match string_value(heap, rr) {
                Err(e) => fail(e),
                Ok(rep) => if regex_compiles(p) {
                    give_str(heap, all_replaced(p, t, rep))
                } else {
                    give(heap, Value::Reference(Reference::Null))
                },
            }))),
        RegexMethod::ReplaceFirst => on_ref(args, 0, |rr: Reference| on_ref(args, 1, |this: Reference| on_matcher(heap, this,
            |p: Seq<char>, t: Seq<char>| match string_value(heap, rr) {
                Err(e) => fail(e),
                Ok(rep) => if regex_compiles(p) {
                    give_str(heap, first_replaced(p, t, rep))
                } else {
                    give(heap, Value::Reference(Reference::Null))
                },
            }))),
    }
}

/// `Pattern.compile`: a new pattern object, or a syntax exception.
pub open spec fn compile_spec(heap: Seq<Obj>, compiled: nat, pr: Reference, flags: i32) -> NativeResult {
    match string_value(heap, pr) {
        Err(e) => fail(e),
        Ok(p) => if regex_compiles(p) {
            give_new(heap, pattern_object(pr, flags, (compiled + 1) as i32))
        } else {
            throw("java/util/PatternSyntaxException"@)
        },
    }
}

/// `Pattern.split`: the pieces as a new `String[]`; `null` when the pattern
/// does not compile. A positive limit bounds the number of pieces.
pub open spec fn split_spec(heap: Seq<Obj>, this: Reference, ir: Reference, limit: i32) -> NativeResult {
    match pattern_source(heap, this) {
        None => Err(regex_fault()),
        Some(p) => match char_sequence_text(heap, ir) {
            Err(e) => fail(e),
            Ok(t) => if !regex_compiles(p) {
                give(heap, Value::Reference(Reference::Null))
            } else if limit > 0 {
                give_pieces(heap, regex_splitn(p, t, limit as usize))
            } else {
                give_pieces(heap, regex_split(p, t))
            },
        },
    }
}

/// The inputs on which a regex native completes: a search starts, and a
/// recorded match is cut out, at character boundaries of the input (the
/// engine slices the input there).
pub open spec fn regex_pre(heap: Seq<Obj>, k: RegexMethod, args: Seq<Value>) -> bool {
    match k {
        RegexMethod::Find => match args[0] {
            Value::Reference(this) => match pattern_and_input(heap, this) {
                Ok((p, t)) => {
                    let last = int_field(heap, this, "__match_end"@, -1i32);
                    let from = if last >= 0 { last as int } else { 0 };
                    (regex_compiles(p) && from <= utf8_len(t)) ==> is_boundary(t, from)
                },
                _ => true,
            },
            _ => true,
        },
        RegexMethod::FindFrom => match (args[0], args[1]) {
            (Value::Int(from), Value::Reference(this)) => match pattern_and_input(heap, this) {
                Ok((p, t)) => (regex_compiles(p) && 0 <= from <= utf8_len(t)) ==> is_boundary(t, from as int),
                _ => true,
            },
            _ => true,
        },
        RegexMethod::Group => match args[0] {
            Value::Reference(this) => group_ready(heap, this),
            _ => true,
        },
        RegexMethod::GroupIndex => match (args[0], args[1]) {
            (Value::Int(0), Value::Reference(this)) => group_ready(heap, this),
            _ => true,
        },
        RegexMethod::SplitLimit => match (args[0], args[1], args[2]) {
            (Value::Reference(this), Value::Reference(ir), Value::Int(limit)) => split_ready(heap, this, ir, limit),
            _ => true,
        },
        RegexMethod::Split => match (args[0], args[1]) {
            (Value::Reference(this), Value::Reference(ir)) => split_ready(heap, this, ir, 0),
            _ => true,
        },
        _ => true,
    }
}

/// The pieces a split yields number at most 2^31.
pub open spec fn split_ready(heap: Seq<Obj>, this: Reference, ir: Reference, limit: i32) -> bool {
    match (pattern_source(heap, this), char_sequence_text(heap, ir)) {
        (Some(p), Ok(t)) => regex_compiles(p) ==> few_pieces(
            if limit > 0 { regex_splitn(p, t, limit as usize) } else { regex_split(p, t) },
        ),
        _ => true,
    }
}

/// A recorded match that `group()` would cut out lies on boundaries.
pub open spec fn group_ready(heap: Seq<Obj>, m: Reference) -> bool {
    let s = int_field(heap, m, "__match_start"@, -1i32);
    let e = int_field(heap, m, "__match_end"@, -1i32);
    match matcher_input(heap, m) {
        Ok(t) => (s >= 0 && e >= 0 && e <= utf8_len(t) && s < e) ==> (is_boundary(t, s as int) && is_boundary(t, e as int)),
        Err(_) => true,
    }
}

/// The count of compiled patterns that stands for the registry the
/// interpreter keeps of them.
pub struct RegexState {
    pub compiled: usize,
}

/// The native a call selects; an unknown call is the nameless exception.
pub fn regex_method(class_name: &[char], name: &[char], descriptor: &[char]) -> (res: Result<RegexMethod, VmError>)
    ensures
        match res {
            Ok(k) => regex_signature(k) == (class_name@, name@, descriptor@),
            Err(e) => raises(e, regex_fault())
                && forall|k: RegexMethod| regex_signature(k) != (class_name@, name@, descriptor@),
        },
{
    let c = class_name;
    let n = name;
    let d = descriptor;
    let p = eq_str(c, "java/util/regex/Pattern");
    let m = eq_str(c, "java/util/regex/Matcher");
    if p && eq_str(n, "compile") && eq_str(d, "(Ljava/lang/String;)Ljava/util/regex/Pattern;") {
        return Ok(RegexMethod::Compile);
    }
    if p && eq_str(n, "compile") && eq_str(d, "(Ljava/lang/String;I)Ljava/util/regex/Pattern;") {
        return Ok(RegexMethod::CompileFlags);
    }
    if p && eq_str(n, "matches") && eq_str(d, "(Ljava/lang/String;Ljava/lang/CharSequence;)Z") {
        return Ok(RegexMethod::PatternMatches);
    }
    if p && eq_str(n, "pattern") && eq_str(d, "()Ljava/lang/String;") {
        return Ok(RegexMethod::PatternText);
    }
    if p && eq_str(n, "matcher") && eq_str(d, "(Ljava/lang/CharSequence;)Ljava/util/regex/Matcher;") {
        return Ok(RegexMethod::PatternMatcher);
    }
    if p && eq_str(n, "split") && eq_str(d, "(Ljava/lang/CharSequence;I)[Ljava/lang/String;") {
        return Ok(RegexMethod::SplitLimit);
    }
    if p && eq_str(n, "split") && eq_str(d, "(Ljava/lang/CharSequence;)[Ljava/lang/String;") {
        return Ok(RegexMethod::Split);
    }
    if m && eq_str(n, "<init>") && eq_str(d, "(Ljava/util/regex/Pattern;Ljava/lang/CharSequence;)V") {
        return Ok(RegexMethod::MatcherInit);
    }
    if m && eq_str(n, "matches") && eq_str(d, "()Z") {
        return Ok(RegexMethod::MatcherMatches);
    }
    if m && eq_str(n, "find") && eq_str(d, "()Z") {
        return Ok(RegexMethod::Find);
    }
    if m && eq_str(n, "find") && eq_str(d, "(I)Z") {
        return Ok(RegexMethod::FindFrom);
    }
    if m && eq_str(n, "lookingAt") && eq_str(d, "()Z") {
        return Ok(RegexMethod::LookingAt);
    }
    if m && eq_str(n, "reset") && eq_str(d, "()Ljava/util/regex/Matcher;") {
        return Ok(RegexMethod::Reset);
    }
    if m && eq_str(n, "reset") && eq_str(d, "(Ljava/lang/CharSequence;)Ljava/util/regex/Matcher;") {
        return Ok(RegexMethod::ResetInput);
    }
    if m && eq_str(n, "group") && eq_str(d, "(I)Ljava/lang/String;") {
        return Ok(RegexMethod::GroupIndex);
    }
    if m && eq_str(n, "group") && eq_str(d, "()Ljava/lang/String;") {
        return Ok(RegexMethod::Group);
    }
    if m && eq_str(n, "groupCount") && eq_str(d, "()I") {
        return Ok(RegexMethod::GroupCount);
    }
    if m && eq_str(n, "start") && eq_str(d, "()I") {
        return Ok(RegexMethod::Start);
    }
    if m && eq_str(n, "start") && eq_str(d, "(I)I") {
        return Ok(RegexMethod::StartGroup);
    }
    if m && eq_str(n, "end") && eq_str(d, "()I") {
        return Ok(RegexMethod::End);
    }
    if m && eq_str(n, "end") && eq_str(d, "(I)I") {
        return Ok(RegexMethod::EndGroup);
    }
    if m && eq_str(n, "replaceAll") && eq_str(d, "(Ljava/lang/String;)Ljava/lang/String;") {
        return Ok(RegexMethod::ReplaceAll);
    }
    if m && eq_str(n, "replaceFirst") && eq_str(d, "(Ljava/lang/String;)Ljava/lang/String;") {
        return Ok(RegexMethod::ReplaceFirst);
    }
    proof {
        reveal_strlit("");
        assert forall|k: RegexMethod| regex_signature(k) != (class_name@, name@, descriptor@) by {
            match k {
                RegexMethod::Compile => {},
                RegexMethod::CompileFlags => {},
                RegexMethod::PatternMatches => {},
                RegexMethod::PatternText => {},
                RegexMethod::PatternMatcher => {},
                RegexMethod::SplitLimit => {},
                RegexMethod::Split => {},
                RegexMethod::MatcherInit => {},
                RegexMethod::MatcherMatches => {},
                RegexMethod::Find => {},
                RegexMethod::FindFrom => {},
                RegexMethod::LookingAt => {},
                RegexMethod::Reset => {},
                RegexMethod::ResetInput => {},
                RegexMethod::GroupIndex => {},
                RegexMethod::Group => {},
                RegexMethod::GroupCount => {},
                RegexMethod::Start => {},
                RegexMethod::StartGroup => {},
                RegexMethod::End => {},
                RegexMethod::EndGroup => {},
                RegexMethod::ReplaceAll => {},
                RegexMethod::ReplaceFirst => {},
            }
        }
    }
    let e = exception("");
    assert(Seq::<char>::empty() =~= ""@);
    Err(e)
}

/// `char_sequence_to_string`: the display text of a `CharSequence`, empty
/// for `null`.
pub fn char_sequence_to_string(heap: &Heap, r: Reference) -> (res: Result<Vec<char>, VmError>)
    ensures
        match res {
            Ok(t) => char_sequence_text(heap@, r) == Ok::<Seq<char>, VmError>(t@),
            Err(e) => char_sequence_text(heap@, r) == Err::<Seq<char>, VmError>(e),
        },
{
    if r == Reference::Null {
        let empty: Vec<char> = Vec::new();
        assert(empty@ =~= Seq::<char>::empty());
        return Ok(empty);
    }
    stringify_heap(heap, r)
}

/// The source of a pattern object.
pub fn pattern_text(heap: &Heap, p: Reference) -> (res: Option<Vec<char>>)
    ensures
        match res {
            Some(s) => pattern_source(heap@, p) == Some(s@),
            None => pattern_source(heap@, p) is None,
        },
{
    match heap.object_field(p, "__regex") {
        Some(Value::Reference(r)) => match heap.get(r) {
            Ok(HeapValue::String(s)) => Some(copy_chars(s)),
            _ => None,
        },
        _ => None,
    }
}

/// `get_pattern_regex`: the source of a pattern object, or the nameless
/// exception.
pub fn get_pattern_regex(heap: &Heap, p: Reference) -> (res: Result<Vec<char>, VmError>)
    ensures
        match res {
            Ok(s) => pattern_source(heap@, p) == Some(s@),
            Err(e) => pattern_source(heap@, p) is None && raises(e, regex_fault()),
        },
{
    match pattern_text(heap, p) {
        Some(s) => Ok(s),
        None => {
            let e = exception("");
            proof {
                reveal_strlit("");
            }
            assert(Seq::<char>::empty() =~= ""@);
            Err(e)
        },
    }
}

/// A reference-valued field, `null` when absent.
pub fn reference_field(heap: &Heap, r: Reference, name: &str) -> (res: Reference)
    ensures
        res == ref_field(heap@, r, name@),
{
    match heap.object_field(r, name) {
        Some(Value::Reference(x)) => x,
        _ => Reference::Null,
    }
}

/// An `int`-valued field, `default` when absent (how the match offsets
/// are read).
pub fn int_field_or(heap: &Heap, r: Reference, name: &str, default: i32) -> (res: i32)
    ensures
        res == int_field(heap@, r, name@, default),
{
    match heap.object_field(r, name) {
        Some(Value::Int(x)) => x,
        _ => default,
    }
}

/// `get_match_start`.
pub fn get_match_start(heap: &Heap, m: Reference) -> (res: i32)
    ensures
        res == int_field(heap@, m, "__match_start"@, -1i32),
{
    int_field_or(heap, m, "__match_start", -1)
}

/// `get_match_end`.
pub fn get_match_end(heap: &Heap, m: Reference) -> (res: i32)
    ensures
        res == int_field(heap@, m, "__match_end"@, -1i32),
{
    int_field_or(heap, m, "__match_end", -1)
}

/// `get_last_match_end`: where the next `find()` starts, which is the end
/// of the recorded match.
pub fn get_last_match_end(heap: &Heap, m: Reference) -> (res: i32)
    ensures
        res == int_field(heap@, m, "__match_end"@, -1i32),
{
    int_field_or(heap, m, "__match_end", -1)
}

/// `get_matcher_pattern_and_input`.
pub fn get_matcher_pattern_and_input(heap: &Heap, m: Reference) -> (res: Result<(Vec<char>, Vec<char>), VmError>)
    ensures
        match res {
            Ok(pt) => pattern_and_input(heap@, m) == Ok::<(Seq<char>, Seq<char>), Fault>((pt.0@, pt.1@)),
            Err(e) => pattern_and_input(heap@, m) matches Err(f) && raises(e, f),
        },
{
    match heap.get(m) {
        Ok(HeapValue::Object { .. }) => {
            let pr = reference_field(heap, m, "__pattern");
            let ir = reference_field(heap, m, "__input");
            let p = get_pattern_regex(heap, pr)?;
            let t = char_sequence_to_string(heap, ir)?;
            Ok((p, t))
        },
        _ => {
            let e = exception("");
            proof {
                reveal_strlit("");
            }
            assert(Seq::<char>::empty() =~= ""@);
            Err(e)
        },
    }
}

/// `get_matcher_input`.
pub fn get_matcher_input(heap: &Heap, m: Reference) -> (res: Result<Vec<char>, VmError>)
    ensures
        match res {
            Ok(t) => matcher_input(heap@, m) == Ok::<Seq<char>, VmError>(t@),
            Err(e) => matcher_input(heap@, m) == Err::<Seq<char>, VmError>(e),
        },
{
    let ir = reference_field(heap, m, "__input");
    char_sequence_to_string(heap, ir)
}

/// The heap after an element store into a reference array; any other cell,
/// or an index out of range, leaves it unchanged.
pub open spec fn heap_set_element(heap: Seq<Obj>, arr: Reference, index: i32, v: Reference) -> Seq<Obj> {
    match deref(heap, arr) {
        Some(Obj::RefArray { component_type, values }) => {
            let i = index as usize;
            if i < values.len() {
                heap.update(arr->Heap_0 as int, Obj::RefArray { component_type, values: values.update(i as int, v) })
            } else {
                heap
            }
        },
        _ => heap,
    }
}

/// `set_array_element`: stores into a reference array, ignoring anything
/// else.
pub fn set_array_element(heap: &mut Heap, arr: Reference, index: i32, value: Reference) -> (res: Result<(), VmError>)
    ensures
        res is Ok,
        final(heap)@ == heap_set_element(old(heap)@, arr, index, value),
{
    if let Reference::Heap(a) = arr {
        if a < heap.values.len() {
            let ghost before = heap@;
            if let HeapValue::ReferenceArray { values, .. } = &mut heap.values[a] {
                let idx = index as usize;
                if idx < values.len() {
                    values.set(idx, value);
                }
            }
            assert(heap@ =~= heap_set_element(before, arr, index, value));
        }
    }
    Ok(())
}

/// `create_string_array`: a new `String[]` holding new strings with the
/// given texts.
pub fn create_string_array(heap: &mut Heap, parts: &Vec<Vec<char>>) -> (r: Reference)
    requires
        few_pieces(pieces(parts@)),
    ensures
        r == next_ref(old(heap)@),
        final(heap)@ == string_array_heap(old(heap)@, pieces(parts@)),
{
    let ghost h0 = heap@;
    let ghost ps = pieces(parts@);
    let n = parts.len();
    let mut nulls: Vec<Reference> = Vec::new();
    let mut j: usize = 0;
    while j < n
        invariant
            j <= n,
            nulls@ == Seq::new(j as nat, |q: int| Reference::Null),
        decreases n - j,
    {
        nulls.push(Reference::Null);
        j = j + 1;
        assert(nulls@ =~= Seq::new(j as nat, |q: int| Reference::Null));
    }
    let arr = heap.allocate(HeapValue::ReferenceArray { component_type: lit("Ljava/lang/String;"), values: nulls });
    let ghost base = h0.len();
    proof {
        let empty_strs = ps.subrange(0, 0).map_values(|p: Seq<char>| Obj::Str(p));
        assert(empty_strs =~= Seq::<Obj>::empty());
        let vals0 = Seq::new(n as nat, |q: int| if q < 0 {
            Reference::Heap((base + 1 + q) as usize)
        } else {
            Reference::Null
        });
        assert(vals0 =~= Seq::new(n as nat, |q: int| Reference::Null));
        assert(heap@ =~= h0.push(Obj::RefArray { component_type: "Ljava/lang/String;"@, values: vals0 }) + empty_strs);
    }
    let mut i: usize = 0;
    while i < n
        invariant
            n == parts@.len(),
            ps == pieces(parts@),
            arr == Reference::Heap(base as usize),
            base == h0.len(),
            base < usize::MAX,
            i <= n,
            n <= 0x8000_0000,
            heap@ == h0.push(Obj::RefArray {
                component_type: "Ljava/lang/String;"@,
                values: Seq::new(n as nat, |q: int| if q < i {
                    Reference::Heap((base + 1 + q) as usize)
                } else {
                    Reference::Null
                }),
            }) + ps.subrange(0, i as int).map_values(|p: Seq<char>| Obj::Str(p)),
        decreases n - i,
    {
        let ghost before = heap@;
        let text = copy_chars(&parts[i]);
        let v = heap.new_string(text);
        let r = match v {
            Value::Reference(r) => r,
            _ => Reference::Null,
        };
        set_array_element(heap, arr, i as i32, r);
        proof {
            let vals = Seq::new(n as nat, |q: int| if q < i {
                Reference::Heap((base + 1 + q) as usize)
            } else {
                Reference::Null
            });
            let vals2 = Seq::new(n as nat, |q: int| if q < i + 1 {
                Reference::Heap((base + 1 + q) as usize)
            } else {
                Reference::Null
            });
            assert(before.len() == base + 1 + i);
            assert(before[base as int] == Obj::RefArray { component_type: "Ljava/lang/String;"@, values: vals });
            assert((i as i32) as usize == i);
            assert(vals.update(i as int, r) =~= vals2);
            assert(ps.subrange(0, i + 1) =~= ps.subrange(0, i as int).push(ps[i as int]));
            assert(heap@ =~= h0.push(Obj::RefArray { component_type: "Ljava/lang/String;"@, values: vals2 })
                + ps.subrange(0, i + 1).map_values(|p: Seq<char>| Obj::Str(p)));
        }
        i = i + 1;
    }
    assert(ps.subrange(0, n as int) =~= ps);
    assert(Seq::new(n as nat, |q: int| if q < n { Reference::Heap((base + 1 + q) as usize) } else { Reference::Null })
        =~= Seq::new(n as nat, |q: int| Reference::Heap((base + 1 + q) as usize)));
    arr
}

/// Records a match in a matcher.
fn store_match(heap: &mut Heap, m: Reference, s: i32, e: i32, last: bool)
    ensures
        final(heap)@ == record_match(old(heap)@, m, s, e, last),
{
    heap.set_object_field(m, "__match_start", Value::Int(s));
    heap.set_object_field(m, "__match_end", Value::Int(e));
    if last {
        heap.set_object_field(m, "__last_match_start", Value::Int(s));
    }
}

/// Searches the matcher input from byte offset `from` on.
fn find_native(heap: &mut Heap, m: Reference, re: &crate::regex_engine::CompiledRegex, t: &Vec<char>, from: i32) -> (res: Result<Option<Value>, VmError>)
    requires
        from >= 0,
        from <= utf8_len(t@) ==> is_boundary(t@, from as int),
    ensures
        answers(old(heap)@, final(heap)@, find_from(old(heap)@, m, re@, t@, from as int), res),
{
    let n = crate::strings::utf8_length(t);
    if (from as u128) <= n {
        let k = match char_index_of_byte(t, from as usize) {
            Some(k) => k,
            None => {
                return Ok(Some(Value::Int(0)));
            },
        };
        proof {
            crate::utf8::lemma_index_of_byte(t@, from as int);
        }
        let rest = crate::descriptors::sub_chars(t, k, t.len());
        match find(re, &rest) {
            None => Ok(Some(Value::Int(0))),
            Some((s, e)) => {
                let start = (from as i64 + (s as i32) as i64) as i32;
                let end = (from as i64 + (e as i32) as i64) as i32;
                store_match(heap, m, start, end, true);
                Ok(Some(Value::Int(1)))
            },
        }
    } else {
        Ok(Some(Value::Int(0)))
    }
}

/// `group()`: the text of the recorded match.
fn group_native(heap: &mut Heap, m: Reference) -> (res: Result<Option<Value>, VmError>)
    requires
        group_ready(old(heap)@, m),
    ensures
        answers(old(heap)@, final(heap)@, group_text(old(heap)@, m), res),
{
    let s = get_match_start(heap, m);
    let e = get_match_end(heap, m);
    let t = get_matcher_input(heap, m)?;
    let n = crate::strings::utf8_length(&t);
    if s >= 0 && e >= 0 && (e as u128) <= n && s < e {
        let a = char_index_of_byte(&t, s as usize);
        let b = char_index_of_byte(&t, e as usize);
        match (a, b) {
            (Some(a), Some(b)) => {
                proof {
                    crate::utf8::lemma_index_of_byte(t@, s as int);
                    crate::utf8::lemma_index_of_byte(t@, e as int);
                    if a > b {
                        crate::utf8::lemma_prefix_monotone(t@, b as int, a as int);
                    }
                }
                let text = crate::descriptors::sub_chars(&t, a, b);
                Ok(Some(heap.new_string(text)))
            },
            _ => Ok(Some(Value::Reference(Reference::Null))),
        }
    } else {
        Ok(Some(Value::Reference(Reference::Null)))
    }
}

/// A new object with the given fields.
fn new_object(heap: &mut Heap, class_name: &str, fields: Vec<crate::model::Field>) -> (r: Reference)
    ensures
        r == next_ref(old(heap)@),
        final(heap)@ == old(heap)@.push(Obj::Object { class_name: class_name@, fields: fields_view(fields@) }),
{
    heap.allocate(HeapValue::Object { class_name: lit(class_name), fields })
}

/// `Pattern.compile`.
fn compile_native(heap: &mut Heap, state: &mut RegexState, pr: Reference, flags: i32) -> (res: Result<Option<Value>, VmError>)
    requires
        old(state).compiled < usize::MAX,
    ensures
        answers(old(heap)@, final(heap)@, compile_spec(old(heap)@, old(state).compiled as nat, pr, flags), res),
        final(state).compiled == if res is Ok { old(state).compiled + 1 } else { old(state).compiled as int },
{
    let p = stringify_reference(heap, pr)?;
    match compile_regex(&p) {
        None => Err(exception("java/util/PatternSyntaxException")),
        Some(_) => {
            state.compiled = state.compiled + 1;
            let id = state.compiled as i32;
            let mut fields = Vec::new();
            fields.push(crate::heap::field("__regex", Value::Reference(pr)));
            fields.push(crate::heap::field("__flags", Value::Int(flags)));
            fields.push(crate::heap::field("__regex_id", Value::Int(id)));
            assert(fields_view(fields@) =~= seq![
                ("__regex"@, Value::Reference(pr)),
                ("__flags"@, Value::Int(flags)),
                ("__regex_id"@, Value::Int(id)),
            ]);
            let r = new_object(heap, "java/util/regex/Pattern", fields);
            Ok(Some(Value::Reference(r)))
        },
    }
}

/// `Pattern.split`.
fn split_native(heap: &mut Heap, this: Reference, ir: Reference, limit: i32) -> (res: Result<Option<Value>, VmError>)
    requires
        split_ready(old(heap)@, this, ir, limit),
    ensures
        answers(old(heap)@, final(heap)@, split_spec(old(heap)@, this, ir, limit), res),
{
    let p = get_pattern_regex(heap, this)?;
    let t = char_sequence_to_string(heap, ir)?;
    match compile_regex(&p) {
        None => Ok(Some(Value::Reference(Reference::Null))),
        Some(re) => {
            let parts = if limit > 0 {
                splitn(&re, &t, limit as usize)
            } else {
                split(&re, &t)
            };
            let arr = create_string_array(heap, &parts);
            Ok(Some(Value::Reference(arr)))
        },
    }
}

/// Runs a regex native.
pub fn invoke_regex(heap: &mut Heap, state: &mut RegexState, k: RegexMethod, args: &[Value]) -> (res: Result<Option<Value>, VmError>)
    requires
        args@.len() >= regex_arity(k),
        regex_pre(old(heap)@, k, args@),
        old(state).compiled < usize::MAX,
    ensures
        answers(old(heap)@, final(heap)@, regex_spec(old(heap)@, old(state).compiled as nat, k, args@), res),
        final(state).compiled == if (k is Compile || k is CompileFlags) && res is Ok {
            old(state).compiled + 1
        } else {
            old(state).compiled as int
        },
{
    match k {
        RegexMethod::Compile => {
            let pr = args[0].as_reference()?;
            compile_native(heap, state, pr, 0)
        },
        RegexMethod::CompileFlags => {
            let pr = args[0].as_reference()?;
            let flags = args[1].as_int()?;
            compile_native(heap, state, pr, flags)
        },
        RegexMethod::PatternMatches => {
            let pr = args[0].as_reference()?;
            let ir = args[1].as_reference()?;
            let p = stringify_reference(heap, pr)?;
            let t = char_sequence_to_string(heap, ir)?;
            let found = match compile_regex(&p) {
                Some(re) => is_match(&re, &t),
                None => false,
            };
            Ok(Some(Value::Int(if found { 1 } else { 0 })))
        },
        RegexMethod::PatternText => {
            let this = args[0].as_reference()?;
            match pattern_text(heap, this) {
                Some(s) => Ok(Some(heap.new_string(s))),
                None => Ok(Some(Value::Reference(Reference::Null))),
            }
        },
        RegexMethod::PatternMatcher => {
            let this = args[0].as_reference()?;
            let ir = args[1].as_reference()?;
            let mut fields = Vec::new();
            fields.push(crate::heap::field("__pattern", Value::Reference(this)));
            fields.push(crate::heap::field("__input", Value::Reference(ir)));
            fields.push(crate::heap::field("__match_start", Value::Int(-1)));
            fields.push(crate::heap::field("__match_end", Value::Int(-1)));
            fields.push(crate::heap::field("__last_match_start", Value::Int(-1)));
            fields.push(crate::heap::field("__group_count", Value::Int(0)));
            assert(fields_view(fields@) =~= seq![
                ("__pattern"@, Value::Reference(this)),
                ("__input"@, Value::Reference(ir)),
                ("__match_start"@, Value::Int(-1i32)),
                ("__match_end"@, Value::Int(-1i32)),
                ("__last_match_start"@, Value::Int(-1i32)),
                ("__group_count"@, Value::Int(0i32)),
            ]);
            let r = new_object(heap, "java/util/regex/Matcher", fields);
            Ok(Some(Value::Reference(r)))
        },
        RegexMethod::SplitLimit => {
            let this = args[0].as_reference()?;
            let ir = args[1].as_reference()?;
            let limit = args[2].as_int()?;
            split_native(heap, this, ir, limit)
        },
        RegexMethod::Split => {
            let this = args[0].as_reference()?;
            let ir = args[1].as_reference()?;
            split_native(heap, this, ir, 0)
        },
        RegexMethod::MatcherInit => {
            let pr = args[0].as_reference()?;
            let ir = args[1].as_reference()?;
            let this = args[2].as_reference()?;
            heap.set_object_field(this, "__pattern", Value::Reference(pr));
            heap.set_object_field(this, "__input", Value::Reference(ir));
            Ok(None)
        },
        RegexMethod::MatcherMatches => {
            let this = args[0].as_reference()?;
            let (p, t) = get_matcher_pattern_and_input(heap, this)?;
            let re = match compile_regex(&p) {
                Some(re) => re,
                None => {
                    return Ok(Some(Value::Int(0)));
                },
            };
            if is_match(&re, &t) {
                let n = crate::strings::utf8_length(&t) as i32;
                store_match(heap, this, 0, n, false);
                Ok(Some(Value::Int(1)))
            } else {
                store_match(heap, this, -1, -1, false);
                Ok(Some(Value::Int(0)))
            }
        },
        RegexMethod::Find => {
            let this = args[0].as_reference()?;
            let (p, t) = get_matcher_pattern_and_input(heap, this)?;
            let last = get_last_match_end(heap, this);
            let re = match compile_regex(&p) {
                Some(re) => re,
                None => {
                    return Ok(Some(Value::Int(0)));
                },
            };
            let from: i32 = if last >= 0 { last } else { 0 };
            find_native(heap, this, &re, &t, from)
        },
        RegexMethod::FindFrom => {
            let from = args[0].as_int()?;
            let this = args[1].as_reference()?;
            let (p, t) = get_matcher_pattern_and_input(heap, this)?;
            let re = match compile_regex(&p) {
                Some(re) => re,
                None => {
                    return Ok(Some(Value::Int(0)));
                },
            };
            if from < 0 {
                return Ok(Some(Value::Int(0)));
            }
            find_native(heap, this, &re, &t, from)
        },
        RegexMethod::LookingAt => {
            let this = args[0].as_reference()?;
            let (p, t) = get_matcher_pattern_and_input(heap, this)?;
            let re = match compile_regex(&p) {
                Some(re) => re,
                None => {
                    return Ok(Some(Value::Int(0)));
                },
            };
            if is_match(&re, &t) {
                let end: i32 = match find(&re, &t) {
                    Some((_, e)) => e as i32,
                    None => 0,
                };
                store_match(heap, this, 0, end, false);
                Ok(Some(Value::Int(1)))
            } else {
                Ok(Some(Value::Int(0)))
            }
        },
        RegexMethod::Reset => {
            let this = args[0].as_reference()?;
            store_match(heap, this, -1, -1, true);
            Ok(Some(Value::Reference(this)))
        },
        RegexMethod::ResetInput => {
            let ir = args[0].as_reference()?;
            let this = args[1].as_reference()?;
            heap.set_object_field(this, "__input", Value::Reference(ir));
            store_match(heap, this, -1, -1, true);
            Ok(Some(Value::Reference(this)))
        },
        RegexMethod::GroupIndex => {
            let g = args[0].as_int()?;
            let this = args[1].as_reference()?;
            if g == 0 {
                group_native(heap, this)
            } else {
                Ok(Some(Value::Reference(Reference::Null)))
            }
        },
        RegexMethod::Group => {
            let this = args[0].as_reference()?;
            group_native(heap, this)
        },
        RegexMethod::GroupCount => {
            let this = args[0].as_reference()?;
            Ok(Some(Value::Int(int_field_or(heap, this, "__group_count", 0))))
        },
        RegexMethod::Start => {
            let this = args[0].as_reference()?;
            Ok(Some(Value::Int(get_match_start(heap, this))))
        },
        RegexMethod::StartGroup => {
            let _g = args[0].as_int()?;
            let this = args[1].as_reference()?;
            Ok(Some(Value::Int(get_match_start(heap, this))))
        },
        RegexMethod::End => {
            let this = args[0].as_reference()?;
            Ok(Some(Value::Int(get_match_end(heap, this))))
        },
        RegexMethod::EndGroup => {
            let _g = args[0].as_int()?;
            let this = args[1].as_reference()?;
            Ok(Some(Value::Int(get_match_end(heap, this))))
        },
        RegexMethod::ReplaceAll | RegexMethod::ReplaceFirst => {
            let rr = args[0].as_reference()?;
            let this = args[1].as_reference()?;
            let (p, t) = get_matcher_pattern_and_input(heap, this)?;
            let rep = stringify_reference(heap, rr)?;
            match compile_regex(&p) {
                Some(re) => {
                    let out = match k {
                        RegexMethod::ReplaceAll => replace_all(&re, &t, &rep),
                        _ => replace_first(&re, &t, &rep),
                    };
                    Ok(Some(heap.new_string(out)))
                },
                None => Ok(Some(Value::Reference(Reference::Null))),
            }
        },
    }
}

/// Whether a `find` from byte offset `from` can run: it starts at a
/// character boundary when it starts inside the input.
fn find_start_ok(t: &Vec<char>, from: i32) -> (res: bool)
    requires
        from >= 0,
    ensures
        res == (from <= utf8_len(t@) ==> is_boundary(t@, from as int)),
{
    let n = crate::strings::utf8_length(t);
    if (from as u128) <= n {
        char_index_of_byte(t, from as usize).is_some()
    } else {
        true
    }
}

/// Whether `group()` can cut out the recorded match.
fn group_ok(heap: &Heap, m: Reference) -> (res: bool)
    ensures
        res == group_ready(heap@, m),
{
    let s = get_match_start(heap, m);
    let e = get_match_end(heap, m);
    match get_matcher_input(heap, m) {
        Err(_) => true,
        Ok(t) => {
            let n = crate::strings::utf8_length(&t);
            if s >= 0 && e >= 0 && (e as u128) <= n && s < e {
                char_index_of_byte(&t, s as usize).is_some() && char_index_of_byte(&t, e as usize).is_some()
            } else {
                true
            }
        },
    }
}

/// Whether a split yields at most 2^31 pieces.
fn split_ok(heap: &Heap, this: Reference, ir: Reference, limit: i32) -> (res: bool)
    ensures
        res == split_ready(heap@, this, ir, limit),
{
    match (pattern_text(heap, this), char_sequence_to_string(heap, ir)) {
        (Some(p), Ok(t)) => match compile_regex(&p) {
            None => true,
            Some(re) => {
                let parts = if limit > 0 {
                    splitn(&re, &t, limit as usize)
                } else {
                    split(&re, &t)
                };
                parts.len() <= 0x8000_0000
            },
        },
        _ => true,
    }
}

/// Whether a regex native can run on these arguments: there are enough of
/// them and `regex_pre` holds (elsewhere slicing the input panics).
pub fn regex_callable(heap: &Heap, k: RegexMethod, args: &[Value]) -> (res: bool)
    ensures
        res == (args@.len() >= regex_arity(k) && regex_pre(heap@, k, args@)),
{
    let n = args.len();
    let enough = match k {
        RegexMethod::PatternText | RegexMethod::MatcherMatches | RegexMethod::Find
        | RegexMethod::LookingAt | RegexMethod::Reset | RegexMethod::Group
        | RegexMethod::GroupCount | RegexMethod::Start | RegexMethod::End
        | RegexMethod::Compile => n >= 1,
        RegexMethod::SplitLimit | RegexMethod::MatcherInit => n >= 3,
        _ => n >= 2,
    };
    if !enough {
        return false;
    }
    match k {
        RegexMethod::Find => match args[0] {
            Value::Reference(this) => match get_matcher_pattern_and_input(heap, this) {
                Ok((p, t)) => {
                    let last = get_last_match_end(heap, this);
                    let from: i32 = if last >= 0 { last } else { 0 };
                    match compile_regex(&p) {
                        Some(_) => find_start_ok(&t, from),
                        None => true,
                    }
                },
                Err(_) => true,
            },
            _ => true,
        },
        RegexMethod::FindFrom => match (args[0], args[1]) {
            (Value::Int(from), Value::Reference(this)) => match get_matcher_pattern_and_input(heap, this) {
                Ok((p, t)) => match compile_regex(&p) {
                    Some(_) => from < 0 || find_start_ok(&t, from),
                    None => true,
                },
                Err(_) => true,
            },
            _ => true,
        },
        RegexMethod::Group => match args[0] {
            Value::Reference(this) => group_ok(heap, this),
            _ => true,
        },
        RegexMethod::GroupIndex => match (args[0], args[1]) {
            (Value::Int(g), Value::Reference(this)) => g != 0 || group_ok(heap, this),
            _ => true,
        },
        RegexMethod::SplitLimit => match (args[0], args[1], args[2]) {
            (Value::Reference(this), Value::Reference(ir), Value::Int(limit)) => split_ok(heap, this, ir, limit),
            _ => true,
        },
        RegexMethod::Split => match (args[0], args[1]) {
            (Value::Reference(this), Value::Reference(ir)) => split_ok(heap, this, ir, 0),
            _ => true,
        },
        _ => true,
    }
}

/// Runs a regex native where it completes; `None` where the input would be
/// sliced off a character boundary or a split would yield more pieces than
/// an array index reaches.
pub fn run_regex(heap: &mut Heap, state: &mut RegexState, k: RegexMethod, args: &[Value]) -> (res: Option<Result<Option<Value>, VmError>>)
    requires
        old(state).compiled < usize::MAX,
    ensures
        res is Some == (args@.len() >= regex_arity(k) && regex_pre(old(heap)@, k, args@)),
        match res {
            Some(r) => answers(old(heap)@, final(heap)@, regex_spec(old(heap)@, old(state).compiled as nat, k, args@), r)
                && final(state).compiled == if (k is Compile || k is CompileFlags) && r is Ok {
                    old(state).compiled + 1
                } else {
                    old(state).compiled as int
                },
            None => final(heap)@ == old(heap)@ && final(state).compiled == old(state).compiled,
        },
{
    if regex_callable(heap, k, args) {
        Some(invoke_regex(heap, state, k, args))
    } else {
        None
    }
}

} // verus!
