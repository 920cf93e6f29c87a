//! Natives of `java.lang.String`.

use vstd::prelude::*;
use crate::chars::{eq_chars, eq_str, lit};
use crate::heap::Heap;
use crate::helpers::{append_chars, string_value, stringify_reference};
use crate::model::{HeapValue, Obj, Reference, Value, VmError, exception};
use crate::native::{answers, give, give_bool, give_int, give_str, on_int, on_long, on_ref, on_str, set_cell, set_cell_at, str_arg, throw, NativeResult};
use crate::numfmt::{decimal, int_to_decimal, long_to_decimal};
use crate::strings::{compare_char_seqs, compare_chars, ends_with, ends_with_chars, hash_chars, index_of, index_of_char, index_of_char_in, index_of_chars, replace_char, replace_chars, starts_with, starts_with_chars, string_hash, trim_chars, trimmed, utf16_len, utf16_length};
use crate::unicode::{char_of_code, char_or_nul, lowercase_of, to_lowercase, to_uppercase, uppercase_of};

verus! {

/// The `java.lang.String` methods implemented natively.
#[derive(Clone, Copy, PartialEq, Eq, Structural, Debug)]
pub enum StringMethod {
    Length,
    Init,
    InitCopy,
    CharAt,
    Equals,
    HashCode,
    IsEmpty,
    Trim,
    ToLowerCase,
    ToUpperCase,
    ToStr,
    Concat,
    Substring,
    SubstringRange,
    IndexOfChar,
    IndexOfString,
    StartsWith,
    EndsWith,
    Contains,
    ReplaceChar,
    CompareTo,
    CompareToObject,
    ValueOfInt,
    ValueOfLong,
    ValueOfBoolean,
    ValueOfChar,
}

/// The name and descriptor of each method.
pub open spec fn string_signature(k: StringMethod) -> (Seq<char>, Seq<char>) {
    match k {
        StringMethod::Length => ("length"@, "()I"@),
        StringMethod::Init => ("<init>"@, "()V"@),
        StringMethod::InitCopy => ("<init>"@, "(Ljava/lang/String;)V"@),
        StringMethod::CharAt => ("charAt"@, "(I)C"@),
        StringMethod::Equals => ("equals"@, "(Ljava/lang/Object;)Z"@),
        StringMethod::HashCode => ("hashCode"@, "()I"@),
        StringMethod::IsEmpty => ("isEmpty"@, "()Z"@),
        StringMethod::Trim => ("trim"@, "()Ljava/lang/String;"@),
        StringMethod::ToLowerCase => ("toLowerCase"@, "()Ljava/lang/String;"@),
        StringMethod::ToUpperCase => ("toUpperCase"@, "()Ljava/lang/String;"@),
        StringMethod::ToStr => ("toString"@, "()Ljava/lang/String;"@),
        StringMethod::Concat => ("concat"@, "(Ljava/lang/String;)Ljava/lang/String;"@),
        StringMethod::Substring => ("substring"@, "(I)Ljava/lang/String;"@),
        StringMethod::SubstringRange => ("substring"@, "(II)Ljava/lang/String;"@),
        StringMethod::IndexOfChar => ("indexOf"@, "(I)I"@),
        StringMethod::IndexOfString => ("indexOf"@, "(Ljava/lang/String;)I"@),
        StringMethod::StartsWith => ("startsWith"@, "(Ljava/lang/String;)Z"@),
        StringMethod::EndsWith => ("endsWith"@, "(Ljava/lang/String;)Z"@),
        StringMethod::Contains => ("contains"@, "(Ljava/lang/CharSequence;)Z"@),
        StringMethod::ReplaceChar => ("replace"@, "(CC)Ljava/lang/String;"@),
        StringMethod::CompareTo => ("compareTo"@, "(Ljava/lang/String;)I"@),
        StringMethod::CompareToObject => ("compareTo"@, "(Ljava/lang/Object;)I"@),
        StringMethod::ValueOfInt => ("valueOf"@, "(I)Ljava/lang/String;"@),
        StringMethod::ValueOfLong => ("valueOf"@, "(J)Ljava/lang/String;"@),
        StringMethod::ValueOfBoolean => ("valueOf"@, "(Z)Ljava/lang/String;"@),
        StringMethod::ValueOfChar => ("valueOf"@, "(C)Ljava/lang/String;"@),
    }
}

/// How many arguments (receiver included) each method reads.
pub open spec fn string_arity(k: StringMethod) -> nat {
    match k {
        StringMethod::Length | StringMethod::Init | StringMethod::HashCode | StringMethod::IsEmpty
        | StringMethod::Trim | StringMethod::ToLowerCase | StringMethod::ToUpperCase
        | StringMethod::ToStr | StringMethod::ValueOfInt | StringMethod::ValueOfLong
        | StringMethod::ValueOfBoolean | StringMethod::ValueOfChar => 1,
        StringMethod::SubstringRange | StringMethod::ReplaceChar => 3,
        _ => 2,
    }
}

/// The string-index exception.
pub open spec fn sioobe() -> Seq<char> {
    "java/lang/StringIndexOutOfBoundsException"@
}

/// The character at a position, or NUL past the end.
pub open spec fn char_at_or_nul(s: Seq<char>, i: i32) -> char {
    if 0 <= i < s.len() {
        s[i as int]
    } else {
        '\0'
    }
}

/// `true` or `false` as Java prints it.
pub open spec fn bool_text(b: bool) -> Seq<char> {
    if b {
        "true"@
    } else {
        "false"@
    }
}

/// What each `String` native does.
pub open spec fn string_spec(heap: Seq<Obj>, k: StringMethod, args: Seq<Value>) -> NativeResult {
    match k {
        StringMethod::Length => on_str(heap, args, 0, |s: Seq<char>| give_int(heap, utf16_len(s) as i32)),
        StringMethod::Init => on_ref(args, 0, |r: Reference| set_cell(heap, r, Obj::Str(seq![]), None)),
        StringMethod::InitCopy => on_ref(args, 0, |r: Reference| on_str(heap, args, 1,
            |s: Seq<char>| set_cell(heap, r, Obj::Str(s), None))),
        StringMethod::CharAt => on_str(heap, args, 0, |s: Seq<char>| on_int(args, 1,
            |i: i32| give_int(heap, char_at_or_nul(s, i) as i32))),
        StringMethod::Equals => on_str(heap, args, 0, |a: Seq<char>| on_ref(args, 1,
            |b: Reference| give_bool(heap, b != Reference::Null && string_value(heap, b) == Ok::<Seq<char>, VmError>(a)))),
        StringMethod::HashCode => on_str(heap, args, 0, |s: Seq<char>| give_int(heap, string_hash(s))),
        StringMethod::IsEmpty => on_str(heap, args, 0, |s: Seq<char>| give_bool(heap, s.len() == 0)),
        StringMethod::Trim => on_str(heap, args, 0, |s: Seq<char>| give_str(heap, trimmed(s))),
        StringMethod::ToLowerCase => on_str(heap, args, 0, |s: Seq<char>| give_str(heap, lowercase_of(s))),
        StringMethod::ToUpperCase => on_str(heap, args, 0, |s: Seq<char>| give_str(heap, uppercase_of(s))),
        StringMethod::ToStr => on_ref(args, 0, |r: Reference| give(heap, Value::Reference(r))),
        StringMethod::Concat => on_str(heap, args, 0, |a: Seq<char>| on_str(heap, args, 1,
            |b: Seq<char>| give_str(heap, a + b))),
        StringMethod::Substring => on_str(heap, args, 0, |s: Seq<char>| on_int(args, 1,
            |start: i32| if start < 0 || start > (s.len() as i32) {
                throw(sioobe())
            } else {
                give_str(heap, s.subrange(start as int, s.len() as int))
            })),
        StringMethod::SubstringRange => on_str(heap, args, 0, |s: Seq<char>| on_int(args, 1,
            |start: i32| on_int(args, 2, |end: i32|
                if start < 0 || end > (s.len() as i32) || start > end {
                    throw(sioobe())
                } else {
                    give_str(heap, s.subrange(start as int, end as int))
                }))),
        StringMethod::IndexOfChar => on_str(heap, args, 0, |s: Seq<char>| on_int(args, 1,
            |c: i32| give_int(heap, index_of_char(s, char_or_nul(c as u32)) as i32))),
        StringMethod::IndexOfString => on_str(heap, args, 0, |s: Seq<char>| on_str(heap, args, 1,
            |n: Seq<char>| give_int(heap, index_of(s, n) as i32))),
        StringMethod::StartsWith => on_str(heap, args, 0, |s: Seq<char>| on_str(heap, args, 1,
            |p: Seq<char>| give_bool(heap, starts_with(s, p)))),
        StringMethod::EndsWith => on_str(heap, args, 0, |s: Seq<char>| on_str(heap, args, 1,
            |p: Seq<char>| give_bool(heap, ends_with(s, p)))),
        StringMethod::Contains => on_str(heap, args, 0, |s: Seq<char>| on_str(heap, args, 1,
            |n: Seq<char>| give_bool(heap, index_of(s, n) >= 0))),
        StringMethod::ReplaceChar => on_str(heap, args, 0, |s: Seq<char>| on_int(args, 1,
            |f: i32| on_int(args, 2, |t: i32|
                give_str(heap, replace_char(s, char_or_nul(f as u32), char_or_nul(t as u32)))))),
        StringMethod::CompareTo | StringMethod::CompareToObject => on_str(heap, args, 0,
            |a: Seq<char>| on_str(heap, args, 1, |b: Seq<char>| give_int(heap, compare_chars(a, b)))),
        StringMethod::ValueOfInt => on_int(args, 0, |i: i32| give_str(heap, decimal(i as int))),
        StringMethod::ValueOfLong => on_long(args, 0, |i: i64| give_str(heap, decimal(i as int))),
        StringMethod::ValueOfBoolean => on_int(args, 0, |b: i32| give_str(heap, bool_text(b != 0))),
        StringMethod::ValueOfChar => on_int(args, 0, |c: i32| give_str(heap, seq![char_or_nul(c as u32)])),
    }
}

/// The method with the given name and descriptor, if it is one of these.
#[verifier::spinoff_prover]
pub fn string_method(name: &[char], descriptor: &[char]) -> (res: Option<StringMethod>)
    ensures
        match res {
            Some(k) => string_signature(k) == (name@, descriptor@),
            None => forall|k: StringMethod| string_signature(k) != (name@, descriptor@),
        },
{
    let n = name;
    let d = descriptor;
    if eq_str(n, "length") && eq_str(d, "()I") {
        return Some(StringMethod::Length);
    }
    if eq_str(n, "<init>") && eq_str(d, "()V") {
        return Some(StringMethod::Init);
    }
    if eq_str(n, "<init>") && eq_str(d, "(Ljava/lang/String;)V") {
        return Some(StringMethod::InitCopy);
    }
    if eq_str(n, "charAt") && eq_str(d, "(I)C") {
        return Some(StringMethod::CharAt);
    }
    if eq_str(n, "equals") && eq_str(d, "(Ljava/lang/Object;)Z") {
        return Some(StringMethod::Equals);
    }
    if eq_str(n, "hashCode") && eq_str(d, "()I") {
        return Some(StringMethod::HashCode);
    }
    if eq_str(n, "isEmpty") && eq_str(d, "()Z") {
        return Some(StringMethod::IsEmpty);
    }
    if eq_str(n, "trim") && eq_str(d, "()Ljava/lang/String;") {
        return Some(StringMethod::Trim);
    }
    if eq_str(n, "toLowerCase") && eq_str(d, "()Ljava/lang/String;") {
        return Some(StringMethod::ToLowerCase);
    }
    if eq_str(n, "toUpperCase") && eq_str(d, "()Ljava/lang/String;") {
        return Some(StringMethod::ToUpperCase);
    }
    if eq_str(n, "toString") && eq_str(d, "()Ljava/lang/String;") {
        return Some(StringMethod::ToStr);
    }
    if eq_str(n, "concat") && eq_str(d, "(Ljava/lang/String;)Ljava/lang/String;") {
        return Some(StringMethod::Concat);
    }
    if eq_str(n, "substring") && eq_str(d, "(I)Ljava/lang/String;") {
        return Some(StringMethod::Substring);
    }
    if eq_str(n, "substring") && eq_str(d, "(II)Ljava/lang/String;") {
        return Some(StringMethod::SubstringRange);
    }
    if eq_str(n, "indexOf") && eq_str(d, "(I)I") {
        return Some(StringMethod::IndexOfChar);
    }
    if eq_str(n, "indexOf") && eq_str(d, "(Ljava/lang/String;)I") {
        return Some(StringMethod::IndexOfString);
    }
    if eq_str(n, "startsWith") && eq_str(d, "(Ljava/lang/String;)Z") {
        return Some(StringMethod::StartsWith);
    }
    if eq_str(n, "endsWith") && eq_str(d, "(Ljava/lang/String;)Z") {
        return Some(StringMethod::EndsWith);
    }
    if eq_str(n, "contains") && eq_str(d, "(Ljava/lang/CharSequence;)Z") {
        return Some(StringMethod::Contains);
    }
    if eq_str(n, "replace") && eq_str(d, "(CC)Ljava/lang/String;") {
        return Some(StringMethod::ReplaceChar);
    }
    if eq_str(n, "compareTo") && eq_str(d, "(Ljava/lang/String;)I") {
        return Some(StringMethod::CompareTo);
    }
    if eq_str(n, "compareTo") && eq_str(d, "(Ljava/lang/Object;)I") {
        return Some(StringMethod::CompareToObject);
    }
    if eq_str(n, "valueOf") && eq_str(d, "(I)Ljava/lang/String;") {
        return Some(StringMethod::ValueOfInt);
    }
    if eq_str(n, "valueOf") && eq_str(d, "(J)Ljava/lang/String;") {
        return Some(StringMethod::ValueOfLong);
    }
    if eq_str(n, "valueOf") && eq_str(d, "(Z)Ljava/lang/String;") {
        return Some(StringMethod::ValueOfBoolean);
    }
    if eq_str(n, "valueOf") && eq_str(d, "(C)Ljava/lang/String;") {
        return Some(StringMethod::ValueOfChar);
    }
    proof {
        assert forall|k: StringMethod| string_signature(k) != (name@, descriptor@) by {
            match k {
                StringMethod::Length => {},
                StringMethod::Init => {},
                StringMethod::InitCopy => {},
                StringMethod::CharAt => {},
                StringMethod::Equals => {},
                StringMethod::HashCode => {},
                StringMethod::IsEmpty => {},
                StringMethod::Trim => {},
                StringMethod::ToLowerCase => {},
                StringMethod::ToUpperCase => {},
                StringMethod::ToStr => {},
                StringMethod::Concat => {},
                StringMethod::Substring => {},
                StringMethod::SubstringRange => {},
                StringMethod::IndexOfChar => {},
                StringMethod::IndexOfString => {},
                StringMethod::StartsWith => {},
                StringMethod::EndsWith => {},
                StringMethod::Contains => {},
                StringMethod::ReplaceChar => {},
                StringMethod::CompareTo => {},
                StringMethod::CompareToObject => {},
                StringMethod::ValueOfInt => {},
                StringMethod::ValueOfLong => {},
                StringMethod::ValueOfBoolean => {},
                StringMethod::ValueOfChar => {},
            }
        }
    }
    None
}

/// A nonnegative truncation of a length to `int` does not exceed it.
pub proof fn lemma_len_as_i32(x: usize)
    ensures
        (x as i32) >= 0 ==> (x as i32) as int <= x as int,
{
    assert((x as i32) >= 0 ==> (x as i32) as usize <= x) by (bit_vector);
}

/// Allocates a string and returns it.
fn new_str(heap: &mut Heap, s: Vec<char>) -> (res: Result<Option<Value>, VmError>)
    ensures
        answers(old(heap)@, final(heap)@, give_str(old(heap)@, s@), res),
{
    Ok(Some(heap.new_string(s)))
}

/// The natives that only read the heap.
fn string_query(heap: &Heap, k: StringMethod, args: &[Value]) -> (res: Result<Option<Value>, VmError>)
    requires
        args@.len() >= string_arity(k),
        k is Length || k is CharAt || k is Equals || k is HashCode || k is IsEmpty || k is ToStr
            || k is IndexOfChar || k is IndexOfString || k is StartsWith || k is EndsWith
            || k is Contains || k is CompareTo || k is CompareToObject,
    ensures
        answers(heap@, heap@, string_spec(heap@, k, args@), res),
{
    match k {
        StringMethod::Length => {
            let s = str_arg(heap, args, 0)?;
            Ok(Some(Value::Int(utf16_length(&s) as i32)))
        },
        StringMethod::CharAt => {
            let s = str_arg(heap, args, 0)?;
            let i = args[1].as_int()?;
            let c = if 0 <= i && (i as usize) < s.len() {
                s[i as usize]
            } else {
                '\0'
            };
            Ok(Some(Value::Int(c as i32)))
        },
        StringMethod::Equals => {
            let a = str_arg(heap, args, 0)?;
            let b = args[1].as_reference()?;
            let same = match b {
                Reference::Null => false,
                _ => match stringify_reference(heap, b) {
                    Ok(t) => eq_chars(a.as_slice(), t.as_slice()),
                    Err(_) => false,
                },
            };
            Ok(Some(Value::Int(if same { 1 } else { 0 })))
        },
        StringMethod::HashCode => {
            let s = str_arg(heap, args, 0)?;
            Ok(Some(Value::Int(hash_chars(&s))))
        },
        StringMethod::IsEmpty => {
            let s = str_arg(heap, args, 0)?;
            Ok(Some(Value::Int(if s.len() == 0 { 1 } else { 0 })))
        },
        StringMethod::ToStr => {
            let r = args[0].as_reference()?;
            Ok(Some(Value::Reference(r)))
        },
        StringMethod::IndexOfChar => {
            let s = str_arg(heap, args, 0)?;
            let c = args[1].as_int()?;
            let needle = char_of_code(c as u32);
            let p: i32 = match index_of_char_in(&s, needle) {
                Some(p) => p as i32,
                None => -1,
            };
            Ok(Some(Value::Int(p)))
        },
        StringMethod::IndexOfString => {
            let s = str_arg(heap, args, 0)?;
            let n = str_arg(heap, args, 1)?;
            let p: i32 = match index_of_chars(&s, &n) {
                Some(p) => p as i32,
                None => -1,
            };
            Ok(Some(Value::Int(p)))
        },
        StringMethod::StartsWith => {
            let s = str_arg(heap, args, 0)?;
            let p = str_arg(heap, args, 1)?;
            Ok(Some(Value::Int(if starts_with_chars(&s, &p) { 1 } else { 0 })))
        },
        StringMethod::EndsWith => {
            let s = str_arg(heap, args, 0)?;
            let p = str_arg(heap, args, 1)?;
            Ok(Some(Value::Int(if ends_with_chars(&s, &p) { 1 } else { 0 })))
        },
        StringMethod::Contains => {
            let s = str_arg(heap, args, 0)?;
            let n = str_arg(heap, args, 1)?;
            Ok(Some(Value::Int(if index_of_chars(&s, &n).is_some() { 1 } else { 0 })))
        },
        _ => {
            let a = str_arg(heap, args, 0)?;
            let b = str_arg(heap, args, 1)?;
            Ok(Some(Value::Int(compare_char_seqs(&a, &b))))
        },
    }
}

/// The natives that allocate a new string or fill in their receiver.
fn string_update(heap: &mut Heap, k: StringMethod, args: &[Value]) -> (res: Result<Option<Value>, VmError>)
    requires
        args@.len() >= string_arity(k),
        !(k is Length || k is CharAt || k is Equals || k is HashCode || k is IsEmpty || k is ToStr
            || k is IndexOfChar || k is IndexOfString || k is StartsWith || k is EndsWith
            || k is Contains || k is CompareTo || k is CompareToObject),
    ensures
        answers(old(heap)@, final(heap)@, string_spec(old(heap)@, k, args@), res),
{
    match k {
        StringMethod::Init => {
            let r = args[0].as_reference()?;
            let empty: Vec<char> = Vec::new();
            assert(empty@ =~= seq![]);
            set_cell_at(heap, r, HeapValue::String(empty))?;
            Ok(None)
        },
        StringMethod::InitCopy => {
            let r = args[0].as_reference()?;
            let s = str_arg(heap, args, 1)?;
            let ghost sv = s@;
            set_cell_at(heap, r, HeapValue::String(s))?;
            Ok(None)
        },
        StringMethod::Trim => {
            let s = str_arg(heap, args, 0)?;
            new_str(heap, trim_chars(&s))
        },
        StringMethod::ToLowerCase => {
            let s = str_arg(heap, args, 0)?;
            new_str(heap, to_lowercase(&s))
        },
        StringMethod::ToUpperCase => {
            let s = str_arg(heap, args, 0)?;
            new_str(heap, to_uppercase(&s))
        },
        StringMethod::Concat => {
            let mut a = str_arg(heap, args, 0)?;
            let b = str_arg(heap, args, 1)?;
            append_chars(&mut a, &b);
            new_str(heap, a)
        },
        StringMethod::Substring => {
            let s = str_arg(heap, args, 0)?;
            let start = args[1].as_int()?;
            let len = s.len() as i32;
            if start < 0 || start > len {
                return Err(exception("java/lang/StringIndexOutOfBoundsException"));
            }
            proof {
                lemma_len_as_i32(s.len());
            }
            new_str(heap, crate::descriptors::sub_chars(&s, start as usize, s.len()))
        },
        StringMethod::SubstringRange => {
            let s = str_arg(heap, args, 0)?;
            let start = args[1].as_int()?;
            let end = args[2].as_int()?;
            let len = s.len() as i32;
            if start < 0 || end > len || start > end {
                return Err(exception("java/lang/StringIndexOutOfBoundsException"));
            }
            proof {
                lemma_len_as_i32(s.len());
            }
            new_str(heap, crate::descriptors::sub_chars(&s, start as usize, end as usize))
        },
        StringMethod::ReplaceChar => {
            let s = str_arg(heap, args, 0)?;
            let f = args[1].as_int()?;
            let t = args[2].as_int()?;
            new_str(heap, replace_chars(&s, char_of_code(f as u32), char_of_code(t as u32)))
        },
        StringMethod::ValueOfInt => {
            let i = args[0].as_int()?;
            new_str(heap, int_to_decimal(i))
        },
        StringMethod::ValueOfLong => {
            let i = args[0].as_long()?;
            new_str(heap, long_to_decimal(i))
        },
        StringMethod::ValueOfBoolean => {
            let b = args[0].as_int()?;
            new_str(heap, if b != 0 { lit("true") } else { lit("false") })
        },
        _ => {
            let c = args[0].as_int()?;
            let mut v = Vec::new();
            v.push(char_of_code(c as u32));
            new_str(heap, v)
        },
    }
}

/// Runs a `java.lang.String` native.
pub fn invoke_string(heap: &mut Heap, k: StringMethod, args: &[Value]) -> (res: Result<Option<Value>, VmError>)
    requires
        args@.len() >= string_arity(k),
    ensures
        answers(old(heap)@, final(heap)@, string_spec(old(heap)@, k, args@), res),
{
    match k {
        StringMethod::Length | StringMethod::CharAt | StringMethod::Equals
        | StringMethod::HashCode | StringMethod::IsEmpty | StringMethod::ToStr
        | StringMethod::IndexOfChar | StringMethod::IndexOfString | StringMethod::StartsWith
        | StringMethod::EndsWith | StringMethod::Contains | StringMethod::CompareTo
        | StringMethod::CompareToObject => string_query(heap, k, args),
        _ => string_update(heap, k, args),
    }
}

} // verus!
