//! Natives of `java.lang.Object`, `java.lang.Character` and
//! `java.lang.Boolean`.

use vstd::prelude::*;
use crate::chars::{eq_str, lit};
use crate::heap::{deref, Heap};
use crate::helpers::{identity_string, identity_text};
use crate::lang_string::bool_text;
use crate::model::{Obj, Reference, Value, VmError};
use crate::native::{answers, box_of, fail, first_field, give_bool, give_int, give_new, give_str, on_int, on_ref, on_str, read_first_field, str_arg, NativeResult};
use crate::reflection::new_box;
use crate::strings::{is_white, is_whitespace};
use crate::unicode::{alphabetic, alphanumeric, char_of_code, char_or_nul, is_alphabetic, is_alphanumeric, is_lowercase, is_uppercase, lower_first, lowercase, to_lower_first, to_upper_first, upper_first, uppercase};

verus! {

/// The `java.lang.Object` methods implemented natively.
#[derive(Clone, Copy, PartialEq, Eq, Structural, Debug)]
pub enum ObjectMethod {
    HashCode,
    Equals,
    ToStr,
}

/// The `java.lang.Character` methods implemented natively.
#[derive(Clone, Copy, PartialEq, Eq, Structural, Debug)]
pub enum CharacterMethod {
    IsDigit,
    IsLetter,
    IsLetterOrDigit,
    IsWhitespace,
    IsUpperCase,
    IsLowerCase,
    ToLowerCase,
    ToUpperCase,
    ToStr,
}

/// The `java.lang.Boolean` methods implemented natively.
#[derive(Clone, Copy, PartialEq, Eq, Structural, Debug)]
pub enum BooleanMethod {
    GetBoolean,
    ParseBoolean,
    ToStr,
    ValueOf,
    BooleanValue,
}

pub open spec fn object_signature(k: ObjectMethod) -> (Seq<char>, Seq<char>) {
    match k {
        ObjectMethod::HashCode => ("hashCode"@, "()I"@),
        ObjectMethod::Equals => ("equals"@, "(Ljava/lang/Object;)Z"@),
        ObjectMethod::ToStr => ("toString"@, "()Ljava/lang/String;"@),
    }
}

pub open spec fn character_signature(k: CharacterMethod) -> (Seq<char>, Seq<char>) {
    match k {
        CharacterMethod::IsDigit => ("isDigit"@, "(C)Z"@),
        CharacterMethod::IsLetter => ("isLetter"@, "(C)Z"@),
        CharacterMethod::IsLetterOrDigit => ("isLetterOrDigit"@, "(C)Z"@),
        CharacterMethod::IsWhitespace => ("isWhitespace"@, "(C)Z"@),
        CharacterMethod::IsUpperCase => ("isUpperCase"@, "(C)Z"@),
        CharacterMethod::IsLowerCase => ("isLowerCase"@, "(C)Z"@),
        CharacterMethod::ToLowerCase => ("toLowerCase"@, "(C)C"@),
        CharacterMethod::ToUpperCase => ("toUpperCase"@, "(C)C"@),
        CharacterMethod::ToStr => ("toString"@, "(C)Ljava/lang/String;"@),
    }
}

pub open spec fn boolean_signature(k: BooleanMethod) -> (Seq<char>, Seq<char>) {
    match k {
        BooleanMethod::GetBoolean => ("getBoolean"@, "(Ljava/lang/String;)Z"@),
        BooleanMethod::ParseBoolean => ("parseBoolean"@, "(Ljava/lang/String;)Z"@),
        BooleanMethod::ToStr => ("toString"@, "(Z)Ljava/lang/String;"@),
        BooleanMethod::ValueOf => ("valueOf"@, "(Z)Ljava/lang/Boolean;"@),
        BooleanMethod::BooleanValue => ("booleanValue"@, "()Z"@),
    }
}

pub open spec fn object_arity(k: ObjectMethod) -> nat {
    match k {
        ObjectMethod::Equals => 2,
        _ => 1,
    }
}

pub open spec fn boolean_arity(k: BooleanMethod) -> nat {
    match k {
        BooleanMethod::GetBoolean => 0,
        _ => 1,
    }
}

/// `Object.hashCode`: the heap index as an `int`, 0 for `null`.
pub open spec fn object_hash(r: Reference) -> i32 {
    match r {
        Reference::Null => 0,
        Reference::Heap(i) => i as i32,
    }
}

pub open spec fn object_spec(heap: Seq<Obj>, k: ObjectMethod, args: Seq<Value>) -> NativeResult {
    match k {
        ObjectMethod::HashCode => on_ref(args, 0, |r: Reference| give_int(heap, object_hash(r))),
        ObjectMethod::Equals => on_ref(args, 0, |a: Reference| on_ref(args, 1,
            |b: Reference| give_bool(heap, a == b))),
        ObjectMethod::ToStr => on_ref(args, 0, |r: Reference| match r {
            Reference::Null => give_str(heap, "null@0"@),
            Reference::Heap(i) => match deref(heap, r) {
                None => fail(VmError::InvalidReference),
                Some(o) => give_str(heap, identity_string(o, i as nat)),
            },
        }),
    }
}

/// An ASCII decimal digit.
pub open spec fn ascii_digit(c: char) -> bool {
    '0' <= c <= '9'
}

pub open spec fn character_spec(heap: Seq<Obj>, k: CharacterMethod, args: Seq<Value>) -> NativeResult {
    on_int(args, 0, |u: i32| {
        let c = char_or_nul(u as u32);
        match k {
            CharacterMethod::IsDigit => give_bool(heap, ascii_digit(c)),
            CharacterMethod::IsLetter => give_bool(heap, alphabetic(c)),
            CharacterMethod::IsLetterOrDigit => give_bool(heap, alphanumeric(c)),
            CharacterMethod::IsWhitespace => give_bool(heap, is_white(c)),
            CharacterMethod::IsUpperCase => give_bool(heap, uppercase(c)),
            CharacterMethod::IsLowerCase => give_bool(heap, lowercase(c)),
            CharacterMethod::ToLowerCase => give_int(heap, lower_first(c) as i32),
            CharacterMethod::ToUpperCase => give_int(heap, upper_first(c) as i32),
            CharacterMethod::ToStr => give_str(heap, seq![c]),
        }
    })
}

/// ASCII upper-case letters mapped to lower case, other characters kept.
pub open spec fn ascii_lower(c: char) -> char {
    if 'A' <= c <= 'Z' {
        ((c as u32) + 32) as char
    } else {
        c
    }
}

/// `eq_ignore_ascii_case("true")`.
pub open spec fn is_true_text(s: Seq<char>) -> bool {
    s.map_values(|c: char| ascii_lower(c)) == "true"@
}

pub open spec fn boolean_spec(heap: Seq<Obj>, k: BooleanMethod, args: Seq<Value>) -> NativeResult {
    match k {
        BooleanMethod::GetBoolean => give_int(heap, 0),
        BooleanMethod::ParseBoolean => on_str(heap, args, 0, |s: Seq<char>| give_bool(heap, is_true_text(s))),
        BooleanMethod::ToStr => on_int(args, 0, |b: i32| give_str(heap, bool_text(b != 0))),
        BooleanMethod::ValueOf => on_int(args, 0, |v: i32| give_new(heap, box_of("java/lang/Boolean"@, Value::Int(v)))),
        BooleanMethod::BooleanValue => on_ref(args, 0, |r: Reference| first_field(heap, r, Value::Int(0))),
    }
}

pub fn object_method(name: &[char], descriptor: &[char]) -> (res: Option<ObjectMethod>)
    ensures
        match res {
            Some(k) => object_signature(k) == (name@, descriptor@),
            None => forall|k: ObjectMethod| object_signature(k) != (name@, descriptor@),
        },
{
    let n = name;
    let d = descriptor;
    if eq_str(n, "hashCode") && eq_str(d, "()I") {
        return Some(ObjectMethod::HashCode);
    }
    if eq_str(n, "equals") && eq_str(d, "(Ljava/lang/Object;)Z") {
        return Some(ObjectMethod::Equals);
    }
    if eq_str(n, "toString") && eq_str(d, "()Ljava/lang/String;") {
        return Some(ObjectMethod::ToStr);
    }
    proof {
        assert forall|k: ObjectMethod| object_signature(k) != (name@, descriptor@) by {
            match k {
                ObjectMethod::HashCode => {},
                ObjectMethod::Equals => {},
                ObjectMethod::ToStr => {},
            }
        }
    }
    None
}

pub fn character_method(name: &[char], descriptor: &[char]) -> (res: Option<CharacterMethod>)
    ensures
        match res {
            Some(k) => character_signature(k) == (name@, descriptor@),
            None => forall|k: CharacterMethod| character_signature(k) != (name@, descriptor@),
        },
{
    let n = name;
    let d = descriptor;
    if eq_str(n, "isDigit") && eq_str(d, "(C)Z") {
        return Some(CharacterMethod::IsDigit);
    }
    if eq_str(n, "isLetter") && eq_str(d, "(C)Z") {
        return Some(CharacterMethod::IsLetter);
    }
    if eq_str(n, "isLetterOrDigit") && eq_str(d, "(C)Z") {
        return Some(CharacterMethod::IsLetterOrDigit);
    }
    if eq_str(n, "isWhitespace") && eq_str(d, "(C)Z") {
        return Some(CharacterMethod::IsWhitespace);
    }
    if eq_str(n, "isUpperCase") && eq_str(d, "(C)Z") {
        return Some(CharacterMethod::IsUpperCase);
    }
    if eq_str(n, "isLowerCase") && eq_str(d, "(C)Z") {
        return Some(CharacterMethod::IsLowerCase);
    }
    if eq_str(n, "toLowerCase") && eq_str(d, "(C)C") {
        return Some(CharacterMethod::ToLowerCase);
    }
    if eq_str(n, "toUpperCase") && eq_str(d, "(C)C") {
        return Some(CharacterMethod::ToUpperCase);
    }
    if eq_str(n, "toString") && eq_str(d, "(C)Ljava/lang/String;") {
        return Some(CharacterMethod::ToStr);
    }
    proof {
        assert forall|k: CharacterMethod| character_signature(k) != (name@, descriptor@) by {
            match k {
                CharacterMethod::IsDigit => {},
                CharacterMethod::IsLetter => {},
                CharacterMethod::IsLetterOrDigit => {},
                CharacterMethod::IsWhitespace => {},
                CharacterMethod::IsUpperCase => {},
                CharacterMethod::IsLowerCase => {},
                CharacterMethod::ToLowerCase => {},
                CharacterMethod::ToUpperCase => {},
                CharacterMethod::ToStr => {},
            }
        }
    }
    None
}

pub fn boolean_method(name: &[char], descriptor: &[char]) -> (res: Option<BooleanMethod>)
    ensures
        match res {
            Some(k) => boolean_signature(k) == (name@, descriptor@),
            None => forall|k: BooleanMethod| boolean_signature(k) != (name@, descriptor@),
        },
{
    let n = name;
    let d = descriptor;
    if eq_str(n, "getBoolean") && eq_str(d, "(Ljava/lang/String;)Z") {
        return Some(BooleanMethod::GetBoolean);
    }
    if eq_str(n, "parseBoolean") && eq_str(d, "(Ljava/lang/String;)Z") {
        return Some(BooleanMethod::ParseBoolean);
    }
    if eq_str(n, "toString") && eq_str(d, "(Z)Ljava/lang/String;") {
        return Some(BooleanMethod::ToStr);
    }
    if eq_str(n, "valueOf") && eq_str(d, "(Z)Ljava/lang/Boolean;") {
        return Some(BooleanMethod::ValueOf);
    }
    if eq_str(n, "booleanValue") && eq_str(d, "()Z") {
        return Some(BooleanMethod::BooleanValue);
    }
    proof {
        assert forall|k: BooleanMethod| boolean_signature(k) != (name@, descriptor@) by {
            match k {
                BooleanMethod::GetBoolean => {},
                BooleanMethod::ParseBoolean => {},
                BooleanMethod::ToStr => {},
                BooleanMethod::ValueOf => {},
                BooleanMethod::BooleanValue => {},
            }
        }
    }
    None
}

/// Runs a `java.lang.Object` native.
pub fn invoke_object(heap: &mut Heap, k: ObjectMethod, args: &[Value]) -> (res: Result<Option<Value>, VmError>)
    requires
        args@.len() >= object_arity(k),
    ensures
        answers(old(heap)@, final(heap)@, object_spec(old(heap)@, k, args@), res),
{
    match k {
        ObjectMethod::HashCode => {
            let r = args[0].as_reference()?;
            let h: i32 = match r {
                Reference::Null => 0,
                Reference::Heap(i) => i as i32,
            };
            Ok(Some(Value::Int(h)))
        },
        ObjectMethod::Equals => {
            let a = args[0].as_reference()?;
            let b = args[1].as_reference()?;
            Ok(Some(Value::Int(if a == b { 1 } else { 0 })))
        },
        ObjectMethod::ToStr => {
            let r = args[0].as_reference()?;
            match r {
                Reference::Null => Ok(Some(heap.new_string(lit("null@0")))),
                Reference::Heap(i) => {
                    if i >= heap.values.len() {
                        return Err(VmError::InvalidReference);
                    }
                    let text = identity_text(&heap.values[i], i);
                    Ok(Some(heap.new_string(text)))
                },
            }
        },
    }
}

/// Runs a `java.lang.Character` native.
pub fn invoke_character(heap: &mut Heap, k: CharacterMethod, args: &[Value]) -> (res: Result<Option<Value>, VmError>)
    requires
        args@.len() >= 1,
    ensures
        answers(old(heap)@, final(heap)@, character_spec(old(heap)@, k, args@), res),
{
    let u = args[0].as_int()?;
    let c = char_of_code(u as u32);
    let b = match k {
        CharacterMethod::IsDigit => '0' <= c && c <= '9',
        CharacterMethod::IsLetter => is_alphabetic(c),
        CharacterMethod::IsLetterOrDigit => is_alphanumeric(c),
        CharacterMethod::IsWhitespace => is_whitespace(c),
        CharacterMethod::IsUpperCase => is_uppercase(c),
        CharacterMethod::IsLowerCase => is_lowercase(c),
        CharacterMethod::ToLowerCase => {
            return Ok(Some(Value::Int(to_lower_first(c) as i32)));
        },
        CharacterMethod::ToUpperCase => {
            return Ok(Some(Value::Int(to_upper_first(c) as i32)));
        },
        CharacterMethod::ToStr => {
            let mut v = Vec::new();
            v.push(c);
            return Ok(Some(heap.new_string(v)));
        },
    };
    Ok(Some(Value::Int(if b { 1 } else { 0 })))
}

/// `eq_ignore_ascii_case("true")` on a character sequence.
pub fn true_ignoring_case(s: &Vec<char>) -> (res: bool)
    ensures
        res == is_true_text(s@),
{
    let t = lit("true");
    proof {
        reveal_strlit("true");
    }
    let ghost lowered = s@.map_values(|c: char| ascii_lower(c));
    if s.len() != 4 {
        assert(lowered.len() != "true"@.len());
        return false;
    }
    let mut i: usize = 0;
    while i < 4
        invariant
            s@.len() == 4,
            t@ == "true"@,
            t@.len() == 4,
            lowered == s@.map_values(|c: char| ascii_lower(c)),
            i <= 4,
            forall|j: int| 0 <= j < i ==> lowered[j] == t@[j],
        decreases 4 - i,
    {
        let c = s[i];
        let l = if 'A' <= c && c <= 'Z' {
            ((c as u32) + 32) as u8 as char
        } else {
            c
        };
        assert(l == ascii_lower(c)) by {
            if 'A' <= c && c <= 'Z' {
                assert(((c as u32) + 32) as u8 as char == ((c as u32) + 32) as char);
            }
        }
        if l != t[i] {
            assert(lowered[i as int] != "true"@[i as int]);
            return false;
        }
        i = i + 1;
    }
    assert(lowered =~= "true"@);
    true
}

/// Runs a `java.lang.Boolean` native.
pub fn invoke_boolean(heap: &mut Heap, k: BooleanMethod, args: &[Value]) -> (res: Result<Option<Value>, VmError>)
    requires
        args@.len() >= boolean_arity(k),
    ensures
        answers(old(heap)@, final(heap)@, boolean_spec(old(heap)@, k, args@), res),
{
    match k {
        BooleanMethod::GetBoolean => Ok(Some(Value::Int(0))),
        BooleanMethod::ParseBoolean => {
            let s = str_arg(heap, args, 0)?;
            Ok(Some(Value::Int(if true_ignoring_case(&s) { 1 } else { 0 })))
        },
        BooleanMethod::ToStr => {
            let b = args[0].as_int()?;
            Ok(Some(heap.new_string(if b != 0 { lit("true") } else { lit("false") })))
        },
        BooleanMethod::ValueOf => {
            let v = args[0].as_int()?;
            Ok(Some(Value::Reference(new_box(heap, "java/lang/Boolean", Value::Int(v)))))
        },
        BooleanMethod::BooleanValue => {
            let r = args[0].as_reference()?;
            read_first_field(heap, r, Value::Int(0))
        },
    }
}

} // verus!
