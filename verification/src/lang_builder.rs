//! Natives of `java.lang.StringBuilder`. A builder cell holds its text;
//! calls on a cell that is not a builder leave it alone.

use vstd::prelude::*;
use crate::chars::{eq_str, lit};
use crate::heap::{deref, deref_error, Heap};
use crate::helpers::{append_chars, display_string, stringify_heap};
use crate::lang_string::{bool_text, sioobe};
use crate::model::{exception, int_arg, long_arg, ref_arg, HeapValue, Obj, Reference, Value, VmError};
use crate::native::{
    answers, done, fail, give, give_int, give_str, on_int, on_ref, on_str, set_cell, set_cell_at,
    str_arg, str_at, throw, NativeResult,
};
use crate::numfmt::{decimal, int_to_decimal, long_to_decimal};
use crate::unicode::{char_of_code, char_or_nul, is_scalar};

verus! {

broadcast use vstd::seq_lib::group_seq_properties;

/// The argument kinds `StringBuilder.append` formats; `Other` stands for
/// every descriptor not listed (its text is `?`). Floating-point arguments
/// are formatted by the caller and appended with `builder_append_text`.
#[derive(Clone, Copy, PartialEq, Eq, Structural, Debug)]
pub enum AppendArg {
    Str,
    Int,
    Long,
    Char,
    Bool,
    Object,
    Other,
}

/// The `java.lang.StringBuilder` methods implemented natively.
#[derive(Clone, Copy, PartialEq, Eq, Structural, Debug)]
pub enum BuilderMethod {
    Init,
    InitString,
    Append(AppendArg),
    ToStr,
    Length,
    CharAt,
    SetLength,
    DeleteCharAt,
    SetCharAt,
    Reverse,
    Insert,
}

/// The descriptor of each listed `append` overload.
pub open spec fn append_descriptor(a: AppendArg) -> Seq<char> {
    match a {
        AppendArg::Str => "(Ljava/lang/String;)Ljava/lang/StringBuilder;"@,
        AppendArg::Int => "(I)Ljava/lang/StringBuilder;"@,
        AppendArg::Long => "(J)Ljava/lang/StringBuilder;"@,
        AppendArg::Char => "(C)Ljava/lang/StringBuilder;"@,
        AppendArg::Bool => "(Z)Ljava/lang/StringBuilder;"@,
        AppendArg::Object => "(Ljava/lang/Object;)Ljava/lang/StringBuilder;"@,
        AppendArg::Other => Seq::empty(),
    }
}

/// The floating-point `append` overloads, which the caller formats.
pub open spec fn float_append(d: Seq<char>) -> bool {
    d == "(F)Ljava/lang/StringBuilder;"@ || d == "(D)Ljava/lang/StringBuilder;"@
}

/// Whether a method is the one called by this name and descriptor.
pub open spec fn builder_matches(k: BuilderMethod, name: Seq<char>, d: Seq<char>) -> bool {
    match k {
        BuilderMethod::Init => name == "<init>"@ && d == "()V"@,
        BuilderMethod::InitString => name == "<init>"@ && d == "(Ljava/lang/String;)V"@,
        BuilderMethod::Append(AppendArg::Other) => name == "append"@ && !float_append(d) && forall|a: AppendArg|
            a != AppendArg::Other ==> append_descriptor(a) != d,
        BuilderMethod::Append(a) => name == "append"@ && d == append_descriptor(a),
        BuilderMethod::ToStr => name == "toString"@ && d == "()Ljava/lang/String;"@,
        BuilderMethod::Length => name == "length"@ && d == "()I"@,
        BuilderMethod::CharAt => name == "charAt"@ && d == "(I)C"@,
        BuilderMethod::SetLength => name == "setLength"@ && d == "(I)V"@,
        BuilderMethod::DeleteCharAt => name == "deleteCharAt"@ && d == "(I)Ljava/lang/StringBuilder;"@,
        BuilderMethod::SetCharAt => name == "setCharAt"@ && d == "(IC)V"@,
        BuilderMethod::Reverse => name == "reverse"@ && d == "()Ljava/lang/StringBuilder;"@,
        BuilderMethod::Insert => name == "insert"@ && d == "(ILjava/lang/String;)Ljava/lang/StringBuilder;"@,
    }
}

pub open spec fn builder_arity(k: BuilderMethod) -> nat {
    match k {
        BuilderMethod::Init | BuilderMethod::ToStr | BuilderMethod::Length | BuilderMethod::Reverse
        | BuilderMethod::Append(AppendArg::Other) => 1,
        BuilderMethod::SetCharAt | BuilderMethod::Insert => 3,
        _ => 2,
    }
}

/// The text `append` adds for argument 1.
pub open spec fn append_text(heap: Seq<Obj>, a: AppendArg, args: Seq<Value>) -> Result<Seq<char>, VmError> {
    match a {
        AppendArg::Str => str_at(heap, args, 1),
        AppendArg::Int => match int_arg(args, 1) {
            Ok(v) => Ok(decimal(v as int)),
            Err(e) => Err(e),
        },
        AppendArg::Long => match long_arg(args, 1) {
            Ok(v) => Ok(decimal(v as int)),
            Err(e) => Err(e),
        },
        AppendArg::Char => match int_arg(args, 1) {
            Ok(v) => {
                let u = v as u16 as u32;
                Ok(if is_scalar(u) { seq![u as char] } else { Seq::empty() })
            },
            Err(e) => Err(e),
        },
        AppendArg::Bool => match int_arg(args, 1) {
            Ok(v) => Ok(bool_text(v != 0)),
            Err(e) => Err(e),
        },
        AppendArg::Object => match ref_arg(args, 1) {
            Ok(r) => display_string(heap, r),
            Err(e) => Err(e),
        },
        AppendArg::Other => Ok("?"@),
    }
}

/// `b` cut to `n` characters, or padded with NULs up to `n`.
pub open spec fn resized(b: Seq<char>, n: int) -> Seq<char> {
    if n <= b.len() {
        b.subrange(0, n)
    } else {
        b + Seq::new((n - b.len()) as nat, |i: int| '\0')
    }
}

/// Continues with the builder text in the cell `r` designates: `f` for a
/// builder, `other` for any other cell.
pub open spec fn on_builder(
    heap: Seq<Obj>,
    r: Reference,
    f: spec_fn(Seq<char>) -> NativeResult,
    other: NativeResult,
) -> NativeResult {
    match deref(heap, r) {
        None => fail(deref_error(r)),
        Some(Obj::Builder(b)) => f(b),
        Some(_) => other,
    }
}

/// Stores new text in the builder `r` and returns `ret`.
pub open spec fn store(heap: Seq<Obj>, r: Reference, b: Seq<char>, ret: Option<Value>) -> NativeResult {
    Ok((ret, heap.update(r->Heap_0 as int, Obj::Builder(b))))
}

pub open spec fn builder_spec(heap: Seq<Obj>, k: BuilderMethod, args: Seq<Value>) -> NativeResult {
    match k {
        BuilderMethod::Init => on_ref(args, 0, |r: Reference| set_cell(heap, r, Obj::Builder(seq![]), None)),
        BuilderMethod::InitString => on_ref(args, 0, |r: Reference| on_str(heap, args, 1,
            |s: Seq<char>| set_cell(heap, r, Obj::Builder(s), None))),
        BuilderMethod::Append(a) => on_ref(args, 0, |r: Reference| match append_text(heap, a, args) {
            Err(e) => fail(e),
            Ok(t) => on_builder(heap, r, |b: Seq<char>| store(heap, r, b + t, Some(Value::Reference(r))),
                give(heap, Value::Reference(r))),
        }),
        BuilderMethod::ToStr => on_ref(args, 0, |r: Reference| on_builder(heap, r,
            |b: Seq<char>| give_str(heap, b), give_str(heap, seq![]))),
        BuilderMethod::Length => on_ref(args, 0, |r: Reference| on_builder(heap, r,
            |b: Seq<char>| give_int(heap, b.len() as i32), give_int(heap, 0))),
        BuilderMethod::CharAt => on_ref(args, 0, |r: Reference| on_int(args, 1, |i: i32| on_builder(heap, r,
            |b: Seq<char>| if 0 <= i < b.len() { give_int(heap, b[i as int] as i32) } else { throw(sioobe()) },
            give_int(heap, 0)))),
        BuilderMethod::SetLength => on_ref(args, 0, |r: Reference| on_int(args, 1, |n: i32|
            if n < 0 {
                throw(sioobe())
            } else {
                on_builder(heap, r, |b: Seq<char>| store(heap, r, resized(b, n as int), None), done(heap, None))
            })),
        BuilderMethod::DeleteCharAt => on_ref(args, 0, |r: Reference| on_int(args, 1, |i: i32| on_builder(heap, r,
            |b: Seq<char>| if i < 0 || i >= b.len() {
                throw(sioobe())
            } else {
                store(heap, r, b.remove(i as int), Some(Value::Reference(r)))
            },
            give(heap, Value::Reference(r))))),
        BuilderMethod::SetCharAt => on_ref(args, 0, |r: Reference| on_int(args, 1, |i: i32| on_int(args, 2,
            |u: i32| on_builder(heap, r,
                |b: Seq<char>| if i < 0 || i >= b.len() {
                    throw(sioobe())
                } else {
                    store(heap, r, b.update(i as int, char_or_nul(u as u32)), None)
                },
                done(heap, None))))),
        BuilderMethod::Reverse => on_ref(args, 0, |r: Reference| on_builder(heap, r,
            |b: Seq<char>| store(heap, r, b.reverse(), Some(Value::Reference(r))),
            give(heap, Value::Reference(r)))),
        BuilderMethod::Insert => on_ref(args, 0, |r: Reference| on_int(args, 1, |i: i32| on_str(heap, args, 2,
            |s: Seq<char>| on_builder(heap, r,
                |b: Seq<char>| if i < 0 || i > (b.len() as i32) {
                    throw(sioobe())
                } else {
                    store(heap, r, b.subrange(0, i as int) + s + b.subrange(i as int, b.len() as int),
                        Some(Value::Reference(r)))
                },
                give(heap, Value::Reference(r)))))),
    }
}

/// The `append` overload a descriptor selects, if it is not a
/// floating-point one.
pub fn append_arg(descriptor: &[char]) -> (res: Option<AppendArg>)
    ensures
        match res {
            Some(AppendArg::Other) => !float_append(descriptor@) && forall|a: AppendArg|
                a != AppendArg::Other ==> append_descriptor(a) != descriptor@,
            Some(a) => append_descriptor(a) == descriptor@,
            None => float_append(descriptor@),
        },
{
    let d = descriptor;
    if eq_str(d, "(Ljava/lang/String;)Ljava/lang/StringBuilder;") {
        return Some(AppendArg::Str);
    }
    if eq_str(d, "(I)Ljava/lang/StringBuilder;") {
        return Some(AppendArg::Int);
    }
    if eq_str(d, "(J)Ljava/lang/StringBuilder;") {
        return Some(AppendArg::Long);
    }
    if eq_str(d, "(C)Ljava/lang/StringBuilder;") {
        return Some(AppendArg::Char);
    }
    if eq_str(d, "(Z)Ljava/lang/StringBuilder;") {
        return Some(AppendArg::Bool);
    }
    if eq_str(d, "(Ljava/lang/Object;)Ljava/lang/StringBuilder;") {
        return Some(AppendArg::Object);
    }
    if eq_str(d, "(F)Ljava/lang/StringBuilder;") || eq_str(d, "(D)Ljava/lang/StringBuilder;") {
        return None;
    }
    proof {
        assert forall|a: AppendArg| a != AppendArg::Other implies append_descriptor(a) != descriptor@ by {
            match a {
                AppendArg::Str => {},
                AppendArg::Int => {},
                AppendArg::Long => {},
                AppendArg::Char => {},
                AppendArg::Bool => {},
                AppendArg::Object => {},
                AppendArg::Other => {},
            }
        }
    }
    Some(AppendArg::Other)
}

pub fn builder_method(name: &[char], descriptor: &[char]) -> (res: Option<BuilderMethod>)
    ensures
        match res {
            Some(k) => builder_matches(k, name@, descriptor@),
            None => forall|k: BuilderMethod| !builder_matches(k, name@, descriptor@),
        },
{
    let n = name;
    let d = descriptor;
    if eq_str(n, "append") {
        return match append_arg(d) {
            Some(a) => Some(BuilderMethod::Append(a)),
            None => {
                proof {
                    reveal_strlit("append");
                    reveal_strlit("<init>");
                    reveal_strlit("toString");
                    reveal_strlit("length");
                    reveal_strlit("charAt");
                    reveal_strlit("setLength");
                    reveal_strlit("deleteCharAt");
                    reveal_strlit("setCharAt");
                    reveal_strlit("reverse");
                    reveal_strlit("insert");
                    reveal_strlit("(F)Ljava/lang/StringBuilder;");
                    reveal_strlit("(D)Ljava/lang/StringBuilder;");
                    reveal_strlit("(Ljava/lang/String;)Ljava/lang/StringBuilder;");
                    reveal_strlit("(I)Ljava/lang/StringBuilder;");
                    reveal_strlit("(J)Ljava/lang/StringBuilder;");
                    reveal_strlit("(C)Ljava/lang/StringBuilder;");
                    reveal_strlit("(Z)Ljava/lang/StringBuilder;");
                    reveal_strlit("(Ljava/lang/Object;)Ljava/lang/StringBuilder;");
                    assert(name@[0] == 'a');
                    assert(descriptor@[1] == 'F' || descriptor@[1] == 'D');
                    assert forall|k: BuilderMethod| !builder_matches(k, name@, descriptor@) by {
                        match k {
                            BuilderMethod::Append(a) => {
                                if a != AppendArg::Other {
                                    assert(append_descriptor(a)[1] != descriptor@[1]);
                                }
                            },
                            _ => {},
                        }
                    }
                }
                None
            },
        };
    }
    if eq_str(n, "<init>") && eq_str(d, "()V") {
        return Some(BuilderMethod::Init);
    }
    if eq_str(n, "<init>") && eq_str(d, "(Ljava/lang/String;)V") {
        return Some(BuilderMethod::InitString);
    }
    if eq_str(n, "toString") && eq_str(d, "()Ljava/lang/String;") {
        return Some(BuilderMethod::ToStr);
    }
    if eq_str(n, "length") && eq_str(d, "()I") {
        return Some(BuilderMethod::Length);
    }
    if eq_str(n, "charAt") && eq_str(d, "(I)C") {
        return Some(BuilderMethod::CharAt);
    }
    if eq_str(n, "setLength") && eq_str(d, "(I)V") {
        return Some(BuilderMethod::SetLength);
    }
    if eq_str(n, "deleteCharAt") && eq_str(d, "(I)Ljava/lang/StringBuilder;") {
        return Some(BuilderMethod::DeleteCharAt);
    }
    if eq_str(n, "setCharAt") && eq_str(d, "(IC)V") {
        return Some(BuilderMethod::SetCharAt);
    }
    if eq_str(n, "reverse") && eq_str(d, "()Ljava/lang/StringBuilder;") {
        return Some(BuilderMethod::Reverse);
    }
    if eq_str(n, "insert") && eq_str(d, "(ILjava/lang/String;)Ljava/lang/StringBuilder;") {
        return Some(BuilderMethod::Insert);
    }
    proof {
        assert forall|k: BuilderMethod| !builder_matches(k, name@, descriptor@) by {
            match k {
                BuilderMethod::Init => {},
                BuilderMethod::InitString => {},
                BuilderMethod::Append(a) => {},
                BuilderMethod::ToStr => {},
                BuilderMethod::Length => {},
                BuilderMethod::CharAt => {},
                BuilderMethod::SetLength => {},
                BuilderMethod::DeleteCharAt => {},
                BuilderMethod::SetCharAt => {},
                BuilderMethod::Reverse => {},
                BuilderMethod::Insert => {},
            }
        }
    }
    None
}

/// The text `append` adds for its value argument. `args` is the whole
/// argument list of the native call, receiver first, so the value is read at
/// index 1; a caller that holds only the arguments after the receiver would
/// read the same value at index 0.
pub fn format_value_for_append(heap: &Heap, a: AppendArg, args: &[Value]) -> (res: Result<Vec<char>, VmError>)
    requires
        a != AppendArg::Other ==> args@.len() >= 2,
    ensures
        match res {
            Ok(t) => append_text(heap@, a, args@) == Ok::<Seq<char>, VmError>(t@),
            Err(e) => append_text(heap@, a, args@) == Err::<Seq<char>, VmError>(e),
        },
{
    match a {
        AppendArg::Str => str_arg(heap, args, 1),
        AppendArg::Int => Ok(int_to_decimal(args[1].as_int()?)),
        AppendArg::Long => Ok(long_to_decimal(args[1].as_long()?)),
        AppendArg::Char => {
            let v = args[1].as_int()?;
            let u = v as u16 as u32;
            let mut t = Vec::new();
            if u < 0xd800 || u > 0xdfff {
                t.push(char_of_code(u));
            }
            Ok(t)
        },
        AppendArg::Bool => {
            let v = args[1].as_int()?;
            Ok(if v != 0 { lit("true") } else { lit("false") })
        },
        AppendArg::Object => {
            let r = args[1].as_reference()?;
            stringify_heap(heap, r)
        },
        AppendArg::Other => Ok(lit("?")),
    }
}

/// The text of the builder a reference designates: `None` for a cell that
/// is not a builder.
pub fn builder_text(heap: &Heap, r: Reference) -> (res: Result<Option<Vec<char>>, VmError>)
    ensures
        match res {
            Ok(Some(b)) => deref(heap@, r) == Some(Obj::Builder(b@)),
            Ok(None) => deref(heap@, r) is Some && !(deref(heap@, r) matches Some(Obj::Builder(_))),
            Err(e) => deref(heap@, r) is None && e == deref_error(r),
        },
{
    match heap.get(r)? {
        HeapValue::StringBuilder(b) => Ok(Some(crate::helpers::copy_chars(b))),
        _ => Ok(None),
    }
}

/// Stores new text in a builder cell.
fn store_text(heap: &mut Heap, r: Reference, b: Vec<char>)
    requires
        deref(old(heap)@, r) is Some,
    ensures
        final(heap)@ == old(heap)@.update(r->Heap_0 as int, Obj::Builder(b@)),
{
    if let Reference::Heap(i) = r {
        heap.replace(i, HeapValue::StringBuilder(b));
    }
}

/// Appends text to the builder `r` designates and returns the builder
/// (how the floating-point `append` overloads finish, once the caller has
/// formatted the number).
pub fn builder_append_text(heap: &mut Heap, r: Reference, text: &Vec<char>) -> (res: Result<Value, VmError>)
    ensures
        answers(old(heap)@, final(heap)@, on_builder(old(heap)@, r,
            |b: Seq<char>| store(old(heap)@, r, b + text@, Some(Value::Reference(r))),
            give(old(heap)@, Value::Reference(r))), match res {
                Ok(v) => Ok::<Option<Value>, VmError>(Some(v)),
                Err(e) => Err::<Option<Value>, VmError>(e),
            }),
{
    match builder_text(heap, r)? {
        Some(mut b) => {
            append_chars(&mut b, text);
            store_text(heap, r, b);
            Ok(Value::Reference(r))
        },
        None => Ok(Value::Reference(r)),
    }
}

/// `b` cut or padded with NULs to `n` characters.
fn resize_chars(b: &Vec<char>, n: usize) -> (res: Vec<char>)
    ensures
        res@ == resized(b@, n as int),
{
    if n <= b.len() {
        crate::descriptors::sub_chars(b, 0, n)
    } else {
        let mut res = crate::helpers::copy_chars(b);
        while res.len() < n
            invariant
                b@.len() <= res@.len() <= n,
                res@ == b@ + Seq::new((res@.len() - b@.len()) as nat, |i: int| '\0'),
            decreases n - res@.len(),
        {
            res.push('\0');
            assert(res@ =~= b@ + Seq::new((res@.len() - b@.len()) as nat, |i: int| '\0'));
        }
        res
    }
}

/// The characters in reverse order.
fn reversed_chars(b: &Vec<char>) -> (res: Vec<char>)
    ensures
        res@ == b@.reverse(),
{
    let mut res = Vec::new();
    let mut i: usize = b.len();
    while i > 0
        invariant
            i <= b@.len(),
            res@ == b@.subrange(i as int, b@.len() as int).reverse(),
        decreases i,
    {
        i = i - 1;
        res.push(b[i]);
        assert(res@ =~= b@.subrange(i as int, b@.len() as int).reverse());
    }
    assert(b@.subrange(0, b@.len() as int) =~= b@);
    res
}

/// `b` with `s` inserted at position `at`.
fn inserted_chars(b: &Vec<char>, at: usize, s: &Vec<char>) -> (res: Vec<char>)
    requires
        at <= b@.len(),
    ensures
        res@ == b@.subrange(0, at as int) + s@ + b@.subrange(at as int, b@.len() as int),
{
    let mut res = crate::descriptors::sub_chars(b, 0, at);
    append_chars(&mut res, s);
    let rest = crate::descriptors::sub_chars(b, at, b.len());
    append_chars(&mut res, &rest);
    res
}

/// `b` without the character at `at`.
fn removed_char(b: &Vec<char>, at: usize) -> (res: Vec<char>)
    requires
        at < b@.len(),
    ensures
        res@ == b@.remove(at as int),
{
    let n = b.len();
    let mut res = crate::descriptors::sub_chars(b, 0, at);
    let rest = crate::descriptors::sub_chars(b, at + 1, n);
    append_chars(&mut res, &rest);
    assert(res@ =~= b@.remove(at as int));
    res
}

/// Runs a `java.lang.StringBuilder` native.
pub fn invoke_builder(heap: &mut Heap, k: BuilderMethod, args: &[Value]) -> (res: Result<Option<Value>, VmError>)
    requires
        args@.len() >= builder_arity(k),
    ensures
        answers(old(heap)@, final(heap)@, builder_spec(old(heap)@, k, args@), res),
{
    match k {
        BuilderMethod::Init => {
            let r = args[0].as_reference()?;
            let empty: Vec<char> = Vec::new();
            assert(empty@ =~= seq![]);
            set_cell_at(heap, r, HeapValue::StringBuilder(empty))?;
            Ok(None)
        },
        BuilderMethod::InitString => {
            let r = args[0].as_reference()?;
            let s = str_arg(heap, args, 1)?;
            set_cell_at(heap, r, HeapValue::StringBuilder(s))?;
            Ok(None)
        },
        BuilderMethod::Append(a) => {
            let r = args[0].as_reference()?;
            let t = format_value_for_append(heap, a, args)?;
            let v = builder_append_text(heap, r, &t)?;
            Ok(Some(v))
        },
        BuilderMethod::ToStr => {
            let r = args[0].as_reference()?;
            let b = match builder_text(heap, r)? {
                Some(b) => b,
                None => {
                    let empty: Vec<char> = Vec::new();
                    assert(empty@ =~= seq![]);
                    empty
                },
            };
            Ok(Some(heap.new_string(b)))
        },
        BuilderMethod::Length => {
            let r = args[0].as_reference()?;
            let n: i32 = match builder_text(heap, r)? {
                Some(b) => b.len() as i32,
                None => 0,
            };
            Ok(Some(Value::Int(n)))
        },
        BuilderMethod::CharAt => {
            let r = args[0].as_reference()?;
            let i = args[1].as_int()?;
            match builder_text(heap, r)? {
                Some(b) => {
                    if 0 <= i && (i as usize) < b.len() {
                        Ok(Some(Value::Int(b[i as usize] as i32)))
                    } else {
                        Err(exception("java/lang/StringIndexOutOfBoundsException"))
                    }
                },
                None => Ok(Some(Value::Int(0))),
            }
        },
        BuilderMethod::SetLength => {
            let r = args[0].as_reference()?;
            let n = args[1].as_int()?;
            if n < 0 {
                return Err(exception("java/lang/StringIndexOutOfBoundsException"));
            }
            match builder_text(heap, r)? {
                Some(b) => {
                    let nb = resize_chars(&b, n as usize);
                    store_text(heap, r, nb);
                    Ok(None)
                },
                None => Ok(None),
            }
        },
        BuilderMethod::DeleteCharAt => {
            let r = args[0].as_reference()?;
            let i = args[1].as_int()?;
            match builder_text(heap, r)? {
                Some(b) => {
                    if i < 0 || (i as usize) >= b.len() {
                        return Err(exception("java/lang/StringIndexOutOfBoundsException"));
                    }
                    let nb = removed_char(&b, i as usize);
                    store_text(heap, r, nb);
                    Ok(Some(Value::Reference(r)))
                },
                None => Ok(Some(Value::Reference(r))),
            }
        },
        BuilderMethod::SetCharAt => {
            let r = args[0].as_reference()?;
            let i = args[1].as_int()?;
            let u = args[2].as_int()?;
            let c = char_of_code(u as u32);
            match builder_text(heap, r)? {
                Some(b) => {
                    if i < 0 || (i as usize) >= b.len() {
                        return Err(exception("java/lang/StringIndexOutOfBoundsException"));
                    }
                    let mut nb = b;
                    nb.set(i as usize, c);
                    store_text(heap, r, nb);
                    Ok(None)
                },
                None => Ok(None),
            }
        },
        BuilderMethod::Reverse => {
            let r = args[0].as_reference()?;
            match builder_text(heap, r)? {
                Some(b) => {
                    let nb = reversed_chars(&b);
                    store_text(heap, r, nb);
                    Ok(Some(Value::Reference(r)))
                },
                None => Ok(Some(Value::Reference(r))),
            }
        },
        BuilderMethod::Insert => {
            let r = args[0].as_reference()?;
            let i = args[1].as_int()?;
            let s = str_arg(heap, args, 2)?;
            match builder_text(heap, r)? {
                Some(b) => {
                    let n = b.len() as i32;
                    if i < 0 || i > n {
                        return Err(exception("java/lang/StringIndexOutOfBoundsException"));
                    }
                    proof {
                        crate::lang_string::lemma_len_as_i32(b.len());
                    }
                    let nb = inserted_chars(&b, i as usize, &s);
                    store_text(heap, r, nb);
                    Ok(Some(Value::Reference(r)))
                },
                None => Ok(Some(Value::Reference(r))),
            }
        },
    }
}

} // verus!
