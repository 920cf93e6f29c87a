//! The `java.lang.Class` natives that read a class object's name, and the
//! fixed answers of `java.lang.Runtime`'s memory queries.

use vstd::prelude::*;
use crate::chars::eq_str;
use crate::heap::Heap;
use crate::helpers::{class_internal, class_internal_name, dotted, dotted_name};
use crate::model::{Obj, Reference, Value, VmError};
use crate::native::{answers, fail, give, give_bool, give_int, give_str, on_ref, NativeResult};

verus! {

/// The `Class` and `Runtime` natives implemented here.
#[derive(Clone, Copy, PartialEq, Eq, Structural, Debug)]
pub enum ClassMethod {
    DesiredAssertionStatus,
    IsArray,
    IsPrimitive,
    IsInterface,
    GetName,
    ToStr,
    GetSimpleName,
    /// `Runtime.freeMemory`, `totalMemory` and `maxMemory`.
    Memory,
}

/// The class, name and descriptor of a native (`Memory` stands for three).
pub open spec fn class_method_matches(k: ClassMethod, c: Seq<char>, n: Seq<char>, d: Seq<char>) -> bool {
    let cls = "java/lang/Class"@;
    match k {
        ClassMethod::DesiredAssertionStatus => (c, n, d) == (cls, "desiredAssertionStatus"@, "()Z"@),
        ClassMethod::IsArray => (c, n, d) == (cls, "isArray"@, "()Z"@),
        ClassMethod::IsPrimitive => (c, n, d) == (cls, "isPrimitive"@, "()Z"@),
        ClassMethod::IsInterface => (c, n, d) == (cls, "isInterface"@, "()Z"@),
        ClassMethod::GetName => (c, n, d) == (cls, "getName"@, "()Ljava/lang/String;"@),
        ClassMethod::ToStr => (c, n, d) == (cls, "toString"@, "()Ljava/lang/String;"@),
        ClassMethod::GetSimpleName => (c, n, d) == (cls, "getSimpleName"@, "()Ljava/lang/String;"@),
        ClassMethod::Memory => c == "java/lang/Runtime"@ && d == "()J"@
            && (n == "freeMemory"@ || n == "totalMemory"@ || n == "maxMemory"@),
    }
}

pub open spec fn class_method_arity(k: ClassMethod) -> nat {
    match k {
        ClassMethod::DesiredAssertionStatus | ClassMethod::IsInterface | ClassMethod::Memory => 0,
        _ => 1,
    }
}

/// The names `isPrimitive` recognizes.
pub open spec fn primitive_name(s: Seq<char>) -> bool {
    s == "boolean"@ || s == "byte"@ || s == "char"@ || s == "short"@ || s == "int"@
        || s == "long"@ || s == "float"@ || s == "double"@ || s == "void"@
}

/// The position of the last `c` in `s`, or -1.
pub open spec fn last_index(s: Seq<char>, c: char) -> int
    decreases s.len(),
{
    if s.len() == 0 {
        -1
    } else if s.last() == c {
        s.len() - 1
    } else {
        last_index(s.drop_last(), c)
    }
}

/// What follows the last `c` in `s` (all of `s` when there is none).
pub open spec fn after_last(s: Seq<char>, c: char) -> Seq<char> {
    s.subrange(last_index(s, c) + 1, s.len() as int)
}

/// `getSimpleName`: the name after the last `/`, then after the last `$`.
pub open spec fn simple_name(internal: Seq<char>) -> Seq<char> {
    after_last(after_last(internal, '/'), '$')
}

/// What a native does.
pub open spec fn class_method_spec(heap: Seq<Obj>, k: ClassMethod, args: Seq<Value>) -> NativeResult {
    match k {
        ClassMethod::DesiredAssertionStatus | ClassMethod::IsInterface => give_int(heap, 0),
        ClassMethod::Memory => give(heap, Value::Long(268435456i64)),
        _ => on_ref(args, 0, |r: Reference| match class_internal(heap, r) {
            Err(e) => fail(e),
            Ok(name) => match k {
                ClassMethod::IsArray => give_bool(heap, name.len() > 0 && name[0] == '['),
                ClassMethod::IsPrimitive => give_bool(heap, primitive_name(name)),
                ClassMethod::GetSimpleName => give_str(heap, simple_name(name)),
                _ => give_str(heap, dotted(name)),
            },
        }),
    }
}

/// The native a call selects, if it is one of those implemented here.
pub fn class_method(c: &[char], n: &[char], d: &[char]) -> (res: Option<ClassMethod>)
    ensures
        match res {
            Some(k) => class_method_matches(k, c@, n@, d@),
            None => forall|k: ClassMethod| !class_method_matches(k, c@, n@, d@),
        },
{
    if eq_str(c, "java/lang/Runtime") {
        if eq_str(d, "()J") && (eq_str(n, "freeMemory") || eq_str(n, "totalMemory") || eq_str(n, "maxMemory")) {
            return Some(ClassMethod::Memory);
        }
    }
    if eq_str(c, "java/lang/Class") {
        if eq_str(n, "desiredAssertionStatus") && eq_str(d, "()Z") {
            return Some(ClassMethod::DesiredAssertionStatus);
        }
        if eq_str(n, "isArray") && eq_str(d, "()Z") {
            return Some(ClassMethod::IsArray);
        }
        if eq_str(n, "isPrimitive") && eq_str(d, "()Z") {
            return Some(ClassMethod::IsPrimitive);
        }
        if eq_str(n, "isInterface") && eq_str(d, "()Z") {
            return Some(ClassMethod::IsInterface);
        }
        if eq_str(n, "getName") && eq_str(d, "()Ljava/lang/String;") {
            return Some(ClassMethod::GetName);
        }
        if eq_str(n, "toString") && eq_str(d, "()Ljava/lang/String;") {
            return Some(ClassMethod::ToStr);
        }
        if eq_str(n, "getSimpleName") && eq_str(d, "()Ljava/lang/String;") {
            return Some(ClassMethod::GetSimpleName);
        }
    }
    proof {
        assert forall|k: ClassMethod| !class_method_matches(k, c@, n@, d@) by {
            match k {
                ClassMethod::DesiredAssertionStatus => {},
                ClassMethod::IsArray => {},
                ClassMethod::IsPrimitive => {},
                ClassMethod::IsInterface => {},
                ClassMethod::GetName => {},
                ClassMethod::ToStr => {},
                ClassMethod::GetSimpleName => {},
                ClassMethod::Memory => {},
            }
        }
    }
    None
}

/// The position of the last `c` in `s`.
fn last_position(s: &Vec<char>, c: char) -> (res: Option<usize>)
    ensures
        match res {
            Some(i) => i < s@.len() && i as int == last_index(s@, c),
            None => last_index(s@, c) == -1,
        },
{
    let mut k: usize = s.len();
    assert(s@.subrange(0, k as int) =~= s@);
    while k > 0
        invariant
            k <= s@.len(),
            last_index(s@, c) == last_index(s@.subrange(0, k as int), c),
        decreases k,
    {
        let ghost prefix = s@.subrange(0, k as int);
        assert(prefix.drop_last() =~= s@.subrange(0, k - 1));
        if s[k - 1] == c {
            return Some(k - 1);
        }
        k = k - 1;
    }
    assert(s@.subrange(0, 0) =~= Seq::<char>::empty());
    None
}

/// What follows the last `c` in `s`.
fn after_last_of(s: &Vec<char>, c: char) -> (res: Vec<char>)
    ensures
        res@ == after_last(s@, c),
{
    let n = s.len();
    let start = match last_position(s, c) {
        Some(i) => {
            assert(i < n);
            i + 1
        },
        None => 0,
    };
    let mut res = Vec::new();
    let mut i = start;
    while i < s.len()
        invariant
            start <= i <= s@.len(),
            start as int == last_index(s@, c) + 1,
            res@ == s@.subrange(start as int, i as int),
        decreases s@.len() - i,
    {
        res.push(s[i]);
        i = i + 1;
        assert(res@ =~= s@.subrange(start as int, i as int));
    }
    res
}

/// Whether a name is one `isPrimitive` recognizes.
fn is_primitive_name(s: &Vec<char>) -> (res: bool)
    ensures
        res == primitive_name(s@),
{
    let t = s.as_slice();
    eq_str(t, "boolean") || eq_str(t, "byte") || eq_str(t, "char") || eq_str(t, "short")
        || eq_str(t, "int") || eq_str(t, "long") || eq_str(t, "float") || eq_str(t, "double")
        || eq_str(t, "void")
}

pub fn class_method_arg_count(k: ClassMethod) -> (n: usize)
    ensures
        n == class_method_arity(k),
{
    match k {
        ClassMethod::DesiredAssertionStatus | ClassMethod::IsInterface | ClassMethod::Memory => 0,
        _ => 1,
    }
}

/// Runs a `Class` or `Runtime` native.
pub fn invoke_class(heap: &mut Heap, k: ClassMethod, args: &[Value]) -> (res: Result<Option<Value>, VmError>)
    requires
        args@.len() >= class_method_arity(k),
    ensures
        answers(old(heap)@, final(heap)@, class_method_spec(old(heap)@, k, args@), res),
{
    match k {
        ClassMethod::DesiredAssertionStatus | ClassMethod::IsInterface => Ok(Some(Value::Int(0))),
        ClassMethod::Memory => Ok(Some(Value::Long(256 * 1024 * 1024))),
        _ => {
            let r = args[0].as_reference()?;
            let name = class_internal_name(heap, r)?;
            match k {
                ClassMethod::IsArray => Ok(Some(Value::Int(if name.len() > 0 && name[0] == '[' { 1 } else { 0 }))),
                ClassMethod::IsPrimitive => Ok(Some(Value::Int(if is_primitive_name(&name) { 1 } else { 0 }))),
                ClassMethod::GetSimpleName => {
                    let tail = after_last_of(&name, '/');
                    Ok(Some(heap.new_string(after_last_of(&tail, '$'))))
                },
                _ => Ok(Some(heap.new_string(dotted_name(&name)))),
            }
        },
    }
}

} // verus!
