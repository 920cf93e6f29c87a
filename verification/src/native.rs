//! Shared vocabulary for the contracts of native methods: what a native
//! call returns and leaves on the heap, and how it reads its arguments.

use vstd::prelude::*;
use crate::heap::{deref, deref_error, Heap};
use crate::helpers::{string_value, stringify_reference};
use crate::model::{
    fails_with, int_arg, long_arg, ref_arg, Fault, HeapValue, Obj, Reference, Value, VmError,
};

verus! {

/// What a native call gives, as contracts state it: the returned value (if
/// any) and the heap afterwards, or how it fails.
pub type NativeResult = Result<(Option<Value>, Seq<Obj>), Fault>;

/// Returns `v`, leaving the heap as it is.
pub open spec fn done(heap: Seq<Obj>, v: Option<Value>) -> NativeResult {
    Ok((v, heap))
}

/// Returns the value `v`.
pub open spec fn give(heap: Seq<Obj>, v: Value) -> NativeResult {
    done(heap, Some(v))
}

/// Returns the `int` `i`.
pub open spec fn give_int(heap: Seq<Obj>, i: i32) -> NativeResult {
    give(heap, Value::Int(i))
}

/// Returns a Java `boolean` (1 or 0).
pub open spec fn give_bool(heap: Seq<Obj>, b: bool) -> NativeResult {
    give_int(heap, if b { 1i32 } else { 0i32 })
}

/// The reference the next allocation receives.
pub open spec fn next_ref(heap: Seq<Obj>) -> Reference {
    Reference::Heap(heap.len() as usize)
}

/// Allocates a new cell and returns a reference to it.
pub open spec fn give_new(heap: Seq<Obj>, o: Obj) -> NativeResult {
    Ok((Some(Value::Reference(next_ref(heap))), heap.push(o)))
}

/// Allocates a new string and returns it.
pub open spec fn give_str(heap: Seq<Obj>, s: Seq<char>) -> NativeResult {
    give_new(heap, Obj::Str(s))
}

/// Fails with a VM error.
pub open spec fn fail(e: VmError) -> NativeResult {
    Err(Fault::Error(e))
}

/// Throws a Java exception of the named class.
pub open spec fn throw(class_name: Seq<char>) -> NativeResult {
    Err(Fault::Exception(class_name))
}

/// Replaces the cell a reference designates (a constructor filling in its
/// receiver); fails when there is none.
pub open spec fn set_cell(heap: Seq<Obj>, r: Reference, o: Obj, ret: Option<Value>) -> NativeResult {
    match deref(heap, r) {
        None => fail(deref_error(r)),
        Some(_) => Ok((ret, heap.update(r->Heap_0 as int, o))),
    }
}

/// The text of the string that argument `i` refers to.
pub open spec fn str_at(heap: Seq<Obj>, args: Seq<Value>, i: int) -> Result<Seq<char>, VmError> {
    match ref_arg(args, i) {
        Ok(r) => string_value(heap, r),
        Err(e) => Err(e),
    }
}

/// Continues with argument `i` as an `int`.
pub open spec fn on_int(args: Seq<Value>, i: int, f: spec_fn(i32) -> NativeResult) -> NativeResult {
    match int_arg(args, i) {
        Ok(x) => f(x),
        Err(e) => fail(e),
    }
}

/// Continues with argument `i` as a `long`.
pub open spec fn on_long(args: Seq<Value>, i: int, f: spec_fn(i64) -> NativeResult) -> NativeResult {
    match long_arg(args, i) {
        Ok(x) => f(x),
        Err(e) => fail(e),
    }
}

/// Continues with argument `i` as a reference.
pub open spec fn on_ref(args: Seq<Value>, i: int, f: spec_fn(Reference) -> NativeResult) -> NativeResult {
    match ref_arg(args, i) {
        Ok(x) => f(x),
        Err(e) => fail(e),
    }
}

/// Continues with the text of the string argument `i` refers to.
pub open spec fn on_str(
    heap: Seq<Obj>,
    args: Seq<Value>,
    i: int,
    f: spec_fn(Seq<char>) -> NativeResult,
) -> NativeResult {
    match str_at(heap, args, i) {
        Ok(s) => f(s),
        Err(e) => fail(e),
    }
}

/// Whether a native call's outcome is the specified one: `h0` is the heap
/// before the call and `h1` after it; a failure leaves the heap unchanged.
pub open spec fn answers(
    h0: Seq<Obj>,
    h1: Seq<Obj>,
    expected: NativeResult,
    res: Result<Option<Value>, VmError>,
) -> bool {
    match res {
        Ok(v) => expected == Ok::<(Option<Value>, Seq<Obj>), Fault>((v, h1)),
        Err(e) => fails_with(expected, e) && h1 == h0,
    }
}

/// A boxed primitive of the given class holding `v` in its `value` field.
pub open spec fn box_of(class_name: Seq<char>, v: Value) -> Obj {
    Obj::Object { class_name, fields: seq![("value"@, v)] }
}

/// The first field of an object (what `intValue`, `longValue` and
/// `booleanValue` read), `default` when the object has no field or the
/// cell is not an object.
pub open spec fn first_field(heap: Seq<Obj>, r: Reference, default: Value) -> NativeResult {
    match deref(heap, r) {
        None => fail(deref_error(r)),
        Some(Obj::Object { fields, .. }) => give(heap, if fields.len() > 0 { fields[0].1 } else { default }),
        Some(_) => give(heap, default),
    }
}

/// Sets the first field of an object (a box constructor); other cells, and
/// references to no cell, are left alone.
pub open spec fn set_first_field(heap: Seq<Obj>, r: Reference, v: Value) -> NativeResult {
    match deref(heap, r) {
        Some(Obj::Object { class_name, fields }) => done(
            heap.update(r->Heap_0 as int, Obj::Object { class_name, fields: fields.update(0, (fields[0].0, v)) }),
            None,
        ),
        _ => done(heap, None),
    }
}

/// Whether a box constructor can run: an object receiver has a field to set.
pub open spec fn has_first_field(heap: Seq<Obj>, r: Reference) -> bool {
    deref(heap, r) matches Some(Obj::Object { fields, .. }) ==> fields.len() > 0
}

/// -1, 0 or 1 by the sign of `x`.
pub open spec fn sign(x: int) -> i32 {
    if x < 0 {
        -1i32
    } else if x == 0 {
        0i32
    } else {
        1i32
    }
}

/// Reads the first field of an object.
pub fn read_first_field(heap: &Heap, r: Reference, default: Value) -> (res: Result<Option<Value>, VmError>)
    ensures
        answers(heap@, heap@, first_field(heap@, r, default), res),
{
    match heap.get(r)? {
        HeapValue::Object { fields, .. } => {
            if fields.len() > 0 {
                Ok(Some(fields[0].value))
            } else {
                Ok(Some(default))
            }
        },
        _ => Ok(Some(default)),
    }
}

/// Sets the first field of an object.
pub fn write_first_field(heap: &mut Heap, r: Reference, v: Value) -> (res: Result<Option<Value>, VmError>)
    requires
        has_first_field(old(heap)@, r),
    ensures
        answers(old(heap)@, final(heap)@, set_first_field(old(heap)@, r, v), res),
{
    if let Reference::Heap(i) = r {
        if i < heap.values.len() {
            let ghost before = heap@;
            if let HeapValue::Object { fields, .. } = &mut heap.values[i] {
                let ghost fv = crate::model::fields_view(fields@);
                let name = crate::helpers::copy_chars(&fields[0].name);
                fields.set(0, crate::model::Field { name, value: v });
                proof {
                    assert(crate::model::fields_view(fields@) =~= fv.update(0, (fv[0].0, v)));
                }
            }
            assert(heap@ =~= match deref(before, r) {
                Some(Obj::Object { class_name, fields }) => before.update(
                    i as int, Obj::Object { class_name, fields: fields.update(0, (fields[0].0, v)) }),
                _ => before,
            });
        }
    }
    Ok(None)
}

/// -1, 0 or 1 as `a` is below, equal to or above `b`.
pub fn sign_of_difference(a: i64, b: i64) -> (res: i32)
    ensures
        res == sign(a - b),
{
    if a < b {
        -1
    } else if a == b {
        0
    } else {
        1
    }
}

/// Reads the string argument `i`.
pub fn str_arg(heap: &Heap, args: &[Value], i: usize) -> (res: Result<Vec<char>, VmError>)
    requires
        i < args@.len(),
    ensures
        match res {
            Ok(s) => str_at(heap@, args@, i as int) == Ok::<Seq<char>, VmError>(s@),
            Err(e) => str_at(heap@, args@, i as int) == Err::<Seq<char>, VmError>(e),
        },
{
    let r = args[i].as_reference()?;
    stringify_reference(heap, r)
}

/// Replaces the cell a reference designates.
pub fn set_cell_at(heap: &mut Heap, r: Reference, v: crate::model::HeapValue) -> (res: Result<(), VmError>)
    ensures
        match res {
            Ok(_) => deref(old(heap)@, r) is Some && final(heap)@ == old(heap)@.update(r->Heap_0 as int, v@),
            Err(e) => deref(old(heap)@, r) is None && e == deref_error(r) && final(heap)@ == old(heap)@,
        },
{
    match r {
        Reference::Null => Err(VmError::NullReference),
        Reference::Heap(i) => {
            if i < heap.values.len() {
                heap.replace(i, v);
                Ok(())
            } else {
                Err(VmError::InvalidReference)
            }
        },
    }
}

} // verus!
