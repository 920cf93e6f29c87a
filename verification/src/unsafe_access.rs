//! `jdk.internal.misc.Unsafe` field and array access: plain reads and
//! writes, compare-and-set, get-and-add and get-and-set on an instance
//! field (addressed by its position) or an array element.

use vstd::prelude::*;
use crate::chars::lit;
use crate::heap::{deref, Heap};
use crate::helpers::append_chars;
use crate::model::{
    int_arg, long_arg, ref_arg, exception, fails_with, fields_view, obj_kind, Expected, Fault, Field, HeapValue, Obj, Reference,
    Value, VmError,
};
use crate::numfmt::{decimal, long_to_decimal};

verus! {

/// The storage an `Unsafe` access addresses.
pub enum Slot {
    /// Field number `index` of the object in heap cell `cell`.
    Field { cell: nat, index: nat },
    IntElem { cell: nat, index: nat },
    LongElem { cell: nat, index: nat },
    RefElem { cell: nat, index: nat },
}

/// Resolves `(target, offset)` to a slot, or how the access fails: a `null`
/// target, an offset past the fields or elements, or a cell that is neither
/// an object nor an `int[]`, `long[]` or reference array.
pub open spec fn locate(heap: Seq<Obj>, target: Reference, offset: i64) -> Result<Slot, Fault> {
    match target {
        Reference::Null => Err(Fault::Exception("java/lang/NullPointerException"@)),
        Reference::Heap(c) => match deref(heap, target) {
            None => Err(Fault::Error(VmError::InvalidReference)),
            Some(o) => {
                let len = match o {
                    Obj::Object { fields, .. } => fields.len() as int,
                    Obj::IntArray(v) => v.len() as int,
                    Obj::LongArray(v) => v.len() as int,
                    Obj::RefArray { values, .. } => values.len() as int,
                    _ => 0,
                };
                let in_range = 0 <= offset < len;
                match o {
                    Obj::Object { .. } => if in_range {
                        Ok(Slot::Field { cell: c as nat, index: offset as nat })
                    } else {
                        Err(Fault::FieldMissing(Seq::empty(), "offset "@.add(decimal(offset as int))))
                    },
                    Obj::IntArray(_) | Obj::LongArray(_) | Obj::RefArray { .. } => if in_range {
                        match o {
                            Obj::IntArray(_) => Ok(Slot::IntElem { cell: c as nat, index: offset as nat }),
                            Obj::LongArray(_) => Ok(Slot::LongElem { cell: c as nat, index: offset as nat }),
                            _ => Ok(Slot::RefElem { cell: c as nat, index: offset as nat }),
                        }
                    } else {
                        Err(Fault::Error(VmError::ArrayIndexOutOfBounds { index: offset as i32, len: len as usize }))
                    },
                    _ => Err(
                        Fault::Error(
                            VmError::InvalidHeapValue {
                                expected: Expected::ObjectOrArray,
                                actual: obj_kind(o),
                            },
                        ),
                    ),
                }
            },
        },
    }
}

/// The access width of an `Unsafe` method.
#[derive(Clone, Copy, PartialEq, Eq, Structural, Debug)]
pub enum Width {
    Int,
    Long,
    Ref,
}

/// The zero of a width: `0`, `0L` or `null`.
pub open spec fn zero(w: Width) -> Value {
    match w {
        Width::Int => Value::Int(0),
        Width::Long => Value::Long(0),
        Width::Ref => Value::Reference(Reference::Null),
    }
}

/// A value read as the given width; a field holding another kind reads as zero.
pub open spec fn as_width(v: Value, w: Width) -> Value {
    match (w, v) {
        (Width::Int, Value::Int(_)) => v,
        (Width::Long, Value::Long(_)) => v,
        (Width::Ref, Value::Reference(_)) => v,
        _ => zero(w),
    }
}

/// The current value of a slot at a width; `None` when an array's element
/// type is not that width (the access then does nothing).
pub open spec fn slot_value(heap: Seq<Obj>, s: Slot, w: Width) -> Option<Value> {
    match s {
        Slot::Field { cell, index } => match heap[cell as int] {
            Obj::Object { fields, .. } => Some(as_width(fields[index as int].1, w)),
            _ => None,
        },
        Slot::IntElem { cell, index } => match (w, heap[cell as int]) {
            (Width::Int, Obj::IntArray(v)) => Some(Value::Int(v[index as int])),
            _ => None,
        },
        Slot::LongElem { cell, index } => match (w, heap[cell as int]) {
            (Width::Long, Obj::LongArray(v)) => Some(Value::Long(v[index as int])),
            _ => None,
        },
        Slot::RefElem { cell, index } => match (w, heap[cell as int]) {
            (Width::Ref, Obj::RefArray { values, .. }) => Some(Value::Reference(values[index as int])),
            _ => None,
        },
    }
}

/// The heap after storing `v` (of the slot's width) into a slot.
pub open spec fn slot_store(heap: Seq<Obj>, s: Slot, v: Value) -> Seq<Obj> {
    match s {
        Slot::Field { cell, index } => match heap[cell as int] {
            Obj::Object { class_name, fields } => heap.update(
                cell as int,
                Obj::Object { class_name, fields: fields.update(index as int, (fields[index as int].0, v)) },
            ),
            _ => heap,
        },
        Slot::IntElem { cell, index } => match (heap[cell as int], v) {
            (Obj::IntArray(a), Value::Int(x)) => heap.update(cell as int, Obj::IntArray(a.update(index as int, x))),
            _ => heap,
        },
        Slot::LongElem { cell, index } => match (heap[cell as int], v) {
            (Obj::LongArray(a), Value::Long(x)) => heap.update(cell as int, Obj::LongArray(a.update(index as int, x))),
            _ => heap,
        },
        Slot::RefElem { cell, index } => match (heap[cell as int], v) {
            (Obj::RefArray { component_type, values }, Value::Reference(x)) => heap.update(
                cell as int,
                Obj::RefArray { component_type, values: values.update(index as int, x) },
            ),
            _ => heap,
        },
    }
}

/// An `Unsafe` operation on one slot.
#[derive(Clone, Copy, PartialEq, Eq, Structural, Debug)]
pub enum SlotOp {
    Get,
    Put(Value),
    CompareAndSet(Value, Value),
    GetAndAdd(Value),
    GetAndSet(Value),
}

/// `a + b` with wrap-around, for two values of the same width.
pub open spec fn wrapping_sum(a: Value, b: Value) -> Value {
    match (a, b) {
        (Value::Int(x), Value::Int(y)) => Value::Int(x.wrapping_add(y)),
        (Value::Long(x), Value::Long(y)) => Value::Long(x.wrapping_add(y)),
        _ => a,
    }
}

/// The result and the heap after an operation on a located slot.
/// `Get` yields the value; `CompareAndSet` yields `1` or `0` as an `int`
/// and stores only when the current value equals the expected one;
/// `GetAndAdd`/`GetAndSet` yield the previous value.
pub open spec fn slot_apply(heap: Seq<Obj>, s: Slot, w: Width, op: SlotOp) -> (Value, Seq<Obj>) {
    match slot_value(heap, s, w) {
        None => (
            match op {
                SlotOp::CompareAndSet(_, _) => Value::Int(0),
                _ => zero(w),
            },
            heap,
        ),
        Some(cur) => match op {
            SlotOp::Get => (cur, heap),
            SlotOp::Put(v) => (zero(w), slot_store(heap, s, v)),
            SlotOp::CompareAndSet(expected, v) => if cur == expected {
                (Value::Int(1), slot_store(heap, s, v))
            } else {
                (Value::Int(0), heap)
            },
            SlotOp::GetAndAdd(d) => (cur, slot_store(heap, s, wrapping_sum(cur, d))),
            SlotOp::GetAndSet(v) => (cur, slot_store(heap, s, v)),
        },
    }
}

/// An operation whose values all have the given width.
pub open spec fn op_has_width(op: SlotOp, w: Width) -> bool {
    let fits = |v: Value| as_width(v, w) == v;
    match op {
        SlotOp::Get => true,
        SlotOp::Put(v) => fits(v),
        SlotOp::CompareAndSet(e, v) => fits(e) && fits(v),
        SlotOp::GetAndAdd(d) => fits(d) && !(w is Ref),
        SlotOp::GetAndSet(v) => fits(v),
    }
}

/// The whole access: locate the slot, then apply the operation.
pub open spec fn unsafe_access(heap: Seq<Obj>, target: Reference, offset: i64, w: Width, op: SlotOp) -> Result<(Value, Seq<Obj>), Fault> {
    match locate(heap, target, offset) {
        Err(f) => Err(f),
        Ok(s) => Ok(slot_apply(heap, s, w, op)),
    }
}

/// Reads a value at a width, zero for other kinds.
fn read_width(v: Value, w: Width) -> (r: Value)
    ensures
        r == as_width(v, w),
{
    match (w, v) {
        (Width::Int, Value::Int(_)) => v,
        (Width::Long, Value::Long(_)) => v,
        (Width::Ref, Value::Reference(_)) => v,
        (Width::Int, _) => Value::Int(0),
        (Width::Long, _) => Value::Long(0),
        (Width::Ref, _) => Value::Reference(Reference::Null),
    }
}

fn zero_of(w: Width) -> (r: Value)
    ensures
        r == zero(w),
{
    match w {
        Width::Int => Value::Int(0),
        Width::Long => Value::Long(0),
        Width::Ref => Value::Reference(Reference::Null),
    }
}

/// The new value and the result of an operation given the current value.
fn apply_to(cur: Value, w: Width, op: SlotOp) -> (r: (Value, Option<Value>))
    requires
        op_has_width(op, w),
    ensures
        r.0 == match op {
            SlotOp::Get => cur,
            SlotOp::Put(_) => zero(w),
            SlotOp::CompareAndSet(e, _) => if cur == e { Value::Int(1) } else { Value::Int(0) },
            _ => cur,
        },
        r.1 == match op {
            SlotOp::Get => None,
            SlotOp::Put(v) => Some(v),
            SlotOp::CompareAndSet(e, v) => if cur == e { Some(v) } else { None },
            SlotOp::GetAndAdd(d) => Some(wrapping_sum(cur, d)),
            SlotOp::GetAndSet(v) => Some(v),
        },
{
    match op {
        SlotOp::Get => (cur, None),
        SlotOp::Put(v) => (zero_of(w), Some(v)),
        SlotOp::CompareAndSet(e, v) => if cur == e {
            (Value::Int(1), Some(v))
        } else {
            (Value::Int(0), None)
        },
        SlotOp::GetAndAdd(d) => {
            let sum = match (cur, d) {
                (Value::Int(x), Value::Int(y)) => Value::Int(x.wrapping_add(y)),
                (Value::Long(x), Value::Long(y)) => Value::Long(x.wrapping_add(y)),
                _ => cur,
            };
            (cur, Some(sum))
        },
        SlotOp::GetAndSet(v) => (cur, Some(v)),
    }
}

/// Performs an `Unsafe` operation on the slot `(target, offset)`.
pub fn with_target_slot(heap: &mut Heap, target: Reference, offset: i64, w: Width, op: SlotOp) -> (res: Result<Value, VmError>)
    requires
        op_has_width(op, w),
    ensures
        match res {
            Ok(v) => unsafe_access(old(heap)@, target, offset, w, op) == Ok::<(Value, Seq<Obj>), Fault>((v, final(heap)@)),
            Err(e) => fails_with(unsafe_access(old(heap)@, target, offset, w, op), e) && final(heap)@ == old(heap)@,
        },
{
    let c = match target {
        Reference::Null => {
            return Err(exception("java/lang/NullPointerException"));
        },
        Reference::Heap(c) => c,
    };
    if c >= heap.values.len() {
        return Err(VmError::InvalidReference);
    }
    let ghost h0 = heap@;
    let mut cell = HeapValue::IntArray { values: Vec::new() };
    heap.values.set_and_swap(c, &mut cell);
    assert(cell@ == h0[c as int]);
    let (mut cell, res): (HeapValue, Result<Value, VmError>) = match cell {
        HeapValue::Object { class_name, mut fields } => {
            if offset < 0 || offset as u64 >= fields.len() as u64 {
                let mut name = lit("offset ");
                let digits = long_to_decimal(offset);
                append_chars(&mut name, &digits);
                (
                    HeapValue::Object { class_name, fields },
                    Err(VmError::FieldNotFound { class_name: Vec::new(), field_name: name }),
                )
            } else {
                let idx = offset as usize;
                let cur = read_width(fields[idx].value, w);
                let (out, store) = apply_to(cur, w, op);
                if let Some(v) = store {
                    let n = copy_name(&fields[idx]);
                    let ghost fv = fields_view(fields@);
                    fields.set(idx, Field { name: n, value: v });
                    assert(fields_view(fields@) =~= fv.update(idx as int, (fv[idx as int].0, v)));
                }
                (HeapValue::Object { class_name, fields }, Ok(out))
            }
        },
        HeapValue::IntArray { mut values } => {
            if offset < 0 || offset as u64 >= values.len() as u64 {
                let len = values.len();
                (HeapValue::IntArray { values }, Err(VmError::ArrayIndexOutOfBounds { index: offset as i32, len }))
            } else {
                let idx = offset as usize;
                let out = match w {
                    Width::Int => {
                        let (out, store) = apply_to(Value::Int(values[idx]), w, op);
                        if let Some(Value::Int(x)) = store {
                            values.set(idx, x);
                        }
                        out
                    },
                    _ => match op {
                        SlotOp::CompareAndSet(_, _) => Value::Int(0),
                        _ => zero_of(w),
                    },
                };
                (HeapValue::IntArray { values }, Ok(out))
            }
        },
        HeapValue::LongArray { mut values } => {
            if offset < 0 || offset as u64 >= values.len() as u64 {
                let len = values.len();
                (HeapValue::LongArray { values }, Err(VmError::ArrayIndexOutOfBounds { index: offset as i32, len }))
            } else {
                let idx = offset as usize;
                let out = match w {
                    Width::Long => {
                        let (out, store) = apply_to(Value::Long(values[idx]), w, op);
                        if let Some(Value::Long(x)) = store {
                            values.set(idx, x);
                        }
                        out
                    },
                    _ => match op {
                        SlotOp::CompareAndSet(_, _) => Value::Int(0),
                        _ => zero_of(w),
                    },
                };
                (HeapValue::LongArray { values }, Ok(out))
            }
        },
        HeapValue::ReferenceArray { component_type, mut values } => {
            if offset < 0 || offset as u64 >= values.len() as u64 {
                let len = values.len();
                (
                    HeapValue::ReferenceArray { component_type, values },
                    Err(VmError::ArrayIndexOutOfBounds { index: offset as i32, len }),
                )
            } else {
                let idx = offset as usize;
                let out = match w {
                    Width::Ref => {
                        let (out, store) = apply_to(Value::Reference(values[idx]), w, op);
                        if let Some(Value::Reference(x)) = store {
                            values.set(idx, x);
                        }
                        out
                    },
                    _ => match op {
                        SlotOp::CompareAndSet(_, _) => Value::Int(0),
                        _ => zero_of(w),
                    },
                };
                (HeapValue::ReferenceArray { component_type, values }, Ok(out))
            }
        },
        other => {
            let k = other.kind_name();
            (other, Err(VmError::InvalidHeapValue { expected: Expected::ObjectOrArray, actual: k }))
        },
    };
    heap.values.set_and_swap(c, &mut cell);
    proof {
        if res is Err {
            assert(heap@ =~= h0);
        } else {
            assert(heap@ =~= slot_apply(h0, locate(h0, target, offset)->Ok_0, w, op).1);
        }
    }
    res
}

/// A copy of a field's name.
fn copy_name(f: &Field) -> (n: Vec<char>)
    ensures
        n@ == f.name@,
{
    crate::helpers::copy_chars(&f.name)
}


/// The `Unsafe` methods handled here; each takes the `Unsafe` receiver,
/// the target object or array and the offset, then its own operands.
#[derive(Clone, Copy, PartialEq, Eq, Structural, Debug)]
pub enum UnsafeMethod {
    CompareAndSetInt,
    CompareAndSetLong,
    CompareAndSetReference,
    GetAndAddInt,
    GetAndAddLong,
    GetAndSetInt,
    GetAndSetLong,
    GetAndSetReference,
    GetInt,
    PutInt,
    GetLong,
    PutLong,
    GetReference,
    PutReference,
}

/// The width a method accesses.
pub open spec fn method_width(m: UnsafeMethod) -> Width {
    match m {
        UnsafeMethod::CompareAndSetInt | UnsafeMethod::GetAndAddInt | UnsafeMethod::GetAndSetInt
        | UnsafeMethod::GetInt | UnsafeMethod::PutInt => Width::Int,
        UnsafeMethod::CompareAndSetLong | UnsafeMethod::GetAndAddLong | UnsafeMethod::GetAndSetLong
        | UnsafeMethod::GetLong | UnsafeMethod::PutLong => Width::Long,
        _ => Width::Ref,
    }
}

/// How many arguments a method reads.
pub open spec fn method_arity(m: UnsafeMethod) -> nat {
    match m {
        UnsafeMethod::CompareAndSetInt | UnsafeMethod::CompareAndSetLong
        | UnsafeMethod::CompareAndSetReference => 5,
        UnsafeMethod::GetInt | UnsafeMethod::GetLong | UnsafeMethod::GetReference => 3,
        _ => 4,
    }
}

/// Argument `i` read at a width.
pub open spec fn width_arg(args: Seq<Value>, i: int, w: Width) -> Result<Value, VmError> {
    match w {
        Width::Int => match int_arg(args, i) { Ok(x) => Ok(Value::Int(x)), Err(e) => Err(e) },
        Width::Long => match long_arg(args, i) { Ok(x) => Ok(Value::Long(x)), Err(e) => Err(e) },
        Width::Ref => match ref_arg(args, i) { Ok(x) => Ok(Value::Reference(x)), Err(e) => Err(e) },
    }
}

/// The target, offset and operation a call decodes to, reading arguments
/// left to right and stopping at the first of the wrong kind.
pub open spec fn decode(args: Seq<Value>, m: UnsafeMethod) -> Result<(Reference, i64, SlotOp), VmError> {
    let w = method_width(m);
    match ref_arg(args, 1) {
        Err(e) => Err(e),
        Ok(t) => match long_arg(args, 2) {
            Err(e) => Err(e),
            Ok(o) => match m {
                UnsafeMethod::GetInt | UnsafeMethod::GetLong | UnsafeMethod::GetReference => Ok((t, o, SlotOp::Get)),
                UnsafeMethod::CompareAndSetInt | UnsafeMethod::CompareAndSetLong | UnsafeMethod::CompareAndSetReference => match width_arg(args, 3, w) {
                    Err(e) => Err(e),
                    Ok(x) => match width_arg(args, 4, w) {
                        Err(e) => Err(e),
                        Ok(y) => Ok((t, o, SlotOp::CompareAndSet(x, y))),
                    },
                },
                _ => match width_arg(args, 3, w) {
                    Err(e) => Err(e),
                    Ok(x) => Ok((t, o, match m {
                        UnsafeMethod::GetAndAddInt | UnsafeMethod::GetAndAddLong => SlotOp::GetAndAdd(x),
                        UnsafeMethod::PutInt | UnsafeMethod::PutLong | UnsafeMethod::PutReference => SlotOp::Put(x),
                        _ => SlotOp::GetAndSet(x),
                    })),
                },
            },
        },
    }
}

/// Whether an `Unsafe` call's outcome is the specified one: the arguments
/// decode to a target, an offset and an operation, which `unsafe_access`
/// applies; a failure leaves the heap unchanged.
pub open spec fn unsafe_answers(
    h0: Seq<Obj>,
    h1: Seq<Obj>,
    m: UnsafeMethod,
    args: Seq<Value>,
    res: Result<Option<Value>, VmError>,
) -> bool {
    match decode(args, m) {
        Err(e) => res == Err::<Option<Value>, VmError>(e) && h1 == h0,
        Ok((t, o, op)) => match res {
            Ok(r) => unsafe_access(h0, t, o, method_width(m), op) matches Ok((v, h))
                && r == method_returns(m, v) && h1 == h,
            Err(e) => fails_with(unsafe_access(h0, t, o, method_width(m), op), e) && h1 == h0,
        },
    }
}

/// The native method's return: nothing for the `put` methods, the
/// operation's result otherwise.
pub open spec fn method_returns(m: UnsafeMethod, v: Value) -> Option<Value> {
    match m {
        UnsafeMethod::PutInt | UnsafeMethod::PutLong | UnsafeMethod::PutReference => None,
        _ => Some(v),
    }
}

fn width_of(m: UnsafeMethod) -> (w: Width)
    ensures
        w == method_width(m),
{
    match m {
        UnsafeMethod::CompareAndSetInt | UnsafeMethod::GetAndAddInt | UnsafeMethod::GetAndSetInt
        | UnsafeMethod::GetInt | UnsafeMethod::PutInt => Width::Int,
        UnsafeMethod::CompareAndSetLong | UnsafeMethod::GetAndAddLong | UnsafeMethod::GetAndSetLong
        | UnsafeMethod::GetLong | UnsafeMethod::PutLong => Width::Long,
        _ => Width::Ref,
    }
}

fn read_arg(args: &[Value], i: usize, w: Width) -> (res: Result<Value, VmError>)
    requires
        i < args@.len(),
    ensures
        res == width_arg(args@, i as int, w),
{
    match w {
        Width::Int => Ok(Value::Int(args[i].as_int()?)),
        Width::Long => Ok(Value::Long(args[i].as_long()?)),
        Width::Ref => Ok(Value::Reference(args[i].as_reference()?)),
    }
}

/// An `Unsafe` field or array access (`compareAndSetInt`, `getAndAddLong`,
/// `putReference`, ...), given the call's arguments.
pub fn unsafe_invoke(heap: &mut Heap, m: UnsafeMethod, args: &[Value]) -> (res: Result<Option<Value>, VmError>)
    requires
        args@.len() >= method_arity(m),
    ensures
        unsafe_answers(old(heap)@, final(heap)@, m, args@, res),
{
    let w = width_of(m);
    let target = args[1].as_reference()?;
    let offset = args[2].as_long()?;
    let op = match m {
        UnsafeMethod::GetInt | UnsafeMethod::GetLong | UnsafeMethod::GetReference => SlotOp::Get,
        UnsafeMethod::CompareAndSetInt | UnsafeMethod::CompareAndSetLong
        | UnsafeMethod::CompareAndSetReference => {
            let x = read_arg(args, 3, w)?;
            let y = read_arg(args, 4, w)?;
            SlotOp::CompareAndSet(x, y)
        },
        UnsafeMethod::GetAndAddInt | UnsafeMethod::GetAndAddLong => SlotOp::GetAndAdd(read_arg(args, 3, w)?),
        UnsafeMethod::PutInt | UnsafeMethod::PutLong | UnsafeMethod::PutReference => SlotOp::Put(read_arg(args, 3, w)?),
        _ => SlotOp::GetAndSet(read_arg(args, 3, w)?),
    };
    let v = with_target_slot(heap, target, offset, w, op)?;
    match m {
        UnsafeMethod::PutInt | UnsafeMethod::PutLong | UnsafeMethod::PutReference => Ok(None),
        _ => Ok(Some(v)),
    }
}

/// `Unsafe.compareAndSetInt`.
pub fn unsafe_cas_int(heap: &mut Heap, args: &[Value]) -> (res: Result<Option<Value>, VmError>)
    requires
        args@.len() >= method_arity(UnsafeMethod::CompareAndSetInt),
    ensures
        unsafe_answers(old(heap)@, final(heap)@, UnsafeMethod::CompareAndSetInt, args@, res),
{
    unsafe_invoke(heap, UnsafeMethod::CompareAndSetInt, args)
}

/// `Unsafe.compareAndSetLong`.
pub fn unsafe_cas_long(heap: &mut Heap, args: &[Value]) -> (res: Result<Option<Value>, VmError>)
    requires
        args@.len() >= method_arity(UnsafeMethod::CompareAndSetLong),
    ensures
        unsafe_answers(old(heap)@, final(heap)@, UnsafeMethod::CompareAndSetLong, args@, res),
{
    unsafe_invoke(heap, UnsafeMethod::CompareAndSetLong, args)
}

/// `Unsafe.compareAndSetReference`.
pub fn unsafe_cas_reference(heap: &mut Heap, args: &[Value]) -> (res: Result<Option<Value>, VmError>)
    requires
        args@.len() >= method_arity(UnsafeMethod::CompareAndSetReference),
    ensures
        unsafe_answers(old(heap)@, final(heap)@, UnsafeMethod::CompareAndSetReference, args@, res),
{
    unsafe_invoke(heap, UnsafeMethod::CompareAndSetReference, args)
}

/// `Unsafe.getAndAddInt`.
pub fn unsafe_get_and_add_int(heap: &mut Heap, args: &[Value]) -> (res: Result<Option<Value>, VmError>)
    requires
        args@.len() >= method_arity(UnsafeMethod::GetAndAddInt),
    ensures
        unsafe_answers(old(heap)@, final(heap)@, UnsafeMethod::GetAndAddInt, args@, res),
{
    unsafe_invoke(heap, UnsafeMethod::GetAndAddInt, args)
}

/// `Unsafe.getAndAddLong`.
pub fn unsafe_get_and_add_long(heap: &mut Heap, args: &[Value]) -> (res: Result<Option<Value>, VmError>)
    requires
        args@.len() >= method_arity(UnsafeMethod::GetAndAddLong),
    ensures
        unsafe_answers(old(heap)@, final(heap)@, UnsafeMethod::GetAndAddLong, args@, res),
{
    unsafe_invoke(heap, UnsafeMethod::GetAndAddLong, args)
}

/// `Unsafe.getAndSetInt`.
pub fn unsafe_get_and_set_int(heap: &mut Heap, args: &[Value]) -> (res: Result<Option<Value>, VmError>)
    requires
        args@.len() >= method_arity(UnsafeMethod::GetAndSetInt),
    ensures
        unsafe_answers(old(heap)@, final(heap)@, UnsafeMethod::GetAndSetInt, args@, res),
{
    unsafe_invoke(heap, UnsafeMethod::GetAndSetInt, args)
}

/// `Unsafe.getAndSetLong`.
pub fn unsafe_get_and_set_long(heap: &mut Heap, args: &[Value]) -> (res: Result<Option<Value>, VmError>)
    requires
        args@.len() >= method_arity(UnsafeMethod::GetAndSetLong),
    ensures
        unsafe_answers(old(heap)@, final(heap)@, UnsafeMethod::GetAndSetLong, args@, res),
{
    unsafe_invoke(heap, UnsafeMethod::GetAndSetLong, args)
}

/// `Unsafe.getAndSetReference`.
pub fn unsafe_get_and_set_reference(heap: &mut Heap, args: &[Value]) -> (res: Result<Option<Value>, VmError>)
    requires
        args@.len() >= method_arity(UnsafeMethod::GetAndSetReference),
    ensures
        unsafe_answers(old(heap)@, final(heap)@, UnsafeMethod::GetAndSetReference, args@, res),
{
    unsafe_invoke(heap, UnsafeMethod::GetAndSetReference, args)
}

/// `Unsafe.getInt`.
pub fn unsafe_get_int(heap: &mut Heap, args: &[Value]) -> (res: Result<Option<Value>, VmError>)
    requires
        args@.len() >= method_arity(UnsafeMethod::GetInt),
    ensures
        unsafe_answers(old(heap)@, final(heap)@, UnsafeMethod::GetInt, args@, res),
{
    unsafe_invoke(heap, UnsafeMethod::GetInt, args)
}

/// `Unsafe.putInt`.
pub fn unsafe_put_int(heap: &mut Heap, args: &[Value]) -> (res: Result<Option<Value>, VmError>)
    requires
        args@.len() >= method_arity(UnsafeMethod::PutInt),
    ensures
        unsafe_answers(old(heap)@, final(heap)@, UnsafeMethod::PutInt, args@, res),
{
    unsafe_invoke(heap, UnsafeMethod::PutInt, args)
}

/// `Unsafe.getLong`.
pub fn unsafe_get_long(heap: &mut Heap, args: &[Value]) -> (res: Result<Option<Value>, VmError>)
    requires
        args@.len() >= method_arity(UnsafeMethod::GetLong),
    ensures
        unsafe_answers(old(heap)@, final(heap)@, UnsafeMethod::GetLong, args@, res),
{
    unsafe_invoke(heap, UnsafeMethod::GetLong, args)
}

/// `Unsafe.putLong`.
pub fn unsafe_put_long(heap: &mut Heap, args: &[Value]) -> (res: Result<Option<Value>, VmError>)
    requires
        args@.len() >= method_arity(UnsafeMethod::PutLong),
    ensures
        unsafe_answers(old(heap)@, final(heap)@, UnsafeMethod::PutLong, args@, res),
{
    unsafe_invoke(heap, UnsafeMethod::PutLong, args)
}

/// `Unsafe.getReference`.
pub fn unsafe_get_reference(heap: &mut Heap, args: &[Value]) -> (res: Result<Option<Value>, VmError>)
    requires
        args@.len() >= method_arity(UnsafeMethod::GetReference),
    ensures
        unsafe_answers(old(heap)@, final(heap)@, UnsafeMethod::GetReference, args@, res),
{
    unsafe_invoke(heap, UnsafeMethod::GetReference, args)
}

/// `Unsafe.putReference`.
pub fn unsafe_put_reference(heap: &mut Heap, args: &[Value]) -> (res: Result<Option<Value>, VmError>)
    requires
        args@.len() >= method_arity(UnsafeMethod::PutReference),
    ensures
        unsafe_answers(old(heap)@, final(heap)@, UnsafeMethod::PutReference, args@, res),
{
    unsafe_invoke(heap, UnsafeMethod::PutReference, args)
}

/// A successful compare-and-set leaves the new value in the slot, and a
/// read right after returns it.
pub proof fn lemma_cas_then_get(heap: Seq<Obj>, s: Slot, w: Width, expected: Value, new: Value)
    requires
        slot_value(heap, s, w) == Some(expected),
        as_width(new, w) == new,
        slot_in_bounds(heap, s),
    ensures
        slot_apply(heap, s, w, SlotOp::CompareAndSet(expected, new)).0 == Value::Int(1),
        slot_value(slot_apply(heap, s, w, SlotOp::CompareAndSet(expected, new)).1, s, w) == Some(new),
{
}

/// A failed compare-and-set changes nothing.
pub proof fn lemma_cas_mismatch(heap: Seq<Obj>, s: Slot, w: Width, expected: Value, new: Value)
    requires
        slot_value(heap, s, w) != Some(expected),
    ensures
        slot_apply(heap, s, w, SlotOp::CompareAndSet(expected, new)) == (Value::Int(0), heap),
{
}

/// A slot's position is inside its cell.
pub open spec fn slot_in_bounds(heap: Seq<Obj>, s: Slot) -> bool {
    match s {
        Slot::Field { cell, index } => cell < heap.len() && match heap[cell as int] {
            Obj::Object { fields, .. } => index < fields.len(),
            _ => false,
        },
        Slot::IntElem { cell, index } => cell < heap.len() && match heap[cell as int] {
            Obj::IntArray(v) => index < v.len(),
            _ => false,
        },
        Slot::LongElem { cell, index } => cell < heap.len() && match heap[cell as int] {
            Obj::LongArray(v) => index < v.len(),
            _ => false,
        },
        Slot::RefElem { cell, index } => cell < heap.len() && match heap[cell as int] {
            Obj::RefArray { values, .. } => index < values.len(),
            _ => false,
        },
    }
}

/// Every slot `locate` finds is in bounds.
pub proof fn lemma_locate_in_bounds(heap: Seq<Obj>, target: Reference, offset: i64)
    ensures
        locate(heap, target, offset) matches Ok(s) ==> slot_in_bounds(heap, s),
{
}

/// `getAndAdd` returns the old value and leaves the wrapped sum.
pub proof fn lemma_get_and_add(heap: Seq<Obj>, s: Slot, w: Width, d: Value)
    requires
        slot_in_bounds(heap, s),
        slot_value(heap, s, w) is Some,
        as_width(d, w) == d,
        !(w is Ref),
    ensures
        slot_apply(heap, s, w, SlotOp::GetAndAdd(d)).0 == slot_value(heap, s, w).unwrap(),
        slot_value(slot_apply(heap, s, w, SlotOp::GetAndAdd(d)).1, s, w) == Some(
            wrapping_sum(slot_value(heap, s, w).unwrap(), d),
        ),
{
}

/// A `put` followed by a `get` of the same slot returns what was put.
pub proof fn lemma_put_then_get(heap: Seq<Obj>, s: Slot, w: Width, v: Value)
    requires
        slot_in_bounds(heap, s),
        slot_value(heap, s, w) is Some,
        as_width(v, w) == v,
    ensures
        slot_apply(slot_apply(heap, s, w, SlotOp::Put(v)).1, s, w, SlotOp::Get).0 == v,
{
}

} // verus!
