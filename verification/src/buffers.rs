//! `java.nio.Buffer`, `ByteBuffer` and `CharBuffer`.
//!
//! A buffer object keeps its state in positional fields. A plain `Buffer`
//! holds `[capacity, position, limit]`; a `ByteBuffer` or `CharBuffer`
//! holds `[backing array, offset, capacity, position, limit]`, its elements
//! living in the backing `int` array. Reads past the backing array give 0
//! and writes there are dropped.

use vstd::prelude::*;
use crate::chars::{eq_str, lit};
use crate::heap::{deref, deref_error, Heap};
use crate::io_objects::{nth_field, read_nth_field, set_nth_field, write_nth_field};
use crate::model::{fields_view, int_arg, ref_arg, HeapValue, Obj, Reference, Value, VmError};
use crate::native::{answers, done, fail, give, give_bool, give_int, give_new, on_int, on_ref, NativeResult};

verus! {

/// The buffer classes.
#[derive(Clone, Copy, PartialEq, Eq, Structural, Debug)]
pub enum BufferClass {
    Plain,
    Bytes,
    Chars,
}

/// The buffer natives.
#[derive(Clone, Copy, PartialEq, Eq, Structural, Debug)]
pub enum BufferOp {
    Capacity,
    Position,
    SetPosition,
    Limit,
    SetLimit,
    Mark,
    Reset,
    Clear,
    Flip,
    Rewind,
    Remaining,
    HasRemaining,
    Allocate,
    Wrap,
    WrapRange,
    Get,
    GetAt,
    Put,
    PutAt,
    Array,
    IsDirect,
    Length,
}

/// The position of the capacity field.
pub open spec fn cap_index(c: BufferClass) -> int {
    if c is Plain { 0 } else { 2 }
}

/// The position of the position field.
pub open spec fn pos_index(c: BufferClass) -> int {
    if c is Plain { 1 } else { 3 }
}

/// The position of the limit field.
pub open spec fn lim_index(c: BufferClass) -> int {
    if c is Plain { 2 } else { 4 }
}

/// The natives each class has.
pub open spec fn buffer_supported(c: BufferClass, op: BufferOp) -> bool {
    match op {
        BufferOp::Capacity | BufferOp::Position | BufferOp::SetPosition | BufferOp::Limit
        | BufferOp::SetLimit | BufferOp::Mark | BufferOp::Reset | BufferOp::Clear | BufferOp::Flip
        | BufferOp::Rewind | BufferOp::Remaining | BufferOp::HasRemaining => true,
        BufferOp::IsDirect => c is Bytes,
        BufferOp::Length => c is Chars,
        _ => !(c is Plain),
    }
}

pub open spec fn buffer_class_name(c: BufferClass) -> Seq<char> {
    match c {
        BufferClass::Plain => "java/nio/Buffer"@,
        BufferClass::Bytes => "java/nio/ByteBuffer"@,
        BufferClass::Chars => "java/nio/CharBuffer"@,
    }
}

/// The name and descriptor of a native of a class.
pub open spec fn buffer_signature(c: BufferClass, op: BufferOp) -> (Seq<char>, Seq<char>) {
    let b = c is Bytes;
    match op {
        BufferOp::Capacity => ("capacity"@, "()I"@),
        BufferOp::Position => ("position"@, "()I"@),
        BufferOp::SetPosition => ("position"@, "(I)Ljava/nio/Buffer;"@),
        BufferOp::Limit => ("limit"@, "()I"@),
        BufferOp::SetLimit => ("limit"@, "(I)Ljava/nio/Buffer;"@),
        BufferOp::Mark => ("mark"@, "()Ljava/nio/Buffer;"@),
        BufferOp::Reset => ("reset"@, "()Ljava/nio/Buffer;"@),
        BufferOp::Clear => ("clear"@, "()Ljava/nio/Buffer;"@),
        BufferOp::Flip => ("flip"@, "()Ljava/nio/Buffer;"@),
        BufferOp::Rewind => ("rewind"@, "()Ljava/nio/Buffer;"@),
        BufferOp::Remaining => ("remaining"@, "()I"@),
        BufferOp::HasRemaining => ("hasRemaining"@, "()Z"@),
        BufferOp::Allocate => ("allocate"@, if b { "(I)Ljava/nio/ByteBuffer;"@ } else { "(I)Ljava/nio/CharBuffer;"@ }),
        BufferOp::Wrap => ("wrap"@, if b { "([B)Ljava/nio/ByteBuffer;"@ } else { "([C)Ljava/nio/CharBuffer;"@ }),
        BufferOp::WrapRange => ("wrap"@, if b { "([BII)Ljava/nio/ByteBuffer;"@ } else { "([CII)Ljava/nio/CharBuffer;"@ }),
        BufferOp::Get => ("get"@, if b { "()B"@ } else { "()C"@ }),
        BufferOp::GetAt => ("get"@, if b { "(I)B"@ } else { "(I)C"@ }),
        BufferOp::Put => ("put"@, if b { "(B)Ljava/nio/ByteBuffer;"@ } else { "(C)Ljava/nio/CharBuffer;"@ }),
        BufferOp::PutAt => ("put"@, if b { "(IB)Ljava/nio/ByteBuffer;"@ } else { "(IC)Ljava/nio/CharBuffer;"@ }),
        BufferOp::Array => ("array"@, if b { "()[B"@ } else { "()[C"@ }),
        BufferOp::IsDirect => ("isDirect"@, "()Z"@),
        BufferOp::Length => ("length"@, "()I"@),
    }
}

/// How many arguments a native reads at least (receiver included).
pub open spec fn buffer_arity(op: BufferOp) -> nat {
    match op {
        BufferOp::SetPosition | BufferOp::SetLimit | BufferOp::GetAt | BufferOp::Put => 2,
        BufferOp::PutAt => 3,
        BufferOp::IsDirect => 0,
        _ => 1,
    }
}

/// An `int` field by position, 0 when absent or of another kind.
pub open spec fn int_at(fields: Seq<(Seq<char>, Value)>, i: int) -> i32 {
    if 0 <= i < fields.len() {
        match fields[i].1 {
            Value::Int(x) => x,
            _ => 0,
        }
    } else {
        0
    }
}

/// A reference field by position.
pub open spec fn ref_at(fields: Seq<(Seq<char>, Value)>, i: int) -> Option<Reference> {
    if 0 <= i < fields.len() {
        match fields[i].1 {
            Value::Reference(r) => Some(r),
            _ => None,
        }
    } else {
        None
    }
}

/// The fields of the buffer `r`: `None` for a cell that is not an object.
pub open spec fn buffer_fields(heap: Seq<Obj>, r: Reference) -> Result<Option<Seq<(Seq<char>, Value)>>, VmError> {
    match deref(heap, r) {
        None => Err(deref_error(r)),
        Some(Obj::Object { fields, .. }) => Ok(Some(fields)),
        Some(_) => Ok(None),
    }
}

/// An `int` field of the buffer `r` (0 for a cell that is not an object).
pub open spec fn read_int(heap: Seq<Obj>, r: Reference, i: int, f: spec_fn(i32) -> NativeResult) -> NativeResult {
    match buffer_fields(heap, r) {
        Err(e) => fail(e),
        Ok(Some(fields)) => f(int_at(fields, i)),
        Ok(None) => f(0),
    }
}

/// Sets field `i` of an object buffer and returns the buffer; other cells
/// are left alone.
pub open spec fn write_field(heap: Seq<Obj>, r: Reference, i: int, v: Value) -> NativeResult {
    match deref(heap, r) {
        None => fail(deref_error(r)),
        Some(_) => done(set_nth_field(heap, r, i, v), Some(Value::Reference(r))),
    }
}

/// `limit - position` (wrapping), but at least 0.
pub open spec fn remaining_of(pos: i32, lim: i32) -> i32 {
    let d = lim.wrapping_sub(pos);
    if d < 0 { 0 } else { d }
}

/// Element `i` of the backing array `b`: 0 when `i` is outside the array or
/// `b` is not an `int` array.
pub open spec fn element(heap: Seq<Obj>, b: Reference, i: int) -> Result<i32, VmError> {
    match deref(heap, b) {
        None => Err(deref_error(b)),
        Some(Obj::IntArray(vs)) => Ok(if 0 <= i < vs.len() { vs[i] } else { 0 }),
        Some(_) => Ok(0),
    }
}

/// The heap after storing `x` at element `i` of the backing array `b`
/// (nothing changes outside the array or for another kind of cell).
pub open spec fn store_element(heap: Seq<Obj>, b: Reference, i: int, x: i32) -> Seq<Obj> {
    match deref(heap, b) {
        Some(Obj::IntArray(vs)) => if 0 <= i < vs.len() {
            heap.update(b->Heap_0 as int, Obj::IntArray(vs.update(i, x)))
        } else {
            heap
        },
        _ => heap,
    }
}

/// How an element reads as a `byte` (sign-extended low 8 bits) or a
/// `char` (zero-extended low 8 bits).
pub open spec fn element_value(c: BufferClass, v: i32) -> i32 {
    if c is Bytes { (v as i8) as i32 } else { (v as u8) as i32 }
}

/// A new buffer object of a class over a backing array.
pub open spec fn buffer_object(c: BufferClass, backing: Reference, offset: i32, length: i32) -> Obj {
    Obj::Object {
        class_name: buffer_class_name(c),
        fields: seq![
            (""@, Value::Reference(backing)),
            (""@, Value::Int(offset)),
            (""@, Value::Int(length)),
            (""@, Value::Int(0)),
            (""@, Value::Int(length)),
        ],
    }
}

/// The backing array, offset and position of a byte or char buffer, as
/// `get()` and `put(x)` read them (`None, 0, 0` for a cell that is not an object).
pub open spec fn cursor(fields: Option<Seq<(Seq<char>, Value)>>) -> (Option<Reference>, i32, i32) {
    match fields {
        Some(fs) => (ref_at(fs, 0), int_at(fs, 1), int_at(fs, 3)),
        None => (None, 0, 0),
    }
}

/// What a buffer native does.
pub open spec fn buffer_spec(heap: Seq<Obj>, c: BufferClass, op: BufferOp, args: Seq<Value>) -> NativeResult {
    match op {
        BufferOp::IsDirect => give_int(heap, 0),
        BufferOp::Allocate => on_int(args, 0, |n: i32| {
            let h1 = heap.push(Obj::IntArray(Seq::new(n as nat, |i: int| 0i32)));
            give_new(h1, buffer_object(c, Reference::Heap(heap.len() as usize), 0, n))
        }),
        BufferOp::Wrap | BufferOp::WrapRange => on_ref(args, 0, |a: Reference| {
            let offset: Result<i32, VmError> = if args.len() > 2 { int_arg(args, 1) } else { Ok(0i32) };
            match offset {
                Err(e) => fail(e),
                Ok(off) => {
                    let length: Result<i32, VmError> = if args.len() > 3 {
                        int_arg(args, 2)
                    } else {
                        match deref(heap, a) {
                            None => Err(deref_error(a)),
                            Some(Obj::IntArray(vs)) => Ok(vs.len() as i32),
                            Some(_) => Ok(0i32),
                        }
                    };
                    match length {
                        Err(e) => fail(e),
                        Ok(len) => give_new(heap, buffer_object(c, a, off, len)),
                    }
                },
            }
        }),
        _ => on_ref(args, 0, |r: Reference| match op {
            BufferOp::Capacity | BufferOp::Length => read_int(heap, r, cap_index(c), |x: i32| give_int(heap, x)),
            BufferOp::Position => read_int(heap, r, pos_index(c), |x: i32| give_int(heap, x)),
            BufferOp::Limit => read_int(heap, r, lim_index(c), |x: i32| give_int(heap, x)),
            BufferOp::SetPosition => on_int(args, 1, |p: i32| write_field(heap, r, pos_index(c), Value::Int(p))),
            BufferOp::SetLimit => on_int(args, 1, |l: i32| write_field(heap, r, lim_index(c), Value::Int(l))),
            BufferOp::Mark | BufferOp::Reset => give(heap, Value::Reference(r)),
            BufferOp::Clear => match deref(heap, r) {
                None => fail(deref_error(r)),
                Some(_) => {
                    let cap = nth_field(heap, r, cap_index(c));
                    let h1 = set_nth_field(heap, r, pos_index(c), Value::Int(0));
                    match cap {
                        Some(v) => done(set_nth_field(h1, r, lim_index(c), v), Some(Value::Reference(r))),
                        None => done(h1, Some(Value::Reference(r))),
                    }
                },
            },
            BufferOp::Flip => match deref(heap, r) {
                None => fail(deref_error(r)),
                Some(_) => {
                    let pos = nth_field(heap, r, pos_index(c));
                    let h1 = match pos {
                        Some(v) => set_nth_field(heap, r, lim_index(c), v),
                        None => heap,
                    };
                    done(set_nth_field(h1, r, pos_index(c), Value::Int(0)), Some(Value::Reference(r)))
                },
            },
            BufferOp::Rewind => write_field(heap, r, pos_index(c), Value::Int(0)),
            BufferOp::Remaining => match buffer_fields(heap, r) {
                Err(e) => fail(e),
                Ok(Some(fs)) => give_int(heap, remaining_of(int_at(fs, pos_index(c)), int_at(fs, lim_index(c)))),
                Ok(None) => give_int(heap, 0),
            },
            BufferOp::HasRemaining => match buffer_fields(heap, r) {
                Err(e) => fail(e),
                Ok(Some(fs)) => give_bool(heap, int_at(fs, pos_index(c)) < int_at(fs, lim_index(c))),
                Ok(None) => give_bool(heap, false),
            },
            BufferOp::Array => match buffer_fields(heap, r) {
                Err(e) => fail(e),
                Ok(Some(fs)) => give(heap, Value::Reference(match ref_at(fs, 0) {
                    Some(b) => b,
                    None => Reference::Null,
                })),
                Ok(None) => give(heap, Value::Reference(Reference::Null)),
            },
            BufferOp::Get => match buffer_fields(heap, r) {
                Err(e) => fail(e),
                Ok(fs) => {
                    let (backing, off, pos) = cursor(fs);
                    let v: Result<i32, VmError> = match backing {
                        Some(b) => match element(heap, b, off.wrapping_add(pos) as int) {
                            Ok(x) => Ok(element_value(c, x)),
                            Err(e) => Err(e),
                        },
                        None => Ok(0i32),
                    };
                    match v {
                        Err(e) => fail(e),
                        Ok(x) => done(
                            set_nth_field(heap, r, 3, Value::Int(int_at(fs->0, 3).wrapping_add(1))),
                            Some(Value::Int(x)),
                        ),
                    }
                },
            },
            BufferOp::GetAt => on_int(args, 1, |i: i32| match buffer_fields(heap, r) {
                Err(e) => fail(e),
                Ok(Some(fs)) => match ref_at(fs, 0) {
                    Some(b) => match element(heap, b, int_at(fs, 1).wrapping_add(i) as int) {
                        Ok(x) => give_int(heap, element_value(c, x)),
                        Err(e) => fail(e),
                    },
                    None => give_int(heap, 0),
                },
                Ok(None) => give_int(heap, 0),
            }),
            BufferOp::Put => on_int(args, 1, |x: i32| match buffer_fields(heap, r) {
                Err(e) => fail(e),
                Ok(fs) => {
                    let (backing, off, pos) = cursor(fs);
                    let h1: Result<Seq<Obj>, VmError> = match backing {
                        Some(b) => match deref(heap, b) {
                            None => Err(deref_error(b)),
                            Some(_) => Ok(store_element(heap, b, off.wrapping_add(pos) as int, x)),
                        },
                        None => Ok(heap),
                    };
                    match h1 {
                        Err(e) => fail(e),
                        Ok(h) => done(set_nth_field(h, r, 3, Value::Int(pos.wrapping_add(1))), Some(Value::Reference(r))),
                    }
                },
            }),
            BufferOp::PutAt => on_int(args, 1, |i: i32| on_int(args, 2, |x: i32| match buffer_fields(heap, r) {
                Err(e) => fail(e),
                Ok(Some(fs)) => match ref_at(fs, 0) {
                    Some(b) => match deref(heap, b) {
                        None => fail(deref_error(b)),
                        Some(_) => done(store_element(heap, b, int_at(fs, 1).wrapping_add(i) as int, x), Some(Value::Reference(r))),
                    },
                    None => give(heap, Value::Reference(r)),
                },
                Ok(None) => give(heap, Value::Reference(r)),
            })),
            _ => give(heap, Value::Reference(r)),
        }),
    }
}

/// An object receiver has at least `n` fields.
pub open spec fn has_fields(heap: Seq<Obj>, r: Reference, n: int) -> bool {
    deref(heap, r) matches Some(Obj::Object { fields, .. }) ==> fields.len() >= n
}

/// The backing array of an object buffer designates no cell.
pub open spec fn backing_missing(heap: Seq<Obj>, r: Reference) -> bool {
    deref(heap, r) matches Some(Obj::Object { fields, .. }) && ref_at(fields, 0) matches Some(b)
        && deref(heap, b) is None
}

/// The inputs on which a buffer native completes: the fields it writes by
/// position exist, and `allocate` gets a capacity that is not negative.
pub open spec fn buffer_pre(heap: Seq<Obj>, c: BufferClass, op: BufferOp, args: Seq<Value>) -> bool {
    match op {
        BufferOp::Allocate => int_arg(args, 0) matches Ok(n) ==> n >= 0,
        _ => match ref_arg(args, 0) {
            Err(_) => true,
            Ok(r) => match op {
                BufferOp::SetPosition => int_arg(args, 1) is Ok ==> has_fields(heap, r, pos_index(c) + 1),
                BufferOp::SetLimit => int_arg(args, 1) is Ok ==> has_fields(heap, r, lim_index(c) + 1),
                BufferOp::Clear | BufferOp::Flip => has_fields(heap, r, lim_index(c) + 1),
                BufferOp::Rewind => has_fields(heap, r, pos_index(c) + 1),
                BufferOp::Get => backing_missing(heap, r) || has_fields(heap, r, 4),
                BufferOp::Put => int_arg(args, 1) is Ok ==> (backing_missing(heap, r) || has_fields(heap, r, 4)),
                _ => true,
            },
        },
    }
}


/// The buffer native a name and descriptor select on a class.
fn buffer_op(c: BufferClass, n: &[char], d: &[char]) -> (res: Option<BufferOp>)
    ensures
        match res {
            Some(op) => buffer_supported(c, op) && buffer_signature(c, op) == (n@, d@),
            None => forall|op: BufferOp| buffer_supported(c, op) ==> buffer_signature(c, op) != (n@, d@),
        },
{
    match c {
        BufferClass::Plain => {
            if eq_str(n, "capacity") && eq_str(d, "()I") {
                return Some(BufferOp::Capacity);
            }
            if eq_str(n, "position") && eq_str(d, "()I") {
                return Some(BufferOp::Position);
            }
            if eq_str(n, "position") && eq_str(d, "(I)Ljava/nio/Buffer;") {
                return Some(BufferOp::SetPosition);
            }
            if eq_str(n, "limit") && eq_str(d, "()I") {
                return Some(BufferOp::Limit);
            }
            if eq_str(n, "limit") && eq_str(d, "(I)Ljava/nio/Buffer;") {
                return Some(BufferOp::SetLimit);
            }
            if eq_str(n, "mark") && eq_str(d, "()Ljava/nio/Buffer;") {
                return Some(BufferOp::Mark);
            }
            if eq_str(n, "reset") && eq_str(d, "()Ljava/nio/Buffer;") {
                return Some(BufferOp::Reset);
            }
            if eq_str(n, "clear") && eq_str(d, "()Ljava/nio/Buffer;") {
                return Some(BufferOp::Clear);
            }
            if eq_str(n, "flip") && eq_str(d, "()Ljava/nio/Buffer;") {
                return Some(BufferOp::Flip);
            }
            if eq_str(n, "rewind") && eq_str(d, "()Ljava/nio/Buffer;") {
                return Some(BufferOp::Rewind);
            }
            if eq_str(n, "remaining") && eq_str(d, "()I") {
                return Some(BufferOp::Remaining);
            }
            if eq_str(n, "hasRemaining") && eq_str(d, "()Z") {
                return Some(BufferOp::HasRemaining);
            }
        },
        BufferClass::Bytes => {
            if eq_str(n, "capacity") && eq_str(d, "()I") {
                return Some(BufferOp::Capacity);
            }
            if eq_str(n, "position") && eq_str(d, "()I") {
                return Some(BufferOp::Position);
            }
            if eq_str(n, "position") && eq_str(d, "(I)Ljava/nio/Buffer;") {
                return Some(BufferOp::SetPosition);
            }
            if eq_str(n, "limit") && eq_str(d, "()I") {
                return Some(BufferOp::Limit);
            }
            if eq_str(n, "limit") && eq_str(d, "(I)Ljava/nio/Buffer;") {
                return Some(BufferOp::SetLimit);
            }
            if eq_str(n, "mark") && eq_str(d, "()Ljava/nio/Buffer;") {
                return Some(BufferOp::Mark);
            }
            if eq_str(n, "reset") && eq_str(d, "()Ljava/nio/Buffer;") {
                return Some(BufferOp::Reset);
            }
            if eq_str(n, "clear") && eq_str(d, "()Ljava/nio/Buffer;") {
                return Some(BufferOp::Clear);
            }
            if eq_str(n, "flip") && eq_str(d, "()Ljava/nio/Buffer;") {
                return Some(BufferOp::Flip);
            }
            if eq_str(n, "rewind") && eq_str(d, "()Ljava/nio/Buffer;") {
                return Some(BufferOp::Rewind);
            }
            if eq_str(n, "remaining") && eq_str(d, "()I") {
                return Some(BufferOp::Remaining);
            }
            if eq_str(n, "hasRemaining") && eq_str(d, "()Z") {
                return Some(BufferOp::HasRemaining);
            }
            if eq_str(n, "allocate") && eq_str(d, "(I)Ljava/nio/ByteBuffer;") {
                return Some(BufferOp::Allocate);
            }
            if eq_str(n, "wrap") && eq_str(d, "([B)Ljava/nio/ByteBuffer;") {
                return Some(BufferOp::Wrap);
            }
            if eq_str(n, "wrap") && eq_str(d, "([BII)Ljava/nio/ByteBuffer;") {
                return Some(BufferOp::WrapRange);
            }
            if eq_str(n, "get") && eq_str(d, "()B") {
                return Some(BufferOp::Get);
            }
            if eq_str(n, "get") && eq_str(d, "(I)B") {
                return Some(BufferOp::GetAt);
            }
            if eq_str(n, "put") && eq_str(d, "(B)Ljava/nio/ByteBuffer;") {
                return Some(BufferOp::Put);
            }
            if eq_str(n, "put") && eq_str(d, "(IB)Ljava/nio/ByteBuffer;") {
                return Some(BufferOp::PutAt);
            }
            if eq_str(n, "array") && eq_str(d, "()[B") {
                return Some(BufferOp::Array);
            }
            if eq_str(n, "isDirect") && eq_str(d, "()Z") {
                return Some(BufferOp::IsDirect);
            }
        },
        BufferClass::Chars => {
            if eq_str(n, "capacity") && eq_str(d, "()I") {
                return Some(BufferOp::Capacity);
            }
            if eq_str(n, "position") && eq_str(d, "()I") {
                return Some(BufferOp::Position);
            }
            if eq_str(n, "position") && eq_str(d, "(I)Ljava/nio/Buffer;") {
                return Some(BufferOp::SetPosition);
            }
            if eq_str(n, "limit") && eq_str(d, "()I") {
                return Some(BufferOp::Limit);
            }
            if eq_str(n, "limit") && eq_str(d, "(I)Ljava/nio/Buffer;") {
                return Some(BufferOp::SetLimit);
            }
            if eq_str(n, "mark") && eq_str(d, "()Ljava/nio/Buffer;") {
                return Some(BufferOp::Mark);
            }
            if eq_str(n, "reset") && eq_str(d, "()Ljava/nio/Buffer;") {
                return Some(BufferOp::Reset);
            }
            if eq_str(n, "clear") && eq_str(d, "()Ljava/nio/Buffer;") {
                return Some(BufferOp::Clear);
            }
            if eq_str(n, "flip") && eq_str(d, "()Ljava/nio/Buffer;") {
                return Some(BufferOp::Flip);
            }
            if eq_str(n, "rewind") && eq_str(d, "()Ljava/nio/Buffer;") {
                return Some(BufferOp::Rewind);
            }
            if eq_str(n, "remaining") && eq_str(d, "()I") {
                return Some(BufferOp::Remaining);
            }
            if eq_str(n, "hasRemaining") && eq_str(d, "()Z") {
                return Some(BufferOp::HasRemaining);
            }
            if eq_str(n, "allocate") && eq_str(d, "(I)Ljava/nio/CharBuffer;") {
                return Some(BufferOp::Allocate);
            }
            if eq_str(n, "wrap") && eq_str(d, "([C)Ljava/nio/CharBuffer;") {
                return Some(BufferOp::Wrap);
            }
            if eq_str(n, "wrap") && eq_str(d, "([CII)Ljava/nio/CharBuffer;") {
                return Some(BufferOp::WrapRange);
            }
            if eq_str(n, "get") && eq_str(d, "()C") {
                return Some(BufferOp::Get);
            }
            if eq_str(n, "get") && eq_str(d, "(I)C") {
                return Some(BufferOp::GetAt);
            }
            if eq_str(n, "put") && eq_str(d, "(C)Ljava/nio/CharBuffer;") {
                return Some(BufferOp::Put);
            }
            if eq_str(n, "put") && eq_str(d, "(IC)Ljava/nio/CharBuffer;") {
                return Some(BufferOp::PutAt);
            }
            if eq_str(n, "array") && eq_str(d, "()[C") {
                return Some(BufferOp::Array);
            }
            if eq_str(n, "length") && eq_str(d, "()I") {
                return Some(BufferOp::Length);
            }
        },
    }
    proof {
        assert forall|op: BufferOp| buffer_supported(c, op) implies buffer_signature(c, op) != (n@, d@) by {
            match c {
                BufferClass::Plain => match op {
                    BufferOp::Capacity => {},
                    BufferOp::Position => {},
                    BufferOp::SetPosition => {},
                    BufferOp::Limit => {},
                    BufferOp::SetLimit => {},
                    BufferOp::Mark => {},
                    BufferOp::Reset => {},
                    BufferOp::Clear => {},
                    BufferOp::Flip => {},
                    BufferOp::Rewind => {},
                    BufferOp::Remaining => {},
                    BufferOp::HasRemaining => {},
                    BufferOp::Allocate => {},
                    BufferOp::Wrap => {},
                    BufferOp::WrapRange => {},
                    BufferOp::Get => {},
                    BufferOp::GetAt => {},
                    BufferOp::Put => {},
                    BufferOp::PutAt => {},
                    BufferOp::Array => {},
                    BufferOp::IsDirect => {},
                    BufferOp::Length => {},
                },
                BufferClass::Bytes => match op {
                    BufferOp::Capacity => {},
                    BufferOp::Position => {},
                    BufferOp::SetPosition => {},
                    BufferOp::Limit => {},
                    BufferOp::SetLimit => {},
                    BufferOp::Mark => {},
                    BufferOp::Reset => {},
                    BufferOp::Clear => {},
                    BufferOp::Flip => {},
                    BufferOp::Rewind => {},
                    BufferOp::Remaining => {},
                    BufferOp::HasRemaining => {},
                    BufferOp::Allocate => {},
                    BufferOp::Wrap => {},
                    BufferOp::WrapRange => {},
                    BufferOp::Get => {},
                    BufferOp::GetAt => {},
                    BufferOp::Put => {},
                    BufferOp::PutAt => {},
                    BufferOp::Array => {},
                    BufferOp::IsDirect => {},
                    BufferOp::Length => {},
                },
                BufferClass::Chars => match op {
                    BufferOp::Capacity => {},
                    BufferOp::Position => {},
                    BufferOp::SetPosition => {},
                    BufferOp::Limit => {},
                    BufferOp::SetLimit => {},
                    BufferOp::Mark => {},
                    BufferOp::Reset => {},
                    BufferOp::Clear => {},
                    BufferOp::Flip => {},
                    BufferOp::Rewind => {},
                    BufferOp::Remaining => {},
                    BufferOp::HasRemaining => {},
                    BufferOp::Allocate => {},
                    BufferOp::Wrap => {},
                    BufferOp::WrapRange => {},
                    BufferOp::Get => {},
                    BufferOp::GetAt => {},
                    BufferOp::Put => {},
                    BufferOp::PutAt => {},
                    BufferOp::Array => {},
                    BufferOp::IsDirect => {},
                    BufferOp::Length => {},
                },
            }
        }
    }
    None
}

/// The buffer class an internal class name designates.
fn buffer_class(c: &[char]) -> (res: Option<BufferClass>)
    ensures
        match res {
            Some(k) => buffer_class_name(k) == c@,
            None => forall|k: BufferClass| buffer_class_name(k) != c@,
        },
{
    if eq_str(c, "java/nio/Buffer") {
        return Some(BufferClass::Plain);
    }
    if eq_str(c, "java/nio/ByteBuffer") {
        return Some(BufferClass::Bytes);
    }
    if eq_str(c, "java/nio/CharBuffer") {
        return Some(BufferClass::Chars);
    }
    proof {
        assert forall|k: BufferClass| buffer_class_name(k) != c@ by {
            match k {
                BufferClass::Plain => {},
                BufferClass::Bytes => {},
                BufferClass::Chars => {},
            }
        }
    }
    None
}

/// The buffer class names are distinct.
proof fn lemma_buffer_classes(k1: BufferClass, k2: BufferClass)
    requires
        buffer_class_name(k1) == buffer_class_name(k2),
    ensures
        k1 == k2,
{
    reveal_strlit("java/nio/Buffer");
    reveal_strlit("java/nio/ByteBuffer");
    reveal_strlit("java/nio/CharBuffer");
    assert("java/nio/Buffer"@.len() == 15);
    assert("java/nio/ByteBuffer"@.len() == 19);
    assert("java/nio/CharBuffer"@.len() == 19);
    assert("java/nio/ByteBuffer"@[9] != "java/nio/CharBuffer"@[9]);
}

/// The buffer native a call selects, if it is one of those implemented here.
pub fn buffer_method(class_name: &[char], name: &[char], descriptor: &[char]) -> (res: Option<(BufferClass, BufferOp)>)
    ensures
        match res {
            Some((c, op)) => buffer_supported(c, op) && buffer_class_name(c) == class_name@
                && buffer_signature(c, op) == (name@, descriptor@),
            None => forall|c: BufferClass, op: BufferOp| buffer_supported(c, op) ==> !(buffer_class_name(c)
                == class_name@ && buffer_signature(c, op) == (name@, descriptor@)),
        },
{
    match buffer_class(class_name) {
        None => None,
        Some(c) => match buffer_op(c, name, descriptor) {
            Some(op) => Some((c, op)),
            None => {
                proof {
                    assert forall|c2: BufferClass, op: BufferOp| buffer_supported(c2, op) implies !(buffer_class_name(c2)
                        == class_name@ && buffer_signature(c2, op) == (name@, descriptor@)) by {
                        if buffer_class_name(c2) == class_name@ {
                            lemma_buffer_classes(c2, c);
                        }
                    }
                }
                None
            },
        },
    }
}


/// An `int` field by position.
fn int_of(fields: &Vec<crate::model::Field>, i: usize) -> (x: i32)
    ensures
        x == int_at(fields_view(fields@), i as int),
{
    if i < fields.len() {
        match fields[i].value {
            Value::Int(x) => x,
            _ => 0,
        }
    } else {
        0
    }
}

/// A reference field by position.
fn ref_of(fields: &Vec<crate::model::Field>, i: usize) -> (r: Option<Reference>)
    ensures
        r == ref_at(fields_view(fields@), i as int),
{
    if i < fields.len() {
        match fields[i].value {
            Value::Reference(r) => Some(r),
            _ => None,
        }
    } else {
        None
    }
}

/// An `int` field of a buffer by position (0 for a cell that is not an object).
fn buffer_int(heap: &Heap, r: Reference, i: usize) -> (res: Result<i32, VmError>)
    ensures
        match res {
            Ok(x) => match buffer_fields(heap@, r) {
                Ok(Some(fs)) => x == int_at(fs, i as int),
                Ok(None) => x == 0,
                Err(_) => false,
            },
            Err(e) => buffer_fields(heap@, r) == Err::<Option<Seq<(Seq<char>, Value)>>, VmError>(e),
        },
{
    match heap.get(r)? {
        HeapValue::Object { fields, .. } => Ok(int_of(fields, i)),
        _ => Ok(0),
    }
}

/// The backing array, offset and position of a byte or char buffer.
fn read_cursor(heap: &Heap, r: Reference) -> (res: Result<(Option<Reference>, i32, i32), VmError>)
    ensures
        match res {
            Ok(t) => buffer_fields(heap@, r) matches Ok(fs) && t == cursor(fs),
            Err(e) => buffer_fields(heap@, r) == Err::<Option<Seq<(Seq<char>, Value)>>, VmError>(e),
        },
{
    match heap.get(r)? {
        HeapValue::Object { fields, .. } => Ok((ref_of(fields, 0), int_of(fields, 1), int_of(fields, 3))),
        _ => Ok((None, 0, 0)),
    }
}

/// Element `i` of a backing array.
fn element_at(heap: &Heap, b: Reference, i: i32) -> (res: Result<i32, VmError>)
    ensures
        match res {
            Ok(x) => element(heap@, b, i as int) == Ok::<i32, VmError>(x),
            Err(e) => element(heap@, b, i as int) == Err::<i32, VmError>(e),
        },
{
    match heap.get(b)? {
        HeapValue::IntArray { values } => {
            if i >= 0 && (i as usize) < values.len() {
                Ok(values[i as usize])
            } else {
                Ok(0)
            }
        },
        _ => Ok(0),
    }
}

/// Stores element `i` of a backing array.
fn store_at(heap: &mut Heap, b: Reference, i: i32, x: i32) -> (res: Result<(), VmError>)
    ensures
        match res {
            Ok(_) => deref(old(heap)@, b) is Some && final(heap)@ == store_element(old(heap)@, b, i as int, x),
            Err(e) => deref(old(heap)@, b) is None && e == deref_error(b) && final(heap)@ == old(heap)@,
        },
{
    match b {
        Reference::Null => Err(VmError::NullReference),
        Reference::Heap(k) => {
            if k >= heap.values.len() {
                return Err(VmError::InvalidReference);
            }
            let ghost before = heap@;
            if let HeapValue::IntArray { values } = &mut heap.values[k] {
                if i >= 0 && (i as usize) < values.len() {
                    values.set(i as usize, x);
                }
            }
            assert(heap@ =~= store_element(before, b, i as int, x));
            Ok(())
        },
    }
}

/// How an element reads.
fn convert(c: BufferClass, v: i32) -> (x: i32)
    ensures
        x == element_value(c, v),
{
    match c {
        BufferClass::Bytes => (v as i8) as i32,
        _ => (v as u8) as i32,
    }
}

/// The position of a field of a class, as an index.
fn index_of_field(c: BufferClass, which: u8) -> (i: usize)
    requires
        which < 3,
    ensures
        i as int == (if which == 0 { cap_index(c) } else if which == 1 { pos_index(c) } else { lim_index(c) }),
{
    let base: usize = match c {
        BufferClass::Plain => 0,
        _ => 2,
    };
    base + which as usize
}

/// Whether a native can be run on these arguments: there are enough of them
/// and `buffer_pre` holds.
pub fn buffer_callable(heap: &Heap, c: BufferClass, op: BufferOp, args: &[Value]) -> (res: bool)
    ensures
        res == (args@.len() >= buffer_arity(op) && buffer_pre(heap@, c, op, args@)),
{
    let need: usize = match op {
        BufferOp::SetPosition | BufferOp::SetLimit | BufferOp::GetAt | BufferOp::Put => 2,
        BufferOp::PutAt => 3,
        BufferOp::IsDirect => 0,
        _ => 1,
    };
    if args.len() < need {
        return false;
    }
    if let BufferOp::Allocate = op {
        return match args[0].as_int() {
            Ok(n) => n >= 0,
            Err(_) => true,
        };
    }
    if let BufferOp::IsDirect = op {
        return true;
    }
    let r = match args[0].as_reference() {
        Ok(r) => r,
        Err(_) => {
            return true;
        },
    };
    let needed: usize = match op {
        BufferOp::SetPosition | BufferOp::Rewind => index_of_field(c, 1) + 1,
        BufferOp::SetLimit | BufferOp::Clear | BufferOp::Flip => index_of_field(c, 2) + 1,
        BufferOp::Get | BufferOp::Put => 4,
        _ => 0,
    };
    match op {
        BufferOp::SetPosition | BufferOp::SetLimit | BufferOp::Put => {
            if args[1].as_int().is_err() {
                return true;
            }
        },
        _ => {},
    }
    match heap.get(r) {
        Ok(HeapValue::Object { fields, .. }) => {
            if fields.len() >= needed {
                return true;
            }
            match op {
                BufferOp::Get | BufferOp::Put => match ref_of(fields, 0) {
                    Some(b) => heap.get(b).is_err(),
                    None => false,
                },
                _ => false,
            }
        },
        _ => true,
    }
}

/// Runs a buffer native.
pub fn invoke_buffer(heap: &mut Heap, c: BufferClass, op: BufferOp, args: &[Value]) -> (res: Result<Option<Value>, VmError>)
    requires
        buffer_supported(c, op),
        args@.len() >= buffer_arity(op),
        buffer_pre(old(heap)@, c, op, args@),
    ensures
        answers(old(heap)@, final(heap)@, buffer_spec(old(heap)@, c, op, args@), res),
{
    match op {
        BufferOp::IsDirect => Ok(Some(Value::Int(0))),
        BufferOp::Allocate => {
            let n = args[0].as_int()?;
            let mut values: Vec<i32> = Vec::new();
            let mut i: i32 = 0;
            while i < n
                invariant
                    0 <= i <= n,
                    values@ == Seq::new(i as nat, |k: int| 0i32),
                decreases n - i,
            {
                values.push(0);
                i = i + 1;
                assert(values@ =~= Seq::new(i as nat, |k: int| 0i32));
            }
            let backing = heap.allocate(HeapValue::IntArray { values });
            let obj = new_buffer(heap, c, backing, 0, n);
            Ok(Some(Value::Reference(obj)))
        },
        BufferOp::Wrap | BufferOp::WrapRange => {
            let a = args[0].as_reference()?;
            let offset = if args.len() > 2 { args[1].as_int()? } else { 0 };
            let length = if args.len() > 3 {
                args[2].as_int()?
            } else {
                match heap.get(a)? {
                    HeapValue::IntArray { values } => values.len() as i32,
                    _ => 0,
                }
            };
            let obj = new_buffer(heap, c, a, offset, length);
            Ok(Some(Value::Reference(obj)))
        },
        _ => {
            let r = args[0].as_reference()?;
            match op {
                BufferOp::Capacity | BufferOp::Length => Ok(Some(Value::Int(buffer_int(heap, r, index_of_field(c, 0))?))),
                BufferOp::Position => Ok(Some(Value::Int(buffer_int(heap, r, index_of_field(c, 1))?))),
                BufferOp::Limit => Ok(Some(Value::Int(buffer_int(heap, r, index_of_field(c, 2))?))),
                BufferOp::SetPosition | BufferOp::SetLimit => {
                    let v = args[1].as_int()?;
                    let i = match op {
                        BufferOp::SetPosition => index_of_field(c, 1),
                        _ => index_of_field(c, 2),
                    };
                    write_nth_field(heap, r, i, Value::Int(v))?;
                    Ok(Some(Value::Reference(r)))
                },
                BufferOp::Mark | BufferOp::Reset => Ok(Some(Value::Reference(r))),
                BufferOp::Clear => {
                    let cap = read_nth_field(heap, r, index_of_field(c, 0))?;
                    write_nth_field(heap, r, index_of_field(c, 1), Value::Int(0))?;
                    if let Some(v) = cap {
                        write_nth_field(heap, r, index_of_field(c, 2), v)?;
                    }
                    Ok(Some(Value::Reference(r)))
                },
                BufferOp::Flip => {
                    let pos = read_nth_field(heap, r, index_of_field(c, 1))?;
                    if let Some(v) = pos {
                        write_nth_field(heap, r, index_of_field(c, 2), v)?;
                    }
                    write_nth_field(heap, r, index_of_field(c, 1), Value::Int(0))?;
                    Ok(Some(Value::Reference(r)))
                },
                BufferOp::Rewind => {
                    write_nth_field(heap, r, index_of_field(c, 1), Value::Int(0))?;
                    Ok(Some(Value::Reference(r)))
                },
                BufferOp::Remaining | BufferOp::HasRemaining => {
                    let pos = buffer_int(heap, r, index_of_field(c, 1))?;
                    let lim = buffer_int(heap, r, index_of_field(c, 2))?;
                    match op {
                        BufferOp::Remaining => {
                            let d = lim.wrapping_sub(pos);
                            Ok(Some(Value::Int(if d < 0 { 0 } else { d })))
                        },
                        _ => Ok(Some(Value::Int(if pos < lim { 1 } else { 0 }))),
                    }
                },
                BufferOp::Array => {
                    let b = match heap.get(r)? {
                        HeapValue::Object { fields, .. } => ref_of(fields, 0),
                        _ => None,
                    };
                    Ok(Some(Value::Reference(match b {
                        Some(b) => b,
                        None => Reference::Null,
                    })))
                },
                BufferOp::Get => {
                    let (backing, off, pos) = read_cursor(heap, r)?;
                    let x = match backing {
                        Some(b) => convert(c, element_at(heap, b, off.wrapping_add(pos))?),
                        None => 0,
                    };
                    let p = buffer_int(heap, r, 3)?;
                    write_nth_field(heap, r, 3, Value::Int(p.wrapping_add(1)))?;
                    Ok(Some(Value::Int(x)))
                },
                BufferOp::GetAt => {
                    let i = args[1].as_int()?;
                    let (backing, off) = match heap.get(r)? {
                        HeapValue::Object { fields, .. } => (ref_of(fields, 0), int_of(fields, 1)),
                        _ => (None, 0),
                    };
                    let x = match backing {
                        Some(b) => convert(c, element_at(heap, b, off.wrapping_add(i))?),
                        None => 0,
                    };
                    Ok(Some(Value::Int(x)))
                },
                BufferOp::Put => {
                    let x = args[1].as_int()?;
                    let (backing, off, pos) = read_cursor(heap, r)?;
                    if let Some(b) = backing {
                        store_at(heap, b, off.wrapping_add(pos), x)?;
                    }
                    write_nth_field(heap, r, 3, Value::Int(pos.wrapping_add(1)))?;
                    Ok(Some(Value::Reference(r)))
                },
                BufferOp::PutAt => {
                    let i = args[1].as_int()?;
                    let x = args[2].as_int()?;
                    let (backing, off) = match heap.get(r)? {
                        HeapValue::Object { fields, .. } => (ref_of(fields, 0), int_of(fields, 1)),
                        _ => (None, 0),
                    };
                    if let Some(b) = backing {
                        store_at(heap, b, off.wrapping_add(i), x)?;
                    }
                    Ok(Some(Value::Reference(r)))
                },
                _ => Ok(Some(Value::Reference(r))),
            }
        },
    }
}

/// Allocates a buffer object of a class over a backing array.
fn new_buffer(heap: &mut Heap, c: BufferClass, backing: Reference, offset: i32, length: i32) -> (r: Reference)
    requires
        !(c is Plain),
    ensures
        r == Reference::Heap(old(heap)@.len() as usize),
        final(heap)@ == old(heap)@.push(buffer_object(c, backing, offset, length)),
{
    let mut fields = Vec::new();
    fields.push(crate::heap::field("", Value::Reference(backing)));
    fields.push(crate::heap::field("", Value::Int(offset)));
    fields.push(crate::heap::field("", Value::Int(length)));
    fields.push(crate::heap::field("", Value::Int(0)));
    fields.push(crate::heap::field("", Value::Int(length)));
    assert(fields_view(fields@) =~= seq![
        (""@, Value::Reference(backing)),
        (""@, Value::Int(offset)),
        (""@, Value::Int(length)),
        (""@, Value::Int(0)),
        (""@, Value::Int(length)),
    ]);
    let class_name = match c {
        BufferClass::Bytes => lit("java/nio/ByteBuffer"),
        _ => lit("java/nio/CharBuffer"),
    };
    heap.allocate(HeapValue::Object { class_name, fields })
}

} // verus!
