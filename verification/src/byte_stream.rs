//! `java.io.ByteArrayOutputStream`: bytes collected in an `int` array.
//!
//! The stream object keeps positional fields `[buffer, count]`: the backing
//! array (32 elements to begin with) and how many bytes have been written.

use vstd::prelude::*;
use crate::chars::eq_str;
use crate::heap::{deref, deref_error, Heap};
use crate::io_objects::{set_nth_field, write_nth_field};
use crate::buffers::ref_at;
use crate::model::{int_arg, ref_arg, Fault, HeapValue, Obj, Reference, Value, VmError};

verus! {

/// The `ByteArrayOutputStream` natives.
#[derive(Clone, Copy, PartialEq, Eq, Structural, Debug)]
pub enum StreamOp {
    Init,
    WriteByte,
    WriteBytes,
    WriteRange,
    ToStr,
    ToByteArray,
    Size,
    Reset,
    Flush,
    Close,
}

pub open spec fn stream_signature(op: StreamOp) -> (Seq<char>, Seq<char>) {
    match op {
        StreamOp::Init => ("<init>"@, "()V"@),
        StreamOp::WriteByte => ("write"@, "(I)V"@),
        StreamOp::WriteBytes => ("write"@, "([B)V"@),
        StreamOp::WriteRange => ("write"@, "([BII)V"@),
        StreamOp::ToStr => ("toString"@, "()Ljava/lang/String;"@),
        StreamOp::ToByteArray => ("toByteArray"@, "()[B"@),
        StreamOp::Size => ("size"@, "()I"@),
        StreamOp::Reset => ("reset"@, "()V"@),
        StreamOp::Flush => ("flush"@, "()V"@),
        StreamOp::Close => ("close"@, "()V"@),
    }
}

pub open spec fn stream_arity(op: StreamOp) -> nat {
    match op {
        StreamOp::WriteByte | StreamOp::WriteBytes | StreamOp::WriteRange => 2,
        StreamOp::Flush | StreamOp::Close => 0,
        _ => 1,
    }
}

/// The buffer and count a stream object holds, when it holds both.
pub open spec fn stream_state(heap: Seq<Obj>, r: Reference) -> Result<Option<(Reference, i32)>, VmError> {
    match deref(heap, r) {
        None => Err(deref_error(r)),
        Some(Obj::Object { fields, .. }) => match (ref_at(fields, 0), int_count(fields)) {
            (Some(b), Some(n)) => Ok(Some((b, n))),
            _ => Ok(None),
        },
        Some(_) => Ok(None),
    }
}

/// The `int` in field 1, if it holds one.
pub open spec fn int_count(fields: Seq<(Seq<char>, Value)>) -> Option<i32> {
    if 1 < fields.len() {
        match fields[1].1 {
            Value::Int(n) => Some(n),
            _ => None,
        }
    } else {
        None
    }
}

/// The first `count` elements (all of them when `count` is negative or
/// beyond the end).
pub open spec fn taken(values: Seq<i32>, count: i32) -> Seq<i32> {
    if 0 <= count < values.len() { values.subrange(0, count as int) } else { values }
}

/// A byte as `toString` decodes it: its low 8 bits as a character.
pub open spec fn byte_char(v: i32) -> char {
    (v as u8) as char
}

/// What a call gives and the heap after it (an `<init>` on a bad receiver
/// has already allocated the buffer when it fails).
pub type StreamResult = (Result<Option<Value>, Fault>, Seq<Obj>);

/// What `write(int)` does to a stream holding buffer `b` and count `n`.
pub open spec fn write_byte(heap: Seq<Obj>, r: Reference, b: Reference, n: i32, x: i32) -> StreamResult {
    match deref(heap, b) {
        None => (Err(Fault::Error(deref_error(b))), heap),
        Some(Obj::IntArray(vs)) => {
            let vs2 = if 0 <= n < vs.len() { vs.update(n as int, x) } else { vs.push(x) };
            let h1 = heap.update(b->Heap_0 as int, Obj::IntArray(vs2));
            (Ok(None), set_nth_field(h1, r, 1, Value::Int(n.wrapping_add(1))))
        },
        Some(_) => (Ok(None), heap),
    }
}

/// The part of `src` a `write(byte[], off, len)` copies: `off` and `len`
/// clamped to the array.
pub open spec fn copy_range(src_len: i32, off: i32, len: i32) -> (i32, i32) {
    let o = if off < 0 { 0i32 } else { off };
    let l = if len < 0 { 0i32 } else { len };
    let room = if src_len - o < i32::MIN { i32::MIN } else { (src_len - o) as i32 };
    (o, if l < room { l } else { room })
}

/// What `write(byte[]...)` does: copies `l` elements of `src` from `o`
/// into the buffer at the count, and advances the count.
pub open spec fn write_bytes(heap: Seq<Obj>, r: Reference, src: Seq<i32>, o: i32, l: i32) -> StreamResult {
    match stream_state(heap, r) {
        Err(e) => (Err(Fault::Error(e)), heap),
        Ok(None) => (Ok(None), heap),
        Ok(Some((b, n))) => match deref(heap, b) {
            None => (Err(Fault::Error(deref_error(b))), heap),
            Some(Obj::IntArray(vs)) => {
                let vs2 = Seq::new(vs.len(), |k: int| if n <= k < n + l && o + (k - n) < src.len() { src[o + (k - n)] } else { vs[k] });
                let h1 = heap.update(b->Heap_0 as int, Obj::IntArray(vs2));
                (Ok(None), set_nth_field(h1, r, 1, Value::Int(n.wrapping_add(l))))
            },
            Some(_) => (Ok(None), heap),
        },
    }
}

/// What a `ByteArrayOutputStream` native does.
pub open spec fn stream_spec(heap: Seq<Obj>, op: StreamOp, args: Seq<Value>) -> StreamResult {
    match op {
        StreamOp::Flush | StreamOp::Close => (Ok(None), heap),
        _ => match ref_arg(args, 0) {
            Err(e) => (Err(Fault::Error(e)), heap),
            Ok(r) => match op {
                StreamOp::Init => {
                    let h1 = heap.push(Obj::IntArray(Seq::new(32, |k: int| 0i32)));
                    let buf = Reference::Heap(heap.len() as usize);
                    match deref(h1, r) {
                        None => (Err(Fault::Error(deref_error(r))), h1),
                        Some(_) => (Ok(None), set_nth_field(set_nth_field(h1, r, 0, Value::Reference(buf)), r, 1, Value::Int(0))),
                    }
                },
                StreamOp::WriteByte => match int_arg(args, 1) {
                    Err(e) => (Err(Fault::Error(e)), heap),
                    Ok(x) => match stream_state(heap, r) {
                        Err(e) => (Err(Fault::Error(e)), heap),
                        Ok(None) => (Ok(None), heap),
                        Ok(Some((b, n))) => write_byte(heap, r, b, n, x),
                    },
                },
                StreamOp::WriteBytes | StreamOp::WriteRange => match ref_arg(args, 1) {
                    Err(e) => (Err(Fault::Error(e)), heap),
                    Ok(s) => match deref(heap, s) {
                        None => (Err(Fault::Error(deref_error(s))), heap),
                        Some(so) => {
                            let src = match so {
                                Obj::IntArray(vs) => vs,
                                _ => Seq::empty(),
                            };
                            let off: Result<i32, VmError> = if args.len() > 2 { int_arg(args, 2) } else { Ok(0i32) };
                            match off {
                                Err(e) => (Err(Fault::Error(e)), heap),
                                Ok(off) => {
                                    let len: Result<i32, VmError> = if args.len() > 3 { int_arg(args, 3) } else { Ok(src.len() as i32) };
                                    match len {
                                        Err(e) => (Err(Fault::Error(e)), heap),
                                        Ok(len) => {
                                            let (o, l) = copy_range(src.len() as i32, off, len);
                                            write_bytes(heap, r, src, o, l)
                                        },
                                    }
                                },
                            }
                        },
                    },
                },
                StreamOp::ToStr | StreamOp::ToByteArray => match stream_state(heap, r) {
                    Err(e) => (Err(Fault::Error(e)), heap),
                    Ok(None) => (Ok(Some(Value::Reference(Reference::Null))), heap),
                    Ok(Some((b, n))) => match deref(heap, b) {
                        None => (Err(Fault::Error(deref_error(b))), heap),
                        Some(o) => {
                            let vs = match o {
                                Obj::IntArray(vs) => taken(vs, n),
                                _ => Seq::empty(),
                            };
                            let cell = if op is ToStr {
                                Obj::Str(vs.map_values(|v: i32| byte_char(v)))
                            } else {
                                Obj::IntArray(vs)
                            };
                            (Ok(Some(Value::Reference(Reference::Heap(heap.len() as usize)))), heap.push(cell))
                        },
                    },
                },
                StreamOp::Size => match deref(heap, r) {
                    None => (Err(Fault::Error(deref_error(r))), heap),
                    Some(Obj::Object { fields, .. }) => (Ok(Some(Value::Int(match int_count(fields) {
                        Some(n) => n,
                        None => 0,
                    }))), heap),
                    Some(_) => (Ok(Some(Value::Int(0))), heap),
                },
                _ => match deref(heap, r) {
                    None => (Err(Fault::Error(deref_error(r))), heap),
                    Some(_) => (Ok(None), set_nth_field(heap, r, 1, Value::Int(0))),
                },
            },
        },
    }
}


/// Whether a copy of `l` elements into the buffer at the count stays
/// inside the buffer (a copy past its end does not complete).
pub open spec fn copy_fits(heap: Seq<Obj>, r: Reference, l: i32) -> bool {
    match stream_state(heap, r) {
        Ok(Some((b, n))) => match deref(heap, b) {
            Some(Obj::IntArray(vs)) => l <= 0 || (0 <= n && n + l <= vs.len() && n + l <= i32::MAX + 1),
            _ => true,
        },
        _ => true,
    }
}

/// An object receiver has both positional fields.
pub open spec fn has_two_fields(heap: Seq<Obj>, r: Reference) -> bool {
    deref(heap, r) matches Some(Obj::Object { fields, .. }) ==> fields.len() >= 2
}

/// The inputs on which a native completes.
pub open spec fn stream_pre(heap: Seq<Obj>, op: StreamOp, args: Seq<Value>) -> bool {
    match op {
        StreamOp::Init | StreamOp::Reset => match ref_arg(args, 0) {
            Ok(r) => has_two_fields(heap, r),
            Err(_) => true,
        },
        StreamOp::WriteBytes | StreamOp::WriteRange => match (ref_arg(args, 0), ref_arg(args, 1)) {
            (Ok(r), Ok(s)) => match deref(heap, s) {
                Some(so) => {
                    let src = match so {
                        Obj::IntArray(vs) => vs,
                        _ => Seq::empty(),
                    };
                    let off: Result<i32, VmError> = if args.len() > 2 { int_arg(args, 2) } else { Ok(0i32) };
                    let len: Result<i32, VmError> = if args.len() > 3 { int_arg(args, 3) } else { Ok(src.len() as i32) };
                    match (off, len) {
                        (Ok(off), Ok(len)) => copy_fits(heap, r, copy_range(src.len() as i32, off, len).1),
                        _ => true,
                    }
                },
                None => true,
            },
            _ => true,
        },
        _ => true,
    }
}

/// The `ByteArrayOutputStream` native a name and descriptor select.
pub fn stream_method(n: &[char], d: &[char]) -> (res: Option<StreamOp>)
    ensures
        match res {
            Some(op) => stream_signature(op) == (n@, d@),
            None => forall|op: StreamOp| stream_signature(op) != (n@, d@),
        },
{
    if eq_str(n, "<init>") && eq_str(d, "()V") {
        return Some(StreamOp::Init);
    }
    if eq_str(n, "write") {
        if eq_str(d, "(I)V") {
            return Some(StreamOp::WriteByte);
        }
        if eq_str(d, "([B)V") {
            return Some(StreamOp::WriteBytes);
        }
        if eq_str(d, "([BII)V") {
            return Some(StreamOp::WriteRange);
        }
    }
    if eq_str(n, "toString") && eq_str(d, "()Ljava/lang/String;") {
        return Some(StreamOp::ToStr);
    }
    if eq_str(n, "toByteArray") && eq_str(d, "()[B") {
        return Some(StreamOp::ToByteArray);
    }
    if eq_str(n, "size") && eq_str(d, "()I") {
        return Some(StreamOp::Size);
    }
    if eq_str(n, "reset") && eq_str(d, "()V") {
        return Some(StreamOp::Reset);
    }
    if eq_str(n, "flush") && eq_str(d, "()V") {
        return Some(StreamOp::Flush);
    }
    if eq_str(n, "close") && eq_str(d, "()V") {
        return Some(StreamOp::Close);
    }
    proof {
        assert forall|op: StreamOp| stream_signature(op) != (n@, d@) by {
            match op {
                StreamOp::Init => {},
                StreamOp::WriteByte => {},
                StreamOp::WriteBytes => {},
                StreamOp::WriteRange => {},
                StreamOp::ToStr => {},
                StreamOp::ToByteArray => {},
                StreamOp::Size => {},
                StreamOp::Reset => {},
                StreamOp::Flush => {},
                StreamOp::Close => {},
            }
        }
    }
    None
}

/// A copy of an `int` vector.
fn copy_ints(v: &Vec<i32>) -> (res: Vec<i32>)
    ensures
        res@ == v@,
{
    let mut res = Vec::new();
    let mut i: usize = 0;
    while i < v.len()
        invariant
            i <= v@.len(),
            res@ == v@.subrange(0, i as int),
        decreases v@.len() - i,
    {
        res.push(v[i]);
        i = i + 1;
    }
    assert(res@ =~= v@);
    res
}

/// Reads the buffer and count of a stream object.
fn read_state(heap: &Heap, r: Reference) -> (res: Result<Option<(Reference, i32)>, VmError>)
    ensures
        match res {
            Ok(x) => stream_state(heap@, r) == Ok::<Option<(Reference, i32)>, VmError>(x),
            Err(e) => stream_state(heap@, r) == Err::<Option<(Reference, i32)>, VmError>(e),
        },
{
    match heap.get(r)? {
        HeapValue::Object { fields, .. } => {
            let b = if fields.len() > 0 {
                match fields[0].value {
                    Value::Reference(b) => Some(b),
                    _ => None,
                }
            } else {
                None
            };
            let n = if fields.len() > 1 {
                match fields[1].value {
                    Value::Int(n) => Some(n),
                    _ => None,
                }
            } else {
                None
            };
            match (b, n) {
                (Some(b), Some(n)) => Ok(Some((b, n))),
                _ => Ok(None),
            }
        },
        _ => Ok(None),
    }
}

/// The first `count` elements (all when `count` is out of range).
fn take_values(values: &Vec<i32>, count: i32) -> (res: Vec<i32>)
    ensures
        res@ == taken(values@, count),
{
    let end = if count >= 0 && (count as usize) < values.len() { count as usize } else { values.len() };
    let mut res = Vec::new();
    let mut i: usize = 0;
    while i < end
        invariant
            end <= values@.len(),
            i <= end,
            res@ == values@.subrange(0, i as int),
        decreases end - i,
    {
        res.push(values[i]);
        i = i + 1;
    }
    assert(taken(values@, count) =~= values@.subrange(0, end as int));
    res
}

/// The characters of bytes, each its low 8 bits.
fn byte_chars(values: &Vec<i32>) -> (res: Vec<char>)
    ensures
        res@ == values@.map_values(|v: i32| byte_char(v)),
{
    let mut res = Vec::new();
    let mut i: usize = 0;
    while i < values.len()
        invariant
            i <= values@.len(),
            res@ == values@.subrange(0, i as int).map_values(|v: i32| byte_char(v)),
        decreases values@.len() - i,
    {
        res.push((values[i] as u8) as char);
        i = i + 1;
        assert(res@ =~= values@.subrange(0, i as int).map_values(|v: i32| byte_char(v)));
    }
    assert(values@.subrange(0, values@.len() as int) =~= values@);
    res
}

/// Whether an outcome is the specified one.
pub open spec fn stream_answers(h1: Seq<Obj>, expected: StreamResult, res: Result<Option<Value>, VmError>) -> bool {
    &&& h1 == expected.1
    &&& match res {
        Ok(v) => expected.0 == Ok::<Option<Value>, Fault>(v),
        Err(e) => expected.0 matches Err(f) && crate::model::raises(e, f),
    }
}

pub fn stream_arg_count(op: StreamOp) -> (n: usize)
    ensures
        n == stream_arity(op),
{
    match op {
        StreamOp::WriteByte | StreamOp::WriteBytes | StreamOp::WriteRange => 2,
        StreamOp::Flush | StreamOp::Close => 0,
        _ => 1,
    }
}

/// Runs a `ByteArrayOutputStream` native.
pub fn invoke_byte_stream(heap: &mut Heap, op: StreamOp, args: &[Value]) -> (res: Result<Option<Value>, VmError>)
    requires
        args@.len() >= stream_arity(op),
        stream_pre(old(heap)@, op, args@),
    ensures
        stream_answers(final(heap)@, stream_spec(old(heap)@, op, args@), res),
{
    match op {
        StreamOp::Flush | StreamOp::Close => Ok(None),
        StreamOp::Init => {
            let r = args[0].as_reference()?;
            let mut zeros: Vec<i32> = Vec::new();
            let mut i: usize = 0;
            while i < 32
                invariant
                    i <= 32,
                    zeros@ == Seq::new(i as nat, |k: int| 0i32),
                decreases 32 - i,
            {
                zeros.push(0);
                i = i + 1;
                assert(zeros@ =~= Seq::new(i as nat, |k: int| 0i32));
            }
            let buf = heap.allocate(HeapValue::IntArray { values: zeros });
            write_nth_field(heap, r, 0, Value::Reference(buf))?;
            write_nth_field(heap, r, 1, Value::Int(0))?;
            Ok(None)
        },
        StreamOp::WriteByte => {
            let r = args[0].as_reference()?;
            let x = args[1].as_int()?;
            if let Some((b, n)) = read_state(heap, r)? {
                let k = match b {
                    Reference::Heap(k) => k,
                    Reference::Null => {
                        return Err(VmError::NullReference);
                    },
                };
                if k >= heap.values.len() {
                    return Err(VmError::InvalidReference);
                }
                let ghost h0 = heap@;
                let is_array = match &heap.values[k] {
                    HeapValue::IntArray { .. } => true,
                    _ => false,
                };
                if is_array {
                    if let HeapValue::IntArray { values } = &mut heap.values[k] {
                        if n >= 0 && (n as usize) < values.len() {
                            values.set(n as usize, x);
                        } else {
                            values.push(x);
                        }
                    }
                    proof {
                        let vs = match h0[k as int] {
                            Obj::IntArray(vs) => vs,
                            _ => Seq::empty(),
                        };
                        let vs2 = if 0 <= n < vs.len() { vs.update(n as int, x) } else { vs.push(x) };
                        assert(heap@ =~= h0.update(k as int, Obj::IntArray(vs2)));
                    }
                    write_nth_field(heap, r, 1, Value::Int(n.wrapping_add(1)))?;
                }
            }
            Ok(None)
        },
        StreamOp::WriteBytes | StreamOp::WriteRange => {
            let r = args[0].as_reference()?;
            let s = args[1].as_reference()?;
            let src: Vec<i32> = match heap.get(s)? {
                HeapValue::IntArray { values } => copy_ints(values),
                _ => Vec::new(),
            };
            let src_count = src.len() as i32;
            let off = if args.len() > 2 { args[2].as_int()? } else { 0 };
            let len = if args.len() > 3 { args[3].as_int()? } else { src_count };
            let o = if off < 0 { 0 } else { off };
            let l0 = if len < 0 { 0 } else { len };
            let d: i64 = src_count as i64 - o as i64;
            let room: i32 = if d < -2147483648i64 { i32::MIN } else { d as i32 };
            let l = if l0 < room { l0 } else { room };
            assert((o, l) == copy_range(src@.len() as i32, off, len));
            if let Some((b, n)) = read_state(heap, r)? {
                let k = match b {
                    Reference::Heap(k) => k,
                    Reference::Null => {
                        return Err(VmError::NullReference);
                    },
                };
                if k >= heap.values.len() {
                    return Err(VmError::InvalidReference);
                }
                let ghost h0 = heap@;
                let is_array = match &heap.values[k] {
                    HeapValue::IntArray { .. } => true,
                    _ => false,
                };
                if is_array {
                    if let HeapValue::IntArray { values } = &mut heap.values[k] {
                        let ghost vs = values@;
                        let mut i: i32 = 0;
                        while i < l
                            invariant
                                0 <= i,
                                l <= 0 ==> i == 0,
                                l <= 0 || (0 <= n && n + l <= vs.len() && n + l <= i32::MAX + 1 && i <= l && o + l <= i32::MAX),
                                values@.len() == vs.len(),
                                0 <= o,
                                forall|j: int| 0 <= j < vs.len() ==> values@[j] == (if n <= j < n + i && o + (j - n) < src@.len() { src@[o + (j - n)] } else { vs[j] }),
                            decreases l - i,
                        {
                            let idx = o + i;
                            let at = n + i;
                            if (idx as usize) < src.len() {
                                values.set(at as usize, src[idx as usize]);
                            }
                            i = i + 1;
                        }
                        proof {
                            assert(values@ =~= Seq::new(vs.len(), |j: int| if n <= j < n + l && o + (j - n) < src@.len() { src@[o + (j - n)] } else { vs[j] }));
                        }
                    }
                    proof {
                        assert(heap@ =~= h0.update(k as int, heap@[k as int]));
                    }
                    write_nth_field(heap, r, 1, Value::Int(n.wrapping_add(l)))?;
                }
            }
            Ok(None)
        },
        StreamOp::ToStr | StreamOp::ToByteArray => {
            let r = args[0].as_reference()?;
            match read_state(heap, r)? {
                None => Ok(Some(Value::Reference(Reference::Null))),
                Some((b, n)) => {
                    let vs = match heap.get(b)? {
                        HeapValue::IntArray { values } => take_values(values, n),
                        _ => Vec::new(),
                    };
                    let cell = match op {
                        StreamOp::ToStr => HeapValue::String(byte_chars(&vs)),
                        _ => HeapValue::IntArray { values: vs },
                    };
                    Ok(Some(Value::Reference(heap.allocate(cell))))
                },
            }
        },
        StreamOp::Size => {
            let r = args[0].as_reference()?;
            match heap.get(r)? {
                HeapValue::Object { fields, .. } => {
                    if fields.len() > 1 {
                        match fields[1].value {
                            Value::Int(n) => Ok(Some(Value::Int(n))),
                            _ => Ok(Some(Value::Int(0))),
                        }
                    } else {
                        Ok(Some(Value::Int(0)))
                    }
                },
                _ => Ok(Some(Value::Int(0))),
            }
        },
        StreamOp::Reset => {
            let r = args[0].as_reference()?;
            write_nth_field(heap, r, 1, Value::Int(0))?;
            Ok(None)
        },
    }
}


/// Whether a native can be run on these arguments: there are enough of
/// them and `stream_pre` holds.
pub fn stream_callable(heap: &Heap, op: StreamOp, args: &[Value]) -> (res: bool)
    ensures
        res == (args@.len() >= stream_arity(op) && stream_pre(heap@, op, args@)),
{
    if args.len() < stream_arg_count(op) {
        return false;
    }
    match op {
        StreamOp::Init | StreamOp::Reset => match args[0].as_reference() {
            Ok(r) => match heap.get(r) {
                Ok(HeapValue::Object { fields, .. }) => fields.len() >= 2,
                _ => true,
            },
            Err(_) => true,
        },
        StreamOp::WriteBytes | StreamOp::WriteRange => {
            let (r, s) = match (args[0].as_reference(), args[1].as_reference()) {
                (Ok(r), Ok(s)) => (r, s),
                _ => {
                    return true;
                },
            };
            let src_len: usize = match heap.get(s) {
                Ok(HeapValue::IntArray { values }) => values.len(),
                Ok(_) => 0,
                Err(_) => {
                    return true;
                },
            };
            let src_count = src_len as i32;
            let off = if args.len() > 2 {
                match args[2].as_int() {
                    Ok(x) => x,
                    Err(_) => {
                        return true;
                    },
                }
            } else {
                0
            };
            let len = if args.len() > 3 {
                match args[3].as_int() {
                    Ok(x) => x,
                    Err(_) => {
                        return true;
                    },
                }
            } else {
                src_count
            };
            let o = if off < 0 { 0 } else { off };
            let l0 = if len < 0 { 0 } else { len };
            let d: i64 = src_count as i64 - o as i64;
            let room: i32 = if d < -2147483648i64 { i32::MIN } else { d as i32 };
            let l = if l0 < room { l0 } else { room };
            assert(l == copy_range(src_count, off, len).1);
            if l <= 0 {
                return true;
            }
            match read_state(heap, r) {
                Ok(Some((b, n))) => match heap.get(b) {
                    Ok(HeapValue::IntArray { values }) => 0 <= n && (n as i64 + l as i64) <= 2147483648i64
                        && ((n as i64 + l as i64) as usize) <= values.len(),
                    _ => true,
                },
                _ => true,
            }
        },
        _ => true,
    }
}

/// The bytes a stream holds: the first `count` elements of its buffer.
pub open spec fn stream_bytes(heap: Seq<Obj>, r: Reference) -> Option<Seq<i32>> {
    match stream_state(heap, r) {
        Ok(Some((b, n))) => match deref(heap, b) {
            Some(Obj::IntArray(vs)) => Some(taken(vs, n)),
            _ => None,
        },
        _ => None,
    }
}

/// A stream whose count lies within its buffer.
pub open spec fn stream_wf(heap: Seq<Obj>, r: Reference) -> bool {
    stream_state(heap, r) matches Ok(Some((b, n))) && deref(heap, b) matches Some(Obj::IntArray(vs))
        && 0 <= n <= vs.len() && n < i32::MAX
}

/// Writing a byte to a stream appends it to the bytes the stream holds,
/// and the stream stays well formed.
pub proof fn law_write_appends(heap: Seq<Obj>, r: Reference, x: i32)
    requires
        stream_wf(heap, r),
    ensures
        stream_spec(heap, StreamOp::WriteByte, seq![Value::Reference(r), Value::Int(x)]) matches (Ok(None), h1)
            && stream_bytes(h1, r) == Some(stream_bytes(heap, r)->0.push(x)),
{
    if let Ok(Some((b, n))) = stream_state(heap, r) {
        if let Some(Obj::IntArray(vs)) = deref(heap, b) {
            let vs2 = if 0 <= n < vs.len() { vs.update(n as int, x) } else { vs.push(x) };
            let h1 = heap.update(b->Heap_0 as int, Obj::IntArray(vs2));
            let h2 = set_nth_field(h1, r, 1, Value::Int(n.wrapping_add(1)));
            assert(n.wrapping_add(1) == n + 1);
            if let Some(Obj::Object { class_name, fields }) = deref(heap, r) {
                let f2 = fields.update(1, (fields[1].0, Value::Int((n + 1) as i32)));
                assert(deref(h2, r) == Some(Obj::Object { class_name, fields: f2 }));
                assert(ref_at(f2, 0) == ref_at(fields, 0));
                assert(int_count(f2) == Some((n + 1) as i32));
                assert(stream_state(h2, r) == Ok::<Option<(Reference, i32)>, VmError>(Some((b, (n + 1) as i32))));
                assert(deref(h2, b) == Some(Obj::IntArray(vs2)));
            }
            assert(taken(vs2, (n + 1) as i32) =~= taken(vs, n).push(x));
        }
    }
}

} // verus!
