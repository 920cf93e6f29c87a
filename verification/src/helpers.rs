//! Heap helpers shared by the native methods: reading strings, boxed values
//! and hidden fields, hashing and comparing arrays, and `System.arraycopy`.

use vstd::prelude::*;
use vstd::std_specs::cmp::PartialEqSpec;
use crate::chars::lit;
use crate::heap::{deref, deref_error, Heap};
use crate::model::{field_get, obj_kind, Expected, HeapKind, HeapValue, Obj, Reference, Value, VmError, exception, fails_with, Fault};
use crate::numfmt::{decimal, long_to_decimal, radix_digits, unsigned_digits};

verus! {

/// The internal class name of a heap cell as `getClass` reports it.
pub open spec fn class_name_of(o: Obj) -> Seq<char> {
    match o {
        Obj::Object { class_name, .. } => class_name,
        Obj::Str(_) => "java/lang/String"@,
        Obj::Builder(_) => "java/lang/StringBuilder"@,
        Obj::IntArray(_) => "[I"@,
        Obj::LongArray(_) => "[J"@,
        Obj::FloatArray(_) => "[F"@,
        Obj::DoubleArray(_) => "[D"@,
        Obj::RefArray { component_type, .. } => seq!['['].add(component_type),
    }
}

/// `/` replaced by `.` throughout.
pub open spec fn dotted(s: Seq<char>) -> Seq<char> {
    s.map_values(|c: char| if c == '/' { '.' } else { c })
}

/// `Object.toString` of a heap cell: dotted class name, `@`, hex identity.
pub open spec fn identity_string(o: Obj, idx: nat) -> Seq<char> {
    dotted(class_name_of(o)).add(seq!['@']).add(radix_digits(idx, 16))
}

/// The string form of a heap cell used by printing and concatenation:
/// strings and builders give their text, boxed `int`/`long` values their
/// decimal value, anything else its identity string.
pub open spec fn display_string(heap: Seq<Obj>, r: Reference) -> Result<Seq<char>, VmError> {
    match r {
        Reference::Null => Ok("null"@),
        Reference::Heap(i) => match deref(heap, r) {
            None => Err(VmError::InvalidReference),
            Some(Obj::Str(s)) => Ok(s),
            Some(Obj::Builder(s)) => Ok(s),
            Some(o) => match o {
                Obj::Object { fields, .. } => match field_get(fields, "value"@) {
                    Some(Value::Int(v)) => Ok(decimal(v as int)),
                    Some(Value::Long(v)) => Ok(decimal(v as int)),
                    _ => Ok(identity_string(o, i as nat)),
                },
                _ => Ok(identity_string(o, i as nat)),
            },
        },
    }
}

/// The text of a `java.lang.String` reference (`null` reads as `"null"`).
pub open spec fn string_value(heap: Seq<Obj>, r: Reference) -> Result<Seq<char>, VmError> {
    match r {
        Reference::Null => Ok("null"@),
        _ => match deref(heap, r) {
            None => Err(deref_error(r)),
            Some(Obj::Str(s)) => Ok(s),
            Some(o) => Err(VmError::InvalidHeapValue { expected: Expected::String, actual: obj_kind(o) }),
        },
    }
}

/// Clones a character vector.
pub fn copy_chars(s: &Vec<char>) -> (res: Vec<char>)
    ensures
        res@ == s@,
{
    let mut res = Vec::new();
    let mut i: usize = 0;
    while i < s.len()
        invariant
            i <= s@.len(),
            res@ == s@.subrange(0, i as int),
        decreases s@.len() - i,
    {
        res.push(s[i]);
        i = i + 1;
    }
    assert(res@ =~= s@);
    res
}

/// `/` replaced by `.` throughout.
pub fn dotted_name(s: &Vec<char>) -> (res: Vec<char>)
    ensures
        res@ == dotted(s@),
{
    let mut res = Vec::new();
    let mut i: usize = 0;
    while i < s.len()
        invariant
            i <= s@.len(),
            res@ == dotted(s@.subrange(0, i as int)),
        decreases s@.len() - i,
    {
        let c = s[i];
        res.push(if c == '/' { '.' } else { c });
        i = i + 1;
        assert(dotted(s@.subrange(0, i as int)) =~= dotted(s@.subrange(0, i - 1)).push(
            if c == '/' { '.' } else { c },
        ));
    }
    assert(s@.subrange(0, s@.len() as int) =~= s@);
    res
}

/// Appends the characters of `b` to `a`.
pub fn append_chars(a: &mut Vec<char>, b: &Vec<char>)
    ensures
        final(a)@ == old(a)@.add(b@),
{
    let mut i: usize = 0;
    while i < b.len()
        invariant
            i <= b@.len(),
            a@ == old(a)@.add(b@.subrange(0, i as int)),
        decreases b@.len() - i,
    {
        a.push(b[i]);
        i = i + 1;
        assert(a@ =~= old(a)@.add(b@.subrange(0, i as int)));
    }
    assert(b@.subrange(0, b@.len() as int) =~= b@);
}

/// The class name `getClass` reports for a cell.
pub fn cell_class_name(v: &HeapValue) -> (res: Vec<char>)
    ensures
        res@ == class_name_of(v@),
{
    match v {
        HeapValue::Object { class_name, .. } => copy_chars(class_name),
        HeapValue::String(_) => lit("java/lang/String"),
        HeapValue::StringBuilder(_) => lit("java/lang/StringBuilder"),
        HeapValue::IntArray { .. } => lit("[I"),
        HeapValue::LongArray { .. } => lit("[J"),
        HeapValue::FloatArray { .. } => lit("[F"),
        HeapValue::DoubleArray { .. } => lit("[D"),
        HeapValue::ReferenceArray { component_type, .. } => {
            let mut res = Vec::new();
            res.push('[');
            append_chars(&mut res, component_type);
            assert(res@ =~= seq!['['].add(component_type@));
            res
        },
    }
}

/// `Object.toString` of the cell at index `idx`.
pub fn identity_text(v: &HeapValue, idx: usize) -> (res: Vec<char>)
    ensures
        res@ == identity_string(v@, idx as nat),
{
    let name = cell_class_name(v);
    let mut res = dotted_name(&name);
    res.push('@');
    let hex = unsigned_digits(idx as u64, 16);
    append_chars(&mut res, &hex);
    res
}

/// The text of a `java.lang.String` reference (`null` reads as `"null"`).
pub fn stringify_reference(heap: &Heap, reference: Reference) -> (res: Result<Vec<char>, VmError>)
    ensures
        match res {
            Ok(s) => string_value(heap@, reference) == Ok::<Seq<char>, VmError>(s@),
            Err(e) => string_value(heap@, reference) == Err::<Seq<char>, VmError>(e),
        },
{
    match reference {
        Reference::Null => Ok(lit("null")),
        _ => match heap.get(reference)? {
            HeapValue::String(value) => Ok(copy_chars(value)),
            value => Err(
                VmError::InvalidHeapValue { expected: Expected::String, actual: value.kind_name() },
            ),
        },
    }
}

/// The string form of any reference, as printing and string concatenation use it.
pub fn stringify_heap(heap: &Heap, reference: Reference) -> (res: Result<Vec<char>, VmError>)
    ensures
        match res {
            Ok(s) => display_string(heap@, reference) == Ok::<Seq<char>, VmError>(s@),
            Err(e) => display_string(heap@, reference) == Err::<Seq<char>, VmError>(e),
        },
{
    match reference {
        Reference::Null => Ok(lit("null")),
        Reference::Heap(i) => {
            if i >= heap.values.len() {
                return Err(VmError::InvalidReference);
            }
            let v = &heap.values[i];
            match v {
                HeapValue::String(s) => Ok(copy_chars(s)),
                HeapValue::StringBuilder(s) => Ok(copy_chars(s)),
                HeapValue::Object { fields, .. } => match crate::heap::field_lookup(fields, "value") {
                    Some(Value::Int(n)) => Ok(long_to_decimal(n as i64)),
                    Some(Value::Long(n)) => Ok(long_to_decimal(n)),
                    _ => Ok(identity_text(v, i)),
                },
                _ => Ok(identity_text(v, i)),
            }
        },
    }
}

/// The reference held in the hidden `__array` field of an object.
pub open spec fn hidden_array(heap: Seq<Obj>, r: Reference) -> Result<Reference, VmError> {
    match deref(heap, r) {
        None => Err(deref_error(r)),
        Some(Obj::Object { fields, .. }) => match field_get(fields, "__array"@) {
            Some(Value::Reference(a)) => Ok(a),
            _ => Err(VmError::NullReference),
        },
        Some(o) => Err(VmError::InvalidHeapValue { expected: Expected::Object, actual: obj_kind(o) }),
    }
}

/// Reads the hidden `__array` field that backs the native streams and collectors.
fn hidden_array_field(heap: &Heap, r: Reference) -> (res: Result<Reference, VmError>)
    ensures
        match res {
            Ok(a) => hidden_array(heap@, r) == Ok::<Reference, VmError>(a),
            Err(e) => hidden_array(heap@, r) == Err::<Reference, VmError>(e),
        },
{
    match heap.get(r)? {
        HeapValue::Object { fields, .. } => match crate::heap::field_lookup(fields, "__array") {
            Some(Value::Reference(a)) => Ok(a),
            _ => Err(VmError::NullReference),
        },
        value => Err(
            VmError::InvalidHeapValue { expected: Expected::Object, actual: value.kind_name() },
        ),
    }
}

/// The array backing a native `IntStream`.
pub fn native_int_stream_array(heap: &Heap, stream_ref: Reference) -> (res: Result<Reference, VmError>)
    ensures
        match res {
            Ok(a) => hidden_array(heap@, stream_ref) == Ok::<Reference, VmError>(a),
            Err(e) => hidden_array(heap@, stream_ref) == Err::<Reference, VmError>(e),
        },
{
    hidden_array_field(heap, stream_ref)
}

/// The array backing a native `LongStream`.
pub fn native_long_stream_array(heap: &Heap, stream_ref: Reference) -> (res: Result<Reference, VmError>)
    ensures
        match res {
            Ok(a) => hidden_array(heap@, stream_ref) == Ok::<Reference, VmError>(a),
            Err(e) => hidden_array(heap@, stream_ref) == Err::<Reference, VmError>(e),
        },
{
    hidden_array_field(heap, stream_ref)
}

/// The array backing a native `DoubleStream`.
pub fn native_double_stream_array(heap: &Heap, stream_ref: Reference) -> (res: Result<Reference, VmError>)
    ensures
        match res {
            Ok(a) => hidden_array(heap@, stream_ref) == Ok::<Reference, VmError>(a),
            Err(e) => hidden_array(heap@, stream_ref) == Err::<Reference, VmError>(e),
        },
{
    hidden_array_field(heap, stream_ref)
}

/// The argument (delimiter) stored in a native collector.
pub fn native_collector_array(heap: &Heap, collector_ref: Reference) -> (res: Result<Reference, VmError>)
    ensures
        match res {
            Ok(a) => hidden_array(heap@, collector_ref) == Ok::<Reference, VmError>(a),
            Err(e) => hidden_array(heap@, collector_ref) == Err::<Reference, VmError>(e),
        },
{
    hidden_array_field(heap, collector_ref)
}

/// The mode of a native collector: its `__mode` field, 0 when absent or not an object.
pub open spec fn collector_mode(heap: Seq<Obj>, r: Reference) -> Result<i32, VmError> {
    match deref(heap, r) {
        None => Err(deref_error(r)),
        Some(Obj::Object { fields, .. }) => match field_get(fields, "__mode"@) {
            Some(Value::Int(m)) => Ok(m),
            _ => Ok(0),
        },
        Some(_) => Ok(0),
    }
}

pub fn native_collector_mode(heap: &Heap, collector_ref: Reference) -> (res: Result<i32, VmError>)
    ensures
        match res {
            Ok(m) => collector_mode(heap@, collector_ref) == Ok::<i32, VmError>(m),
            Err(e) => collector_mode(heap@, collector_ref) == Err::<i32, VmError>(e),
        },
{
    match heap.get(collector_ref)? {
        HeapValue::Object { fields, .. } => match crate::heap::field_lookup(fields, "__mode") {
            Some(Value::Int(mode)) => Ok(mode),
            _ => Ok(0),
        },
        _ => Ok(0),
    }
}

/// The internal name of a `Class` object: its `__name` string if it has
/// one, otherwise the class of the object itself.
pub open spec fn class_internal(heap: Seq<Obj>, r: Reference) -> Result<Seq<char>, VmError> {
    match deref(heap, r) {
        None => Err(deref_error(r)),
        Some(Obj::Object { class_name, fields }) => match field_get(fields, "__name"@) {
            Some(Value::Reference(n)) => match deref(heap, n) {
                None => Err(deref_error(n)),
                Some(Obj::Str(s)) => Ok(s),
                Some(_) => Ok(class_name),
            },
            _ => Ok(class_name),
        },
        Some(o) => Err(VmError::InvalidHeapValue { expected: Expected::Object, actual: obj_kind(o) }),
    }
}

pub fn class_internal_name(heap: &Heap, reference: Reference) -> (res: Result<Vec<char>, VmError>)
    ensures
        match res {
            Ok(s) => class_internal(heap@, reference) == Ok::<Seq<char>, VmError>(s@),
            Err(e) => class_internal(heap@, reference) == Err::<Seq<char>, VmError>(e),
        },
{
    match heap.get(reference)? {
        HeapValue::Object { fields, class_name } => {
            if let Some(Value::Reference(name_ref)) = crate::heap::field_lookup(fields, "__name") {
                if let HeapValue::String(s) = heap.get(name_ref)? {
                    return Ok(copy_chars(s));
                }
            }
            Ok(copy_chars(class_name))
        },
        value => Err(
            VmError::InvalidHeapValue { expected: Expected::Object, actual: value.kind_name() },
        ),
    }
}

/// The `int` held by a boxed integer's `value` field, 0 otherwise.
pub open spec fn boxed_int(heap: Seq<Obj>, r: Reference) -> Result<i32, VmError> {
    match deref(heap, r) {
        None => Err(deref_error(r)),
        Some(Obj::Object { fields, .. }) => match field_get(fields, "value"@) {
            Some(Value::Int(i)) => Ok(i),
            _ => Ok(0),
        },
        Some(_) => Ok(0),
    }
}

pub fn integer_value(heap: &Heap, reference: Reference) -> (res: Result<i32, VmError>)
    ensures
        match res {
            Ok(i) => boxed_int(heap@, reference) == Ok::<i32, VmError>(i),
            Err(e) => boxed_int(heap@, reference) == Err::<i32, VmError>(e),
        },
{
    match heap.get(reference)? {
        HeapValue::Object { fields, .. } => match crate::heap::field_lookup(fields, "value") {
            Some(Value::Int(i)) => Ok(i),
            _ => Ok(0),
        },
        _ => Ok(0),
    }
}

/// The identity hash of a reference: 0 for `null`, otherwise the heap
/// index folded to 32 bits.
pub open spec fn identity_hash(r: Reference) -> i32 {
    match r {
        Reference::Null => 0,
        Reference::Heap(idx) => (((idx as i64) >> 32u64) ^ (idx as i64)) as i32,
    }
}

pub fn hash_object(reference: Reference) -> (h: i32)
    ensures
        h == identity_hash(reference),
{
    match reference {
        Reference::Null => 0,
        Reference::Heap(idx) => {
            let base = idx as i64;
            ((base >> 32u64) ^ base) as i32
        },
    }
}

/// `Arrays.hashCode`: 31 times the hash of the prefix, plus the last element's hash.
pub open spec fn hash_fold(hs: Seq<i32>) -> i32
    decreases hs.len(),
{
    if hs.len() == 0 {
        0
    } else {
        hash_fold(hs.drop_last()).wrapping_mul(31).wrapping_add(hs.last())
    }
}

/// The hash of a `long` element: its two halves xor-ed together.
pub open spec fn long_hash(v: i64) -> i32 {
    ((v as u64) ^ ((v as u64) >> 32u64)) as i32
}

/// Folds element hashes with `Arrays.hashCode`'s recurrence.
pub fn hash_elements(hs: &[i32]) -> (h: i32)
    ensures
        h == hash_fold(hs@),
{
    let mut h: i32 = 0;
    let mut i: usize = 0;
    while i < hs.len()
        invariant
            i <= hs@.len(),
            h == hash_fold(hs@.subrange(0, i as int)),
        decreases hs@.len() - i,
    {
        assert(hs@.subrange(0, i + 1).drop_last() =~= hs@.subrange(0, i as int));
        h = h.wrapping_mul(31).wrapping_add(hs[i]);
        i = i + 1;
    }
    assert(hs@.subrange(0, hs@.len() as int) =~= hs@);
    h
}

/// What hashing an array's elements gives: the hash, or, for a `float[]`,
/// the element bit patterns, whose hashes are the float values converted
/// to `int` (the caller then folds them with `hash_elements`).
pub enum ArrayHash {
    Hash(i32),
    FloatBits(Vec<u32>),
}

/// The element hashes of an array cell.
pub open spec fn element_hashes(o: Obj) -> Option<Seq<i32>> {
    match o {
        Obj::RefArray { values, .. } => Some(values.map_values(|r: Reference| identity_hash(r))),
        Obj::IntArray(values) => Some(values),
        Obj::LongArray(values) => Some(values.map_values(|v: i64| long_hash(v))),
        Obj::DoubleArray(values) => Some(values.map_values(|b: u64| long_hash(b as i64))),
        _ => None,
    }
}

/// `Arrays.hashCode` of an array: the folded element hashes; a cell that is
/// not an array hashes like its reference; a `float[]` is handed back as bits.
pub fn hash_array_elements(heap: &Heap, arr_ref: Reference) -> (res: Result<ArrayHash, VmError>)
    ensures
        match res {
            Err(e) => deref(heap@, arr_ref) is None && e == deref_error(arr_ref),
            Ok(ArrayHash::Hash(h)) => match deref(heap@, arr_ref) {
                Some(o) => match element_hashes(o) {
                    Some(hs) => h == hash_fold(hs),
                    None => !(o is FloatArray) && h == identity_hash(arr_ref),
                },
                None => false,
            },
            Ok(ArrayHash::FloatBits(bits)) => deref(heap@, arr_ref) == Some(Obj::FloatArray(bits@)),
        },
{
    let value = heap.get(arr_ref)?;
    match value {
        HeapValue::ReferenceArray { values, .. } => {
            let mut hs: Vec<i32> = Vec::new();
            let mut i: usize = 0;
            while i < values.len()
                invariant
                    i <= values@.len(),
                    hs@ == values@.subrange(0, i as int).map_values(|r: Reference| identity_hash(r)),
                decreases values@.len() - i,
            {
                hs.push(hash_object(values[i]));
                i = i + 1;
                assert(hs@ =~= values@.subrange(0, i as int).map_values(
                    |r: Reference| identity_hash(r),
                ));
            }
            assert(values@.subrange(0, values@.len() as int) =~= values@);
            Ok(ArrayHash::Hash(hash_elements(hs.as_slice())))
        },
        HeapValue::IntArray { values } => Ok(ArrayHash::Hash(hash_elements(values.as_slice()))),
        HeapValue::LongArray { values } => {
            let mut hs: Vec<i32> = Vec::new();
            let mut i: usize = 0;
            while i < values.len()
                invariant
                    i <= values@.len(),
                    hs@ == values@.subrange(0, i as int).map_values(|v: i64| long_hash(v)),
                decreases values@.len() - i,
            {
                let v = values[i];
                hs.push(((v as u64) ^ ((v as u64) >> 32u64)) as i32);
                i = i + 1;
                assert(hs@ =~= values@.subrange(0, i as int).map_values(|v: i64| long_hash(v)));
            }
            assert(values@.subrange(0, values@.len() as int) =~= values@);
            Ok(ArrayHash::Hash(hash_elements(hs.as_slice())))
        },
        HeapValue::DoubleArray { values } => {
            let mut hs: Vec<i32> = Vec::new();
            let mut i: usize = 0;
            while i < values.len()
                invariant
                    i <= values@.len(),
                    hs@ == values@.subrange(0, i as int).map_values(|b: u64| long_hash(b as i64)),
                decreases values@.len() - i,
            {
                let b = values[i];
                hs.push((((b as i64) as u64) ^ (((b as i64) as u64) >> 32u64)) as i32);
                i = i + 1;
                assert(hs@ =~= values@.subrange(0, i as int).map_values(
                    |b: u64| long_hash(b as i64),
                ));
            }
            assert(values@.subrange(0, values@.len() as int) =~= values@);
            Ok(ArrayHash::Hash(hash_elements(hs.as_slice())))
        },
        HeapValue::FloatArray { values } => {
            let mut bits: Vec<u32> = Vec::new();
            let mut i: usize = 0;
            while i < values.len()
                invariant
                    i <= values@.len(),
                    bits@ == values@.subrange(0, i as int),
                decreases values@.len() - i,
            {
                bits.push(values[i]);
                i = i + 1;
            }
            assert(bits@ =~= values@);
            Ok(ArrayHash::FloatBits(bits))
        },
        _ => Ok(ArrayHash::Hash(hash_object(arr_ref))),
    }
}


/// The length of an array cell.
pub open spec fn array_len(o: Obj) -> Option<nat> {
    match o {
        Obj::IntArray(v) => Some(v.len()),
        Obj::LongArray(v) => Some(v.len()),
        Obj::FloatArray(v) => Some(v.len()),
        Obj::DoubleArray(v) => Some(v.len()),
        Obj::RefArray { values, .. } => Some(values.len()),
        _ => None,
    }
}

/// `d` with `n` elements from position `dp` replaced by `s[sp..sp+n]`.
pub open spec fn splice<T>(d: Seq<T>, dp: int, s: Seq<T>, sp: int, n: int) -> Seq<T> {
    d.subrange(0, dp).add(s.subrange(sp, sp + n)).add(d.subrange(dp + n, d.len() as int))
}

/// The destination array after copying, when source and destination have
/// the same element type.
pub open spec fn copy_into(s: Obj, sp: int, d: Obj, dp: int, n: int) -> Option<Obj> {
    match (s, d) {
        (Obj::IntArray(x), Obj::IntArray(y)) => Some(Obj::IntArray(splice(y, dp, x, sp, n))),
        (Obj::LongArray(x), Obj::LongArray(y)) => Some(Obj::LongArray(splice(y, dp, x, sp, n))),
        (Obj::FloatArray(x), Obj::FloatArray(y)) => Some(Obj::FloatArray(splice(y, dp, x, sp, n))),
        (Obj::DoubleArray(x), Obj::DoubleArray(y)) => Some(
            Obj::DoubleArray(splice(y, dp, x, sp, n)),
        ),
        (Obj::RefArray { values: x, .. }, Obj::RefArray { component_type, values: y }) => Some(
            Obj::RefArray { component_type, values: splice(y, dp, x, sp, n) },
        ),
        _ => None,
    }
}

/// `System.arraycopy`: the heap afterwards, or how it fails.
pub open spec fn arraycopy_spec(
    heap: Seq<Obj>,
    src: Reference,
    src_pos: i32,
    dst: Reference,
    dst_pos: i32,
    length: i32,
) -> Result<Seq<Obj>, Fault> {
    let oob = Fault::Exception("java/lang/ArrayIndexOutOfBoundsException"@);
    if length < 0 || src_pos < 0 || dst_pos < 0 {
        Err(oob)
    } else {
        match deref(heap, src) {
            None => Err(Fault::Error(deref_error(src))),
            Some(s) => match array_len(s) {
                None => Err(
                    Fault::Error(
                        VmError::InvalidHeapValue { expected: Expected::Array, actual: obj_kind(s) },
                    ),
                ),
                Some(slen) => if src_pos + length > slen {
                    Err(oob)
                } else {
                    match deref(heap, dst) {
                        None => Err(Fault::Error(deref_error(dst))),
                        Some(d) => match copy_into(s, src_pos as int, d, dst_pos as int, length as int) {
                            None => Err(Fault::Exception("java/lang/ArrayStoreException"@)),
                            Some(nd) => if dst_pos + length > array_len(d).unwrap() {
                                Err(oob)
                            } else {
                                Ok(heap.update(dst->Heap_0 as int, nd))
                            },
                        },
                    }
                },
            },
        }
    }
}

/// Elements `start..start+n` of a vector.
fn slice_copy<T: Copy>(v: &Vec<T>, start: usize, n: usize) -> (res: Vec<T>)
    requires
        start + n <= v@.len(),
    ensures
        res@ == v@.subrange(start as int, start + n),
{
    let mut res = Vec::new();
    let mut i: usize = 0;
    while i < n
        invariant
            start + n <= v.len(),
            i <= n,
            res@ == v@.subrange(start as int, start + i),
        decreases n - i,
    {
        res.push(v[start + i]);
        i = i + 1;
        assert(res@ =~= v@.subrange(start as int, start + i));
    }
    res
}

/// Overwrites `dst[pos..pos+src.len()]` with `src`.
fn write_range<T: Copy>(dst: &mut Vec<T>, pos: usize, src: &Vec<T>)
    requires
        pos + src@.len() <= old(dst)@.len(),
    ensures
        final(dst)@ == old(dst)@.subrange(0, pos as int).add(src@).add(
            old(dst)@.subrange(pos + src@.len(), old(dst)@.len() as int),
        ),
{
    let mut i: usize = 0;
    while i < src.len()
        invariant
            pos + src@.len() <= old(dst)@.len(),
            i <= src@.len(),
            dst@.len() == old(dst)@.len(),
            pos + src.len() <= dst.len(),
            forall|k: int| 0 <= k < dst@.len() ==> dst@[k] == if pos <= k < pos + i {
                src@[k - pos]
            } else {
                old(dst)@[k]
            },
        decreases src@.len() - i,
    {
        dst.set(pos + i, src[i]);
        i = i + 1;
    }
    assert(dst@ =~= old(dst)@.subrange(0, pos as int).add(src@).add(
        old(dst)@.subrange(pos + src@.len(), old(dst)@.len() as int),
    ));
}

/// A copied run of array elements, tagged by element type.
enum Run {
    I(Vec<i32>),
    J(Vec<i64>),
    F(Vec<u32>),
    D(Vec<u64>),
    L(Vec<Reference>),
}

/// `System.arraycopy(src, srcPos, dst, dstPos, length)`.
pub fn arraycopy(
    heap: &mut Heap,
    src: Reference,
    src_pos: i32,
    dst: Reference,
    dst_pos: i32,
    length: i32,
) -> (res: Result<(), VmError>)
    ensures
        match res {
            Ok(()) => arraycopy_spec(old(heap)@, src, src_pos, dst, dst_pos, length) == Ok::<
                Seq<Obj>,
                Fault,
            >(final(heap)@),
            Err(e) => fails_with(arraycopy_spec(old(heap)@, src, src_pos, dst, dst_pos, length), e)
                && final(heap)@ == old(heap)@,
        },
{
    if length < 0 || src_pos < 0 || dst_pos < 0 {
        return Err(exception("java/lang/ArrayIndexOutOfBoundsException"));
    }
    let sp = src_pos as usize;
    let dp = dst_pos as usize;
    let n = length as usize;
    let ghost s_obj = deref(heap@, src);
    let run = match heap.get(src)? {
        HeapValue::IntArray { values } => {
            if sp + n > values.len() {
                return Err(exception("java/lang/ArrayIndexOutOfBoundsException"));
            }
            Run::I(slice_copy(values, sp, n))
        },
        HeapValue::LongArray { values } => {
            if sp + n > values.len() {
                return Err(exception("java/lang/ArrayIndexOutOfBoundsException"));
            }
            Run::J(slice_copy(values, sp, n))
        },
        HeapValue::FloatArray { values } => {
            if sp + n > values.len() {
                return Err(exception("java/lang/ArrayIndexOutOfBoundsException"));
            }
            Run::F(slice_copy(values, sp, n))
        },
        HeapValue::DoubleArray { values } => {
            if sp + n > values.len() {
                return Err(exception("java/lang/ArrayIndexOutOfBoundsException"));
            }
            Run::D(slice_copy(values, sp, n))
        },
        HeapValue::ReferenceArray { values, .. } => {
            if sp + n > values.len() {
                return Err(exception("java/lang/ArrayIndexOutOfBoundsException"));
            }
            Run::L(slice_copy(values, sp, n))
        },
        other => {
            return Err(
                VmError::InvalidHeapValue { expected: Expected::Array, actual: other.kind_name() },
            );
        },
    };
    let di = match dst {
        Reference::Null => {
            return Err(VmError::NullReference);
        },
        Reference::Heap(i) => {
            if i >= heap.values.len() {
                return Err(VmError::InvalidReference);
            }
            i
        },
    };
    let ghost d_obj = heap@[di as int];
    let ghost h0 = heap@;
    let mut cell = HeapValue::IntArray { values: Vec::new() };
    heap.values.set_and_swap(di, &mut cell);
    assert(cell@ == d_obj);
    let (new_cell, outcome) = match (run, cell) {
        (Run::I(xs), HeapValue::IntArray { mut values }) => {
            if dp + n > values.len() {
                (HeapValue::IntArray { values }, 1u8)
            } else {
                write_range(&mut values, dp, &xs);
                (HeapValue::IntArray { values }, 0u8)
            }
        },
        (Run::J(xs), HeapValue::LongArray { mut values }) => {
            if dp + n > values.len() {
                (HeapValue::LongArray { values }, 1u8)
            } else {
                write_range(&mut values, dp, &xs);
                (HeapValue::LongArray { values }, 0u8)
            }
        },
        (Run::F(xs), HeapValue::FloatArray { mut values }) => {
            if dp + n > values.len() {
                (HeapValue::FloatArray { values }, 1u8)
            } else {
                write_range(&mut values, dp, &xs);
                (HeapValue::FloatArray { values }, 0u8)
            }
        },
        (Run::D(xs), HeapValue::DoubleArray { mut values }) => {
            if dp + n > values.len() {
                (HeapValue::DoubleArray { values }, 1u8)
            } else {
                write_range(&mut values, dp, &xs);
                (HeapValue::DoubleArray { values }, 0u8)
            }
        },
        (Run::L(xs), HeapValue::ReferenceArray { component_type, mut values }) => {
            if dp + n > values.len() {
                (HeapValue::ReferenceArray { component_type, values }, 1u8)
            } else {
                write_range(&mut values, dp, &xs);
                (HeapValue::ReferenceArray { component_type, values }, 0u8)
            }
        },
        (_, c) => (c, 2u8),
    };
    let mut new_cell = new_cell;
    heap.values.set_and_swap(di, &mut new_cell);
    if outcome == 1 {
        assert(heap@ =~= h0);
        return Err(exception("java/lang/ArrayIndexOutOfBoundsException"));
    }
    if outcome == 2 {
        assert(heap@ =~= h0);
        return Err(exception("java/lang/ArrayStoreException"));
    }
    assert(heap@ =~= h0.update(
        di as int,
        copy_into(s_obj.unwrap(), src_pos as int, d_obj, dst_pos as int, length as int).unwrap(),
    ));
    Ok(())
}

/// `Arrays.equals` for primitive arrays of the given kind: the same
/// reference, or two cells of that kind with equal contents (floating-point
/// elements compare by bit pattern).
pub open spec fn arrays_equal(heap: Seq<Obj>, a: Reference, b: Reference, kind: HeapKind) -> Result<
    bool,
    VmError,
> {
    if a == b {
        Ok(true)
    } else if a is Null || b is Null {
        Ok(false)
    } else {
        match (deref(heap, a), deref(heap, b)) {
            (None, _) => Err(deref_error(a)),
            (_, None) => Err(deref_error(b)),
            (Some(x), Some(y)) => Ok(obj_kind(x) == kind && obj_kind(y) == kind && x == y),
        }
    }
}

/// Element-wise equality of two slices.
fn slices_equal<T: Copy + PartialEq>(x: &Vec<T>, y: &Vec<T>) -> (res: bool)
    requires
        T::obeys_eq_spec(),
        forall|a: T, b: T| a.eq_spec(&b) <==> (a == b),
    ensures
        res == (x@ == y@),
{
    if x.len() != y.len() {
        return false;
    }
    let mut i: usize = 0;
    while i < x.len()
        invariant
            T::obeys_eq_spec(),
            forall|a: T, b: T| a.eq_spec(&b) <==> (a == b),
            x@.len() == y@.len(),
            i <= x@.len(),
            forall|k: int| 0 <= k < i ==> x@[k] == y@[k],
        decreases x@.len() - i,
    {
        if x[i] != y[i] {
            return false;
        }
        i = i + 1;
    }
    assert(x@ =~= y@);
    true
}

pub fn native_arrays_equals_int(heap: &Heap, a: Reference, b: Reference) -> (res: Result<bool, VmError>)
    ensures
        match res {
            Ok(x) => arrays_equal(heap@, a, b, HeapKind::IntArray) == Ok::<bool, VmError>(x),
            Err(e) => arrays_equal(heap@, a, b, HeapKind::IntArray) == Err::<bool, VmError>(e),
        },
{
    if a == b {
        return Ok(true);
    }
    if a == Reference::Null || b == Reference::Null {
        return Ok(false);
    }
    match (heap.get(a)?, heap.get(b)?) {
        (HeapValue::IntArray { values: x }, HeapValue::IntArray { values: y }) => Ok(slices_equal(x, y)),
        _ => Ok(false),
    }
}


pub fn native_arrays_equals_long(heap: &Heap, a: Reference, b: Reference) -> (res: Result<bool, VmError>)
    ensures
        match res {
            Ok(x) => arrays_equal(heap@, a, b, HeapKind::LongArray) == Ok::<bool, VmError>(x),
            Err(e) => arrays_equal(heap@, a, b, HeapKind::LongArray) == Err::<bool, VmError>(e),
        },
{
    if a == b {
        return Ok(true);
    }
    if a == Reference::Null || b == Reference::Null {
        return Ok(false);
    }
    match (heap.get(a)?, heap.get(b)?) {
        (HeapValue::LongArray { values: x }, HeapValue::LongArray { values: y }) => Ok(slices_equal(x, y)),
        _ => Ok(false),
    }
}

pub fn native_arrays_equals_float(heap: &Heap, a: Reference, b: Reference) -> (res: Result<bool, VmError>)
    ensures
        match res {
            Ok(x) => arrays_equal(heap@, a, b, HeapKind::FloatArray) == Ok::<bool, VmError>(x),
            Err(e) => arrays_equal(heap@, a, b, HeapKind::FloatArray) == Err::<bool, VmError>(e),
        },
{
    if a == b {
        return Ok(true);
    }
    if a == Reference::Null || b == Reference::Null {
        return Ok(false);
    }
    match (heap.get(a)?, heap.get(b)?) {
        (HeapValue::FloatArray { values: x }, HeapValue::FloatArray { values: y }) => Ok(slices_equal(x, y)),
        _ => Ok(false),
    }
}

pub fn native_arrays_equals_double(heap: &Heap, a: Reference, b: Reference) -> (res: Result<bool, VmError>)
    ensures
        match res {
            Ok(x) => arrays_equal(heap@, a, b, HeapKind::DoubleArray) == Ok::<bool, VmError>(x),
            Err(e) => arrays_equal(heap@, a, b, HeapKind::DoubleArray) == Err::<bool, VmError>(e),
        },
{
    if a == b {
        return Ok(true);
    }
    if a == Reference::Null || b == Reference::Null {
        return Ok(false);
    }
    match (heap.get(a)?, heap.get(b)?) {
        (HeapValue::DoubleArray { values: x }, HeapValue::DoubleArray { values: y }) => Ok(slices_equal(x, y)),
        _ => Ok(false),
    }
}


/// Parts joined with a separator between neighbours.
pub open spec fn join(parts: Seq<Seq<char>>, sep: Seq<char>) -> Seq<char>
    decreases parts.len(),
{
    if parts.len() == 0 {
        Seq::empty()
    } else if parts.len() == 1 {
        parts[0]
    } else {
        join(parts.drop_last(), sep).add(sep).add(parts.last())
    }
}

/// The string forms of the non-null elements whose string form exists.
pub open spec fn displayed_parts(heap: Seq<Obj>, elems: Seq<Reference>) -> Seq<Seq<char>>
    decreases elems.len(),
{
    if elems.len() == 0 {
        Seq::empty()
    } else {
        let rest = displayed_parts(heap, elems.drop_last());
        let r = elems.last();
        if r is Null {
            rest
        } else {
            match display_string(heap, r) {
                Ok(s) => rest.push(s),
                Err(_) => rest,
            }
        }
    }
}

/// Joins the string forms of the non-null elements (elements without one are skipped).
pub fn join_displayed(heap: &Heap, elements: &Vec<Reference>, sep: &Vec<char>) -> (res: Vec<char>)
    ensures
        res@ == join(displayed_parts(heap@, elements@), sep@),
{
    let mut res: Vec<char> = Vec::new();
    let mut count: usize = 0;
    let mut k: usize = 0;
    while k < elements.len()
        invariant
            k <= elements@.len(),
            res@ == join(displayed_parts(heap@, elements@.subrange(0, k as int)), sep@),
            count == displayed_parts(heap@, elements@.subrange(0, k as int)).len(),
            count <= k,
        decreases elements@.len() - k,
    {
        let r = elements[k];
        assert(elements@.subrange(0, k + 1).drop_last() =~= elements@.subrange(0, k as int));
        if r != Reference::Null {
            match stringify_heap(heap, r) {
                Ok(s) => {
                    if count > 0 {
                        append_chars(&mut res, sep);
                    }
                    append_chars(&mut res, &s);
                    count = count + 1;
                    proof {
                        let ps = displayed_parts(heap@, elements@.subrange(0, k + 1));
                        assert(ps.drop_last() =~= displayed_parts(heap@, elements@.subrange(0, k as int)));
                        if count == 1 {
                            assert(res@ =~= s@);
                        } else {
                            assert(res@ =~= join(ps.drop_last(), sep@).add(sep@).add(s@));
                        }
                    }
                },
                Err(_) => {},
            }
        }
        k = k + 1;
    }
    assert(elements@.subrange(0, elements@.len() as int) =~= elements@);
    res
}

/// What a native collector produced.
pub enum Collected {
    /// The collector's result.
    Done(Option<Value>),
    /// A fresh collection that the interpreter fills by calling its
    /// `add(Object)` with each element in order; it is then the result.
    AddAll { container: Reference },
}

/// `Collectors` finishing: mode 1 collects into a new `ArrayList`, 2 into a
/// new `HashSet`, 3 counts into a boxed `Long`, 4 concatenates the
/// elements' strings, 5 joins them with the collector's delimiter; any
/// other mode gives no result.
pub fn collect_with_mode(heap: &mut Heap, elements: Vec<Reference>, mode: i32, collector_ref: Reference) -> (res: Result<Collected, VmError>)
    ensures
        mode == 1 ==> res == Ok::<Collected, VmError>(Collected::AddAll { container: Reference::Heap(old(heap)@.len() as usize) }) && final(heap)@ == old(heap)@.push(Obj::Object { class_name: "java/util/ArrayList"@, fields: Seq::empty() }),
        mode == 2 ==> res == Ok::<Collected, VmError>(Collected::AddAll { container: Reference::Heap(old(heap)@.len() as usize) }) && final(heap)@ == old(heap)@.push(Obj::Object { class_name: "java/util/HashSet"@, fields: Seq::empty() }),
        mode == 3 ==> res == Ok::<Collected, VmError>(Collected::Done(Some(Value::Reference(Reference::Heap(old(heap)@.len() as usize))))) && final(heap)@ == old(heap)@.push(Obj::Object { class_name: "java/lang/Long"@, fields: seq![("value"@, Value::Long(elements@.len() as i64))] }),
        mode == 4 ==> res == Ok::<Collected, VmError>(Collected::Done(Some(Value::Reference(Reference::Heap(old(heap)@.len() as usize))))) && final(heap)@ == old(heap)@.push(Obj::Str(join(displayed_parts(old(heap)@, elements@), Seq::empty()))),
        mode == 5 ==> match hidden_array(old(heap)@, collector_ref) {
            Err(e) => res == Err::<Collected, VmError>(e) && final(heap)@ == old(heap)@,
            Ok(d) => {
                let sep = if d is Null { Ok(Seq::<char>::empty()) } else { display_string(old(heap)@, d) };
                match sep {
                    Err(e) => res == Err::<Collected, VmError>(e) && final(heap)@ == old(heap)@,
                    Ok(sep) => res == Ok::<Collected, VmError>(Collected::Done(Some(Value::Reference(Reference::Heap(old(heap)@.len() as usize))))) && final(heap)@ == old(heap)@.push(Obj::Str(join(displayed_parts(old(heap)@, elements@), sep))),
                }
            },
        },
        !(1 <= mode <= 5) ==> res == Ok::<Collected, VmError>(Collected::Done(None)) && final(heap)@ == old(heap)@,
{
    if mode == 1 {
        let fields: Vec<crate::model::Field> = Vec::new();
        assert(crate::model::fields_view(fields@) =~= Seq::empty());
        let r = heap.allocate(HeapValue::Object { class_name: lit("java/util/ArrayList"), fields });
        Ok(Collected::AddAll { container: r })
    } else if mode == 2 {
        let fields: Vec<crate::model::Field> = Vec::new();
        assert(crate::model::fields_view(fields@) =~= Seq::empty());
        let r = heap.allocate(HeapValue::Object { class_name: lit("java/util/HashSet"), fields });
        Ok(Collected::AddAll { container: r })
    } else if mode == 3 {
        let count = elements.len() as i64;
        let mut fields = Vec::new();
        fields.push(crate::heap::field("value", Value::Long(count)));
        assert(crate::model::fields_view(fields@) =~= seq![("value"@, Value::Long(count))]);
        let r = heap.allocate(HeapValue::Object { class_name: lit("java/lang/Long"), fields });
        Ok(Collected::Done(Some(Value::Reference(r))))
    } else if mode == 4 {
        let s = join_displayed(heap, &elements, &Vec::new());
        Ok(Collected::Done(Some(heap.new_string(s))))
    } else if mode == 5 {
        let delimiter_ref = native_collector_array(heap, collector_ref)?;
        let delimiter = if delimiter_ref != Reference::Null {
            stringify_heap(heap, delimiter_ref)?
        } else {
            Vec::new()
        };
        let s = join_displayed(heap, &elements, &delimiter);
        Ok(Collected::Done(Some(heap.new_string(s))))
    } else {
        Ok(Collected::Done(None))
    }
}

} // verus!
