//! The `java.util` natives: `Objects`, `Arrays.equals` and `Arrays.stream`,
//! the native primitive streams, and the `Optional` family.

use vstd::prelude::*;
use crate::chars::{eq_str, lit};
use crate::heap::{deref, deref_error, field, Heap};
use crate::helpers::{
    arrays_equal, hash_object, hidden_array, identity_hash, native_arrays_equals_double,
    native_arrays_equals_float, native_arrays_equals_int, native_arrays_equals_long,
    native_double_stream_array, native_int_stream_array, native_long_stream_array,
    string_value, stringify_reference,
};
use crate::model::{
    field_get, fields_view, HeapKind, HeapValue, Obj, Reference, Value, ValueKind, VmError,
    exception, value_kind,
};
use crate::native::{
    answers, box_of, fail, give, give_bool, give_int, give_new, on_int, on_long, on_ref, throw,
    NativeResult,
};
use crate::reflection::new_box;

verus! {

/// The primitive kinds of the native streams and of `OptionalInt`,
/// `OptionalLong` and `OptionalDouble`.
#[derive(Clone, Copy, PartialEq, Eq, Structural, Debug)]
pub enum Primitive {
    Int,
    Long,
    Double,
}

/// The `java.util` natives implemented here.
#[derive(Clone, Copy, PartialEq, Eq, Structural, Debug)]
pub enum UtilMethod {
    RequireNonNull,
    RequireNonNullWithMessage,
    ObjectsEquals,
    IsNull,
    NonNull,
    ObjectsHashCode,
    CheckIndexInt,
    CheckIndexLong,
    CheckFromToIndexInt,
    CheckFromToIndexLong,
    CheckFromIndexSizeInt,
    CheckFromIndexSizeLong,
    /// `Arrays.equals` on two arrays of the named element descriptor
    /// (`I`, `B`, `S`, `C`, `Z`, `J`, `F` or `D`).
    ArraysEquals(char),
    /// `Arrays.stream` over a primitive array.
    Stream(Primitive),
    IntSum,
    LongSum,
    Count(Primitive),
    ToArray(Primitive),
    IntMin,
    IntMax,
    LongMin,
    LongMax,
    OptionalOf,
    OptionalIsPresent,
    OptionalIsEmpty,
    OptionalGet,
    OptionalOrElse,
    /// `isPresent` of `OptionalInt`, `OptionalLong` or `OptionalDouble`.
    PrimitiveIsPresent(Primitive),
    /// `getAsInt`, `getAsLong` or `getAsDouble`.
    PrimitiveGet(Primitive),
    /// `orElse` of a primitive optional.
    PrimitiveOrElse(Primitive),
}

/// The descriptor of `Arrays.stream` over an array of a primitive kind.
pub open spec fn stream_descriptor(p: Primitive) -> Seq<char> {
    match p {
        Primitive::Int => "([I)Ljava/util/stream/IntStream;"@,
        Primitive::Long => "([J)Ljava/util/stream/LongStream;"@,
        Primitive::Double => "([D)Ljava/util/stream/DoubleStream;"@,
    }
}

/// The descriptor of a native stream's `toArray`.
pub open spec fn to_array_descriptor(p: Primitive) -> Seq<char> {
    match p {
        Primitive::Int => "()[I"@,
        Primitive::Long => "()[J"@,
        Primitive::Double => "()[D"@,
    }
}

/// The descriptor of a primitive optional's getter.
pub open spec fn getter_descriptor(p: Primitive) -> Seq<char> {
    match p {
        Primitive::Int => "()I"@,
        Primitive::Long => "()J"@,
        Primitive::Double => "()D"@,
    }
}

/// The descriptor of a primitive optional's `orElse`.
pub open spec fn or_else_descriptor(p: Primitive) -> Seq<char> {
    match p {
        Primitive::Int => "(I)I"@,
        Primitive::Long => "(J)J"@,
        Primitive::Double => "(D)D"@,
    }
}

/// The class of a native stream over a primitive kind.
pub open spec fn stream_class(p: Primitive) -> Seq<char> {
    match p {
        Primitive::Int => "__jvm_rs/NativeIntStream"@,
        Primitive::Long => "__jvm_rs/NativeLongStream"@,
        Primitive::Double => "__jvm_rs/NativeDoubleStream"@,
    }
}

/// The optional class of a primitive kind.
pub open spec fn optional_class(p: Primitive) -> Seq<char> {
    match p {
        Primitive::Int => "java/util/OptionalInt"@,
        Primitive::Long => "java/util/OptionalLong"@,
        Primitive::Double => "java/util/OptionalDouble"@,
    }
}

/// The value kind a primitive optional holds.
pub open spec fn value_kind_of(p: Primitive) -> ValueKind {
    match p {
        Primitive::Int => ValueKind::Int,
        Primitive::Long => ValueKind::Long,
        Primitive::Double => ValueKind::Double,
    }
}

/// The name of a primitive optional's getter.
pub open spec fn getter_name(p: Primitive) -> Seq<char> {
    match p {
        Primitive::Int => "getAsInt"@,
        Primitive::Long => "getAsLong"@,
        Primitive::Double => "getAsDouble"@,
    }
}

/// The heap-cell kind `Arrays.equals` compares for an element descriptor.
pub open spec fn equals_kind(c: char) -> HeapKind {
    if c == 'J' {
        HeapKind::LongArray
    } else if c == 'F' {
        HeapKind::FloatArray
    } else if c == 'D' {
        HeapKind::DoubleArray
    } else {
        HeapKind::IntArray
    }
}

/// The element descriptors `Arrays.equals` is implemented for.
pub open spec fn equals_letter(c: char) -> bool {
    c == 'I' || c == 'B' || c == 'S' || c == 'C' || c == 'Z' || c == 'J' || c == 'F' || c == 'D'
}

/// The class, name and descriptor a native is registered under.
pub open spec fn util_signature(k: UtilMethod) -> (Seq<char>, Seq<char>, Seq<char>) {
    let objects = "java/util/Objects"@;
    let optional = "java/util/Optional"@;
    match k {
        UtilMethod::RequireNonNull => (objects, "requireNonNull"@, "(Ljava/lang/Object;)Ljava/lang/Object;"@),
        UtilMethod::RequireNonNullWithMessage => (
            objects,
            "requireNonNull"@,
            "(Ljava/lang/Object;Ljava/lang/String;)Ljava/lang/Object;"@,
        ),
        UtilMethod::ObjectsEquals => (objects, "equals"@, "(Ljava/lang/Object;Ljava/lang/Object;)Z"@),
        UtilMethod::IsNull => (objects, "isNull"@, "(Ljava/lang/Object;)Z"@),
        UtilMethod::NonNull => (objects, "nonNull"@, "(Ljava/lang/Object;)Z"@),
        UtilMethod::ObjectsHashCode => (objects, "hashCode"@, "(Ljava/lang/Object;)I"@),
        UtilMethod::CheckIndexInt => (objects, "checkIndex"@, "(II)I"@),
        UtilMethod::CheckIndexLong => (objects, "checkIndex"@, "(JJ)J"@),
        UtilMethod::CheckFromToIndexInt => (objects, "checkFromToIndex"@, "(III)I"@),
        UtilMethod::CheckFromToIndexLong => (objects, "checkFromToIndex"@, "(JJJ)J"@),
        UtilMethod::CheckFromIndexSizeInt => (objects, "checkFromIndexSize"@, "(III)I"@),
        UtilMethod::CheckFromIndexSizeLong => (objects, "checkFromIndexSize"@, "(JJJ)J"@),
        UtilMethod::ArraysEquals(c) => (
            "java/util/Arrays"@,
            "equals"@,
            seq!['(', '[', c, '[', c, ')', 'Z'],
        ),
        UtilMethod::Stream(p) => ("java/util/Arrays"@, "stream"@, stream_descriptor(p)),
        UtilMethod::IntSum => (stream_class(Primitive::Int), "sum"@, "()I"@),
        UtilMethod::LongSum => (stream_class(Primitive::Long), "sum"@, "()J"@),
        UtilMethod::Count(p) => (stream_class(p), "count"@, "()J"@),
        UtilMethod::ToArray(p) => (stream_class(p), "toArray"@, to_array_descriptor(p)),
        UtilMethod::IntMin => (stream_class(Primitive::Int), "min"@, "()Ljava/util/OptionalInt;"@),
        UtilMethod::IntMax => (stream_class(Primitive::Int), "max"@, "()Ljava/util/OptionalInt;"@),
        UtilMethod::LongMin => (stream_class(Primitive::Long), "min"@, "()Ljava/util/OptionalLong;"@),
        UtilMethod::LongMax => (stream_class(Primitive::Long), "max"@, "()Ljava/util/OptionalLong;"@),
        UtilMethod::OptionalOf => (optional, "of"@, "(Ljava/lang/Object;)Ljava/util/Optional;"@),
        UtilMethod::OptionalIsPresent => (optional, "isPresent"@, "()Z"@),
        UtilMethod::OptionalIsEmpty => (optional, "isEmpty"@, "()Z"@),
        UtilMethod::OptionalGet => (optional, "get"@, "()Ljava/lang/Object;"@),
        UtilMethod::OptionalOrElse => (optional, "orElse"@, "(Ljava/lang/Object;)Ljava/lang/Object;"@),
        UtilMethod::PrimitiveIsPresent(p) => (optional_class(p), "isPresent"@, "()Z"@),
        UtilMethod::PrimitiveGet(p) => (optional_class(p), getter_name(p), getter_descriptor(p)),
        UtilMethod::PrimitiveOrElse(p) => (optional_class(p), "orElse"@, or_else_descriptor(p)),
    }
}

/// Whether a native is one of those implemented here (`Arrays.equals` only
/// for the element descriptors it is registered for).
pub open spec fn util_valid(k: UtilMethod) -> bool {
    match k {
        UtilMethod::ArraysEquals(c) => equals_letter(c),
        _ => true,
    }
}

/// How many arguments (receiver included) a native reads.
pub open spec fn util_arity(k: UtilMethod) -> nat {
    match k {
        UtilMethod::ObjectsEquals | UtilMethod::CheckIndexInt | UtilMethod::CheckIndexLong
        | UtilMethod::ArraysEquals(_) | UtilMethod::OptionalOrElse
        | UtilMethod::PrimitiveOrElse(_) => 2,
        UtilMethod::CheckFromToIndexInt | UtilMethod::CheckFromToIndexLong
        | UtilMethod::CheckFromIndexSizeInt | UtilMethod::CheckFromIndexSizeLong => 3,
        _ => 1,
    }
}

/// `Objects.equals` on two references: both `null`, two strings with the
/// same text, or the same reference.
pub open spec fn objects_equal(heap: Seq<Obj>, a: Reference, b: Reference) -> bool {
    if a is Null && b is Null {
        true
    } else if a is Null || b is Null {
        false
    } else {
        match (string_value(heap, a), string_value(heap, b)) {
            (Ok(x), Ok(y)) => x == y,
            _ => a == b,
        }
    }
}

/// Argument `i` as a `double` (its bit pattern).
pub open spec fn double_arg(args: Seq<Value>, i: int) -> Result<u64, VmError> {
    match args[i] {
        Value::Double(x) => Ok(x),
        v => Err(VmError::TypeMismatch { expected: ValueKind::Double, actual: value_kind(v) }),
    }
}

/// Argument `i` as a value of the primitive kind.
pub open spec fn prim_arg(args: Seq<Value>, i: int, p: Primitive) -> Result<Value, VmError> {
    if value_kind(args[i]) == value_kind_of(p) {
        Ok(args[i])
    } else {
        Err(VmError::TypeMismatch { expected: value_kind_of(p), actual: value_kind(args[i]) })
    }
}

/// The array cell behind the native stream argument 0.
pub open spec fn stream_cell(heap: Seq<Obj>, args: Seq<Value>) -> Result<Obj, VmError> {
    match crate::model::ref_arg(args, 0) {
        Err(e) => Err(e),
        Ok(s) => match hidden_array(heap, s) {
            Err(e) => Err(e),
            Ok(a) => match deref(heap, a) {
                None => Err(deref_error(a)),
                Some(o) => Ok(o),
            },
        },
    }
}

/// Continues with the array cell behind a native stream.
pub open spec fn on_stream(heap: Seq<Obj>, args: Seq<Value>, f: spec_fn(Obj) -> NativeResult) -> NativeResult {
    match stream_cell(heap, args) {
        Ok(o) => f(o),
        Err(e) => fail(e),
    }
}

/// The `int` sum of a sequence, wrapping around as Java `int` addition does.
pub open spec fn int_total(s: Seq<i32>) -> i32
    decreases s.len(),
{
    if s.len() == 0 {
        0
    } else {
        int_total(s.drop_last()).wrapping_add(s.last())
    }
}

/// The `long` sum of a sequence, wrapping around as Java `long` addition does.
pub open spec fn long_total(s: Seq<i64>) -> i64
    decreases s.len(),
{
    if s.len() == 0 {
        0
    } else {
        long_total(s.drop_last()).wrapping_add(s.last())
    }
}

/// The least (or, with `max`, the greatest) element of a non-empty sequence.
pub open spec fn extreme(s: Seq<int>, max: bool) -> int
    decreases s.len(),
{
    if s.len() <= 1 {
        s[0]
    } else {
        let m = extreme(s.drop_last(), max);
        if (max && s.last() > m) || (!max && s.last() < m) {
            s.last()
        } else {
            m
        }
    }
}

/// A primitive optional holding `v`, or `null` for an empty stream.
pub open spec fn give_optional(heap: Seq<Obj>, class_name: Seq<char>, v: Option<Value>) -> NativeResult {
    match v {
        Some(x) => give_new(heap, box_of(class_name, x)),
        None => give(heap, Value::Reference(Reference::Null)),
    }
}

/// The extreme element of an `int[]` cell as an `OptionalInt`; `null` for an
/// empty array or another kind of cell.
pub open spec fn int_extreme(heap: Seq<Obj>, o: Obj, max: bool) -> NativeResult {
    match o {
        Obj::IntArray(v) => give_optional(
            heap,
            "java/util/OptionalInt"@,
            if v.len() == 0 { None } else { Some(Value::Int(extreme(v.map_values(|x: i32| x as int), max) as i32)) },
        ),
        _ => give(heap, Value::Reference(Reference::Null)),
    }
}

/// The extreme element of a `long[]` cell as an `OptionalLong`.
pub open spec fn long_extreme(heap: Seq<Obj>, o: Obj, max: bool) -> NativeResult {
    match o {
        Obj::LongArray(v) => give_optional(
            heap,
            "java/util/OptionalLong"@,
            if v.len() == 0 { None } else { Some(Value::Long(extreme(v.map_values(|x: i64| x as int), max) as i64)) },
        ),
        _ => give(heap, Value::Reference(Reference::Null)),
    }
}

/// The number of elements of an array cell of the stream's kind, 0 for
/// another kind of cell.
pub open spec fn stream_count(o: Obj, p: Primitive) -> i64 {
    match (o, p) {
        (Obj::IntArray(v), Primitive::Int) => v.len() as i64,
        (Obj::LongArray(v), Primitive::Long) => v.len() as i64,
        (Obj::DoubleArray(v), Primitive::Double) => v.len() as i64,
        _ => 0,
    }
}

/// The `value` field of an optional: an error when the reference designates
/// no cell, `None` when the cell is not an object or has no such field.
pub open spec fn optional_value(heap: Seq<Obj>, r: Reference) -> Result<Option<Value>, VmError> {
    match deref(heap, r) {
        None => Err(deref_error(r)),
        Some(Obj::Object { fields, .. }) => Ok(field_get(fields, "value"@)),
        Some(_) => Ok(None),
    }
}

/// An `Optional` is empty when its value is absent or `null`.
pub open spec fn optional_empty(v: Option<Value>) -> bool {
    match v {
        Some(Value::Reference(r)) => r is Null,
        None => true,
        _ => false,
    }
}

/// The present reference of an `Optional`.
pub open spec fn present_ref(v: Option<Value>) -> Option<Reference> {
    match v {
        Some(Value::Reference(r)) => if r is Null { None } else { Some(r) },
        _ => None,
    }
}

/// The value of a primitive optional, when it holds one of its kind.
pub open spec fn present_prim(v: Option<Value>, p: Primitive) -> Option<Value> {
    match v {
        Some(x) => if value_kind(x) == value_kind_of(p) { Some(x) } else { None },
        None => None,
    }
}

/// `IndexOutOfBoundsException` when `from..from+size` does not fit in
/// `0..length` (`length - size` wraps as Java arithmetic does).
pub open spec fn from_index_size_bad(from: int, size: int, length_minus_size: int) -> bool {
    from < 0 || size < 0 || from > length_minus_size
}

/// What a `java.util` native does.
pub open spec fn util_spec(heap: Seq<Obj>, k: UtilMethod, args: Seq<Value>) -> NativeResult {
    let npe = "java/lang/NullPointerException"@;
    let aioobe = "java/lang/ArrayIndexOutOfBoundsException"@;
    let ioobe = "java/lang/IndexOutOfBoundsException"@;
    let nsee = "java/util/NoSuchElementException"@;
    match k {
        UtilMethod::RequireNonNull | UtilMethod::RequireNonNullWithMessage => on_ref(args, 0,
            |r: Reference| if r is Null { throw(npe) } else { give(heap, Value::Reference(r)) }),
        UtilMethod::ObjectsEquals => on_ref(args, 0, |a: Reference| on_ref(args, 1,
            |b: Reference| give_bool(heap, objects_equal(heap, a, b)))),
        UtilMethod::IsNull => on_ref(args, 0, |r: Reference| give_bool(heap, r is Null)),
        UtilMethod::NonNull => on_ref(args, 0, |r: Reference| give_bool(heap, !(r is Null))),
        UtilMethod::ObjectsHashCode => on_ref(args, 0, |r: Reference| give_int(heap, identity_hash(r))),
        UtilMethod::CheckIndexInt => on_int(args, 0, |i: i32| on_int(args, 1, |n: i32|
            if i < 0 || i >= n { throw(aioobe) } else { give_int(heap, i) })),
        UtilMethod::CheckIndexLong => on_long(args, 0, |i: i64| on_long(args, 1, |n: i64|
            if i < 0 || i >= n { throw(aioobe) } else { give(heap, Value::Long(i)) })),
        UtilMethod::CheckFromToIndexInt => on_int(args, 0, |f: i32| on_int(args, 1, |t: i32|
            on_int(args, 2, |n: i32| if f < 0 || t > n || f > t { throw(ioobe) } else { give_int(heap, f) }))),
        UtilMethod::CheckFromToIndexLong => on_long(args, 0, |f: i64| on_long(args, 1, |t: i64|
            on_long(args, 2, |n: i64| if f < 0 || t > n || f > t { throw(ioobe) } else { give(heap, Value::Long(f)) }))),
        UtilMethod::CheckFromIndexSizeInt => on_int(args, 0, |f: i32| on_int(args, 1, |s: i32|
            on_int(args, 2, |n: i32| if from_index_size_bad(f as int, s as int, n.wrapping_sub(s) as int) {
                throw(ioobe)
            } else {
                give_int(heap, f)
            }))),
        UtilMethod::CheckFromIndexSizeLong => on_long(args, 0, |f: i64| on_long(args, 1, |s: i64|
            on_long(args, 2, |n: i64| if from_index_size_bad(f as int, s as int, n.wrapping_sub(s) as int) {
                throw(ioobe)
            } else {
                give(heap, Value::Long(f))
            }))),
        UtilMethod::ArraysEquals(c) => on_ref(args, 0, |a: Reference| on_ref(args, 1, |b: Reference|
            match arrays_equal(heap, a, b, equals_kind(c)) {
                Ok(x) => give_bool(heap, x),
                Err(e) => fail(e),
            })),
        UtilMethod::Stream(p) => on_ref(args, 0, |a: Reference| give_new(heap, Obj::Object {
            class_name: stream_class(p),
            fields: seq![("__array"@, Value::Reference(a))],
        })),
        UtilMethod::IntSum => on_stream(heap, args, |o: Obj| match o {
            Obj::IntArray(v) => give_int(heap, int_total(v)),
            _ => give_int(heap, 0),
        }),
        UtilMethod::LongSum => on_stream(heap, args, |o: Obj| match o {
            Obj::LongArray(v) => give(heap, Value::Long(long_total(v))),
            _ => give(heap, Value::Long(0)),
        }),
        UtilMethod::Count(p) => on_stream(heap, args, |o: Obj| give(heap, Value::Long(stream_count(o, p)))),
        UtilMethod::ToArray(p) => on_ref(args, 0, |s: Reference| match hidden_array(heap, s) {
            Ok(a) => give(heap, Value::Reference(a)),
            Err(e) => fail(e),
        }),
        UtilMethod::IntMin => on_stream(heap, args, |o: Obj| int_extreme(heap, o, false)),
        UtilMethod::IntMax => on_stream(heap, args, |o: Obj| int_extreme(heap, o, true)),
        UtilMethod::LongMin => on_stream(heap, args, |o: Obj| long_extreme(heap, o, false)),
        UtilMethod::LongMax => on_stream(heap, args, |o: Obj| long_extreme(heap, o, true)),
        UtilMethod::OptionalOf => on_ref(args, 0, |r: Reference|
            give_new(heap, box_of("java/util/Optional"@, Value::Reference(r)))),
        UtilMethod::OptionalIsPresent => on_ref(args, 0, |r: Reference| match optional_value(heap, r) {
            Ok(v) => give_bool(heap, !optional_empty(v)),
            Err(e) => fail(e),
        }),
        UtilMethod::OptionalIsEmpty => on_ref(args, 0, |r: Reference| match optional_value(heap, r) {
            Ok(v) => give_bool(heap, optional_empty(v)),
            Err(e) => fail(e),
        }),
        UtilMethod::OptionalGet => on_ref(args, 0, |r: Reference| match optional_value(heap, r) {
            Ok(v) => match present_ref(v) {
                Some(x) => give(heap, Value::Reference(x)),
                None => throw(nsee),
            },
            Err(e) => fail(e),
        }),
        UtilMethod::OptionalOrElse => on_ref(args, 0, |r: Reference| on_ref(args, 1, |fallback: Reference|
            match optional_value(heap, r) {
                Ok(v) => match present_ref(v) {
                    Some(x) => give(heap, Value::Reference(x)),
                    None => give(heap, Value::Reference(fallback)),
                },
                Err(e) => fail(e),
            })),
        UtilMethod::PrimitiveIsPresent(p) => on_ref(args, 0, |r: Reference| if r is Null {
            give_int(heap, 0)
        } else {
            match optional_value(heap, r) {
                Ok(v) => give_bool(heap, present_prim(v, p) is Some),
                Err(e) => fail(e),
            }
        }),
        UtilMethod::PrimitiveGet(p) => on_ref(args, 0, |r: Reference| if r is Null {
            throw(nsee)
        } else {
            match optional_value(heap, r) {
                Ok(v) => match present_prim(v, p) {
                    Some(x) => give(heap, x),
                    None => throw(nsee),
                },
                Err(e) => fail(e),
            }
        }),
        UtilMethod::PrimitiveOrElse(p) => on_ref(args, 0, |r: Reference| match prim_arg(args, 1, p) {
            Err(e) => fail(e),
            Ok(fallback) => if r is Null {
                give(heap, fallback)
            } else {
                match optional_value(heap, r) {
                    Ok(v) => match present_prim(v, p) {
                        Some(x) => give(heap, x),
                        None => give(heap, fallback),
                    },
                    Err(e) => fail(e),
                }
            },
        }),
    }
}

/// The element descriptor of an `Arrays.equals` descriptor `([X[X)Z`.
fn equals_descriptor_letter(d: &[char]) -> (res: Option<char>)
    ensures
        match res {
            Some(c) => equals_letter(c) && d@ == seq!['(', '[', c, '[', c, ')', 'Z'],
            None => forall|c: char| equals_letter(c) ==> d@ != seq!['(', '[', c, '[', c, ')', 'Z'],
        },
{
    if d.len() == 7 && d[0] == '(' && d[1] == '[' && d[3] == '[' && d[4] == d[2] && d[5] == ')'
        && d[6] == 'Z' {
        let c = d[2];
        if c == 'I' || c == 'B' || c == 'S' || c == 'C' || c == 'Z' || c == 'J' || c == 'F' || c == 'D' {
            assert(d@ =~= seq!['(', '[', c, '[', c, ')', 'Z']);
            return Some(c);
        }
    }
    proof {
        assert forall|c: char| equals_letter(c) implies d@ != seq!['(', '[', c, '[', c, ')', 'Z'] by {
            if d@ == seq!['(', '[', c, '[', c, ')', 'Z'] {
                assert(d@.len() == 7);
                assert(d@[2] == c && d@[4] == c);
            }
        }
    }
    None
}

/// The primitive kind a value-kind letter names, for the stream and
/// optional decoders.
fn stream_kind(class_name: &[char]) -> (res: Option<Primitive>)
    ensures
        match res {
            Some(p) => stream_class(p) == class_name@,
            None => forall|p: Primitive| stream_class(p) != class_name@,
        },
{
    if eq_str(class_name, "__jvm_rs/NativeIntStream") {
        return Some(Primitive::Int);
    }
    if eq_str(class_name, "__jvm_rs/NativeLongStream") {
        return Some(Primitive::Long);
    }
    if eq_str(class_name, "__jvm_rs/NativeDoubleStream") {
        return Some(Primitive::Double);
    }
    proof {
        assert forall|p: Primitive| stream_class(p) != class_name@ by {
            match p {
                Primitive::Int => {},
                Primitive::Long => {},
                Primitive::Double => {},
            }
        }
    }
    None
}

/// The primitive kind of a primitive optional class.
fn optional_kind(class_name: &[char]) -> (res: Option<Primitive>)
    ensures
        match res {
            Some(p) => optional_class(p) == class_name@,
            None => forall|p: Primitive| optional_class(p) != class_name@,
        },
{
    if eq_str(class_name, "java/util/OptionalInt") {
        return Some(Primitive::Int);
    }
    if eq_str(class_name, "java/util/OptionalLong") {
        return Some(Primitive::Long);
    }
    if eq_str(class_name, "java/util/OptionalDouble") {
        return Some(Primitive::Double);
    }
    proof {
        assert forall|p: Primitive| optional_class(p) != class_name@ by {
            match p {
                Primitive::Int => {},
                Primitive::Long => {},
                Primitive::Double => {},
            }
        }
    }
    None
}

/// The classes the `java.util` natives belong to.
#[derive(Clone, Copy, PartialEq, Eq, Structural, Debug)]
pub enum UtilClass {
    Objects,
    Arrays,
    Stream(Primitive),
    Optional,
    PrimitiveOptional(Primitive),
}

/// The internal name of a class.
pub open spec fn class_name_of_group(g: UtilClass) -> Seq<char> {
    match g {
        UtilClass::Objects => "java/util/Objects"@,
        UtilClass::Arrays => "java/util/Arrays"@,
        UtilClass::Stream(p) => stream_class(p),
        UtilClass::Optional => "java/util/Optional"@,
        UtilClass::PrimitiveOptional(p) => optional_class(p),
    }
}

/// The class a native belongs to.
pub open spec fn util_class(k: UtilMethod) -> UtilClass {
    match k {
        UtilMethod::ArraysEquals(_) | UtilMethod::Stream(_) => UtilClass::Arrays,
        UtilMethod::IntSum | UtilMethod::IntMin | UtilMethod::IntMax => UtilClass::Stream(Primitive::Int),
        UtilMethod::LongSum | UtilMethod::LongMin | UtilMethod::LongMax => UtilClass::Stream(Primitive::Long),
        UtilMethod::Count(p) | UtilMethod::ToArray(p) => UtilClass::Stream(p),
        UtilMethod::OptionalOf | UtilMethod::OptionalIsPresent | UtilMethod::OptionalIsEmpty
        | UtilMethod::OptionalGet | UtilMethod::OptionalOrElse => UtilClass::Optional,
        UtilMethod::PrimitiveIsPresent(p) | UtilMethod::PrimitiveGet(p)
        | UtilMethod::PrimitiveOrElse(p) => UtilClass::PrimitiveOptional(p),
        _ => UtilClass::Objects,
    }
}

/// The class names are distinct, so a name determines the class.
proof fn lemma_class_names_distinct(g1: UtilClass, g2: UtilClass)
    requires
        class_name_of_group(g1) == class_name_of_group(g2),
    ensures
        g1 == g2,
{
    reveal_strlit("java/util/Objects");
    reveal_strlit("java/util/Arrays");
    reveal_strlit("java/util/Optional");
    reveal_strlit("java/util/OptionalInt");
    reveal_strlit("java/util/OptionalLong");
    reveal_strlit("java/util/OptionalDouble");
    reveal_strlit("__jvm_rs/NativeIntStream");
    reveal_strlit("__jvm_rs/NativeLongStream");
    reveal_strlit("__jvm_rs/NativeDoubleStream");
    let n1 = class_name_of_group(g1);
    let n2 = class_name_of_group(g2);
    assert(n1.len() == n2.len());
    assert(n1[0] == n2[0]);
    assert(n1[11] == n2[11]);
}

/// The class of a native is the first part of its signature.
proof fn lemma_util_class(k: UtilMethod)
    ensures
        util_signature(k).0 == class_name_of_group(util_class(k)),
{
}

/// The class an internal class name designates, if any `java.util` native belongs to it.
fn util_class_of(class_name: &[char]) -> (res: Option<UtilClass>)
    ensures
        match res {
            Some(g) => class_name_of_group(g) == class_name@,
            None => forall|g: UtilClass| class_name_of_group(g) != class_name@,
        },
{
    if eq_str(class_name, "java/util/Objects") {
        return Some(UtilClass::Objects);
    }
    if eq_str(class_name, "java/util/Arrays") {
        return Some(UtilClass::Arrays);
    }
    if eq_str(class_name, "java/util/Optional") {
        return Some(UtilClass::Optional);
    }
    if let Some(p) = stream_kind(class_name) {
        return Some(UtilClass::Stream(p));
    }
    if let Some(p) = optional_kind(class_name) {
        return Some(UtilClass::PrimitiveOptional(p));
    }
    proof {
        assert forall|g: UtilClass| class_name_of_group(g) != class_name@ by {
            match g {
                UtilClass::Stream(p) => {},
                UtilClass::PrimitiveOptional(p) => {},
                _ => {},
            }
        }
    }
    None
}

/// Whether a native of class `g` is selected by a name and descriptor.
pub open spec fn selects(k: UtilMethod, g: UtilClass, name: Seq<char>, d: Seq<char>) -> bool {
    util_valid(k) && util_class(k) == g && util_signature(k).1 == name && util_signature(k).2 == d
}

/// The `java.util.Objects` native a name and descriptor select.
fn objects_method(name: &[char], d: &[char]) -> (res: Option<UtilMethod>)
    ensures
        match res {
            Some(k) => selects(k, UtilClass::Objects, name@, d@),
            None => forall|k: UtilMethod| !selects(k, UtilClass::Objects, name@, d@),
        },
{
    let n = name;
    if eq_str(n, "requireNonNull") {
        if eq_str(d, "(Ljava/lang/Object;)Ljava/lang/Object;") {
            return Some(UtilMethod::RequireNonNull);
        }
        if eq_str(d, "(Ljava/lang/Object;Ljava/lang/String;)Ljava/lang/Object;") {
            return Some(UtilMethod::RequireNonNullWithMessage);
        }
    }
    if eq_str(n, "equals") && eq_str(d, "(Ljava/lang/Object;Ljava/lang/Object;)Z") {
        return Some(UtilMethod::ObjectsEquals);
    }
    if eq_str(n, "isNull") && eq_str(d, "(Ljava/lang/Object;)Z") {
        return Some(UtilMethod::IsNull);
    }
    if eq_str(n, "nonNull") && eq_str(d, "(Ljava/lang/Object;)Z") {
        return Some(UtilMethod::NonNull);
    }
    if eq_str(n, "hashCode") && eq_str(d, "(Ljava/lang/Object;)I") {
        return Some(UtilMethod::ObjectsHashCode);
    }
    if eq_str(n, "checkIndex") {
        if eq_str(d, "(II)I") {
            return Some(UtilMethod::CheckIndexInt);
        }
        if eq_str(d, "(JJ)J") {
            return Some(UtilMethod::CheckIndexLong);
        }
    }
    if eq_str(n, "checkFromToIndex") {
        if eq_str(d, "(III)I") {
            return Some(UtilMethod::CheckFromToIndexInt);
        }
        if eq_str(d, "(JJJ)J") {
            return Some(UtilMethod::CheckFromToIndexLong);
        }
    }
    if eq_str(n, "checkFromIndexSize") {
        if eq_str(d, "(III)I") {
            return Some(UtilMethod::CheckFromIndexSizeInt);
        }
        if eq_str(d, "(JJJ)J") {
            return Some(UtilMethod::CheckFromIndexSizeLong);
        }
    }
    None
}

/// The `java.util.Arrays` native a name and descriptor select.
fn arrays_method(name: &[char], d: &[char]) -> (res: Option<UtilMethod>)
    ensures
        match res {
            Some(k) => selects(k, UtilClass::Arrays, name@, d@),
            None => forall|k: UtilMethod| !selects(k, UtilClass::Arrays, name@, d@),
        },
{
    if eq_str(name, "equals") {
        if let Some(c) = equals_descriptor_letter(d) {
            return Some(UtilMethod::ArraysEquals(c));
        }
    }
    if eq_str(name, "stream") {
        if eq_str(d, "([I)Ljava/util/stream/IntStream;") {
            return Some(UtilMethod::Stream(Primitive::Int));
        }
        if eq_str(d, "([J)Ljava/util/stream/LongStream;") {
            return Some(UtilMethod::Stream(Primitive::Long));
        }
        if eq_str(d, "([D)Ljava/util/stream/DoubleStream;") {
            return Some(UtilMethod::Stream(Primitive::Double));
        }
    }
    proof {
        assert forall|k: UtilMethod| !selects(k, UtilClass::Arrays, name@, d@) by {
            match k {
                UtilMethod::Stream(p) => match p {
                    Primitive::Int => {},
                    Primitive::Long => {},
                    Primitive::Double => {},
                },
                _ => {},
            }
        }
    }
    None
}

/// The native stream operation a name and descriptor select.
fn stream_method(p: Primitive, name: &[char], d: &[char]) -> (res: Option<UtilMethod>)
    ensures
        match res {
            Some(k) => selects(k, UtilClass::Stream(p), name@, d@),
            None => forall|k: UtilMethod| !selects(k, UtilClass::Stream(p), name@, d@),
        },
{
    if eq_str(name, "count") && eq_str(d, "()J") {
        return Some(UtilMethod::Count(p));
    }
    if eq_str(name, "toArray") {
        let matches = match p {
            Primitive::Int => eq_str(d, "()[I"),
            Primitive::Long => eq_str(d, "()[J"),
            Primitive::Double => eq_str(d, "()[D"),
        };
        if matches {
            return Some(UtilMethod::ToArray(p));
        }
    }
    match p {
        Primitive::Int => {
            if eq_str(name, "sum") && eq_str(d, "()I") {
                return Some(UtilMethod::IntSum);
            }
            if eq_str(name, "min") && eq_str(d, "()Ljava/util/OptionalInt;") {
                return Some(UtilMethod::IntMin);
            }
            if eq_str(name, "max") && eq_str(d, "()Ljava/util/OptionalInt;") {
                return Some(UtilMethod::IntMax);
            }
        },
        Primitive::Long => {
            if eq_str(name, "sum") && eq_str(d, "()J") {
                return Some(UtilMethod::LongSum);
            }
            if eq_str(name, "min") && eq_str(d, "()Ljava/util/OptionalLong;") {
                return Some(UtilMethod::LongMin);
            }
            if eq_str(name, "max") && eq_str(d, "()Ljava/util/OptionalLong;") {
                return Some(UtilMethod::LongMax);
            }
        },
        Primitive::Double => {},
    }
    proof {
        assert forall|k: UtilMethod| !selects(k, UtilClass::Stream(p), name@, d@) by {
            match k {
                UtilMethod::ToArray(q) => match q {
                    Primitive::Int => {},
                    Primitive::Long => {},
                    Primitive::Double => {},
                },
                _ => {},
            }
        }
    }
    None
}

/// The `java.util.Optional` native a name and descriptor select.
fn optional_method(name: &[char], d: &[char]) -> (res: Option<UtilMethod>)
    ensures
        match res {
            Some(k) => selects(k, UtilClass::Optional, name@, d@),
            None => forall|k: UtilMethod| !selects(k, UtilClass::Optional, name@, d@),
        },
{
    if eq_str(name, "of") && eq_str(d, "(Ljava/lang/Object;)Ljava/util/Optional;") {
        return Some(UtilMethod::OptionalOf);
    }
    if eq_str(name, "isPresent") && eq_str(d, "()Z") {
        return Some(UtilMethod::OptionalIsPresent);
    }
    if eq_str(name, "isEmpty") && eq_str(d, "()Z") {
        return Some(UtilMethod::OptionalIsEmpty);
    }
    if eq_str(name, "get") && eq_str(d, "()Ljava/lang/Object;") {
        return Some(UtilMethod::OptionalGet);
    }
    if eq_str(name, "orElse") && eq_str(d, "(Ljava/lang/Object;)Ljava/lang/Object;") {
        return Some(UtilMethod::OptionalOrElse);
    }
    None
}

/// The primitive-optional native a name and descriptor select.
fn primitive_optional_method(p: Primitive, name: &[char], d: &[char]) -> (res: Option<UtilMethod>)
    ensures
        match res {
            Some(k) => selects(k, UtilClass::PrimitiveOptional(p), name@, d@),
            None => forall|k: UtilMethod| !selects(k, UtilClass::PrimitiveOptional(p), name@, d@),
        },
{
    if eq_str(name, "isPresent") && eq_str(d, "()Z") {
        return Some(UtilMethod::PrimitiveIsPresent(p));
    }
    let (getter, get_desc, else_desc) = match p {
        Primitive::Int => (eq_str(name, "getAsInt"), eq_str(d, "()I"), eq_str(d, "(I)I")),
        Primitive::Long => (eq_str(name, "getAsLong"), eq_str(d, "()J"), eq_str(d, "(J)J")),
        Primitive::Double => (eq_str(name, "getAsDouble"), eq_str(d, "()D"), eq_str(d, "(D)D")),
    };
    if getter && get_desc {
        return Some(UtilMethod::PrimitiveGet(p));
    }
    if eq_str(name, "orElse") && else_desc {
        return Some(UtilMethod::PrimitiveOrElse(p));
    }
    None
}

/// The native a call selects, if it is one of the `java.util` natives
/// implemented here.
pub fn util_method(class_name: &[char], name: &[char], descriptor: &[char]) -> (res: Option<UtilMethod>)
    ensures
        match res {
            Some(k) => util_valid(k) && util_signature(k) == (class_name@, name@, descriptor@),
            None => forall|k: UtilMethod|
                util_valid(k) ==> util_signature(k) != (class_name@, name@, descriptor@),
        },
{
    let g = util_class_of(class_name);
    let res = match g {
        None => None,
        Some(UtilClass::Objects) => objects_method(name, descriptor),
        Some(UtilClass::Arrays) => arrays_method(name, descriptor),
        Some(UtilClass::Stream(p)) => stream_method(p, name, descriptor),
        Some(UtilClass::Optional) => optional_method(name, descriptor),
        Some(UtilClass::PrimitiveOptional(p)) => primitive_optional_method(p, name, descriptor),
    };
    proof {
        match res {
            Some(k) => lemma_util_class(k),
            None => {
                assert forall|k: UtilMethod|
                    util_valid(k) implies util_signature(k) != (class_name@, name@, descriptor@) by {
                    lemma_util_class(k);
                    if util_signature(k) == (class_name@, name@, descriptor@) {
                        let gk = util_class(k);
                        match g {
                            Some(h) => {
                                lemma_class_names_distinct(gk, h);
                                assert(selects(k, h, name@, descriptor@));
                            },
                            None => {},
                        }
                    }
                }
            },
        }
    }
    res
}


/// `Objects.equals` on two non-`null` or `null` references.
fn references_equal(heap: &Heap, a: Reference, b: Reference) -> (res: bool)
    ensures
        res == objects_equal(heap@, a, b),
{
    match (a, b) {
        (Reference::Null, Reference::Null) => true,
        (Reference::Null, _) | (_, Reference::Null) => false,
        _ => match (stringify_reference(heap, a), stringify_reference(heap, b)) {
            (Ok(x), Ok(y)) => crate::chars::eq_chars(x.as_slice(), y.as_slice()),
            _ => a == b,
        },
    }
}

/// The wrapping `int` sum of the elements.
pub fn int_sum(values: &Vec<i32>) -> (res: i32)
    ensures
        res == int_total(values@),
{
    let mut acc: i32 = 0;
    let mut i: usize = 0;
    while i < values.len()
        invariant
            i <= values@.len(),
            acc == int_total(values@.subrange(0, i as int)),
        decreases values@.len() - i,
    {
        assert(values@.subrange(0, i + 1).drop_last() =~= values@.subrange(0, i as int));
        acc = acc.wrapping_add(values[i]);
        i = i + 1;
    }
    assert(values@.subrange(0, values@.len() as int) =~= values@);
    acc
}

/// The wrapping `long` sum of the elements.
pub fn long_sum(values: &Vec<i64>) -> (res: i64)
    ensures
        res == long_total(values@),
{
    let mut acc: i64 = 0;
    let mut i: usize = 0;
    while i < values.len()
        invariant
            i <= values@.len(),
            acc == long_total(values@.subrange(0, i as int)),
        decreases values@.len() - i,
    {
        assert(values@.subrange(0, i + 1).drop_last() =~= values@.subrange(0, i as int));
        acc = acc.wrapping_add(values[i]);
        i = i + 1;
    }
    assert(values@.subrange(0, values@.len() as int) =~= values@);
    acc
}

/// The least or greatest element of a non-empty `int` sequence.
pub fn int_extreme_of(values: &Vec<i32>, max: bool) -> (res: i32)
    requires
        values@.len() > 0,
    ensures
        res as int == extreme(values@.map_values(|x: i32| x as int), max),
{
    let ghost s = values@.map_values(|x: i32| x as int);
    let mut acc: i32 = values[0];
    let mut i: usize = 1;
    assert(s.subrange(0, 1).len() == 1);
    while i < values.len()
        invariant
            s == values@.map_values(|x: i32| x as int),
            1 <= i <= values@.len(),
            acc as int == extreme(s.subrange(0, i as int), max),
        decreases values@.len() - i,
    {
        assert(s.subrange(0, i + 1).drop_last() =~= s.subrange(0, i as int));
        let v = values[i];
        if (max && v > acc) || (!max && v < acc) {
            acc = v;
        }
        i = i + 1;
    }
    assert(s.subrange(0, values@.len() as int) =~= s);
    acc
}

/// The least or greatest element of a non-empty `long` sequence.
pub fn long_extreme_of(values: &Vec<i64>, max: bool) -> (res: i64)
    requires
        values@.len() > 0,
    ensures
        res as int == extreme(values@.map_values(|x: i64| x as int), max),
{
    let ghost s = values@.map_values(|x: i64| x as int);
    let mut acc: i64 = values[0];
    let mut i: usize = 1;
    assert(s.subrange(0, 1).len() == 1);
    while i < values.len()
        invariant
            s == values@.map_values(|x: i64| x as int),
            1 <= i <= values@.len(),
            acc as int == extreme(s.subrange(0, i as int), max),
        decreases values@.len() - i,
    {
        assert(s.subrange(0, i + 1).drop_last() =~= s.subrange(0, i as int));
        let v = values[i];
        if (max && v > acc) || (!max && v < acc) {
            acc = v;
        }
        i = i + 1;
    }
    assert(s.subrange(0, values@.len() as int) =~= s);
    acc
}

/// Reads the `value` field of an optional.
fn read_optional(heap: &Heap, r: Reference) -> (res: Result<Option<Value>, VmError>)
    ensures
        match res {
            Ok(v) => optional_value(heap@, r) == Ok::<Option<Value>, VmError>(v),
            Err(e) => optional_value(heap@, r) == Err::<Option<Value>, VmError>(e),
        },
{
    match heap.get(r)? {
        HeapValue::Object { fields, .. } => Ok(crate::heap::field_lookup(fields, "value")),
        _ => Ok(None),
    }
}

/// Whether a value is of a primitive kind.
fn is_of(v: Value, p: Primitive) -> (res: bool)
    ensures
        res == (value_kind(v) == value_kind_of(p)),
{
    match (v, p) {
        (Value::Int(_), Primitive::Int) => true,
        (Value::Long(_), Primitive::Long) => true,
        (Value::Double(_), Primitive::Double) => true,
        _ => false,
    }
}

/// Reads argument `i` as a value of a primitive kind.
fn read_prim_arg(args: &[Value], i: usize, p: Primitive) -> (res: Result<Value, VmError>)
    requires
        i < args@.len(),
    ensures
        match res {
            Ok(v) => prim_arg(args@, i as int, p) == Ok::<Value, VmError>(v),
            Err(e) => prim_arg(args@, i as int, p) == Err::<Value, VmError>(e),
        },
{
    let v = args[i];
    if is_of(v, p) {
        Ok(v)
    } else {
        let expected = match p {
            Primitive::Int => ValueKind::Int,
            Primitive::Long => ValueKind::Long,
            Primitive::Double => ValueKind::Double,
        };
        Err(VmError::TypeMismatch { expected, actual: v.kind() })
    }
}

/// Reads the array cell behind the native stream argument 0.
fn stream_array_cell<'a>(heap: &'a Heap, args: &[Value], p: Primitive) -> (res: Result<&'a HeapValue, VmError>)
    requires
        args@.len() >= 1,
    ensures
        match res {
            Ok(o) => stream_cell(heap@, args@) == Ok::<Obj, VmError>(o@),
            Err(e) => stream_cell(heap@, args@) == Err::<Obj, VmError>(e),
        },
{
    let s = args[0].as_reference()?;
    let a = match p {
        Primitive::Int => native_int_stream_array(heap, s)?,
        Primitive::Long => native_long_stream_array(heap, s)?,
        Primitive::Double => native_double_stream_array(heap, s)?,
    };
    heap.get(a)
}


/// How many arguments a native reads (receiver included).
pub fn util_arg_count(k: UtilMethod) -> (n: usize)
    ensures
        n == util_arity(k),
{
    match k {
        UtilMethod::ObjectsEquals | UtilMethod::CheckIndexInt | UtilMethod::CheckIndexLong
        | UtilMethod::ArraysEquals(_) | UtilMethod::OptionalOrElse
        | UtilMethod::PrimitiveOrElse(_) => 2,
        UtilMethod::CheckFromToIndexInt | UtilMethod::CheckFromToIndexLong
        | UtilMethod::CheckFromIndexSizeInt | UtilMethod::CheckFromIndexSizeLong => 3,
        _ => 1,
    }
}

/// A new optional of the given class holding `v`, or `null` when there is none.
fn optional_result(heap: &mut Heap, class_name: &str, v: Option<Value>) -> (res: Result<Option<Value>, VmError>)
    ensures
        answers(old(heap)@, final(heap)@, give_optional(old(heap)@, class_name@, v), res),
{
    match v {
        Some(x) => Ok(Some(Value::Reference(new_box(heap, class_name, x)))),
        None => Ok(Some(Value::Reference(Reference::Null))),
    }
}

/// Runs a `java.util` native.
pub fn invoke_util(heap: &mut Heap, k: UtilMethod, args: &[Value]) -> (res: Result<Option<Value>, VmError>)
    requires
        args@.len() >= util_arity(k),
    ensures
        answers(old(heap)@, final(heap)@, util_spec(old(heap)@, k, args@), res),
{
    match k {
        UtilMethod::RequireNonNull | UtilMethod::RequireNonNullWithMessage => {
            let r = args[0].as_reference()?;
            if r == Reference::Null {
                return Err(exception("java/lang/NullPointerException"));
            }
            Ok(Some(Value::Reference(r)))
        },
        UtilMethod::ObjectsEquals => {
            let a = args[0].as_reference()?;
            let b = args[1].as_reference()?;
            Ok(Some(Value::Int(if references_equal(heap, a, b) { 1 } else { 0 })))
        },
        UtilMethod::IsNull => {
            let r = args[0].as_reference()?;
            Ok(Some(Value::Int(if r == Reference::Null { 1 } else { 0 })))
        },
        UtilMethod::NonNull => {
            let r = args[0].as_reference()?;
            Ok(Some(Value::Int(if r == Reference::Null { 0 } else { 1 })))
        },
        UtilMethod::ObjectsHashCode => {
            let r = args[0].as_reference()?;
            Ok(Some(Value::Int(hash_object(r))))
        },
        UtilMethod::CheckIndexInt => {
            let index = args[0].as_int()?;
            let length = args[1].as_int()?;
            if index < 0 || index >= length {
                return Err(exception("java/lang/ArrayIndexOutOfBoundsException"));
            }
            Ok(Some(Value::Int(index)))
        },
        UtilMethod::CheckIndexLong => {
            let index = args[0].as_long()?;
            let length = args[1].as_long()?;
            if index < 0 || index >= length {
                return Err(exception("java/lang/ArrayIndexOutOfBoundsException"));
            }
            Ok(Some(Value::Long(index)))
        },
        UtilMethod::CheckFromToIndexInt => {
            let from = args[0].as_int()?;
            let to = args[1].as_int()?;
            let length = args[2].as_int()?;
            if from < 0 || to > length || from > to {
                return Err(exception("java/lang/IndexOutOfBoundsException"));
            }
            Ok(Some(Value::Int(from)))
        },
        UtilMethod::CheckFromToIndexLong => {
            let from = args[0].as_long()?;
            let to = args[1].as_long()?;
            let length = args[2].as_long()?;
            if from < 0 || to > length || from > to {
                return Err(exception("java/lang/IndexOutOfBoundsException"));
            }
            Ok(Some(Value::Long(from)))
        },
        UtilMethod::CheckFromIndexSizeInt => {
            let from = args[0].as_int()?;
            let size = args[1].as_int()?;
            let length = args[2].as_int()?;
            if from < 0 || size < 0 || from > length.wrapping_sub(size) {
                return Err(exception("java/lang/IndexOutOfBoundsException"));
            }
            Ok(Some(Value::Int(from)))
        },
        UtilMethod::CheckFromIndexSizeLong => {
            let from = args[0].as_long()?;
            let size = args[1].as_long()?;
            let length = args[2].as_long()?;
            if from < 0 || size < 0 || from > length.wrapping_sub(size) {
                return Err(exception("java/lang/IndexOutOfBoundsException"));
            }
            Ok(Some(Value::Long(from)))
        },
        UtilMethod::ArraysEquals(c) => {
            let a = args[0].as_reference()?;
            let b = args[1].as_reference()?;
            let eq = if c == 'J' {
                native_arrays_equals_long(heap, a, b)?
            } else if c == 'F' {
                native_arrays_equals_float(heap, a, b)?
            } else if c == 'D' {
                native_arrays_equals_double(heap, a, b)?
            } else {
                native_arrays_equals_int(heap, a, b)?
            };
            Ok(Some(Value::Int(if eq { 1 } else { 0 })))
        },
        UtilMethod::Stream(p) => {
            let a = args[0].as_reference()?;
            let class_name = match p {
                Primitive::Int => lit("__jvm_rs/NativeIntStream"),
                Primitive::Long => lit("__jvm_rs/NativeLongStream"),
                Primitive::Double => lit("__jvm_rs/NativeDoubleStream"),
            };
            let mut fields = Vec::new();
            fields.push(field("__array", Value::Reference(a)));
            assert(fields_view(fields@) =~= seq![("__array"@, Value::Reference(a))]);
            let r = heap.allocate(HeapValue::Object { class_name, fields });
            Ok(Some(Value::Reference(r)))
        },
        UtilMethod::IntSum => {
            let cell = stream_array_cell(heap, args, Primitive::Int)?;
            match cell {
                HeapValue::IntArray { values } => Ok(Some(Value::Int(int_sum(values)))),
                _ => Ok(Some(Value::Int(0))),
            }
        },
        UtilMethod::LongSum => {
            let cell = stream_array_cell(heap, args, Primitive::Long)?;
            match cell {
                HeapValue::LongArray { values } => Ok(Some(Value::Long(long_sum(values)))),
                _ => Ok(Some(Value::Long(0))),
            }
        },
        UtilMethod::Count(p) => {
            let cell = stream_array_cell(heap, args, p)?;
            let n: i64 = match (cell, p) {
                (HeapValue::IntArray { values }, Primitive::Int) => values.len() as i64,
                (HeapValue::LongArray { values }, Primitive::Long) => values.len() as i64,
                (HeapValue::DoubleArray { values }, Primitive::Double) => values.len() as i64,
                _ => 0,
            };
            Ok(Some(Value::Long(n)))
        },
        UtilMethod::ToArray(p) => {
            let s = args[0].as_reference()?;
            let a = match p {
                Primitive::Int => native_int_stream_array(heap, s)?,
                Primitive::Long => native_long_stream_array(heap, s)?,
                Primitive::Double => native_double_stream_array(heap, s)?,
            };
            Ok(Some(Value::Reference(a)))
        },
        UtilMethod::IntMin | UtilMethod::IntMax => {
            let max = match k {
                UtilMethod::IntMax => true,
                _ => false,
            };
            let cell = stream_array_cell(heap, args, Primitive::Int)?;
            let v = match cell {
                HeapValue::IntArray { values } => if values.len() == 0 {
                    None
                } else {
                    Some(Value::Int(int_extreme_of(values, max)))
                },
                _ => {
                    return Ok(Some(Value::Reference(Reference::Null)));
                },
            };
            optional_result(heap, "java/util/OptionalInt", v)
        },
        UtilMethod::LongMin | UtilMethod::LongMax => {
            let max = match k {
                UtilMethod::LongMax => true,
                _ => false,
            };
            let cell = stream_array_cell(heap, args, Primitive::Long)?;
            let v = match cell {
                HeapValue::LongArray { values } => if values.len() == 0 {
                    None
                } else {
                    Some(Value::Long(long_extreme_of(values, max)))
                },
                _ => {
                    return Ok(Some(Value::Reference(Reference::Null)));
                },
            };
            optional_result(heap, "java/util/OptionalLong", v)
        },
        UtilMethod::OptionalOf => {
            let r = args[0].as_reference()?;
            Ok(Some(Value::Reference(new_box(heap, "java/util/Optional", Value::Reference(r)))))
        },
        UtilMethod::OptionalIsPresent | UtilMethod::OptionalIsEmpty => {
            let r = args[0].as_reference()?;
            let v = read_optional(heap, r)?;
            let empty = match v {
                Some(Value::Reference(Reference::Null)) => true,
                None => true,
                _ => false,
            };
            let answer = match k {
                UtilMethod::OptionalIsEmpty => empty,
                _ => !empty,
            };
            Ok(Some(Value::Int(if answer { 1 } else { 0 })))
        },
        UtilMethod::OptionalGet => {
            let r = args[0].as_reference()?;
            match read_optional(heap, r)? {
                Some(Value::Reference(x)) => if x != Reference::Null {
                    Ok(Some(Value::Reference(x)))
                } else {
                    Err(exception("java/util/NoSuchElementException"))
                },
                _ => Err(exception("java/util/NoSuchElementException")),
            }
        },
        UtilMethod::OptionalOrElse => {
            let r = args[0].as_reference()?;
            let fallback = args[1].as_reference()?;
            let value = match read_optional(heap, r)? {
                Some(Value::Reference(x)) => if x != Reference::Null {
                    x
                } else {
                    fallback
                },
                _ => fallback,
            };
            Ok(Some(Value::Reference(value)))
        },
        UtilMethod::PrimitiveIsPresent(p) => {
            let r = args[0].as_reference()?;
            if r == Reference::Null {
                return Ok(Some(Value::Int(0)));
            }
            let present = match read_optional(heap, r)? {
                Some(x) => is_of(x, p),
                None => false,
            };
            Ok(Some(Value::Int(if present { 1 } else { 0 })))
        },
        UtilMethod::PrimitiveGet(p) => {
            let r = args[0].as_reference()?;
            if r == Reference::Null {
                return Err(exception("java/util/NoSuchElementException"));
            }
            match read_optional(heap, r)? {
                Some(x) => if is_of(x, p) {
                    Ok(Some(x))
                } else {
                    Err(exception("java/util/NoSuchElementException"))
                },
                None => Err(exception("java/util/NoSuchElementException")),
            }
        },
        UtilMethod::PrimitiveOrElse(p) => {
            let r = args[0].as_reference()?;
            let fallback = read_prim_arg(args, 1, p)?;
            if r == Reference::Null {
                return Ok(Some(fallback));
            }
            match read_optional(heap, r)? {
                Some(x) => if is_of(x, p) {
                    Ok(Some(x))
                } else {
                    Ok(Some(fallback))
                },
                None => Ok(Some(fallback)),
            }
        },
    }
}

} // verus!
