//! Properties of the `java.util`, `java.util.concurrent` and `java.nio`
//! buffer natives that span calls: what a read gives back of a write.

use vstd::prelude::*;
use crate::buffers::{buffer_spec, element_value, int_at, pos_index, ref_at, BufferClass, BufferOp};
use crate::concurrent::{atomic_spec, kind_of, AtomicKind, AtomicOp};
use crate::heap::deref;
use crate::model::{field_get, field_index, field_set, lemma_field_index, lemma_field_index_first, Obj, Reference, Value, value_kind};
use crate::native::{box_of, give, give_bool, give_int, throw};
use crate::util::{extreme, stream_cell, util_spec, UtilMethod};

verus! {

/// Setting a field and reading it back gives the value set.
pub proof fn lemma_field_set_get(fields: Seq<(Seq<char>, Value)>, name: Seq<char>, v: Value)
    ensures
        field_get(field_set(fields, name, v), name) == Some(v),
{
    lemma_field_index(fields, name);
    let i = field_index(fields, name);
    let f2 = field_set(fields, name, v);
    if i >= 0 {
        assert forall|j: int| 0 <= j < i implies f2[j].0 != name by {}
        lemma_field_index_first(f2, name, i);
    } else {
        assert forall|j: int| 0 <= j < fields.len() implies f2[j].0 != name by {}
        lemma_field_index_first(f2, name, fields.len() as int);
    }
}

/// The `value` field of a one-field box.
proof fn lemma_box_value(class_name: Seq<char>, v: Value)
    ensures
        box_of(class_name, v) matches Obj::Object { fields, .. } && field_get(fields, "value"@) == Some(v),
{
    let fields = seq![("value"@, v)];
    lemma_field_index_first(fields, "value"@, 0);
}

/// `Optional.of(x)` holds `x`: `get` on it returns `x` when `x` is not
/// `null` (and throws `NoSuchElementException` when it is), and
/// `isPresent` tells which.
pub proof fn law_optional_of_get(heap: Seq<Obj>, x: Reference)
    requires
        heap.len() < usize::MAX,
    ensures
        util_spec(heap, UtilMethod::OptionalOf, seq![Value::Reference(x)]) matches Ok((Some(o), h1)) && {
            &&& util_spec(h1, UtilMethod::OptionalGet, seq![o]) == if x is Null {
                throw("java/util/NoSuchElementException"@)
            } else {
                give(h1, Value::Reference(x))
            }
            &&& util_spec(h1, UtilMethod::OptionalIsPresent, seq![o]) == give_bool(h1, !(x is Null))
        },
{
    lemma_box_value("java/util/Optional"@, Value::Reference(x));
}

/// The least (greatest) element of a sequence is no greater (no less) than
/// any element, and is one of them.
pub proof fn lemma_extreme(s: Seq<int>, max: bool)
    requires
        s.len() > 0,
    ensures
        forall|i: int| 0 <= i < s.len() ==> if max { s[i] <= extreme(s, max) } else { extreme(s, max) <= s[i] },
        exists|i: int| 0 <= i < s.len() && s[i] == extreme(s, max),
    decreases s.len(),
{
    if s.len() == 1 {
        assert(s[0] == extreme(s, max));
    } else {
        let d = s.drop_last();
        lemma_extreme(d, max);
        let m = extreme(d, max);
        let k = choose|k: int| 0 <= k < d.len() && d[k] == m;
        assert(d[k] == s[k]);
        if (max && s.last() > m) || (!max && s.last() < m) {
            assert(s[s.len() - 1] == extreme(s, max));
        } else {
            assert(s[k] == extreme(s, max));
        }
        assert forall|i: int| 0 <= i < s.len() implies (if max { s[i] <= extreme(s, max) } else {
            extreme(s, max) <= s[i]
        }) by {
            if i < s.len() - 1 {
                assert(d[i] == s[i]);
            }
        }
    }
}

/// `IntStream.min()` and `max()` over a non-empty array give an
/// `OptionalInt` holding the least (greatest) element: one of the
/// elements, no greater (no less) than any of them.
pub proof fn law_int_stream_extremes(heap: Seq<Obj>, args: Seq<Value>, v: Seq<i32>, max: bool)
    requires
        args.len() >= 1,
        stream_cell(heap, args) == Ok::<Obj, crate::model::VmError>(Obj::IntArray(v)),
        v.len() > 0,
        heap.len() < usize::MAX,
    ensures
        util_spec(heap, if max { UtilMethod::IntMax } else { UtilMethod::IntMin }, args) matches Ok((Some(Value::Reference(o)), h1)) && {
            &&& h1 == heap.push(box_of("java/util/OptionalInt"@, Value::Int(extreme(v.map_values(|x: i32| x as int), max) as i32)))
            &&& forall|i: int| 0 <= i < v.len() ==> if max {
                v[i] <= extreme(v.map_values(|x: i32| x as int), max)
            } else {
                extreme(v.map_values(|x: i32| x as int), max) <= v[i]
            }
            &&& exists|i: int| 0 <= i < v.len() && v[i] as int == extreme(v.map_values(|x: i32| x as int), max)
        },
{
    let s = v.map_values(|x: i32| x as int);
    lemma_extreme(s, max);
    assert forall|i: int| 0 <= i < v.len() implies (if max { v[i] <= extreme(s, max) } else {
        extreme(s, max) <= v[i]
    }) by {
        assert(s[i] == v[i] as int);
    }
    let k = choose|k: int| 0 <= k < s.len() && s[k] == extreme(s, max);
    assert(v[k] as int == extreme(s, max));
}

/// Setting an atomic variable and reading it gives back the value set.
pub proof fn law_atomic_set_get(heap: Seq<Obj>, r: Reference, kind: AtomicKind, v: Value)
    requires
        deref(heap, r) matches Some(Obj::Object { .. }),
        value_kind(v) == kind_of(kind),
    ensures
        atomic_spec(heap, kind, AtomicOp::SetValue, seq![Value::Reference(r), v]) matches Ok((None, h1))
            && atomic_spec(h1, kind, AtomicOp::Get, seq![Value::Reference(r)]) == give(h1, v),
{
    if let Some(Obj::Object { class_name, fields }) = deref(heap, r) {
        lemma_field_set_get(fields, "__value"@, v);
    }
}

/// `compareAndSet(expect, new)` succeeds exactly when the variable holds
/// `expect`; after it succeeds the variable holds `new`, and after it fails
/// nothing has changed.
pub proof fn law_atomic_compare_and_set(heap: Seq<Obj>, r: Reference, kind: AtomicKind, expect: Value, new: Value)
    requires
        deref(heap, r) matches Some(Obj::Object { .. }),
        value_kind(expect) == kind_of(kind),
        value_kind(new) == kind_of(kind),
    ensures
        ({
            let fields = deref(heap, r)->Some_0->Object_fields;
            let holds = field_get(fields, "__value"@) == Some(expect);
            atomic_spec(heap, kind, AtomicOp::CompareAndSet, seq![Value::Reference(r), expect, new]) matches Ok((Some(res), h1))
                && res == Value::Int(if holds { 1i32 } else { 0i32 })
                && (holds ==> atomic_spec(h1, kind, AtomicOp::Get, seq![Value::Reference(r)]) == give(h1, new))
                && (!holds ==> h1 == heap)
        }),
{
    if let Some(Obj::Object { class_name, fields }) = deref(heap, r) {
        lemma_field_set_get(fields, "__value"@, new);
    }
}

/// Setting a buffer's position and reading it gives back the position set.
pub proof fn law_buffer_position(heap: Seq<Obj>, c: BufferClass, r: Reference, p: i32)
    requires
        deref(heap, r) matches Some(Obj::Object { fields, .. }) && fields.len() > pos_index(c),
    ensures
        buffer_spec(heap, c, BufferOp::SetPosition, seq![Value::Reference(r), Value::Int(p)]) matches Ok((Some(_), h1))
            && buffer_spec(h1, c, BufferOp::Position, seq![Value::Reference(r)]) == give_int(h1, p),
{
}

/// Writing an element of a byte or char buffer at an index inside its
/// backing array and reading the same index gives back the value written,
/// as a `byte` or `char` reads it.
pub proof fn law_buffer_put_get(heap: Seq<Obj>, c: BufferClass, r: Reference, i: i32, x: i32)
    requires
        !(c is Plain),
        deref(heap, r) matches Some(Obj::Object { fields, .. }) && ref_at(fields, 0) matches Some(b)
            && deref(heap, b) matches Some(Obj::IntArray(vs))
            && 0 <= int_at(fields, 1).wrapping_add(i) < vs.len(),
    ensures
        buffer_spec(heap, c, BufferOp::PutAt, seq![Value::Reference(r), Value::Int(i), Value::Int(x)]) matches Ok((Some(_), h1))
            && buffer_spec(h1, c, BufferOp::GetAt, seq![Value::Reference(r), Value::Int(i)]) == give_int(h1, element_value(c, x)),
{
}

} // verus!
