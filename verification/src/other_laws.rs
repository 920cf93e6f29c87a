//! Properties of the `jdk.internal.misc.Unsafe` class that span its
//! registration and its natives.

use vstd::prelude::*;
use crate::bootstrap::{other_heap, other_table};
use crate::class_data::UNSAFE_CLASS;
use crate::class_statics::{unsafe_statics, with_statics};
use crate::classes::{law_register_then_find, parse_class, static_field};
use crate::model::{field_get, lemma_field_index_first, Obj, Value};
use crate::native::{done, next_ref};
use crate::other::{other_spec, unsafe_native, OtherMethod};

verus! {

/// In a field list whose names are distinct, each field is found under
/// its own name.
pub proof fn lemma_distinct_names_found(fields: Seq<(Seq<char>, Value)>)
    requires
        forall|i: int, j: int| 0 <= i < j < fields.len() ==> #[trigger] fields[i].0 != #[trigger] fields[j].0,
    ensures
        forall|k: int| 0 <= k < fields.len() ==> field_get(fields, #[trigger] fields[k].0) == Some(fields[k].1),
{
    assert forall|k: int| 0 <= k < fields.len() implies field_get(fields, #[trigger] fields[k].0) == Some(fields[k].1) by {
        assert forall|j: int| 0 <= j < k implies fields[j].0 != fields[k].0 by {}
        lemma_field_index_first(fields, fields[k].0, k);
    }
}

/// Each static field of `Unsafe` is found under its own name, holding the
/// value it was given.
proof fn lemma_unsafe_statics_found(h: int)
    ensures
        field_get(unsafe_statics(h), "theUnsafe"@) == Some(Value::Reference(crate::model::Reference::Heap((h + 0) as usize))),
        field_get(unsafe_statics(h), "ARRAY_BOOLEAN_BASE_OFFSET"@) == Some(Value::Int(0)),
        field_get(unsafe_statics(h), "ARRAY_BOOLEAN_INDEX_SCALE"@) == Some(Value::Int(1)),
        field_get(unsafe_statics(h), "ARRAY_BYTE_BASE_OFFSET"@) == Some(Value::Int(0)),
        field_get(unsafe_statics(h), "ARRAY_BYTE_INDEX_SCALE"@) == Some(Value::Int(1)),
        field_get(unsafe_statics(h), "ARRAY_SHORT_BASE_OFFSET"@) == Some(Value::Int(0)),
        field_get(unsafe_statics(h), "ARRAY_SHORT_INDEX_SCALE"@) == Some(Value::Int(1)),
        field_get(unsafe_statics(h), "ARRAY_CHAR_BASE_OFFSET"@) == Some(Value::Int(0)),
        field_get(unsafe_statics(h), "ARRAY_CHAR_INDEX_SCALE"@) == Some(Value::Int(1)),
        field_get(unsafe_statics(h), "ARRAY_INT_BASE_OFFSET"@) == Some(Value::Int(0)),
        field_get(unsafe_statics(h), "ARRAY_INT_INDEX_SCALE"@) == Some(Value::Int(1)),
        field_get(unsafe_statics(h), "ARRAY_LONG_BASE_OFFSET"@) == Some(Value::Int(0)),
        field_get(unsafe_statics(h), "ARRAY_LONG_INDEX_SCALE"@) == Some(Value::Int(1)),
        field_get(unsafe_statics(h), "ARRAY_FLOAT_BASE_OFFSET"@) == Some(Value::Int(0)),
        field_get(unsafe_statics(h), "ARRAY_FLOAT_INDEX_SCALE"@) == Some(Value::Int(1)),
        field_get(unsafe_statics(h), "ARRAY_DOUBLE_BASE_OFFSET"@) == Some(Value::Int(0)),
        field_get(unsafe_statics(h), "ARRAY_DOUBLE_INDEX_SCALE"@) == Some(Value::Int(1)),
        field_get(unsafe_statics(h), "ARRAY_OBJECT_BASE_OFFSET"@) == Some(Value::Int(0)),
        field_get(unsafe_statics(h), "ARRAY_OBJECT_INDEX_SCALE"@) == Some(Value::Int(1)),
        field_get(unsafe_statics(h), "ADDRESS_SIZE"@) == Some(Value::Int(8)),
        field_get(unsafe_statics(h), "INVALID_FIELD_OFFSET"@) == Some(Value::Int(-1i32)),
{
    let s = unsafe_statics(h);
    reveal_strlit("theUnsafe");
    reveal_strlit("ARRAY_BOOLEAN_BASE_OFFSET");
    reveal_strlit("ARRAY_BOOLEAN_INDEX_SCALE");
    reveal_strlit("ARRAY_BYTE_BASE_OFFSET");
    reveal_strlit("ARRAY_BYTE_INDEX_SCALE");
    reveal_strlit("ARRAY_SHORT_BASE_OFFSET");
    reveal_strlit("ARRAY_SHORT_INDEX_SCALE");
    reveal_strlit("ARRAY_CHAR_BASE_OFFSET");
    reveal_strlit("ARRAY_CHAR_INDEX_SCALE");
    reveal_strlit("ARRAY_INT_BASE_OFFSET");
    reveal_strlit("ARRAY_INT_INDEX_SCALE");
    reveal_strlit("ARRAY_LONG_BASE_OFFSET");
    reveal_strlit("ARRAY_LONG_INDEX_SCALE");
    reveal_strlit("ARRAY_FLOAT_BASE_OFFSET");
    reveal_strlit("ARRAY_FLOAT_INDEX_SCALE");
    reveal_strlit("ARRAY_DOUBLE_BASE_OFFSET");
    reveal_strlit("ARRAY_DOUBLE_INDEX_SCALE");
    reveal_strlit("ARRAY_OBJECT_BASE_OFFSET");
    reveal_strlit("ARRAY_OBJECT_INDEX_SCALE");
    reveal_strlit("ADDRESS_SIZE");
    reveal_strlit("INVALID_FIELD_OFFSET");
    // Any two of the names differ in length, at position 6, at the
    // eleventh position from the end, or in their last character.
    assert forall|i: int, j: int| 0 <= i < j < s.len() implies #[trigger] s[i].0 != #[trigger] s[j].0 by {
        assert(s[i].0.len() != s[j].0.len() || s[i].0[6] != s[j].0[6]
            || s[i].0[s[i].0.len() - 11] != s[j].0[s[j].0.len() - 11]
            || s[i].0[s[i].0.len() - 1] != s[j].0[s[j].0.len() - 1]);
    }
    lemma_distinct_names_found(s);
    assert(s[0].0 == "theUnsafe"@);
    assert(s[1].0 == "ARRAY_BOOLEAN_BASE_OFFSET"@);
    assert(s[2].0 == "ARRAY_BOOLEAN_INDEX_SCALE"@);
    assert(s[3].0 == "ARRAY_BYTE_BASE_OFFSET"@);
    assert(s[4].0 == "ARRAY_BYTE_INDEX_SCALE"@);
    assert(s[5].0 == "ARRAY_SHORT_BASE_OFFSET"@);
    assert(s[6].0 == "ARRAY_SHORT_INDEX_SCALE"@);
    assert(s[7].0 == "ARRAY_CHAR_BASE_OFFSET"@);
    assert(s[8].0 == "ARRAY_CHAR_INDEX_SCALE"@);
    assert(s[9].0 == "ARRAY_INT_BASE_OFFSET"@);
    assert(s[10].0 == "ARRAY_INT_INDEX_SCALE"@);
    assert(s[11].0 == "ARRAY_LONG_BASE_OFFSET"@);
    assert(s[12].0 == "ARRAY_LONG_INDEX_SCALE"@);
    assert(s[13].0 == "ARRAY_FLOAT_BASE_OFFSET"@);
    assert(s[14].0 == "ARRAY_FLOAT_INDEX_SCALE"@);
    assert(s[15].0 == "ARRAY_DOUBLE_BASE_OFFSET"@);
    assert(s[16].0 == "ARRAY_DOUBLE_INDEX_SCALE"@);
    assert(s[17].0 == "ARRAY_OBJECT_BASE_OFFSET"@);
    assert(s[18].0 == "ARRAY_OBJECT_INDEX_SCALE"@);
    assert(s[19].0 == "ADDRESS_SIZE"@);
    assert(s[20].0 == "INVALID_FIELD_OFFSET"@);
}

/// What `bootstrap_other` registers agrees with what the `Unsafe` natives
/// answer: on the class the `Unsafe` line describes, `theUnsafe` refers to
/// the new `Unsafe` object, every `ARRAY_<K>_BASE_OFFSET` is 0 and every
/// `ARRAY_<K>_INDEX_SCALE` is 1, as `arrayBaseOffset` and `arrayIndexScale`
/// answer for any class, `ADDRESS_SIZE` is 8, as `addressSize` answers, and
/// `INVALID_FIELD_OFFSET` is -1.
pub proof fn law_unsafe_statics_agree(t: Seq<crate::classes::ClassSpec>, heap: Seq<Obj>, h: Seq<Obj>, args: Seq<Value>)
    ensures
        ({
            let t1 = other_table(t, heap);
            let u = parse_class(UNSAFE_CLASS@).name;
            let base = unsafe_native("arrayBaseOffset"@, "(Ljava/lang/Class;)I"@);
            let scale = unsafe_native("arrayIndexScale"@, "(Ljava/lang/Class;)I"@);
            let size = unsafe_native("addressSize"@, "()I"@);
            &&& base == Some(OtherMethod::Fixed(Some(Value::Int(0))))
            &&& scale == Some(OtherMethod::Fixed(Some(Value::Int(1))))
            &&& size == Some(OtherMethod::Fixed(Some(Value::Int(8))))
            &&& other_spec(h, base.unwrap(), args) == done(h, Some(Value::Int(0)))
            &&& other_spec(h, scale.unwrap(), args) == done(h, Some(Value::Int(1)))
            &&& other_spec(h, size.unwrap(), args) == done(h, Some(Value::Int(8)))
            &&& other_heap(heap)[heap.len() as int] == (Obj::Object { class_name: "jdk/internal/misc/Unsafe"@, fields: seq![] })
            &&& static_field(t1, u, "theUnsafe"@) == Ok::<Value, crate::model::Fault>(Value::Reference(next_ref(heap)))
            &&& static_field(t1, u, "ARRAY_BOOLEAN_BASE_OFFSET"@) == Ok::<Value, crate::model::Fault>(Value::Int(0))
            &&& static_field(t1, u, "ARRAY_BOOLEAN_INDEX_SCALE"@) == Ok::<Value, crate::model::Fault>(Value::Int(1))
            &&& static_field(t1, u, "ARRAY_BYTE_BASE_OFFSET"@) == Ok::<Value, crate::model::Fault>(Value::Int(0))
            &&& static_field(t1, u, "ARRAY_BYTE_INDEX_SCALE"@) == Ok::<Value, crate::model::Fault>(Value::Int(1))
            &&& static_field(t1, u, "ARRAY_SHORT_BASE_OFFSET"@) == Ok::<Value, crate::model::Fault>(Value::Int(0))
            &&& static_field(t1, u, "ARRAY_SHORT_INDEX_SCALE"@) == Ok::<Value, crate::model::Fault>(Value::Int(1))
            &&& static_field(t1, u, "ARRAY_CHAR_BASE_OFFSET"@) == Ok::<Value, crate::model::Fault>(Value::Int(0))
            &&& static_field(t1, u, "ARRAY_CHAR_INDEX_SCALE"@) == Ok::<Value, crate::model::Fault>(Value::Int(1))
            &&& static_field(t1, u, "ARRAY_INT_BASE_OFFSET"@) == Ok::<Value, crate::model::Fault>(Value::Int(0))
            &&& static_field(t1, u, "ARRAY_INT_INDEX_SCALE"@) == Ok::<Value, crate::model::Fault>(Value::Int(1))
            &&& static_field(t1, u, "ARRAY_LONG_BASE_OFFSET"@) == Ok::<Value, crate::model::Fault>(Value::Int(0))
            &&& static_field(t1, u, "ARRAY_LONG_INDEX_SCALE"@) == Ok::<Value, crate::model::Fault>(Value::Int(1))
            &&& static_field(t1, u, "ARRAY_FLOAT_BASE_OFFSET"@) == Ok::<Value, crate::model::Fault>(Value::Int(0))
            &&& static_field(t1, u, "ARRAY_FLOAT_INDEX_SCALE"@) == Ok::<Value, crate::model::Fault>(Value::Int(1))
            &&& static_field(t1, u, "ARRAY_DOUBLE_BASE_OFFSET"@) == Ok::<Value, crate::model::Fault>(Value::Int(0))
            &&& static_field(t1, u, "ARRAY_DOUBLE_INDEX_SCALE"@) == Ok::<Value, crate::model::Fault>(Value::Int(1))
            &&& static_field(t1, u, "ARRAY_OBJECT_BASE_OFFSET"@) == Ok::<Value, crate::model::Fault>(Value::Int(0))
            &&& static_field(t1, u, "ARRAY_OBJECT_INDEX_SCALE"@) == Ok::<Value, crate::model::Fault>(Value::Int(1))
            &&& static_field(t1, u, "ADDRESS_SIZE"@) == Ok::<Value, crate::model::Fault>(Value::Int(8))
            &&& static_field(t1, u, "INVALID_FIELD_OFFSET"@) == Ok::<Value, crate::model::Fault>(Value::Int(-1i32))
        }),
{
    let c = with_statics(parse_class(UNSAFE_CLASS@), unsafe_statics(heap.len() as int));
    law_register_then_find(t, c);
    lemma_unsafe_statics_found(heap.len() as int);
    reveal_strlit("registerNatives");
    reveal_strlit("arrayBaseOffset");
    reveal_strlit("arrayIndexScale");
    reveal_strlit("addressSize");
    assert("arrayBaseOffset"@.len() != "registerNatives"@.len() || "arrayBaseOffset"@[0] != "registerNatives"@[0]);
    assert("arrayIndexScale"@[0] != "registerNatives"@[0]);
    assert("arrayIndexScale"@[5] != "arrayBaseOffset"@[5]);
    assert("addressSize"@.len() != "registerNatives"@.len());
    assert("addressSize"@.len() != "arrayBaseOffset"@.len());
    assert("addressSize"@.len() != "arrayIndexScale"@.len());
}


} // verus!
