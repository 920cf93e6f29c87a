//! The static fields of the built-in classes that have them, and the
//! objects those fields refer to, which registering the classes allocates.

use vstd::prelude::*;
use crate::classes::{ClassSpec, RuntimeClass};
use crate::heap::{field, Heap};
use crate::io_objects::{new_path_holder, with_path_object};
use crate::model::{fields_view, Field, HeapValue, Obj, Reference, Value};

verus! {

/// A class with the given static fields.
pub open spec fn with_statics(c: ClassSpec, s: Seq<(Seq<char>, Value)>) -> ClassSpec {
    ClassSpec { static_fields: s, ..c }
}

/// Gives a class its static fields.
pub fn set_statics(c: &mut RuntimeClass, s: Vec<Field>)
    ensures
        final(c)@ == with_statics(old(c)@, fields_view(s@)),
{
    c.static_fields = s;
}

/// An object of a class with no fields yet.
fn new_empty_object(heap: &mut Heap, class_name: &str) -> (r: Reference)
    ensures
        r == Reference::Heap(old(heap)@.len() as usize),
        final(heap)@ == old(heap)@.push(Obj::Object { class_name: class_name@, fields: seq![] }),
{
    let fields: Vec<Field> = Vec::new();
    assert(fields_view(fields@) =~= seq![]);
    heap.allocate(HeapValue::Object { class_name: crate::chars::lit(class_name), fields })
}

/// An object of a class with one `int` field.
fn new_int_object(heap: &mut Heap, class_name: &str, name: &str, v: i32) -> (r: Reference)
    ensures
        r == Reference::Heap(old(heap)@.len() as usize),
        final(heap)@ == old(heap)@.push(Obj::Object { class_name: class_name@, fields: seq![(name@, Value::Int(v))] }),
{
    let mut fields: Vec<Field> = Vec::new();
    fields.push(field(name, Value::Int(v)));
    assert(fields_view(fields@) =~= seq![(name@, Value::Int(v))]);
    heap.allocate(HeapValue::Object { class_name: crate::chars::lit(class_name), fields })
}

/// An object of a class with a `name` and an `ordinal` field.
fn new_enum_object(heap: &mut Heap, class_name: &str, name: Value, ordinal: i32) -> (r: Reference)
    ensures
        r == Reference::Heap(old(heap)@.len() as usize),
        final(heap)@ == old(heap)@.push(Obj::Object {
            class_name: class_name@,
            fields: seq![("name"@, name), ("ordinal"@, Value::Int(ordinal))],
        }),
{
    let mut fields: Vec<Field> = Vec::new();
    fields.push(field("name", name));
    fields.push(field("ordinal", Value::Int(ordinal)));
    assert(fields_view(fields@) =~= seq![("name"@, name), ("ordinal"@, Value::Int(ordinal))]);
    heap.allocate(HeapValue::Object { class_name: crate::chars::lit(class_name), fields })
}

/// `Integer`: its limits and sizes, and `TYPE`, the class object of `int`.
pub open spec fn integer_statics(h: int) -> Seq<(Seq<char>, Value)> {
    seq![("MIN_VALUE"@, Value::Int(i32::MIN)), ("MAX_VALUE"@, Value::Int(i32::MAX)), ("SIZE"@, Value::Int(32)), ("BYTES"@, Value::Int(4)), ("TYPE"@, Value::Reference(Reference::Heap((h + 1) as usize)))]
}

/// The class object of `int`, allocated with its name.
pub open spec fn integer_heap(heap: Seq<Obj>) -> Seq<Obj> {
    with_path_object(heap, "java/lang/Class"@, "__name"@, "int"@)
}

pub fn integer_static_fields(heap: &mut Heap) -> (s: Vec<Field>)
    ensures
        fields_view(s@) == integer_statics(old(heap)@.len() as int),
        final(heap)@ == integer_heap(old(heap)@),
{
    let ghost h = old(heap)@.len() as int;
    let t = new_path_holder(heap, "java/lang/Class", "__name", crate::chars::lit("int"));
    let mut s: Vec<Field> = Vec::new();
    s.push(field("MIN_VALUE", Value::Int(i32::MIN)));
    s.push(field("MAX_VALUE", Value::Int(i32::MAX)));
    s.push(field("SIZE", Value::Int(32)));
    s.push(field("BYTES", Value::Int(4)));
    s.push(field("TYPE", Value::Reference(t)));
    assert(fields_view(s@) =~= integer_statics(h));
    s
}

/// `System`: `out` and `err`, two new print streams.
pub open spec fn system_statics(h: int) -> Seq<(Seq<char>, Value)> {
    seq![("out"@, Value::Reference(Reference::Heap((h + 0) as usize))), ("err"@, Value::Reference(Reference::Heap((h + 1) as usize)))]
}

/// Two print streams.
pub open spec fn system_heap(heap: Seq<Obj>) -> Seq<Obj> {
    heap.push(Obj::Object { class_name: "java/io/PrintStream"@, fields: seq![] }).push(Obj::Object { class_name: "java/io/PrintStream"@, fields: seq![] })
}

pub fn system_static_fields(heap: &mut Heap) -> (s: Vec<Field>)
    ensures
        fields_view(s@) == system_statics(old(heap)@.len() as int),
        final(heap)@ == system_heap(old(heap)@),
{
    let ghost h = old(heap)@.len() as int;
    let out = new_empty_object(heap, "java/io/PrintStream");
    let err = new_empty_object(heap, "java/io/PrintStream");
    let mut s: Vec<Field> = Vec::new();
    s.push(field("out", Value::Reference(out)));
    s.push(field("err", Value::Reference(err)));
    assert(fields_view(s@) =~= system_statics(h));
    s
}

/// `Console`: `__instance`, the one console.
pub open spec fn console_statics(h: int) -> Seq<(Seq<char>, Value)> {
    seq![("__instance"@, Value::Reference(Reference::Heap((h + 0) as usize)))]
}

/// The console object.
pub open spec fn console_heap(heap: Seq<Obj>) -> Seq<Obj> {
    heap.push(Obj::Object { class_name: "java/io/Console"@, fields: seq![] })
}

pub fn console_static_fields(heap: &mut Heap) -> (s: Vec<Field>)
    ensures
        fields_view(s@) == console_statics(old(heap)@.len() as int),
        final(heap)@ == console_heap(old(heap)@),
{
    let ghost h = old(heap)@.len() as int;
    let c = new_empty_object(heap, "java/io/Console");
    let mut s: Vec<Field> = Vec::new();
    s.push(field("__instance", Value::Reference(c)));
    assert(fields_view(s@) =~= console_statics(h));
    s
}

/// `StandardOpenOption`: one constant per option, each an object holding its name and ordinal.
pub open spec fn open_option_statics(h: int) -> Seq<(Seq<char>, Value)> {
    seq![("READ"@, Value::Reference(Reference::Heap((h + 7) as usize))), ("WRITE"@, Value::Reference(Reference::Heap((h + 8) as usize))), ("APPEND"@, Value::Reference(Reference::Heap((h + 9) as usize))), ("TRUNCATE_EXISTING"@, Value::Reference(Reference::Heap((h + 10) as usize))), ("CREATE"@, Value::Reference(Reference::Heap((h + 11) as usize))), ("CREATE_NEW"@, Value::Reference(Reference::Heap((h + 12) as usize))), ("DELETE_ON_CLOSE"@, Value::Reference(Reference::Heap((h + 13) as usize)))]
}

/// The option names, then the option objects.
pub open spec fn open_option_heap(heap: Seq<Obj>) -> Seq<Obj> {
    heap.push(Obj::Str("READ"@)).push(Obj::Str("WRITE"@)).push(Obj::Str("APPEND"@)).push(Obj::Str("TRUNCATE_EXISTING"@)).push(Obj::Str("CREATE"@)).push(Obj::Str("CREATE_NEW"@)).push(Obj::Str("DELETE_ON_CLOSE"@))
        .push(Obj::Object { class_name: "java/nio/file/StandardOpenOption"@, fields: seq![("name"@, Value::Reference(Reference::Heap((heap.len() + 0) as usize))), ("ordinal"@, Value::Int(0))] })
        .push(Obj::Object { class_name: "java/nio/file/StandardOpenOption"@, fields: seq![("name"@, Value::Reference(Reference::Heap((heap.len() + 1) as usize))), ("ordinal"@, Value::Int(1))] })
        .push(Obj::Object { class_name: "java/nio/file/StandardOpenOption"@, fields: seq![("name"@, Value::Reference(Reference::Heap((heap.len() + 2) as usize))), ("ordinal"@, Value::Int(2))] })
        .push(Obj::Object { class_name: "java/nio/file/StandardOpenOption"@, fields: seq![("name"@, Value::Reference(Reference::Heap((heap.len() + 3) as usize))), ("ordinal"@, Value::Int(3))] })
        .push(Obj::Object { class_name: "java/nio/file/StandardOpenOption"@, fields: seq![("name"@, Value::Reference(Reference::Heap((heap.len() + 4) as usize))), ("ordinal"@, Value::Int(4))] })
        .push(Obj::Object { class_name: "java/nio/file/StandardOpenOption"@, fields: seq![("name"@, Value::Reference(Reference::Heap((heap.len() + 5) as usize))), ("ordinal"@, Value::Int(5))] })
        .push(Obj::Object { class_name: "java/nio/file/StandardOpenOption"@, fields: seq![("name"@, Value::Reference(Reference::Heap((heap.len() + 6) as usize))), ("ordinal"@, Value::Int(6))] })
}

pub fn open_option_static_fields(heap: &mut Heap) -> (s: Vec<Field>)
    ensures
        fields_view(s@) == open_option_statics(old(heap)@.len() as int),
        final(heap)@ == open_option_heap(old(heap)@),
{
    let ghost h = old(heap)@.len() as int;
    let n0 = heap.new_string(crate::chars::lit("READ"));
    let n1 = heap.new_string(crate::chars::lit("WRITE"));
    let n2 = heap.new_string(crate::chars::lit("APPEND"));
    let n3 = heap.new_string(crate::chars::lit("TRUNCATE_EXISTING"));
    let n4 = heap.new_string(crate::chars::lit("CREATE"));
    let n5 = heap.new_string(crate::chars::lit("CREATE_NEW"));
    let n6 = heap.new_string(crate::chars::lit("DELETE_ON_CLOSE"));
    let o0 = new_enum_object(heap, "java/nio/file/StandardOpenOption", n0, 0);
    let o1 = new_enum_object(heap, "java/nio/file/StandardOpenOption", n1, 1);
    let o2 = new_enum_object(heap, "java/nio/file/StandardOpenOption", n2, 2);
    let o3 = new_enum_object(heap, "java/nio/file/StandardOpenOption", n3, 3);
    let o4 = new_enum_object(heap, "java/nio/file/StandardOpenOption", n4, 4);
    let o5 = new_enum_object(heap, "java/nio/file/StandardOpenOption", n5, 5);
    let o6 = new_enum_object(heap, "java/nio/file/StandardOpenOption", n6, 6);
    let mut s: Vec<Field> = Vec::new();
    s.push(field("READ", Value::Reference(o0)));
    s.push(field("WRITE", Value::Reference(o1)));
    s.push(field("APPEND", Value::Reference(o2)));
    s.push(field("TRUNCATE_EXISTING", Value::Reference(o3)));
    s.push(field("CREATE", Value::Reference(o4)));
    s.push(field("CREATE_NEW", Value::Reference(o5)));
    s.push(field("DELETE_ON_CLOSE", Value::Reference(o6)));
    assert(fields_view(s@) =~= open_option_statics(h));
    s
}

/// `Unsafe`: `theUnsafe`, the array layout constants and the address size.
pub open spec fn unsafe_statics(h: int) -> Seq<(Seq<char>, Value)> {
    seq![("theUnsafe"@, Value::Reference(Reference::Heap((h + 0) as usize))), ("ARRAY_BOOLEAN_BASE_OFFSET"@, Value::Int(0)), ("ARRAY_BOOLEAN_INDEX_SCALE"@, Value::Int(1)), ("ARRAY_BYTE_BASE_OFFSET"@, Value::Int(0)), ("ARRAY_BYTE_INDEX_SCALE"@, Value::Int(1)), ("ARRAY_SHORT_BASE_OFFSET"@, Value::Int(0)), ("ARRAY_SHORT_INDEX_SCALE"@, Value::Int(1)), ("ARRAY_CHAR_BASE_OFFSET"@, Value::Int(0)), ("ARRAY_CHAR_INDEX_SCALE"@, Value::Int(1)), ("ARRAY_INT_BASE_OFFSET"@, Value::Int(0)), ("ARRAY_INT_INDEX_SCALE"@, Value::Int(1)), ("ARRAY_LONG_BASE_OFFSET"@, Value::Int(0)), ("ARRAY_LONG_INDEX_SCALE"@, Value::Int(1)), ("ARRAY_FLOAT_BASE_OFFSET"@, Value::Int(0)), ("ARRAY_FLOAT_INDEX_SCALE"@, Value::Int(1)), ("ARRAY_DOUBLE_BASE_OFFSET"@, Value::Int(0)), ("ARRAY_DOUBLE_INDEX_SCALE"@, Value::Int(1)), ("ARRAY_OBJECT_BASE_OFFSET"@, Value::Int(0)), ("ARRAY_OBJECT_INDEX_SCALE"@, Value::Int(1)), ("ADDRESS_SIZE"@, Value::Int(8)), ("INVALID_FIELD_OFFSET"@, Value::Int(-1i32))]
}

/// The `Unsafe` instance.
pub open spec fn unsafe_heap(heap: Seq<Obj>) -> Seq<Obj> {
    heap.push(Obj::Object { class_name: "jdk/internal/misc/Unsafe"@, fields: seq![] })
}

pub fn unsafe_static_fields(heap: &mut Heap) -> (s: Vec<Field>)
    ensures
        fields_view(s@) == unsafe_statics(old(heap)@.len() as int),
        final(heap)@ == unsafe_heap(old(heap)@),
{
    let ghost h = old(heap)@.len() as int;
    let u = new_empty_object(heap, "jdk/internal/misc/Unsafe");
    let mut s: Vec<Field> = Vec::new();
    s.push(field("theUnsafe", Value::Reference(u)));
    s.push(field("ARRAY_BOOLEAN_BASE_OFFSET", Value::Int(0)));
    s.push(field("ARRAY_BOOLEAN_INDEX_SCALE", Value::Int(1)));
    s.push(field("ARRAY_BYTE_BASE_OFFSET", Value::Int(0)));
    s.push(field("ARRAY_BYTE_INDEX_SCALE", Value::Int(1)));
    s.push(field("ARRAY_SHORT_BASE_OFFSET", Value::Int(0)));
    s.push(field("ARRAY_SHORT_INDEX_SCALE", Value::Int(1)));
    s.push(field("ARRAY_CHAR_BASE_OFFSET", Value::Int(0)));
    s.push(field("ARRAY_CHAR_INDEX_SCALE", Value::Int(1)));
    s.push(field("ARRAY_INT_BASE_OFFSET", Value::Int(0)));
    s.push(field("ARRAY_INT_INDEX_SCALE", Value::Int(1)));
    s.push(field("ARRAY_LONG_BASE_OFFSET", Value::Int(0)));
    s.push(field("ARRAY_LONG_INDEX_SCALE", Value::Int(1)));
    s.push(field("ARRAY_FLOAT_BASE_OFFSET", Value::Int(0)));
    s.push(field("ARRAY_FLOAT_INDEX_SCALE", Value::Int(1)));
    s.push(field("ARRAY_DOUBLE_BASE_OFFSET", Value::Int(0)));
    s.push(field("ARRAY_DOUBLE_INDEX_SCALE", Value::Int(1)));
    s.push(field("ARRAY_OBJECT_BASE_OFFSET", Value::Int(0)));
    s.push(field("ARRAY_OBJECT_INDEX_SCALE", Value::Int(1)));
    s.push(field("ADDRESS_SIZE", Value::Int(8)));
    s.push(field("INVALID_FIELD_OFFSET", Value::Int(-1i32)));
    assert(fields_view(s@) =~= unsafe_statics(h));
    s
}

/// `DayOfWeek`: one constant per day, each an object holding its number (Monday is 1).
pub open spec fn day_of_week_statics(h: int) -> Seq<(Seq<char>, Value)> {
    seq![("MONDAY"@, Value::Reference(Reference::Heap((h + 0) as usize))), ("TUESDAY"@, Value::Reference(Reference::Heap((h + 1) as usize))), ("WEDNESDAY"@, Value::Reference(Reference::Heap((h + 2) as usize))), ("THURSDAY"@, Value::Reference(Reference::Heap((h + 3) as usize))), ("FRIDAY"@, Value::Reference(Reference::Heap((h + 4) as usize))), ("SATURDAY"@, Value::Reference(Reference::Heap((h + 5) as usize))), ("SUNDAY"@, Value::Reference(Reference::Heap((h + 6) as usize)))]
}

/// The day objects.
pub open spec fn day_of_week_heap(heap: Seq<Obj>) -> Seq<Obj> {
    heap
        .push(Obj::Object { class_name: "java/time/DayOfWeek"@, fields: seq![("__value"@, Value::Int(1))] })
        .push(Obj::Object { class_name: "java/time/DayOfWeek"@, fields: seq![("__value"@, Value::Int(2))] })
        .push(Obj::Object { class_name: "java/time/DayOfWeek"@, fields: seq![("__value"@, Value::Int(3))] })
        .push(Obj::Object { class_name: "java/time/DayOfWeek"@, fields: seq![("__value"@, Value::Int(4))] })
        .push(Obj::Object { class_name: "java/time/DayOfWeek"@, fields: seq![("__value"@, Value::Int(5))] })
        .push(Obj::Object { class_name: "java/time/DayOfWeek"@, fields: seq![("__value"@, Value::Int(6))] })
        .push(Obj::Object { class_name: "java/time/DayOfWeek"@, fields: seq![("__value"@, Value::Int(7))] })
}

pub fn day_of_week_static_fields(heap: &mut Heap) -> (s: Vec<Field>)
    ensures
        fields_view(s@) == day_of_week_statics(old(heap)@.len() as int),
        final(heap)@ == day_of_week_heap(old(heap)@),
{
    let ghost h = old(heap)@.len() as int;
    let d0 = new_int_object(heap, "java/time/DayOfWeek", "__value", 1);
    let d1 = new_int_object(heap, "java/time/DayOfWeek", "__value", 2);
    let d2 = new_int_object(heap, "java/time/DayOfWeek", "__value", 3);
    let d3 = new_int_object(heap, "java/time/DayOfWeek", "__value", 4);
    let d4 = new_int_object(heap, "java/time/DayOfWeek", "__value", 5);
    let d5 = new_int_object(heap, "java/time/DayOfWeek", "__value", 6);
    let d6 = new_int_object(heap, "java/time/DayOfWeek", "__value", 7);
    let mut s: Vec<Field> = Vec::new();
    s.push(field("MONDAY", Value::Reference(d0)));
    s.push(field("TUESDAY", Value::Reference(d1)));
    s.push(field("WEDNESDAY", Value::Reference(d2)));
    s.push(field("THURSDAY", Value::Reference(d3)));
    s.push(field("FRIDAY", Value::Reference(d4)));
    s.push(field("SATURDAY", Value::Reference(d5)));
    s.push(field("SUNDAY", Value::Reference(d6)));
    assert(fields_view(s@) =~= day_of_week_statics(h));
    s
}

/// `ZoneId`: `UTC`, a zone object holding its id.
pub open spec fn zone_id_statics(h: int) -> Seq<(Seq<char>, Value)> {
    seq![("UTC"@, Value::Reference(Reference::Heap((h + 1) as usize)))]
}

/// The id string and the zone object.
pub open spec fn zone_id_heap(heap: Seq<Obj>) -> Seq<Obj> {
    with_path_object(heap, "java/time/ZoneId"@, "__id"@, "UTC"@)
}

pub fn zone_id_static_fields(heap: &mut Heap) -> (s: Vec<Field>)
    ensures
        fields_view(s@) == zone_id_statics(old(heap)@.len() as int),
        final(heap)@ == zone_id_heap(old(heap)@),
{
    let ghost h = old(heap)@.len() as int;
    let z = new_path_holder(heap, "java/time/ZoneId", "__id", crate::chars::lit("UTC"));
    let mut s: Vec<Field> = Vec::new();
    s.push(field("UTC", Value::Reference(z)));
    assert(fields_view(s@) =~= zone_id_statics(h));
    s
}

} // verus!
