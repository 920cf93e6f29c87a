//! The `Field`, `Method` and `Constructor` objects that `getDeclaredField`,
//! `getDeclaredMethod` and `getDeclaredConstructor` (and their public
//! variants) return once the member's descriptor has been found, and what
//! reading their metadata gives back.
//!
//! The member search and the `Class` objects of the member's type are the
//! caller's: it runs the search step by step (`find_field_descriptor`,
//! `find_method_descriptor`) and resolves the `Class` object that
//! `class_ref_for_descriptor` names. The descriptor is stored as a new
//! string.

use vstd::prelude::*;
use crate::heap::{deref, field, Heap};
use crate::helpers::{class_internal, copy_chars, string_value};
use crate::model::{field_get, fields_view, lemma_field_index_first, Field, HeapValue, Obj, Reference, Value, VmError};
use crate::native::next_ref;
use crate::reflection::{field_meta, method_meta};

verus! {

/// A `Field` object: declaring class, name, descriptor (a string), type,
/// modifiers (public, and static when the field is) and slot.
pub open spec fn field_object(this: Reference, name: Reference, desc: Reference, ty: Reference, is_static: bool) -> Obj {
    Obj::Object {
        class_name: "java/lang/reflect/Field"@,
        fields: seq![
            ("__declaring_class"@, Value::Reference(this)),
            ("__name"@, Value::Reference(name)),
            ("__descriptor"@, Value::Reference(desc)),
            ("__type"@, Value::Reference(ty)),
            ("__modifiers"@, Value::Int(if is_static { 9i32 } else { 1i32 })),
            ("__slot"@, Value::Int(0)),
        ],
    }
}

/// A `Method` object: declaring class, name, descriptor (a string),
/// parameter types, return type and modifiers (public).
pub open spec fn method_object(this: Reference, name: Reference, desc: Reference, params: Reference, ret: Reference) -> Obj {
    Obj::Object {
        class_name: "java/lang/reflect/Method"@,
        fields: seq![
            ("__declaring_class"@, Value::Reference(this)),
            ("__name"@, Value::Reference(name)),
            ("__descriptor"@, Value::Reference(desc)),
            ("__parameter_types"@, Value::Reference(params)),
            ("__return_type"@, Value::Reference(ret)),
            ("__modifiers"@, Value::Int(1)),
        ],
    }
}

/// A `Constructor` object: declaring class, parameter types, modifiers
/// (public), descriptor (a string) and slot.
pub open spec fn constructor_object(this: Reference, params: Reference, desc: Reference) -> Obj {
    Obj::Object {
        class_name: "java/lang/reflect/Constructor"@,
        fields: seq![
            ("__declaring_class"@, Value::Reference(this)),
            ("__parameter_types"@, Value::Reference(params)),
            ("__modifiers"@, Value::Int(1)),
            ("__descriptor"@, Value::Reference(desc)),
            ("__slot"@, Value::Int(0)),
        ],
    }
}

/// The heap after storing a descriptor string and then a member object
/// that refers to it.
pub open spec fn with_member(heap: Seq<Obj>, desc: Seq<char>, member: spec_fn(Reference) -> Obj) -> Seq<Obj> {
    heap.push(Obj::Str(desc)).push(member(next_ref(heap)))
}

/// The reference the member object receives.
pub open spec fn member_ref(heap: Seq<Obj>) -> Reference {
    Reference::Heap((heap.len() + 1) as usize)
}

/// A `Class` object naming a class by its internal name (a string).
pub open spec fn class_object(name: Reference) -> Obj {
    Obj::Object { class_name: "java/lang/Class"@, fields: seq![("__name"@, Value::Reference(name))] }
}

/// The heap after allocating a class name's string and then a `Class`
/// object naming it.
pub open spec fn with_class_object(heap: Seq<Obj>, name: Seq<char>) -> Seq<Obj> {
    heap.push(Obj::Str(name)).push(class_object(next_ref(heap)))
}

/// A new `Class` object reads back the name it was made for.
pub proof fn law_class_object_name(heap: Seq<Obj>, name: Seq<char>)
    requires
        heap.len() + 2 <= usize::MAX,
    ensures
        class_internal(with_class_object(heap, name), member_ref(heap)) == Ok::<Seq<char>, VmError>(name),
{
    reveal_strlit("__name");
    let h = with_class_object(heap, name);
    lemma_field_index_first(class_object(next_ref(heap))->Object_fields, "__name"@, 0);
    assert(h[heap.len() as int] == Obj::Str(name));
}

/// Allocates a `Class` object for a class name: the name's string, then
/// the object. Reading the object's class name gives the name back.
pub fn new_class_object(heap: &mut Heap, name: &Vec<char>) -> (r: Reference)
    ensures
        r == member_ref(old(heap)@),
        final(heap)@ == with_class_object(old(heap)@, name@),
        class_internal(final(heap)@, r) == Ok::<Seq<char>, VmError>(name@),
{
    let n = heap.new_string(copy_chars(name));
    let mut fs: Vec<Field> = Vec::new();
    fs.push(field("__name", n));
    let ghost nr = n->Reference_0;
    assert(fields_view(fs@) =~= class_object(nr)->Object_fields);
    let r = heap.allocate(HeapValue::Object { class_name: crate::chars::lit("java/lang/Class"), fields: fs });
    proof {
        law_class_object_name(old(heap)@, name@);
    }
    r
}

/// Allocates the `Field` object for a found field.
pub fn new_field_object(heap: &mut Heap, this: Reference, name: Reference, descriptor: &Vec<char>, is_static: bool, ty: Reference) -> (r: Reference)
    ensures
        r == member_ref(old(heap)@),
        final(heap)@ == with_member(old(heap)@, descriptor@, |d: Reference| field_object(this, name, d, ty, is_static)),
{
    let d = heap.new_string(copy_chars(descriptor));
    let mut fs: Vec<Field> = Vec::new();
    fs.push(field("__declaring_class", Value::Reference(this)));
    fs.push(field("__name", Value::Reference(name)));
    fs.push(field("__descriptor", d));
    fs.push(field("__type", Value::Reference(ty)));
    fs.push(field("__modifiers", Value::Int(if is_static { 9i32 } else { 1i32 })));
    fs.push(field("__slot", Value::Int(0)));
    let ghost dr = d->Reference_0;
    assert(fields_view(fs@) =~= field_object(this, name, dr, ty, is_static)->Object_fields);
    heap.allocate(HeapValue::Object { class_name: crate::chars::lit("java/lang/reflect/Field"), fields: fs })
}

/// Allocates the `Method` object for a found method.
pub fn new_method_object(heap: &mut Heap, this: Reference, name: Reference, params: Reference, descriptor: &Vec<char>, ret: Reference) -> (r: Reference)
    ensures
        r == member_ref(old(heap)@),
        final(heap)@ == with_member(old(heap)@, descriptor@, |d: Reference| method_object(this, name, d, params, ret)),
{
    let d = heap.new_string(copy_chars(descriptor));
    let mut fs: Vec<Field> = Vec::new();
    fs.push(field("__declaring_class", Value::Reference(this)));
    fs.push(field("__name", Value::Reference(name)));
    fs.push(field("__descriptor", d));
    fs.push(field("__parameter_types", Value::Reference(params)));
    fs.push(field("__return_type", Value::Reference(ret)));
    fs.push(field("__modifiers", Value::Int(1)));
    let ghost dr = d->Reference_0;
    assert(fields_view(fs@) =~= method_object(this, name, dr, params, ret)->Object_fields);
    heap.allocate(HeapValue::Object { class_name: crate::chars::lit("java/lang/reflect/Method"), fields: fs })
}

/// Allocates the `Constructor` object for a found constructor.
pub fn new_constructor_object(heap: &mut Heap, this: Reference, params: Reference, descriptor: &Vec<char>) -> (r: Reference)
    ensures
        r == member_ref(old(heap)@),
        final(heap)@ == with_member(old(heap)@, descriptor@, |d: Reference| constructor_object(this, params, d)),
{
    let d = heap.new_string(copy_chars(descriptor));
    let mut fs: Vec<Field> = Vec::new();
    fs.push(field("__declaring_class", Value::Reference(this)));
    fs.push(field("__parameter_types", Value::Reference(params)));
    fs.push(field("__modifiers", Value::Int(1)));
    fs.push(field("__descriptor", d));
    fs.push(field("__slot", Value::Int(0)));
    let ghost dr = d->Reference_0;
    assert(fields_view(fs@) =~= constructor_object(this, params, dr)->Object_fields);
    heap.allocate(HeapValue::Object { class_name: crate::chars::lit("java/lang/reflect/Constructor"), fields: fs })
}

/// Reading through references that resolve is unaffected by allocating.
proof fn lemma_reads_survive_push(heap: Seq<Obj>, o: Obj, this: Reference, name: Reference)
    ensures
        class_internal(heap, this) is Ok ==> class_internal(heap.push(o), this) == class_internal(heap, this),
        string_value(heap, name) is Ok ==> string_value(heap.push(o), name) == string_value(heap, name),
{
    let h1 = heap.push(o);
    if let Some(Obj::Object { class_name, fields }) = deref(heap, this) {
        if let Some(Value::Reference(n)) = field_get(fields, "__name"@) {
            if let Some(_) = deref(heap, n) {
                assert(deref(h1, n) == deref(heap, n));
            }
        }
        assert(deref(h1, this) == deref(heap, this));
    }
    if let Some(_) = deref(heap, name) {
        assert(deref(h1, name) == deref(heap, name));
    }
}

/// The hidden fields of the reflection objects are found under their
/// names.
proof fn lemma_member_fields(this: Reference, name: Reference, desc: Reference, ty: Reference, params: Reference, ret: Reference, is_static: bool)
    ensures
        field_object(this, name, desc, ty, is_static) matches Obj::Object { fields, .. } && {
            &&& field_get(fields, "__declaring_class"@) == Some(Value::Reference(this))
            &&& field_get(fields, "__name"@) == Some(Value::Reference(name))
            &&& field_get(fields, "__descriptor"@) == Some(Value::Reference(desc))
            &&& field_get(fields, "__modifiers"@) == Some(Value::Int(if is_static { 9i32 } else { 1i32 }))
        },
        method_object(this, name, desc, params, ret) matches Obj::Object { fields, .. } && {
            &&& field_get(fields, "__declaring_class"@) == Some(Value::Reference(this))
            &&& field_get(fields, "__name"@) == Some(Value::Reference(name))
            &&& field_get(fields, "__descriptor"@) == Some(Value::Reference(desc))
        },
        constructor_object(this, params, desc) matches Obj::Object { fields, .. } && {
            &&& field_get(fields, "__declaring_class"@) == Some(Value::Reference(this))
            &&& field_get(fields, "__descriptor"@) == Some(Value::Reference(desc))
        },
{
    reveal_strlit("__declaring_class");
    reveal_strlit("__name");
    reveal_strlit("__descriptor");
    reveal_strlit("__type");
    reveal_strlit("__modifiers");
    reveal_strlit("__slot");
    reveal_strlit("__parameter_types");
    reveal_strlit("__return_type");
    let f = field_object(this, name, desc, ty, is_static)->Object_fields;
    assert(f[0].0.len() != "__name"@.len());
    lemma_field_index_first(f, "__declaring_class"@, 0);
    lemma_field_index_first(f, "__name"@, 1);
    assert(f[1].0[2] != "__descriptor"@[2]);
    lemma_field_index_first(f, "__descriptor"@, 2);
    assert(f[0].0.len() != "__modifiers"@.len());
    assert(f[1].0.len() != "__modifiers"@.len());
    assert(f[2].0.len() != "__modifiers"@.len());
    assert(f[3].0.len() != "__modifiers"@.len());
    assert forall|j: int| 0 <= j < 4 implies f[j].0 != "__modifiers"@ by {
        if j == 0 {} else if j == 1 {} else if j == 2 {} else {}
    }
    lemma_field_index_first(f, "__modifiers"@, 4);
    let m = method_object(this, name, desc, params, ret)->Object_fields;
    assert(m[0].0.len() != "__name"@.len());
    lemma_field_index_first(m, "__declaring_class"@, 0);
    lemma_field_index_first(m, "__name"@, 1);
    assert(m[1].0[2] != "__descriptor"@[2]);
    lemma_field_index_first(m, "__descriptor"@, 2);
    let c = constructor_object(this, params, desc)->Object_fields;
    lemma_field_index_first(c, "__declaring_class"@, 0);
    assert(c[0].0.len() != "__descriptor"@.len());
    assert(c[1].0.len() != "__descriptor"@.len());
    assert(c[2].0.len() != "__descriptor"@.len());
    assert forall|j: int| 0 <= j < 3 implies c[j].0 != "__descriptor"@ by {
        if j == 0 {} else if j == 1 {} else {}
    }
    lemma_field_index_first(c, "__descriptor"@, 3);
}

/// The `Field` object built for a field reads back as what it was built
/// from: `field_metadata` gives the declaring class's name, the field's
/// name, its descriptor and whether it is static, whenever the declaring
/// `Class` object and the name string read (as `getDeclaredField` reads
/// them before the search).
pub proof fn law_field_object_metadata(heap: Seq<Obj>, this: Reference, name: Reference, d: Seq<char>, is_static: bool, ty: Reference)
    requires
        class_internal(heap, this) is Ok,
        string_value(heap, name) is Ok,
        heap.len() + 2 <= usize::MAX,
    ensures
        field_meta(with_member(heap, d, |dr: Reference| field_object(this, name, dr, ty, is_static)), member_ref(heap))
            == Ok::<(Seq<char>, Seq<char>, Seq<char>, bool), VmError>((class_internal(heap, this)->Ok_0, string_value(heap, name)->Ok_0, d, is_static)),
{
    let h0 = heap.push(Obj::Str(d));
    let dr = next_ref(heap);
    let o = field_object(this, name, dr, ty, is_static);
    let h1 = h0.push(o);
    assert(h1 == with_member(heap, d, |dr: Reference| field_object(this, name, dr, ty, is_static)));
    lemma_reads_survive_push(heap, Obj::Str(d), this, name);
    lemma_reads_survive_push(h0, o, this, name);
    lemma_member_fields(this, name, dr, ty, Reference::Null, Reference::Null, is_static);
    assert(deref(h1, member_ref(heap)) == Some(o));
    assert(deref(h1, dr) == Some(Obj::Str(d)));
    assert(string_value(h1, dr) == Ok::<Seq<char>, VmError>(d));
    assert(9i32 & 8i32 != 0i32) by (bit_vector);
    assert(1i32 & 8i32 == 0i32) by (bit_vector);
}

/// The `Method` object built for a method reads back as what it was built
/// from: `method_metadata` gives the declaring class's name, the method's
/// name and its descriptor.
pub proof fn law_method_object_metadata(heap: Seq<Obj>, this: Reference, name: Reference, params: Reference, d: Seq<char>, ret: Reference)
    requires
        class_internal(heap, this) is Ok,
        string_value(heap, name) is Ok,
        heap.len() + 2 <= usize::MAX,
    ensures
        method_meta(with_member(heap, d, |dr: Reference| method_object(this, name, dr, params, ret)), member_ref(heap), true)
            == Ok::<(Seq<char>, Seq<char>, Seq<char>), VmError>((class_internal(heap, this)->Ok_0, string_value(heap, name)->Ok_0, d)),
{
    let h0 = heap.push(Obj::Str(d));
    let dr = next_ref(heap);
    let o = method_object(this, name, dr, params, ret);
    let h1 = h0.push(o);
    assert(h1 == with_member(heap, d, |dr: Reference| method_object(this, name, dr, params, ret)));
    lemma_reads_survive_push(heap, Obj::Str(d), this, name);
    lemma_reads_survive_push(h0, o, this, name);
    lemma_member_fields(this, name, dr, Reference::Null, params, ret, false);
    assert(deref(h1, member_ref(heap)) == Some(o));
    assert(string_value(h1, dr) == Ok::<Seq<char>, VmError>(d));
}

/// The `Constructor` object built for a constructor reads back as what it
/// was built from: `constructor_metadata` gives the declaring class's name,
/// `<init>` and the descriptor, whatever else the object holds.
pub proof fn law_constructor_object_metadata(heap: Seq<Obj>, this: Reference, params: Reference, d: Seq<char>)
    requires
        class_internal(heap, this) is Ok,
        heap.len() + 2 <= usize::MAX,
    ensures
        method_meta(with_member(heap, d, |dr: Reference| constructor_object(this, params, dr)), member_ref(heap), false)
            == Ok::<(Seq<char>, Seq<char>, Seq<char>), VmError>((class_internal(heap, this)->Ok_0, "<init>"@, d)),
{
    let h0 = heap.push(Obj::Str(d));
    let dr = next_ref(heap);
    let o = constructor_object(this, params, dr);
    let h1 = h0.push(o);
    assert(h1 == with_member(heap, d, |dr: Reference| constructor_object(this, params, dr)));
    lemma_reads_survive_push(heap, Obj::Str(d), this, Reference::Null);
    lemma_reads_survive_push(h0, o, this, Reference::Null);
    lemma_member_fields(this, Reference::Null, dr, Reference::Null, params, Reference::Null, false);
    assert(deref(h1, member_ref(heap)) == Some(o));
    assert(string_value(h1, dr) == Ok::<Seq<char>, VmError>(d));
}

} // verus!
