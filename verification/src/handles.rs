//! `java.lang.invoke` lookups: what a `MethodHandles.Lookup` call asks the
//! interpreter to resolve (the lookup's class and access modes, the target
//! member and its descriptor), the access-mode arithmetic of derived
//! lookups, and the field offsets `Unsafe.objectFieldOffset` asks for.

use vstd::prelude::*;
use crate::chars::lit;
use crate::descriptors::{class_name_descriptor, name_to_descriptor};
use crate::heap::{deref, deref_error, Heap};
use crate::helpers::{class_internal, class_internal_name, string_value, stringify_reference};
use crate::model::{
    field_get, obj_kind, raises, ref_arg, Expected, Fault, HeapValue, Obj, Reference, Value,
    ValueKind, VmError, value_kind,
};

verus! {

/// A VM error as a contract failure.
pub open spec fn lift<T>(r: Result<T, VmError>) -> Result<T, Fault> {
    match r {
        Ok(x) => Ok(x),
        Err(e) => Err(Fault::Error(e)),
    }
}

/// A named field of an object, as the interpreter reads it: a missing
/// field is a `FieldNotFound` error naming the object's class.
pub open spec fn get_field(heap: Seq<Obj>, r: Reference, name: Seq<char>) -> Result<Value, Fault> {
    match deref(heap, r) {
        None => Err(Fault::Error(deref_error(r))),
        Some(Obj::Object { class_name, fields }) => match field_get(fields, name) {
            Some(v) => Ok(v),
            None => Err(Fault::FieldMissing(class_name, name)),
        },
        Some(o) => Err(Fault::Error(VmError::InvalidHeapValue { expected: Expected::Object, actual: obj_kind(o) })),
    }
}

/// A value read as a reference.
pub open spec fn as_ref(v: Value) -> Result<Reference, Fault> {
    match v {
        Value::Reference(r) => Ok(r),
        _ => Err(Fault::Error(VmError::TypeMismatch { expected: ValueKind::Reference, actual: value_kind(v) })),
    }
}

/// A value read as an `int`.
pub open spec fn as_int_value(v: Value) -> Result<i32, Fault> {
    match v {
        Value::Int(i) => Ok(i),
        _ => Err(Fault::Error(VmError::TypeMismatch { expected: ValueKind::Int, actual: value_kind(v) })),
    }
}

/// A named reference field of an object.
pub open spec fn ref_field(heap: Seq<Obj>, r: Reference, name: Seq<char>) -> Result<Reference, Fault> {
    match get_field(heap, r, name) {
        Ok(v) => as_ref(v),
        Err(f) => Err(f),
    }
}

/// A named `int` field of an object.
pub open spec fn int_field(heap: Seq<Obj>, r: Reference, name: Seq<char>) -> Result<i32, Fault> {
    match get_field(heap, r, name) {
        Ok(v) => as_int_value(v),
        Err(f) => Err(f),
    }
}

/// The internal name of the class a lookup object looks up from.
pub open spec fn lookup_class(heap: Seq<Obj>, lookup: Reference) -> Result<Seq<char>, Fault> {
    match ref_field(heap, lookup, "__lookupClass"@) {
        Ok(c) => lift(class_internal(heap, c)),
        Err(f) => Err(f),
    }
}

/// The access modes of a lookup object: its `__modes` field, or all modes
/// but `ORIGINAL` (0x5f) when that cannot be read as an `int`.
pub open spec fn lookup_modes_of(heap: Seq<Obj>, lookup: Reference) -> i32 {
    match int_field(heap, lookup, "__modes"@) {
        Ok(m) => m,
        Err(_) => 0x5f,
    }
}

/// What resolving a method handle asks of the interpreter.
pub struct HandleRequest {
    /// The JVMS reference kind (`REF_getField` = 1 … `REF_newInvokeSpecial` = 8).
    pub reference_kind: u8,
    pub lookup_class: Vec<char>,
    pub lookup_modes: i32,
    pub target_class: Vec<char>,
    pub member_name: Vec<char>,
    pub descriptor: Vec<char>,
    /// The member's access flags, for handles made from reflection objects.
    pub modifiers: Option<u16>,
}

/// The content of a handle request.
pub struct RequestSpec {
    pub reference_kind: u8,
    pub lookup_class: Seq<char>,
    pub lookup_modes: i32,
    pub target_class: Seq<char>,
    pub member_name: Seq<char>,
    pub descriptor: Seq<char>,
    pub modifiers: Option<u16>,
}

impl View for HandleRequest {
    type V = RequestSpec;

    open spec fn view(&self) -> RequestSpec {
        RequestSpec {
            reference_kind: self.reference_kind,
            lookup_class: self.lookup_class@,
            lookup_modes: self.lookup_modes,
            target_class: self.target_class@,
            member_name: self.member_name@,
            descriptor: self.descriptor@,
            modifiers: self.modifiers,
        }
    }
}

/// Whether an outcome is the specified one.
pub open spec fn request_is(res: Result<HandleRequest, VmError>, expected: Result<RequestSpec, Fault>) -> bool {
    match res {
        Ok(q) => expected == Ok::<RequestSpec, Fault>(q@),
        Err(e) => match expected {
            Err(f) => raises(e, f),
            Ok(_) => false,
        },
    }
}

/// The request of `findStatic`, `findVirtual` or `findSpecial`: the
/// lookup's class, the member name (a string) and the method type's
/// descriptor are read in that order, the target class's name last.
pub open spec fn find_method_request(heap: Seq<Obj>, args: Seq<Value>, kind: u8) -> Result<RequestSpec, Fault> {
    match lift(ref_arg(args, 0)) {
        Err(f) => Err(f),
        Ok(l) => match lookup_class(heap, l) {
            Err(f) => Err(f),
            Ok(lc) => match lift(ref_arg(args, 1)) {
                Err(f) => Err(f),
                Ok(cr) => match lift(ref_arg(args, 2)) {
                    Err(f) => Err(f),
                    Ok(nr) => match lift(string_value(heap, nr)) {
                        Err(f) => Err(f),
                        Ok(name) => match lift(ref_arg(args, 3)) {
                            Err(f) => Err(f),
                            Ok(mt) => match ref_field(heap, mt, "__descriptor"@) {
                                Err(f) => Err(f),
                                Ok(dr) => match lift(string_value(heap, dr)) {
                                    Err(f) => Err(f),
                                    Ok(d) => match lift(class_internal(heap, cr)) {
                                        Err(f) => Err(f),
                                        Ok(target) => Ok(RequestSpec {
                                            reference_kind: kind,
                                            lookup_class: lc,
                                            lookup_modes: lookup_modes_of(heap, l),
                                            target_class: target,
                                            member_name: name,
                                            descriptor: d,
                                            modifiers: None,
                                        }),
                                    },
                                },
                            },
                        },
                    },
                },
            },
        },
    }
}

/// `findGetter`, `findSetter` and their static forms: receiver lookup,
/// target class, field name and field type.
pub open spec fn find_field_request(heap: Seq<Obj>, args: Seq<Value>, kind: u8) -> Result<RequestSpec, Fault> {
    match lift(ref_arg(args, 0)) {
        Err(f) => Err(f),
        Ok(l) => match lookup_class(heap, l) {
            Err(f) => Err(f),
            Ok(lc) => match lift(ref_arg(args, 1)) {
                Err(f) => Err(f),
                Ok(cr) => match lift(ref_arg(args, 2)) {
                    Err(f) => Err(f),
                    Ok(nr) => match lift(string_value(heap, nr)) {
                        Err(f) => Err(f),
                        Ok(name) => match lift(ref_arg(args, 3)) {
                            Err(f) => Err(f),
                            Ok(tr) => match lift(class_internal(heap, cr)) {
                                Err(f) => Err(f),
                                Ok(target) => match lift(class_internal(heap, tr)) {
                                    Err(f) => Err(f),
                                    Ok(ft) => Ok(RequestSpec {
                                        reference_kind: kind,
                                        lookup_class: lc,
                                        lookup_modes: lookup_modes_of(heap, l),
                                        target_class: target,
                                        member_name: name,
                                        descriptor: name_to_descriptor(ft),
                                        modifiers: None,
                                    }),
                                },
                            },
                        },
                    },
                },
            },
        },
    }
}


/// Whether an outcome is the specified one: the same value, or an error
/// that is the specified failure.
pub open spec fn yields<T>(res: Result<T, VmError>, expected: Result<T, Fault>) -> bool {
    match res {
        Ok(x) => expected == Ok::<T, Fault>(x),
        Err(e) => match expected {
            Err(f) => raises(e, f),
            Ok(_) => false,
        },
    }
}

/// Reads a named field of an object.
pub fn get_object_field(heap: &Heap, r: Reference, name: &str) -> (res: Result<Value, VmError>)
    ensures
        yields(res, get_field(heap@, r, name@)),
{
    match heap.get(r)? {
        HeapValue::Object { class_name, fields } => match crate::heap::field_lookup(fields, name) {
            Some(v) => Ok(v),
            None => Err(VmError::FieldNotFound {
                class_name: crate::helpers::copy_chars(class_name),
                field_name: lit(name),
            }),
        },
        v => Err(VmError::InvalidHeapValue { expected: Expected::Object, actual: v.kind_name() }),
    }
}

/// Reads a named reference field of an object.
fn get_ref_field(heap: &Heap, r: Reference, name: &str) -> (res: Result<Reference, VmError>)
    ensures
        yields(res, ref_field(heap@, r, name@)),
{
    let v = get_object_field(heap, r, name)?;
    v.as_reference()
}

/// Reads a named `int` field of an object.
fn get_int_field(heap: &Heap, r: Reference, name: &str) -> (res: Result<i32, VmError>)
    ensures
        yields(res, int_field(heap@, r, name@)),
{
    let v = get_object_field(heap, r, name)?;
    v.as_int()
}

/// Reads a string, as a contract failure on error.
fn read_string(heap: &Heap, r: Reference) -> (res: Result<Vec<char>, VmError>)
    ensures
        match res {
            Ok(s) => lift(string_value(heap@, r)) == Ok::<Seq<char>, Fault>(s@),
            Err(e) => lift(string_value(heap@, r)) == Err::<Seq<char>, Fault>(Fault::Error(e)),
        },
{
    stringify_reference(heap, r)
}

/// Reads a `Class` object's name, as a contract failure on error.
fn read_class(heap: &Heap, r: Reference) -> (res: Result<Vec<char>, VmError>)
    ensures
        match res {
            Ok(s) => lift(class_internal(heap@, r)) == Ok::<Seq<char>, Fault>(s@),
            Err(e) => lift(class_internal(heap@, r)) == Err::<Seq<char>, Fault>(Fault::Error(e)),
        },
{
    class_internal_name(heap, r)
}

/// The internal name of a lookup object's class.
pub fn lookup_class_name(heap: &Heap, lookup_ref: Reference) -> (res: Result<Vec<char>, VmError>)
    ensures
        match res {
            Ok(s) => lookup_class(heap@, lookup_ref) == Ok::<Seq<char>, Fault>(s@),
            Err(e) => lookup_class(heap@, lookup_ref) matches Err(f) && raises(e, f),
        },
{
    let c = get_ref_field(heap, lookup_ref, "__lookupClass")?;
    read_class(heap, c)
}

/// The access modes of a lookup object.
pub fn lookup_modes(heap: &Heap, lookup_ref: Reference) -> (m: i32)
    ensures
        m == lookup_modes_of(heap@, lookup_ref),
{
    match get_int_field(heap, lookup_ref, "__modes") {
        Ok(m) => m,
        Err(_) => 0x5f,
    }
}

/// What `findStatic` (kind 6), `findVirtual` (5) or `findSpecial` (7) asks
/// the interpreter to validate and resolve.
pub fn lookup_find_method(heap: &Heap, args: &[Value], reference_kind: u8) -> (res: Result<HandleRequest, VmError>)
    requires
        args@.len() >= 4,
    ensures
        request_is(res, find_method_request(heap@, args@, reference_kind)),
{
    let lookup_ref = args[0].as_reference()?;
    let lookup_class = lookup_class_name(heap, lookup_ref)?;
    let modes = lookup_modes(heap, lookup_ref);
    let class_ref = args[1].as_reference()?;
    let name_ref = args[2].as_reference()?;
    let member_name = read_string(heap, name_ref)?;
    let method_type_ref = args[3].as_reference()?;
    let descriptor_ref = get_ref_field(heap, method_type_ref, "__descriptor")?;
    let descriptor = read_string(heap, descriptor_ref)?;
    let target_class = read_class(heap, class_ref)?;
    Ok(HandleRequest {
        reference_kind,
        lookup_class,
        lookup_modes: modes,
        target_class,
        member_name,
        descriptor,
        modifiers: None,
    })
}

/// What `findGetter` (kind 1), `findStaticGetter` (2), `findSetter` (3) or
/// `findStaticSetter` (4) asks the interpreter to validate and resolve.
pub fn lookup_find_field(heap: &Heap, args: &[Value], reference_kind: u8) -> (res: Result<HandleRequest, VmError>)
    requires
        args@.len() >= 4,
    ensures
        request_is(res, find_field_request(heap@, args@, reference_kind)),
{
    let lookup_ref = args[0].as_reference()?;
    let lookup_class = lookup_class_name(heap, lookup_ref)?;
    let modes = lookup_modes(heap, lookup_ref);
    let class_ref = args[1].as_reference()?;
    let name_ref = args[2].as_reference()?;
    let member_name = read_string(heap, name_ref)?;
    let type_ref = args[3].as_reference()?;
    let target_class = read_class(heap, class_ref)?;
    let field_type = read_class(heap, type_ref)?;
    Ok(HandleRequest {
        reference_kind,
        lookup_class,
        lookup_modes: modes,
        target_class,
        member_name,
        descriptor: class_name_descriptor(&field_type),
        modifiers: None,
    })
}


/// The request `Lookup.unreflect` makes from a `Method` object (what
/// `unreflect_method` returns): the method's declaring class, name,
/// descriptor and modifiers; a static method gives `REF_invokeStatic` (6),
/// any other `REF_invokeVirtual` (5).
pub open spec fn unreflect_method_request(heap: Seq<Obj>, lookup: Reference, m: Reference) -> Result<RequestSpec, Fault> {
    match lookup_class(heap, lookup) {
        Err(f) => Err(f),
        Ok(lc) => match ref_field(heap, m, "__declaring_class"@) {
            Err(f) => Err(f),
            Ok(dc) => match ref_field(heap, m, "__name"@) {
                Err(f) => Err(f),
                Ok(nr) => match ref_field(heap, m, "__descriptor"@) {
                    Err(f) => Err(f),
                    Ok(dr) => match int_field(heap, m, "__modifiers"@) {
                        Err(f) => Err(f),
                        Ok(mods) => match lift(class_internal(heap, dc)) {
                            Err(f) => Err(f),
                            Ok(target) => match lift(string_value(heap, nr)) {
                                Err(f) => Err(f),
                                Ok(name) => match lift(string_value(heap, dr)) {
                                    Err(f) => Err(f),
                                    Ok(d) => Ok(RequestSpec {
                                        reference_kind: if (mods as u16) & 0x0008u16 != 0 { 6u8 } else { 5u8 },
                                        lookup_class: lc,
                                        lookup_modes: lookup_modes_of(heap, lookup),
                                        target_class: target,
                                        member_name: name,
                                        descriptor: d,
                                        modifiers: Some(mods as u16),
                                    }),
                                },
                            },
                        },
                    },
                },
            },
        },
    }
}

/// `unreflectConstructor`: `REF_newInvokeSpecial` (8) on `<init>` of the
/// constructor's declaring class.
pub open spec fn unreflect_constructor_request(heap: Seq<Obj>, lookup: Reference, c: Reference) -> Result<RequestSpec, Fault> {
    match lookup_class(heap, lookup) {
        Err(f) => Err(f),
        Ok(lc) => match ref_field(heap, c, "__declaring_class"@) {
            Err(f) => Err(f),
            Ok(dc) => match ref_field(heap, c, "__descriptor"@) {
                Err(f) => Err(f),
                Ok(dr) => match int_field(heap, c, "__modifiers"@) {
                    Err(f) => Err(f),
                    Ok(mods) => match lift(class_internal(heap, dc)) {
                        Err(f) => Err(f),
                        Ok(target) => match lift(string_value(heap, dr)) {
                            Err(f) => Err(f),
                            Ok(d) => Ok(RequestSpec {
                                reference_kind: 8u8,
                                lookup_class: lc,
                                lookup_modes: lookup_modes_of(heap, lookup),
                                target_class: target,
                                member_name: "<init>"@,
                                descriptor: d,
                                modifiers: Some(mods as u16),
                            }),
                        },
                    },
                },
            },
        },
    }
}

/// `unreflectGetter` / `unreflectSetter`: the field's declaring class, name
/// and type; a static field gives `static_kind`, any other `instance_kind`.
pub open spec fn unreflect_field_request(
    heap: Seq<Obj>,
    lookup: Reference,
    fr: Reference,
    instance_kind: u8,
    static_kind: u8,
) -> Result<RequestSpec, Fault> {
    match lookup_class(heap, lookup) {
        Err(f) => Err(f),
        Ok(lc) => match ref_field(heap, fr, "__declaring_class"@) {
            Err(f) => Err(f),
            Ok(dc) => match ref_field(heap, fr, "__name"@) {
                Err(f) => Err(f),
                Ok(nr) => match ref_field(heap, fr, "__type"@) {
                    Err(f) => Err(f),
                    Ok(tr) => match int_field(heap, fr, "__modifiers"@) {
                        Err(f) => Err(f),
                        Ok(mods) => match lift(class_internal(heap, dc)) {
                            Err(f) => Err(f),
                            Ok(target) => match lift(string_value(heap, nr)) {
                                Err(f) => Err(f),
                                Ok(name) => match lift(class_internal(heap, tr)) {
                                    Err(f) => Err(f),
                                    Ok(ft) => Ok(RequestSpec {
                                        reference_kind: if mods & 0x0008i32 != 0 { static_kind } else { instance_kind },
                                        lookup_class: lc,
                                        lookup_modes: lookup_modes_of(heap, lookup),
                                        target_class: target,
                                        member_name: name,
                                        descriptor: name_to_descriptor(ft),
                                        modifiers: Some(mods as u16),
                                    }),
                                },
                            },
                        },
                    },
                },
            },
        },
    }
}

/// What `unreflect` asks the interpreter to validate and resolve.
pub fn unreflect_method(heap: &Heap, lookup_ref: Reference, method_ref: Reference) -> (res: Result<HandleRequest, VmError>)
    ensures
        request_is(res, unreflect_method_request(heap@, lookup_ref, method_ref)),
{
    let lookup_class = lookup_class_name(heap, lookup_ref)?;
    let modes = lookup_modes(heap, lookup_ref);
    let declaring = get_ref_field(heap, method_ref, "__declaring_class")?;
    let name_ref = get_ref_field(heap, method_ref, "__name")?;
    let desc_ref = get_ref_field(heap, method_ref, "__descriptor")?;
    let modifiers = get_int_field(heap, method_ref, "__modifiers")? as u16;
    let target_class = read_class(heap, declaring)?;
    let member_name = read_string(heap, name_ref)?;
    let descriptor = read_string(heap, desc_ref)?;
    let reference_kind: u8 = if modifiers & 0x0008 != 0 { 6 } else { 5 };
    Ok(HandleRequest {
        reference_kind,
        lookup_class,
        lookup_modes: modes,
        target_class,
        member_name,
        descriptor,
        modifiers: Some(modifiers),
    })
}

/// What `unreflectConstructor` asks the interpreter to validate and resolve.
pub fn unreflect_constructor(heap: &Heap, lookup_ref: Reference, ctor_ref: Reference) -> (res: Result<HandleRequest, VmError>)
    ensures
        request_is(res, unreflect_constructor_request(heap@, lookup_ref, ctor_ref)),
{
    let lookup_class = lookup_class_name(heap, lookup_ref)?;
    let modes = lookup_modes(heap, lookup_ref);
    let declaring = get_ref_field(heap, ctor_ref, "__declaring_class")?;
    let desc_ref = get_ref_field(heap, ctor_ref, "__descriptor")?;
    let modifiers = get_int_field(heap, ctor_ref, "__modifiers")? as u16;
    let target_class = read_class(heap, declaring)?;
    let descriptor = read_string(heap, desc_ref)?;
    Ok(HandleRequest {
        reference_kind: 8,
        lookup_class,
        lookup_modes: modes,
        target_class,
        member_name: lit("<init>"),
        descriptor,
        modifiers: Some(modifiers),
    })
}

/// What `unreflectGetter` (kinds 1 and 2) or `unreflectSetter` (3 and 4)
/// asks the interpreter to validate and resolve.
pub fn unreflect_field(
    heap: &Heap,
    lookup_ref: Reference,
    field_ref: Reference,
    instance_kind: u8,
    static_kind: u8,
) -> (res: Result<HandleRequest, VmError>)
    ensures
        request_is(res, unreflect_field_request(heap@, lookup_ref, field_ref, instance_kind, static_kind)),
{
    let lookup_class = lookup_class_name(heap, lookup_ref)?;
    let modes = lookup_modes(heap, lookup_ref);
    let declaring = get_ref_field(heap, field_ref, "__declaring_class")?;
    let name_ref = get_ref_field(heap, field_ref, "__name")?;
    let type_ref = get_ref_field(heap, field_ref, "__type")?;
    let modifiers = get_int_field(heap, field_ref, "__modifiers")?;
    let target_class = read_class(heap, declaring)?;
    let member_name = read_string(heap, name_ref)?;
    let field_type = read_class(heap, type_ref)?;
    let reference_kind = if modifiers & 0x0008 != 0 { static_kind } else { instance_kind };
    Ok(HandleRequest {
        reference_kind,
        lookup_class,
        lookup_modes: modes,
        target_class,
        member_name,
        descriptor: class_name_descriptor(&field_type),
        modifiers: Some(modifiers as u16),
    })
}


/// An `Unsafe` field offset: known at once, or the offset the interpreter's
/// class table records for a field of a class (0 when it records none).
pub enum OffsetQuery {
    Known(i64),
    InClass { class_name: Vec<char>, field_name: Vec<char> },
}

/// The content of an offset query.
pub enum OffsetSpec {
    Known(i64),
    InClass(Seq<char>, Seq<char>),
}

impl View for OffsetQuery {
    type V = OffsetSpec;

    open spec fn view(&self) -> OffsetSpec {
        match self {
            OffsetQuery::Known(o) => OffsetSpec::Known(*o),
            OffsetQuery::InClass { class_name, field_name } => OffsetSpec::InClass(class_name@, field_name@),
        }
    }
}

/// The offset of the field a `Class` object and a name string designate:
/// 0 when either is `null`.
pub open spec fn offset_by_name(heap: Seq<Obj>, class_ref: Reference, name_ref: Reference) -> Result<OffsetSpec, Fault> {
    if class_ref is Null || name_ref is Null {
        Ok(OffsetSpec::Known(0))
    } else {
        match lift(class_internal(heap, class_ref)) {
            Err(f) => Err(f),
            Ok(c) => match lift(string_value(heap, name_ref)) {
                Err(f) => Err(f),
                Ok(n) => Ok(OffsetSpec::InClass(c, n)),
            },
        }
    }
}

/// The offset of the field a `Field` object designates: 0 for `null`.
pub open spec fn offset_of_field(heap: Seq<Obj>, field_ref: Reference) -> Result<OffsetSpec, Fault> {
    if field_ref is Null {
        Ok(OffsetSpec::Known(0))
    } else {
        match ref_field(heap, field_ref, "__declaring_class"@) {
            Err(f) => Err(f),
            Ok(dc) => match ref_field(heap, field_ref, "__name"@) {
                Err(f) => Err(f),
                Ok(nr) => offset_by_name(heap, dc, nr),
            },
        }
    }
}

/// Whether an offset outcome is the specified one.
pub open spec fn offset_is(res: Result<OffsetQuery, VmError>, expected: Result<OffsetSpec, Fault>) -> bool {
    match res {
        Ok(q) => expected == Ok::<OffsetSpec, Fault>(q@),
        Err(e) => match expected {
            Err(f) => raises(e, f),
            Ok(_) => false,
        },
    }
}

/// The offset `Unsafe.objectFieldOffset(Class, String)` asks for.
pub fn unsafe_field_offset_from_class_name(heap: &Heap, class_ref: Reference, name_ref: Reference) -> (res: Result<OffsetQuery, VmError>)
    ensures
        offset_is(res, offset_by_name(heap@, class_ref, name_ref)),
{
    if class_ref == Reference::Null || name_ref == Reference::Null {
        return Ok(OffsetQuery::Known(0));
    }
    let class_name = read_class(heap, class_ref)?;
    let field_name = read_string(heap, name_ref)?;
    Ok(OffsetQuery::InClass { class_name, field_name })
}

/// The offset `Unsafe.objectFieldOffset(Field)` asks for.
pub fn unsafe_field_offset_from_field(heap: &Heap, field_ref: Reference) -> (res: Result<OffsetQuery, VmError>)
    ensures
        offset_is(res, offset_of_field(heap@, field_ref)),
{
    if field_ref == Reference::Null {
        return Ok(OffsetQuery::Known(0));
    }
    let declaring = get_ref_field(heap, field_ref, "__declaring_class")?;
    let name_ref = get_ref_field(heap, field_ref, "__name")?;
    unsafe_field_offset_from_class_name(heap, declaring, name_ref)
}

/// `Unsafe.objectFieldOffset` by the shape of its arguments (receiver
/// included): a `Field`, or a `Class` and a name; any other shape is 0.
pub open spec fn object_field_offset_spec(heap: Seq<Obj>, args: Seq<Value>) -> Result<OffsetSpec, Fault> {
    if args.len() == 3 {
        match lift(ref_arg(args, 1)) {
            Err(f) => Err(f),
            Ok(fr) => offset_of_field(heap, fr),
        }
    } else if args.len() == 4 {
        match lift(ref_arg(args, 1)) {
            Err(f) => Err(f),
            Ok(cr) => match lift(ref_arg(args, 2)) {
                Err(f) => Err(f),
                Ok(nr) => offset_by_name(heap, cr, nr),
            },
        }
    } else {
        Ok(OffsetSpec::Known(0))
    }
}

/// The offset `Unsafe.objectFieldOffset` asks for.
pub fn object_field_offset(heap: &Heap, args: &[Value]) -> (res: Result<OffsetQuery, VmError>)
    ensures
        offset_is(res, object_field_offset_spec(heap@, args@)),
{
    if args.len() == 3 {
        let field_ref = args[1].as_reference()?;
        unsafe_field_offset_from_field(heap, field_ref)
    } else if args.len() == 4 {
        let class_ref = args[1].as_reference()?;
        let name_ref = args[2].as_reference()?;
        unsafe_field_offset_from_class_name(heap, class_ref, name_ref)
    } else {
        Ok(OffsetQuery::Known(0))
    }
}

/// A lookup has full privilege access when it has both `PRIVATE` (0x02)
/// and `MODULE` (0x10); the other modes are `PUBLIC` (0x01), `PROTECTED`
/// (0x04) and `PACKAGE` (0x08).
pub open spec fn full_privilege(modes: i32) -> bool {
    modes & 0x02 != 0 && modes & 0x10 != 0
}

/// `Lookup.hasFullPrivilegeAccess`.
pub fn has_full_privilege_access(modes: i32) -> (res: bool)
    ensures
        res == full_privilege(modes),
{
    (modes & 0x02 != 0) && (modes & 0x10 != 0)
}

/// The modes of `MethodHandles.privateLookupIn(target, lookup)`: refused
/// (`None`, an `IllegalAccessException`) unless the caller's lookup has full
/// privilege access; otherwise all of `PUBLIC` … `MODULE`, less `PROTECTED`
/// when the target is in another runtime package.
pub fn private_lookup_modes(lookup_modes: i32, same_package: bool) -> (res: Option<i32>)
    ensures
        res == (if full_privilege(lookup_modes) {
            Some(if same_package { 0x1fi32 } else { 0x1bi32 })
        } else {
            None
        }),
{
    if lookup_modes & 0x02 == 0 || lookup_modes & 0x10 == 0 {
        return None;
    }
    let mut target_modes: i32 = 0x1f;
    if !same_package {
        target_modes = target_modes & !0x04;
        assert(0x1fi32 & !0x04i32 == 0x1bi32) by (bit_vector);
    }
    Some(target_modes)
}

/// The modes of `lookup.in(target)`: `PROTECTED` always goes; `PRIVATE`,
/// `PACKAGE` and `MODULE` go too when the target is in another runtime package.
pub fn lookup_in_modes(prev_modes: i32, same_package: bool) -> (res: i32)
    ensures
        res == (if same_package { prev_modes & !0x04i32 } else { prev_modes & !0x04i32 & !0x0ai32 & !0x10i32 }),
{
    let mut new_modes = prev_modes & !0x04;
    if !same_package {
        new_modes = new_modes & !(0x02 | 0x08);
        new_modes = new_modes & !0x10;
        assert(0x02i32 | 0x08i32 == 0x0ai32) by (bit_vector);
    }
    new_modes
}

/// The modes of `lookup.dropLookupMode(mode)`: dropping `PROTECTED`
/// changes nothing, dropping `PUBLIC` drops every mode, any other mode bit
/// is cleared.
pub fn drop_lookup_mode(modes: i32, drop_mode: i32) -> (res: i32)
    ensures
        res == (if drop_mode == 0x04 { modes } else if drop_mode == 0x01 { 0 } else { modes & !drop_mode }),
{
    if drop_mode == 0x04 {
        modes
    } else if drop_mode == 0x01 {
        0
    } else {
        modes & !drop_mode
    }
}

} // verus!
