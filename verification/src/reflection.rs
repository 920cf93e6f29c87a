//! Reflection objects (`Method`, `Constructor`, `Field`): reading their
//! hidden metadata fields, and boxing and unboxing values across a
//! reflective call.

use vstd::prelude::*;
use crate::chars::{eq_str, lit};
use crate::descriptors::{parameter_descriptors, parameter_types};
use crate::heap::{deref, deref_error, field, Heap};
use crate::helpers::{boxed_int, class_internal, class_internal_name, integer_value, string_value, stringify_reference};
use crate::model::{field_get, fields_view, Expected, HeapKind, HeapValue, Obj, Reference, Value, ValueKind, VmError, value_kind};

verus! {

/// What reflection knows of a method or constructor.
pub struct ExecutableMetadata {
    pub declaring_class: Vec<char>,
    pub name: Vec<char>,
    pub descriptor: Vec<char>,
}

/// What reflection knows of a field.
pub struct FieldMetadata {
    pub declaring_class: Vec<char>,
    pub name: Vec<char>,
    pub descriptor: Vec<char>,
    pub is_static: bool,
}

/// A hidden reference field of a reflection object; a missing field reads
/// as `null`, a field of another kind is a type mismatch.
pub open spec fn meta_ref(fields: Seq<(Seq<char>, Value)>, name: Seq<char>) -> Result<Reference, VmError> {
    match field_get(fields, name) {
        None => Ok(Reference::Null),
        Some(Value::Reference(r)) => Ok(r),
        Some(v) => Err(VmError::TypeMismatch { expected: ValueKind::Reference, actual: value_kind(v) }),
    }
}

/// The fields of the reflection object, or the error reading it gives.
pub open spec fn meta_fields(heap: Seq<Obj>, r: Reference) -> Result<Seq<(Seq<char>, Value)>, VmError> {
    match deref(heap, r) {
        None => Err(deref_error(r)),
        Some(Obj::Object { fields, .. }) => Ok(fields),
        Some(_) => Err(VmError::InvalidHeapValue { expected: Expected::Object, actual: HeapKind::NonObject }),
    }
}

/// Method metadata: declaring class (by its `Class` object), name and
/// descriptor (as strings), each read in that order.
pub open spec fn method_meta(heap: Seq<Obj>, r: Reference, with_name: bool) -> Result<(Seq<char>, Seq<char>, Seq<char>), VmError> {
    match meta_fields(heap, r) {
        Err(e) => Err(e),
        Ok(fs) => match meta_ref(fs, "__declaring_class"@) {
            Err(e) => Err(e),
            Ok(dc) => match (if with_name { meta_ref(fs, "__name"@) } else { Ok(Reference::Null) }) {
                Err(e) => Err(e),
                Ok(nr) => match meta_ref(fs, "__descriptor"@) {
                    Err(e) => Err(e),
                    Ok(dr) => match class_internal(heap, dc) {
                        Err(e) => Err(e),
                        Ok(c) => match (if with_name { string_value(heap, nr) } else { Ok("<init>"@) }) {
                            Err(e) => Err(e),
                            Ok(n) => match string_value(heap, dr) {
                                Err(e) => Err(e),
                                Ok(d) => Ok((c, n, d)),
                            },
                        },
                    },
                },
            },
        },
    }
}

fn meta_ref_of(fields: &Vec<crate::model::Field>, name: &str) -> (res: Result<Reference, VmError>)
    ensures
        res == meta_ref(fields_view(fields@), name@),
{
    match crate::heap::field_lookup(fields, name) {
        None => Ok(Reference::Null),
        Some(v) => v.as_reference(),
    }
}

fn object_fields<'a>(heap: &'a Heap, r: Reference) -> (res: Result<&'a Vec<crate::model::Field>, VmError>)
    ensures
        match res {
            Ok(fs) => meta_fields(heap@, r) == Ok::<Seq<(Seq<char>, Value)>, VmError>(fields_view(fs@)),
            Err(e) => meta_fields(heap@, r) == Err::<Seq<(Seq<char>, Value)>, VmError>(e),
        },
{
    match heap.get(r)? {
        HeapValue::Object { fields, .. } => Ok(fields),
        _ => Err(VmError::InvalidHeapValue { expected: Expected::Object, actual: HeapKind::NonObject }),
    }
}

/// The declaring class, name and descriptor of a `Method` object.
pub fn method_metadata(heap: &Heap, this_ref: Reference) -> (res: Result<ExecutableMetadata, VmError>)
    ensures
        match res {
            Ok(m) => method_meta(heap@, this_ref, true) == Ok::<(Seq<char>, Seq<char>, Seq<char>), VmError>((m.declaring_class@, m.name@, m.descriptor@)),
            Err(e) => method_meta(heap@, this_ref, true) == Err::<(Seq<char>, Seq<char>, Seq<char>), VmError>(e),
        },
{
    let fields = object_fields(heap, this_ref)?;
    let declaring_class_ref = meta_ref_of(fields, "__declaring_class")?;
    let name_ref = meta_ref_of(fields, "__name")?;
    let descriptor_ref = meta_ref_of(fields, "__descriptor")?;
    let declaring_class = class_internal_name(heap, declaring_class_ref)?;
    let name = stringify_reference(heap, name_ref)?;
    let descriptor = stringify_reference(heap, descriptor_ref)?;
    Ok(ExecutableMetadata { declaring_class, name, descriptor })
}

/// The declaring class and descriptor of a `Constructor` object; its name is `<init>`.
pub fn constructor_metadata(heap: &Heap, this_ref: Reference) -> (res: Result<ExecutableMetadata, VmError>)
    ensures
        match res {
            Ok(m) => method_meta(heap@, this_ref, false) == Ok::<(Seq<char>, Seq<char>, Seq<char>), VmError>((m.declaring_class@, m.name@, m.descriptor@)),
            Err(e) => method_meta(heap@, this_ref, false) == Err::<(Seq<char>, Seq<char>, Seq<char>), VmError>(e),
        },
{
    let fields = object_fields(heap, this_ref)?;
    let declaring_class_ref = meta_ref_of(fields, "__declaring_class")?;
    let descriptor_ref = meta_ref_of(fields, "__descriptor")?;
    let declaring_class = class_internal_name(heap, declaring_class_ref)?;
    let name = lit("<init>");
    let descriptor = stringify_reference(heap, descriptor_ref)?;
    Ok(ExecutableMetadata { declaring_class, name, descriptor })
}

/// The `__modifiers` field; missing reads as 0.
pub open spec fn meta_modifiers(fields: Seq<(Seq<char>, Value)>) -> Result<i32, VmError> {
    match field_get(fields, "__modifiers"@) {
        None => Ok(0),
        Some(Value::Int(m)) => Ok(m),
        Some(v) => Err(VmError::TypeMismatch { expected: ValueKind::Int, actual: value_kind(v) }),
    }
}

/// Field metadata: like method metadata, plus whether the `static`
/// modifier bit (0x0008) is set.
pub open spec fn field_meta(heap: Seq<Obj>, r: Reference) -> Result<(Seq<char>, Seq<char>, Seq<char>, bool), VmError> {
    match meta_fields(heap, r) {
        Err(e) => Err(e),
        Ok(fs) => match meta_ref(fs, "__declaring_class"@) {
            Err(e) => Err(e),
            Ok(dc) => match meta_ref(fs, "__name"@) {
                Err(e) => Err(e),
                Ok(nr) => match meta_ref(fs, "__descriptor"@) {
                    Err(e) => Err(e),
                    Ok(dr) => match meta_modifiers(fs) {
                        Err(e) => Err(e),
                        Ok(m) => match class_internal(heap, dc) {
                            Err(e) => Err(e),
                            Ok(c) => match string_value(heap, nr) {
                                Err(e) => Err(e),
                                Ok(n) => match string_value(heap, dr) {
                                    Err(e) => Err(e),
                                    Ok(d) => Ok((c, n, d, m & 8 != 0)),
                                },
                            },
                        },
                    },
                },
            },
        },
    }
}

pub fn field_metadata(heap: &Heap, this_ref: Reference) -> (res: Result<FieldMetadata, VmError>)
    ensures
        match res {
            Ok(m) => field_meta(heap@, this_ref) == Ok::<(Seq<char>, Seq<char>, Seq<char>, bool), VmError>((m.declaring_class@, m.name@, m.descriptor@, m.is_static)),
            Err(e) => field_meta(heap@, this_ref) == Err::<(Seq<char>, Seq<char>, Seq<char>, bool), VmError>(e),
        },
{
    let fields = object_fields(heap, this_ref)?;
    let declaring_class_ref = meta_ref_of(fields, "__declaring_class")?;
    let name_ref = meta_ref_of(fields, "__name")?;
    let descriptor_ref = meta_ref_of(fields, "__descriptor")?;
    let modifiers = match crate::heap::field_lookup(fields, "__modifiers") {
        None => 0,
        Some(v) => v.as_int()?,
    };
    let declaring_class = class_internal_name(heap, declaring_class_ref)?;
    let name = stringify_reference(heap, name_ref)?;
    let descriptor = stringify_reference(heap, descriptor_ref)?;
    Ok(FieldMetadata { declaring_class, name, descriptor, is_static: modifiers & 8 != 0 })
}

/// A descriptor that passes as an `int` on the operand stack.
pub open spec fn int_like(d: Seq<char>) -> bool {
    d == "I"@ || d == "Z"@ || d == "B"@ || d == "C"@ || d == "S"@
}

/// An argument of a reflective call converted to the parameter type:
/// boxed integers become `int`s, boxed longs `long`s (their `value`
/// field), other kinds zero; any other parameter type passes as is.
pub open spec fn unboxed(heap: Seq<Obj>, v: Value, d: Seq<char>) -> Result<Value, VmError> {
    if int_like(d) {
        match v {
            Value::Int(_) => Ok(v),
            Value::Reference(r) => match boxed_int(heap, r) {
                Ok(i) => Ok(Value::Int(i)),
                Err(e) => Err(e),
            },
            _ => Ok(Value::Int(0)),
        }
    } else if d == "J"@ {
        match v {
            Value::Long(_) => Ok(v),
            Value::Reference(r) => match deref(heap, r) {
                None => Err(deref_error(r)),
                Some(Obj::Object { fields, .. }) => match field_get(fields, "value"@) {
                    Some(x) => Ok(x),
                    None => Ok(Value::Long(0)),
                },
                Some(_) => Ok(Value::Long(0)),
            },
            _ => Ok(Value::Long(0)),
        }
    } else {
        Ok(v)
    }
}

fn is_int_like(d: &Vec<char>) -> (res: bool)
    ensures
        res == int_like(d@),
{
    eq_str(d, "I") || eq_str(d, "Z") || eq_str(d, "B") || eq_str(d, "C") || eq_str(d, "S")
}

pub fn unbox_reflection_value(heap: &Heap, value: Value, descriptor: &Vec<char>) -> (res: Result<Value, VmError>)
    ensures
        res == unboxed(heap@, value, descriptor@),
{
    if is_int_like(descriptor) {
        match value {
            Value::Int(_) => Ok(value),
            Value::Reference(reference) => Ok(Value::Int(integer_value(heap, reference)?)),
            _ => Ok(Value::Int(0)),
        }
    } else if eq_str(descriptor, "J") {
        match value {
            Value::Long(_) => Ok(value),
            Value::Reference(reference) => match heap.get(reference)? {
                HeapValue::Object { fields, .. } => match crate::heap::field_lookup(fields, "value") {
                    Some(x) => Ok(x),
                    None => Ok(Value::Long(0)),
                },
                _ => Ok(Value::Long(0)),
            },
            _ => Ok(Value::Long(0)),
        }
    } else {
        Ok(value)
    }
}

/// The element of a reference array at `k`, `null` past its end.
pub open spec fn element_or_null(refs: Seq<Reference>, k: int) -> Reference {
    if 0 <= k < refs.len() {
        refs[k]
    } else {
        Reference::Null
    }
}

/// The callee's arguments for the parameter types `types`, each unboxed
/// from the array element at its position, or the first error, in order.
pub open spec fn unboxed_all(heap: Seq<Obj>, refs: Seq<Reference>, types: Seq<Seq<char>>) -> Result<Seq<Value>, VmError>
    decreases types.len(),
{
    if types.len() == 0 {
        Ok(Seq::empty())
    } else {
        match unboxed_all(heap, refs, types.drop_last()) {
            Err(e) => Err(e),
            Ok(vs) => match unboxed(heap, Value::Reference(element_or_null(refs, types.len() - 1)), types.last()) {
                Err(e) => Err(e),
                Ok(v) => Ok(vs.push(v)),
            },
        }
    }
}

/// The arguments of a reflective call: none for a `null` array; the
/// dereference error for a reference to nothing; otherwise each parameter
/// unboxed from the array's elements (a cell that is no reference array
/// reads as an empty array).
pub open spec fn reflection_args(heap: Seq<Obj>, params_ref: Reference, descriptor: Seq<char>) -> Result<Seq<Value>, VmError> {
    if params_ref is Null {
        Ok(Seq::empty())
    } else {
        match deref(heap, params_ref) {
            None => Err(deref_error(params_ref)),
            Some(Obj::RefArray { values, .. }) => unboxed_all(heap, values, parameter_types(descriptor)),
            Some(_) => unboxed_all(heap, Seq::empty(), parameter_types(descriptor)),
        }
    }
}

/// An error on the first `k` parameters is the error of all of them.
proof fn lemma_unboxed_error_stays(heap: Seq<Obj>, refs: Seq<Reference>, types: Seq<Seq<char>>, k: int, e: VmError)
    requires
        0 <= k <= types.len(),
        unboxed_all(heap, refs, types.subrange(0, k)) == Err::<Seq<Value>, VmError>(e),
    ensures
        unboxed_all(heap, refs, types) == Err::<Seq<Value>, VmError>(e),
    decreases types.len() - k,
{
    if k < types.len() {
        assert(types.subrange(0, k + 1).drop_last() =~= types.subrange(0, k));
        lemma_unboxed_error_stays(heap, refs, types, k + 1, e);
    } else {
        assert(types.subrange(0, k) =~= types);
    }
}

/// Converts the `Object[]` of a reflective call to the callee's arguments.
pub fn reflection_arguments(heap: &Heap, params_ref: Reference, descriptor: &Vec<char>) -> (res: Result<Vec<Value>, VmError>)
    ensures
        match res {
            Ok(vs) => reflection_args(heap@, params_ref, descriptor@) == Ok::<Seq<Value>, VmError>(vs@),
            Err(e) => reflection_args(heap@, params_ref, descriptor@) == Err::<Seq<Value>, VmError>(e),
        },
{
    let parameter_types = parameter_descriptors(descriptor);
    if params_ref == Reference::Null {
        return Ok(Vec::new());
    }
    let empty: Vec<Reference> = Vec::new();
    let refs: &Vec<Reference> = match heap.get(params_ref)? {
        HeapValue::ReferenceArray { values, .. } => values,
        _ => &empty,
    };
    let ghost types = crate::descriptors::parameter_types(descriptor@);
    let mut out: Vec<Value> = Vec::new();
    let mut index: usize = 0;
    while index < parameter_types.len()
        invariant
            index <= parameter_types@.len(),
            parameter_types@.map_values(|t: Vec<char>| t@) == types,
            types == crate::descriptors::parameter_types(descriptor@),
            !(params_ref is Null),
            reflection_args(heap@, params_ref, descriptor@) == unboxed_all(heap@, refs@, types),
            unboxed_all(heap@, refs@, types.subrange(0, index as int)) == Ok::<Seq<Value>, VmError>(out@),
        decreases parameter_types@.len() - index,
    {
        let ghost prefix = types.subrange(0, index + 1);
        assert(prefix.drop_last() =~= types.subrange(0, index as int));
        assert(prefix.last() == parameter_types@[index as int]@);
        let value_ref = if index < refs.len() { refs[index] } else { Reference::Null };
        match unbox_reflection_value(heap, Value::Reference(value_ref), &parameter_types[index]) {
            Ok(v) => {
                out.push(v);
            },
            Err(e) => {
                proof {
                    lemma_unboxed_error_stays(heap@, refs@, types, index + 1, e);
                }
                return Err(e);
            },
        }
        index = index + 1;
    }
    assert(types.subrange(0, parameter_types@.len() as int) =~= types);
    Ok(out)
}

/// The value a reflective call returns to Java: `null` for `void`, a new
/// `Integer` for `int`-like results, a new `Long` for `long`, the value
/// itself otherwise.
pub fn box_reflection_return(heap: &mut Heap, value: Value, descriptor: &Vec<char>) -> (res: Result<Value, VmError>)
    ensures
        descriptor@ == "V"@ ==> res == Ok::<Value, VmError>(Value::Reference(Reference::Null)) && final(heap)@ == old(heap)@,
        descriptor@ != "V"@ && int_like(descriptor@) ==> match value {
            Value::Int(i) => res == Ok::<Value, VmError>(Value::Reference(Reference::Heap(old(heap)@.len() as usize)))
                && final(heap)@ == old(heap)@.push(Obj::Object { class_name: "java/lang/Integer"@, fields: seq![("value"@, Value::Int(i))] }),
            _ => res == Err::<Value, VmError>(VmError::TypeMismatch { expected: ValueKind::Int, actual: value_kind(value) }) && final(heap)@ == old(heap)@,
        },
        descriptor@ == "J"@ ==> match value {
            Value::Long(l) => res == Ok::<Value, VmError>(Value::Reference(Reference::Heap(old(heap)@.len() as usize)))
                && final(heap)@ == old(heap)@.push(Obj::Object { class_name: "java/lang/Long"@, fields: seq![("value"@, Value::Long(l))] }),
            _ => res == Err::<Value, VmError>(VmError::TypeMismatch { expected: ValueKind::Long, actual: value_kind(value) }) && final(heap)@ == old(heap)@,
        },
        descriptor@ != "V"@ && !int_like(descriptor@) && descriptor@ != "J"@ ==> res == Ok::<Value, VmError>(value) && final(heap)@ == old(heap)@,
{
    proof {
        lemma_letters_distinct();
    }
    if eq_str(descriptor, "V") {
        Ok(Value::Reference(Reference::Null))
    } else if is_int_like(descriptor) {
        let i = value.as_int()?;
        Ok(Value::Reference(new_box(heap, "java/lang/Integer", Value::Int(i))))
    } else if eq_str(descriptor, "J") {
        let l = value.as_long()?;
        Ok(Value::Reference(new_box(heap, "java/lang/Long", Value::Long(l))))
    } else {
        Ok(value)
    }
}

/// A new object of the given class with a single `value` field.
pub fn new_box(heap: &mut Heap, class_name: &str, v: Value) -> (r: Reference)
    ensures
        r == Reference::Heap(old(heap)@.len() as usize),
        final(heap)@ == old(heap)@.push(Obj::Object { class_name: class_name@, fields: seq![("value"@, v)] }),
{
    let mut fields = Vec::new();
    fields.push(field("value", v));
    assert(fields_view(fields@) =~= seq![("value"@, v)]);
    heap.allocate(HeapValue::Object { class_name: lit(class_name), fields })
}

/// The one-letter descriptors `V`, `J`, `I`, `Z`, `B`, `C`, `S` are distinct.
pub proof fn lemma_letters_distinct()
    ensures
        "V"@ != "J"@, !int_like("V"@), !int_like("J"@),
        "V"@ == seq!['V'], "J"@ == seq!['J'], "I"@ == seq!['I'], "Z"@ == seq!['Z'],
        "B"@ == seq!['B'], "C"@ == seq!['C'], "S"@ == seq!['S'],
{
    reveal_strlit("V");
    reveal_strlit("J");
    reveal_strlit("I");
    reveal_strlit("Z");
    reveal_strlit("B");
    reveal_strlit("C");
    reveal_strlit("S");
    assert("V"@ =~= seq!['V']);
    assert("J"@ =~= seq!['J']);
    assert("I"@ =~= seq!['I']);
    assert("Z"@ =~= seq!['Z']);
    assert("B"@ =~= seq!['B']);
    assert("C"@ =~= seq!['C']);
    assert("S"@ =~= seq!['S']);
    assert(seq!['V'][0] != seq!['J'][0]);
    assert(seq!['J'][0] != seq!['I'][0]);
}

} // verus!
