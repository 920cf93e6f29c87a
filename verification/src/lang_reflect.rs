//! `java.lang.reflect` natives and the lookups they make: class objects to
//! descriptors and back, and the search for a member's descriptor along a
//! class's superclasses (the caller loads each class on the way).

use vstd::prelude::*;
use crate::chars::{eq_chars, eq_str, lit};
use crate::descriptors::{class_name_descriptor, descriptor_class_name, descriptor_for_value, descriptor_to_name, name_to_descriptor, parameter_descriptors, parameter_types, primitive_letter, return_descriptor, return_type, value_descriptor};
use crate::heap::{deref, deref_error, object_field, Heap};
use crate::helpers::{append_chars, class_internal, class_internal_name, join};
use crate::model::{Obj, Reference, Value, VmError};
use crate::native::{answers, done, give, give_bool, give_int, give_str, on_int, on_ref, NativeResult};
use crate::reflection::FieldMetadata;

verus! {

broadcast use vstd::seq_lib::group_seq_properties;

/// The internal name of a `Class` object.
pub fn get_class_name(heap: &Heap, class_ref: Reference) -> (res: Result<Vec<char>, VmError>)
    ensures
        match res {
            Ok(s) => class_internal(heap@, class_ref) == Ok::<Seq<char>, VmError>(s@),
            Err(e) => class_internal(heap@, class_ref) == Err::<Seq<char>, VmError>(e),
        },
{
    class_internal_name(heap, class_ref)
}

/// The descriptor of the class a `Class` object names.
pub open spec fn class_descriptor_of(heap: Seq<Obj>, class_ref: Reference) -> Result<Seq<char>, VmError> {
    match class_internal(heap, class_ref) {
        Ok(n) => Ok(name_to_descriptor(n)),
        Err(e) => Err(e),
    }
}

pub fn class_ref_to_descriptor(heap: &Heap, class_ref: Reference) -> (res: Result<Vec<char>, VmError>)
    ensures
        match res {
            Ok(s) => class_descriptor_of(heap@, class_ref) == Ok::<Seq<char>, VmError>(s@),
            Err(e) => class_descriptor_of(heap@, class_ref) == Err::<Seq<char>, VmError>(e),
        },
{
    let name = get_class_name(heap, class_ref)?;
    Ok(class_name_descriptor(&name))
}

/// The descriptors of the first `n` classes, or the first error.
pub open spec fn descriptors_of(heap: Seq<Obj>, classes: Seq<Reference>) -> Result<Seq<Seq<char>>, VmError>
    decreases classes.len(),
{
    if classes.len() == 0 {
        Ok(Seq::empty())
    } else {
        match descriptors_of(heap, classes.drop_last()) {
            Err(e) => Err(e),
            Ok(ds) => match class_descriptor_of(heap, classes.last()) {
                Err(e) => Err(e),
                Ok(d) => Ok(ds.push(d)),
            },
        }
    }
}

/// The parameter descriptors a `Class[]` names (`null` is none; a cell
/// other than a reference array names none).
pub open spec fn class_array_descriptors(heap: Seq<Obj>, array_ref: Reference) -> Result<Seq<Seq<char>>, VmError> {
    if array_ref == Reference::Null {
        Ok(Seq::empty())
    } else {
        match deref(heap, array_ref) {
            None => Err(deref_error(array_ref)),
            Some(Obj::RefArray { values, .. }) => descriptors_of(heap, values),
            Some(_) => Ok(Seq::empty()),
        }
    }
}

/// An error among the first `k` classes is the error of all of them.
proof fn lemma_descriptors_error_stays(heap: Seq<Obj>, cs: Seq<Reference>, k: int, e: VmError)
    requires
        0 <= k <= cs.len(),
        descriptors_of(heap, cs.subrange(0, k)) == Err::<Seq<Seq<char>>, VmError>(e),
    ensures
        descriptors_of(heap, cs) == Err::<Seq<Seq<char>>, VmError>(e),
    decreases cs.len() - k,
{
    if k < cs.len() {
        assert(cs.subrange(0, k + 1).drop_last() =~= cs.subrange(0, k));
        lemma_descriptors_error_stays(heap, cs, k + 1, e);
    } else {
        assert(cs.subrange(0, k) =~= cs);
    }
}

pub fn class_array_to_descriptors(heap: &Heap, array_ref: Reference) -> (res: Result<Vec<Vec<char>>, VmError>)
    ensures
        match res {
            Ok(ds) => class_array_descriptors(heap@, array_ref)
                == Ok::<Seq<Seq<char>>, VmError>(ds@.map_values(|d: Vec<char>| d@)),
            Err(e) => class_array_descriptors(heap@, array_ref) == Err::<Seq<Seq<char>>, VmError>(e),
        },
{
    let mut out: Vec<Vec<char>> = Vec::new();
    assert(out@.map_values(|d: Vec<char>| d@) =~= Seq::<Seq<char>>::empty());
    if array_ref == Reference::Null {
        return Ok(out);
    }
    let values: &Vec<Reference> = match heap.get(array_ref)? {
        crate::model::HeapValue::ReferenceArray { values, .. } => values,
        _ => {
            return Ok(out);
        },
    };
    let mut i: usize = 0;
    while i < values.len()
        invariant
            i <= values@.len(),
            class_array_descriptors(heap@, array_ref) == descriptors_of(heap@, values@),
            descriptors_of(heap@, values@.subrange(0, i as int))
                == Ok::<Seq<Seq<char>>, VmError>(out@.map_values(|d: Vec<char>| d@)),
        decreases values@.len() - i,
    {
        assert(values@.subrange(0, i + 1).drop_last() =~= values@.subrange(0, i as int));
        assert(values@.subrange(0, i + 1).last() == values@[i as int]);
        match class_ref_to_descriptor(heap, values[i]) {
            Ok(d) => {
                let ghost prev = out@.map_values(|d: Vec<char>| d@);
                out.push(d);
                assert(out@.map_values(|d: Vec<char>| d@) =~= prev.push(d@));
            },
            Err(e) => {
                proof {
                    lemma_descriptors_error_stays(heap@, values@, i + 1, e);
                }
                return Err(e);
            },
        }
        i = i + 1;
    }
    assert(values@.subrange(0, values@.len() as int) =~= values@);
    Ok(out)
}

/// A class the caller resolves to its `Class` object: loading it first
/// unless it is a primitive type.
pub struct ClassRequest {
    pub internal_name: Vec<char>,
    pub load: bool,
}

/// `class_ref_for_descriptor`: the class a descriptor denotes, and whether
/// it must be loaded before its `Class` object is taken.
pub fn class_ref_for_descriptor(descriptor: &Vec<char>) -> (res: ClassRequest)
    ensures
        res.internal_name@ == descriptor_to_name(descriptor@),
        res.load == (primitive_letter(descriptor_to_name(descriptor@)) is None),
{
    let internal_name = descriptor_class_name(descriptor);
    let load = is_primitive_name(&internal_name).is_none();
    ClassRequest { internal_name, load }
}

fn is_primitive_name(name: &Vec<char>) -> (res: Option<char>)
    ensures
        res == primitive_letter(name@),
{
    if eq_str(name, "int") { Some('I') }
    else if eq_str(name, "long") { Some('J') }
    else if eq_str(name, "float") { Some('F') }
    else if eq_str(name, "double") { Some('D') }
    else if eq_str(name, "boolean") { Some('Z') }
    else if eq_str(name, "byte") { Some('B') }
    else if eq_str(name, "char") { Some('C') }
    else if eq_str(name, "short") { Some('S') }
    else if eq_str(name, "void") { Some('V') }
    else { None }
}

/// The class of a method's return type.
pub fn class_ref_for_return_type(descriptor: &Vec<char>) -> (res: ClassRequest)
    ensures
        res.internal_name@ == descriptor_to_name(return_type(descriptor@)),
        res.load == (primitive_letter(descriptor_to_name(return_type(descriptor@))) is None),
{
    let r = return_descriptor(descriptor);
    class_ref_for_descriptor(&r)
}

/// The next step of a member search: found, look at the next class, or the
/// member is not there.
pub enum SearchStep {
    Found(Vec<char>),
    Visit(Vec<char>),
    Missing(VmError),
}

/// A search for a method's descriptor by name and parameter descriptors,
/// along the superclasses when inherited members count.
pub struct MethodSearch {
    pub class_name: Vec<char>,
    pub method_name: Vec<char>,
    pub params: Vec<Vec<char>>,
    pub include_inherited: bool,
}

/// The parameter descriptors as sequences.
pub open spec fn descs(v: Seq<Vec<char>>) -> Seq<Seq<char>> {
    v.map_values(|t: Vec<char>| t@)
}

/// The first of a class's methods with the name whose parameters match.
pub open spec fn first_method(methods: Seq<(Seq<char>, Seq<char>)>, name: Seq<char>, params: Seq<Seq<char>>) -> Option<Seq<char>>
    decreases methods.len(),
{
    if methods.len() == 0 {
        None
    } else if methods[0].0 == name && parameter_types(methods[0].1) == params {
        Some(methods[0].1)
    } else {
        first_method(methods.drop_first(), name, params)
    }
}

/// The entries of a method table as sequences.
pub open spec fn table(v: Seq<(Vec<char>, Vec<char>)>) -> Seq<(Seq<char>, Seq<char>)> {
    v.map_values(|e: (Vec<char>, Vec<char>)| (e.0@, e.1@))
}

/// The error of a failed method search.
pub open spec fn method_missing(s: MethodSearch, e: VmError) -> bool {
    e matches VmError::MethodNotFound { class_name, method_name, descriptor }
        && class_name@ == s.class_name@ && method_name@ == s.method_name@
        && descriptor@ == seq!['('] + join_all(descs(s.params@)) + seq![')']
}

/// The descriptors written one after another.
pub open spec fn join_all(parts: Seq<Seq<char>>) -> Seq<char>
    decreases parts.len(),
{
    if parts.len() == 0 {
        Seq::empty()
    } else {
        join_all(parts.drop_last()) + parts.last()
    }
}

fn concat_all(parts: &Vec<Vec<char>>) -> (res: Vec<char>)
    ensures
        res@ == join_all(descs(parts@)),
{
    let mut res = Vec::new();
    let mut i: usize = 0;
    while i < parts.len()
        invariant
            i <= parts@.len(),
            res@ == join_all(descs(parts@.subrange(0, i as int))),
        decreases parts@.len() - i,
    {
        append_chars(&mut res, &parts[i]);
        assert(descs(parts@.subrange(0, i + 1)).drop_last() =~= descs(parts@.subrange(0, i as int)));
        i = i + 1;
    }
    assert(parts@.subrange(0, parts@.len() as int) =~= parts@);
    res
}

fn same_descs(a: &Vec<Vec<char>>, b: &Vec<Vec<char>>) -> (res: bool)
    ensures
        res == (descs(a@) == descs(b@)),
{
    if a.len() != b.len() {
        assert(descs(a@).len() != descs(b@).len());
        return false;
    }
    let mut i: usize = 0;
    while i < a.len()
        invariant
            a@.len() == b@.len(),
            i <= a@.len(),
            forall|k: int| 0 <= k < i ==> a@[k]@ == b@[k]@,
        decreases a@.len() - i,
    {
        if !eq_chars(a[i].as_slice(), b[i].as_slice()) {
            assert(descs(a@)[i as int] != descs(b@)[i as int]);
            return false;
        }
        i = i + 1;
    }
    assert(descs(a@) =~= descs(b@));
    true
}

impl MethodSearch {
    /// Looks at the methods of one class (in the order the class lists
    /// them) and its superclass.
    pub fn visit(&self, methods: &Vec<(Vec<char>, Vec<char>)>, super_class: Option<Vec<char>>) -> (res: SearchStep)
        ensures
            match first_method(table(methods@), self.method_name@, descs(self.params@)) {
                Some(d) => res matches SearchStep::Found(f) && f@ == d,
                None => match (self.include_inherited, super_class) {
                    (true, Some(s)) => res matches SearchStep::Visit(v) && v@ == s@,
                    _ => res matches SearchStep::Missing(e) && method_missing(*self, e),
                },
            },
    {
        let mut i: usize = 0;
        assert(table(methods@).subrange(0, methods@.len() as int) =~= table(methods@));
        while i < methods.len()
            invariant
                i <= methods@.len(),
                first_method(table(methods@), self.method_name@, descs(self.params@))
                    == first_method(table(methods@).subrange(i as int, methods@.len() as int), self.method_name@, descs(self.params@)),
            decreases methods@.len() - i,
        {
            let ghost rest = table(methods@).subrange(i as int, methods@.len() as int);
            assert(rest.drop_first() =~= table(methods@).subrange(i + 1, methods@.len() as int));
            let (name, desc) = &methods[i];
            if eq_chars(name.as_slice(), self.method_name.as_slice()) {
                let ps = parameter_descriptors(desc);
                if same_descs(&ps, &self.params) {
                    return SearchStep::Found(crate::helpers::copy_chars(desc));
                }
            }
            i = i + 1;
        }
        assert(table(methods@).subrange(methods@.len() as int, methods@.len() as int) =~= Seq::<(Seq<char>, Seq<char>)>::empty());
        if self.include_inherited {
            if let Some(s) = super_class {
                return SearchStep::Visit(s);
            }
        }
        let mut d = Vec::new();
        d.push('(');
        let inner = concat_all(&self.params);
        append_chars(&mut d, &inner);
        d.push(')');
        assert(d@ =~= seq!['('] + inner@ + seq![')']);
        SearchStep::Missing(VmError::MethodNotFound {
            class_name: crate::helpers::copy_chars(&self.class_name),
            method_name: crate::helpers::copy_chars(&self.method_name),
            descriptor: d,
        })
    }
}

/// Starts the search for a method's descriptor at the named class.
pub fn find_method_descriptor(class_name: &Vec<char>, method_name: &Vec<char>, params: Vec<Vec<char>>, include_inherited: bool) -> (res: (MethodSearch, SearchStep))
    ensures
        res.0.class_name@ == class_name@,
        res.0.method_name@ == method_name@,
        res.0.params@ == params@,
        res.0.include_inherited == include_inherited,
        res.1 matches SearchStep::Visit(c) && c@ == class_name@,
{
    let s = MethodSearch {
        class_name: crate::helpers::copy_chars(class_name),
        method_name: crate::helpers::copy_chars(method_name),
        params,
        include_inherited,
    };
    (s, SearchStep::Visit(crate::helpers::copy_chars(class_name)))
}

/// Starts the search for a constructor's descriptor.
pub fn find_constructor_descriptor(class_name: &Vec<char>, params: Vec<Vec<char>>, include_inherited: bool) -> (res: (MethodSearch, SearchStep))
    ensures
        res.0.class_name@ == class_name@,
        res.0.method_name@ == "<init>"@,
        res.0.params@ == params@,
        res.0.include_inherited == include_inherited,
        res.1 matches SearchStep::Visit(c) && c@ == class_name@,
{
    find_method_descriptor(class_name, &lit("<init>"), params, include_inherited)
}

/// What a field search finds in one class: its descriptor and whether it
/// is static, the next class to look at, or that there is no such field.
pub enum FieldStep {
    Found(Vec<char>, bool),
    Visit(Vec<char>),
    Missing(VmError),
}

/// A search for a field's descriptor.
pub struct FieldSearch {
    pub class_name: Vec<char>,
    pub field_name: Vec<char>,
    pub include_inherited: bool,
}

/// The descriptor of the first instance field with the name.
pub open spec fn first_field_desc(fields: Seq<(Seq<char>, Seq<char>)>, name: Seq<char>) -> Option<Seq<char>>
    decreases fields.len(),
{
    if fields.len() == 0 {
        None
    } else if fields[0].0 == name {
        Some(fields[0].1)
    } else {
        first_field_desc(fields.drop_first(), name)
    }
}

impl FieldSearch {
    /// Looks at one class: its instance fields first, then the value of
    /// its static field of that name (`static_value`), then its superclass.
    pub fn visit(&self, instance_fields: &Vec<(Vec<char>, Vec<char>)>, static_value: Option<Value>, super_class: Option<Vec<char>>) -> (res: FieldStep)
        ensures
            match first_field_desc(table(instance_fields@), self.field_name@) {
                Some(d) => res matches FieldStep::Found(f, st) && f@ == d && !st,
                None => match static_value {
                    Some(v) => res matches FieldStep::Found(f, st) && f@ == value_descriptor(v) && st,
                    None => match (self.include_inherited, super_class) {
                        (true, Some(s)) => res matches FieldStep::Visit(c) && c@ == s@,
                        _ => res matches FieldStep::Missing(e) && e matches VmError::FieldNotFound { class_name, field_name }
                            && class_name@ == self.class_name@ && field_name@ == self.field_name@,
                    },
                },
            },
    {
        let mut i: usize = 0;
        assert(table(instance_fields@).subrange(0, instance_fields@.len() as int) =~= table(instance_fields@));
        while i < instance_fields.len()
            invariant
                i <= instance_fields@.len(),
                first_field_desc(table(instance_fields@), self.field_name@)
                    == first_field_desc(table(instance_fields@).subrange(i as int, instance_fields@.len() as int), self.field_name@),
            decreases instance_fields@.len() - i,
        {
            let ghost rest = table(instance_fields@).subrange(i as int, instance_fields@.len() as int);
            assert(rest.drop_first() =~= table(instance_fields@).subrange(i + 1, instance_fields@.len() as int));
            let (name, desc) = &instance_fields[i];
            if eq_chars(name.as_slice(), self.field_name.as_slice()) {
                return FieldStep::Found(crate::helpers::copy_chars(desc), false);
            }
            i = i + 1;
        }
        assert(table(instance_fields@).subrange(instance_fields@.len() as int, instance_fields@.len() as int) =~= Seq::<(Seq<char>, Seq<char>)>::empty());
        if let Some(v) = static_value {
            return FieldStep::Found(descriptor_for_value(v), true);
        }
        if self.include_inherited {
            if let Some(s) = super_class {
                return FieldStep::Visit(s);
            }
        }
        FieldStep::Missing(VmError::FieldNotFound {
            class_name: crate::helpers::copy_chars(&self.class_name),
            field_name: crate::helpers::copy_chars(&self.field_name),
        })
    }
}

/// Starts the search for a field's descriptor at the named class.
pub fn find_field_descriptor(class_name: &Vec<char>, field_name: &Vec<char>, include_inherited: bool) -> (res: (FieldSearch, FieldStep))
    ensures
        res.0.class_name@ == class_name@,
        res.0.field_name@ == field_name@,
        res.0.include_inherited == include_inherited,
        res.1 matches FieldStep::Visit(c) && c@ == class_name@,
{
    let s = FieldSearch {
        class_name: crate::helpers::copy_chars(class_name),
        field_name: crate::helpers::copy_chars(field_name),
        include_inherited,
    };
    (s, FieldStep::Visit(crate::helpers::copy_chars(class_name)))
}

/// Where a reflective field read takes its value from.
pub enum FieldSource {
    Static { class_name: Vec<char>, field_name: Vec<char> },
    Instance { target: Reference, field_name: Vec<char> },
}

/// `read_field_value`: a static field of the declaring class, or an
/// instance field of the target.
pub fn read_field_value(metadata: &FieldMetadata, target_ref: Reference) -> (res: FieldSource)
    ensures
        metadata.is_static ==> (res matches FieldSource::Static { class_name, field_name }
            && class_name@ == metadata.declaring_class@ && field_name@ == metadata.name@),
        !metadata.is_static ==> (res matches FieldSource::Instance { target, field_name }
            && target == target_ref && field_name@ == metadata.name@),
{
    if metadata.is_static {
        FieldSource::Static {
            class_name: crate::helpers::copy_chars(&metadata.declaring_class),
            field_name: crate::helpers::copy_chars(&metadata.name),
        }
    } else {
        FieldSource::Instance { target: target_ref, field_name: crate::helpers::copy_chars(&metadata.name) }
    }
}

/// The reflection natives that work on the heap alone (`Method.invoke`,
/// `Constructor.newInstance`, `Field.get` and the `Class` lookups call back
/// into the interpreter).
#[derive(Clone, Copy, PartialEq, Eq, Structural, Debug)]
pub enum ReflectMethod {
    ClassGetModifiers,
    ClassGetComponentType,
    ClassIsHidden,
    MethodGetName,
    MethodGetDeclaringClass,
    MethodGetReturnType,
    MethodGetParameterTypes,
    MethodGetModifiers,
    FieldGetName,
    FieldGetType,
    FieldGetDeclaringClass,
    FieldGetModifiers,
    FieldSet,
    FieldSetInt,
    FieldSetLong,
    FieldGetObject,
    FieldSetObject,
    ConstructorGetParameterTypes,
    ConstructorGetDeclaringClass,
    ConstructorGetModifiers,
    SetAccessible,
    CanAccess,
    IsPublic,
    IsPrivate,
    IsProtected,
    IsStatic,
    IsFinal,
    IsSynchronized,
    ModifierToString,
}

pub open spec fn reflect_signature(k: ReflectMethod) -> (Seq<char>, Seq<char>, Seq<char>) {
    match k {
        ReflectMethod::ClassGetModifiers => ("java/lang/Class"@, "getModifiers"@, "()I"@),
        ReflectMethod::ClassGetComponentType => ("java/lang/Class"@, "getComponentType"@, "()Ljava/lang/Class;"@),
        ReflectMethod::ClassIsHidden => ("java/lang/Class"@, "isHidden"@, "()Z"@),
        ReflectMethod::MethodGetName => ("java/lang/reflect/Method"@, "getName"@, "()Ljava/lang/String;"@),
        ReflectMethod::MethodGetDeclaringClass => ("java/lang/reflect/Method"@, "getDeclaringClass"@, "()Ljava/lang/Class;"@),
        ReflectMethod::MethodGetReturnType => ("java/lang/reflect/Method"@, "getReturnType"@, "()Ljava/lang/Class;"@),
        ReflectMethod::MethodGetParameterTypes => ("java/lang/reflect/Method"@, "getParameterTypes"@, "()[Ljava/lang/Class;"@),
        ReflectMethod::MethodGetModifiers => ("java/lang/reflect/Method"@, "getModifiers"@, "()I"@),
        ReflectMethod::FieldGetName => ("java/lang/reflect/Field"@, "getName"@, "()Ljava/lang/String;"@),
        ReflectMethod::FieldGetType => ("java/lang/reflect/Field"@, "getType"@, "()Ljava/lang/Class;"@),
        ReflectMethod::FieldGetDeclaringClass => ("java/lang/reflect/Field"@, "getDeclaringClass"@, "()Ljava/lang/Class;"@),
        ReflectMethod::FieldGetModifiers => ("java/lang/reflect/Field"@, "getModifiers"@, "()I"@),
        ReflectMethod::FieldSet => ("java/lang/reflect/Field"@, "set"@, "(Ljava/lang/Object;Ljava/lang/Object;)V"@),
        ReflectMethod::FieldSetInt => ("java/lang/reflect/Field"@, "setInt"@, "(Ljava/lang/Object;I)V"@),
        ReflectMethod::FieldSetLong => ("java/lang/reflect/Field"@, "setLong"@, "(Ljava/lang/Object;J)V"@),
        ReflectMethod::FieldGetObject => ("java/lang/reflect/Field"@, "getObject"@, "(Ljava/lang/Object;)Ljava/lang/Object;"@),
        ReflectMethod::FieldSetObject => ("java/lang/reflect/Field"@, "setObject"@, "(Ljava/lang/Object;Ljava/lang/Object;)V"@),
        ReflectMethod::ConstructorGetParameterTypes => ("java/lang/reflect/Constructor"@, "getParameterTypes"@, "()[Ljava/lang/Class;"@),
        ReflectMethod::ConstructorGetDeclaringClass => ("java/lang/reflect/Constructor"@, "getDeclaringClass"@, "()Ljava/lang/Class;"@),
        ReflectMethod::ConstructorGetModifiers => ("java/lang/reflect/Constructor"@, "getModifiers"@, "()I"@),
        ReflectMethod::SetAccessible => ("java/lang/reflect/AccessibleObject"@, "setAccessible"@, "(Z)V"@),
        ReflectMethod::CanAccess => ("java/lang/reflect/AccessibleObject"@, "canAccess"@, "(Ljava/lang/Object;)Z"@),
        ReflectMethod::IsPublic => ("java/lang/reflect/Modifier"@, "isPublic"@, "(I)Z"@),
        ReflectMethod::IsPrivate => ("java/lang/reflect/Modifier"@, "isPrivate"@, "(I)Z"@),
        ReflectMethod::IsProtected => ("java/lang/reflect/Modifier"@, "isProtected"@, "(I)Z"@),
        ReflectMethod::IsStatic => ("java/lang/reflect/Modifier"@, "isStatic"@, "(I)Z"@),
        ReflectMethod::IsFinal => ("java/lang/reflect/Modifier"@, "isFinal"@, "(I)Z"@),
        ReflectMethod::IsSynchronized => ("java/lang/reflect/Modifier"@, "isSynchronized"@, "(I)Z"@),
        ReflectMethod::ModifierToString => ("java/lang/reflect/Modifier"@, "toString"@, "(I)Ljava/lang/String;"@),
    }
}

/// The natives that read no argument.
pub open spec fn reads_nothing(k: ReflectMethod) -> bool {
    k is ClassGetModifiers || k is ClassGetComponentType || k is ClassIsHidden
        || k is MethodGetReturnType || k is MethodGetParameterTypes || k is FieldSet
        || k is FieldSetInt || k is FieldSetLong || k is FieldGetObject || k is FieldSetObject
        || k is ConstructorGetParameterTypes || k is SetAccessible || k is CanAccess
}

pub open spec fn reflect_arity(k: ReflectMethod) -> nat {
    if reads_nothing(k) { 0 } else { 1 }
}

/// The modifier bit each `Modifier.isX` tests.
pub open spec fn modifier_bit(k: ReflectMethod) -> i32 {
    match k {
        ReflectMethod::IsPublic => 0x0001,
        ReflectMethod::IsPrivate => 0x0002,
        ReflectMethod::IsProtected => 0x0004,
        ReflectMethod::IsStatic => 0x0008,
        ReflectMethod::IsFinal => 0x0010,
        _ => 0x0020,
    }
}

/// The keywords `Modifier.toString` lists for the bits set, in this order.
pub open spec fn modifier_words(m: i32) -> Seq<Seq<char>> {
    let w0 = Seq::<Seq<char>>::empty();
    let w1 = if m & 0x0001 != 0 { w0.push("public"@) } else { w0 };
    let w2 = if m & 0x0002 != 0 { w1.push("private"@) } else { w1 };
    let w3 = if m & 0x0004 != 0 { w2.push("protected"@) } else { w2 };
    let w4 = if m & 0x0008 != 0 { w3.push("static"@) } else { w3 };
    let w5 = if m & 0x0010 != 0 { w4.push("final"@) } else { w4 };
    let w6 = if m & 0x0020 != 0 { w5.push("synchronized"@) } else { w5 };
    let w7 = if m & 0x0400 != 0 { w6.push("volatile"@) } else { w6 };
    if m & 0x0800 != 0 { w7.push("transient"@) } else { w7 }
}

/// A reference-valued metadata field, `null` when absent.
pub open spec fn meta_field_ref(heap: Seq<Obj>, r: Reference, name: Seq<char>) -> Reference {
    match object_field(heap, r, name) {
        Some(Value::Reference(x)) => x,
        _ => Reference::Null,
    }
}

/// The `__modifiers` field, 0 when absent.
pub open spec fn meta_modifiers_of(heap: Seq<Obj>, r: Reference) -> i32 {
    match object_field(heap, r, "__modifiers"@) {
        Some(Value::Int(m)) => m,
        _ => 0,
    }
}

/// What each heap-only reflection native does.
pub open spec fn reflect_spec(heap: Seq<Obj>, k: ReflectMethod, args: Seq<Value>) -> NativeResult {
    match k {
        ReflectMethod::ClassGetModifiers => give_int(heap, 1),
        ReflectMethod::ClassIsHidden => give_int(heap, 0),
        ReflectMethod::CanAccess => give_int(heap, 1),
        ReflectMethod::ClassGetComponentType | ReflectMethod::MethodGetReturnType
        | ReflectMethod::MethodGetParameterTypes | ReflectMethod::FieldGetObject
        | ReflectMethod::ConstructorGetParameterTypes => give(heap, Value::Reference(Reference::Null)),
        ReflectMethod::FieldSet | ReflectMethod::FieldSetInt | ReflectMethod::FieldSetLong
        | ReflectMethod::FieldSetObject | ReflectMethod::SetAccessible => done(heap, None),
        ReflectMethod::MethodGetName | ReflectMethod::FieldGetName => on_ref(args, 0,
            |r: Reference| give(heap, Value::Reference(meta_field_ref(heap, r, "__name"@)))),
        ReflectMethod::MethodGetDeclaringClass | ReflectMethod::FieldGetDeclaringClass
        | ReflectMethod::ConstructorGetDeclaringClass => on_ref(args, 0,
            |r: Reference| give(heap, Value::Reference(meta_field_ref(heap, r, "__declaring_class"@)))),
        ReflectMethod::FieldGetType => on_ref(args, 0,
            |r: Reference| give(heap, Value::Reference(meta_field_ref(heap, r, "__type"@)))),
        ReflectMethod::MethodGetModifiers | ReflectMethod::FieldGetModifiers
        | ReflectMethod::ConstructorGetModifiers => on_ref(args, 0,
            |r: Reference| give_int(heap, meta_modifiers_of(heap, r))),
        ReflectMethod::ModifierToString => on_int(args, 0,
            |m: i32| give_str(heap, join(modifier_words(m), " "@))),
        _ => on_int(args, 0, |m: i32| give_bool(heap, m & modifier_bit(k) != 0)),
    }
}

/// The heap-only reflection native a call selects, if it is one.
pub fn reflect_method(class_name: &[char], name: &[char], descriptor: &[char]) -> (res: Option<ReflectMethod>)
    ensures
        match res {
            Some(k) => reflect_signature(k) == (class_name@, name@, descriptor@),
            None => forall|k: ReflectMethod| reflect_signature(k) != (class_name@, name@, descriptor@),
        },
{
    if eq_str(class_name, "java/lang/Class") && eq_str(name, "getModifiers") && eq_str(descriptor, "()I") {
        return Some(ReflectMethod::ClassGetModifiers);
    }
    if eq_str(class_name, "java/lang/Class") && eq_str(name, "getComponentType") && eq_str(descriptor, "()Ljava/lang/Class;") {
        return Some(ReflectMethod::ClassGetComponentType);
    }
    if eq_str(class_name, "java/lang/Class") && eq_str(name, "isHidden") && eq_str(descriptor, "()Z") {
        return Some(ReflectMethod::ClassIsHidden);
    }
    if eq_str(class_name, "java/lang/reflect/Method") && eq_str(name, "getName") && eq_str(descriptor, "()Ljava/lang/String;") {
        return Some(ReflectMethod::MethodGetName);
    }
    if eq_str(class_name, "java/lang/reflect/Method") && eq_str(name, "getDeclaringClass") && eq_str(descriptor, "()Ljava/lang/Class;") {
        return Some(ReflectMethod::MethodGetDeclaringClass);
    }
    if eq_str(class_name, "java/lang/reflect/Method") && eq_str(name, "getReturnType") && eq_str(descriptor, "()Ljava/lang/Class;") {
        return Some(ReflectMethod::MethodGetReturnType);
    }
    if eq_str(class_name, "java/lang/reflect/Method") && eq_str(name, "getParameterTypes") && eq_str(descriptor, "()[Ljava/lang/Class;") {
        return Some(ReflectMethod::MethodGetParameterTypes);
    }
    if eq_str(class_name, "java/lang/reflect/Method") && eq_str(name, "getModifiers") && eq_str(descriptor, "()I") {
        return Some(ReflectMethod::MethodGetModifiers);
    }
    if eq_str(class_name, "java/lang/reflect/Field") && eq_str(name, "getName") && eq_str(descriptor, "()Ljava/lang/String;") {
        return Some(ReflectMethod::FieldGetName);
    }
    if eq_str(class_name, "java/lang/reflect/Field") && eq_str(name, "getType") && eq_str(descriptor, "()Ljava/lang/Class;") {
        return Some(ReflectMethod::FieldGetType);
    }
    if eq_str(class_name, "java/lang/reflect/Field") && eq_str(name, "getDeclaringClass") && eq_str(descriptor, "()Ljava/lang/Class;") {
        return Some(ReflectMethod::FieldGetDeclaringClass);
    }
    if eq_str(class_name, "java/lang/reflect/Field") && eq_str(name, "getModifiers") && eq_str(descriptor, "()I") {
        return Some(ReflectMethod::FieldGetModifiers);
    }
    if eq_str(class_name, "java/lang/reflect/Field") && eq_str(name, "set") && eq_str(descriptor, "(Ljava/lang/Object;Ljava/lang/Object;)V") {
        return Some(ReflectMethod::FieldSet);
    }
    if eq_str(class_name, "java/lang/reflect/Field") && eq_str(name, "setInt") && eq_str(descriptor, "(Ljava/lang/Object;I)V") {
        return Some(ReflectMethod::FieldSetInt);
    }
    if eq_str(class_name, "java/lang/reflect/Field") && eq_str(name, "setLong") && eq_str(descriptor, "(Ljava/lang/Object;J)V") {
        return Some(ReflectMethod::FieldSetLong);
    }
    if eq_str(class_name, "java/lang/reflect/Field") && eq_str(name, "getObject") && eq_str(descriptor, "(Ljava/lang/Object;)Ljava/lang/Object;") {
        return Some(ReflectMethod::FieldGetObject);
    }
    if eq_str(class_name, "java/lang/reflect/Field") && eq_str(name, "setObject") && eq_str(descriptor, "(Ljava/lang/Object;Ljava/lang/Object;)V") {
        return Some(ReflectMethod::FieldSetObject);
    }
    if eq_str(class_name, "java/lang/reflect/Constructor") && eq_str(name, "getParameterTypes") && eq_str(descriptor, "()[Ljava/lang/Class;") {
        return Some(ReflectMethod::ConstructorGetParameterTypes);
    }
    if eq_str(class_name, "java/lang/reflect/Constructor") && eq_str(name, "getDeclaringClass") && eq_str(descriptor, "()Ljava/lang/Class;") {
        return Some(ReflectMethod::ConstructorGetDeclaringClass);
    }
    if eq_str(class_name, "java/lang/reflect/Constructor") && eq_str(name, "getModifiers") && eq_str(descriptor, "()I") {
        return Some(ReflectMethod::ConstructorGetModifiers);
    }
    if eq_str(class_name, "java/lang/reflect/AccessibleObject") && eq_str(name, "setAccessible") && eq_str(descriptor, "(Z)V") {
        return Some(ReflectMethod::SetAccessible);
    }
    if eq_str(class_name, "java/lang/reflect/AccessibleObject") && eq_str(name, "canAccess") && eq_str(descriptor, "(Ljava/lang/Object;)Z") {
        return Some(ReflectMethod::CanAccess);
    }
    if eq_str(class_name, "java/lang/reflect/Modifier") && eq_str(name, "isPublic") && eq_str(descriptor, "(I)Z") {
        return Some(ReflectMethod::IsPublic);
    }
    if eq_str(class_name, "java/lang/reflect/Modifier") && eq_str(name, "isPrivate") && eq_str(descriptor, "(I)Z") {
        return Some(ReflectMethod::IsPrivate);
    }
    if eq_str(class_name, "java/lang/reflect/Modifier") && eq_str(name, "isProtected") && eq_str(descriptor, "(I)Z") {
        return Some(ReflectMethod::IsProtected);
    }
    if eq_str(class_name, "java/lang/reflect/Modifier") && eq_str(name, "isStatic") && eq_str(descriptor, "(I)Z") {
        return Some(ReflectMethod::IsStatic);
    }
    if eq_str(class_name, "java/lang/reflect/Modifier") && eq_str(name, "isFinal") && eq_str(descriptor, "(I)Z") {
        return Some(ReflectMethod::IsFinal);
    }
    if eq_str(class_name, "java/lang/reflect/Modifier") && eq_str(name, "isSynchronized") && eq_str(descriptor, "(I)Z") {
        return Some(ReflectMethod::IsSynchronized);
    }
    if eq_str(class_name, "java/lang/reflect/Modifier") && eq_str(name, "toString") && eq_str(descriptor, "(I)Ljava/lang/String;") {
        return Some(ReflectMethod::ModifierToString);
    }
    proof {
        assert forall|k: ReflectMethod| reflect_signature(k) != (class_name@, name@, descriptor@) by {
            match k {
                ReflectMethod::ClassGetModifiers => {},
                ReflectMethod::ClassGetComponentType => {},
                ReflectMethod::ClassIsHidden => {},
                ReflectMethod::MethodGetName => {},
                ReflectMethod::MethodGetDeclaringClass => {},
                ReflectMethod::MethodGetReturnType => {},
                ReflectMethod::MethodGetParameterTypes => {},
                ReflectMethod::MethodGetModifiers => {},
                ReflectMethod::FieldGetName => {},
                ReflectMethod::FieldGetType => {},
                ReflectMethod::FieldGetDeclaringClass => {},
                ReflectMethod::FieldGetModifiers => {},
                ReflectMethod::FieldSet => {},
                ReflectMethod::FieldSetInt => {},
                ReflectMethod::FieldSetLong => {},
                ReflectMethod::FieldGetObject => {},
                ReflectMethod::FieldSetObject => {},
                ReflectMethod::ConstructorGetParameterTypes => {},
                ReflectMethod::ConstructorGetDeclaringClass => {},
                ReflectMethod::ConstructorGetModifiers => {},
                ReflectMethod::SetAccessible => {},
                ReflectMethod::CanAccess => {},
                ReflectMethod::IsPublic => {},
                ReflectMethod::IsPrivate => {},
                ReflectMethod::IsProtected => {},
                ReflectMethod::IsStatic => {},
                ReflectMethod::IsFinal => {},
                ReflectMethod::IsSynchronized => {},
                ReflectMethod::ModifierToString => {},
            }
        }
    }
    None
}

/// Joins parts with a separator.
pub fn join_chars(parts: &Vec<Vec<char>>, sep: &Vec<char>) -> (res: Vec<char>)
    ensures
        res@ == join(descs(parts@), sep@),
{
    let mut res: Vec<char> = Vec::new();
    let mut i: usize = 0;
    while i < parts.len()
        invariant
            i <= parts@.len(),
            res@ == join(descs(parts@.subrange(0, i as int)), sep@),
        decreases parts@.len() - i,
    {
        let ghost prev = descs(parts@.subrange(0, i as int));
        if i > 0 {
            append_chars(&mut res, sep);
        }
        append_chars(&mut res, &parts[i]);
        proof {
            let now = descs(parts@.subrange(0, i + 1));
            assert(now.drop_last() =~= prev);
            if i == 0 {
                assert(res@ =~= now[0]);
            } else {
                assert(res@ =~= join(prev, sep@).add(sep@).add(now.last()));
            }
        }
        i = i + 1;
    }
    assert(parts@.subrange(0, parts@.len() as int) =~= parts@);
    res
}

/// `Modifier.toString`.
pub fn modifier_string(m: i32) -> (res: Vec<char>)
    ensures
        res@ == join(modifier_words(m), " "@),
{
    let mut w: Vec<Vec<char>> = Vec::new();
    let ghost w0 = descs(w@);
    assert(w0 =~= Seq::<Seq<char>>::empty());
    if m & 0x0001 != 0 { w.push(lit("public")); }
    let ghost w1 = descs(w@);
    assert(w1 =~= if m & 0x0001 != 0 { w0.push("public"@) } else { w0 });
    if m & 0x0002 != 0 { w.push(lit("private")); }
    let ghost w2 = descs(w@);
    assert(w2 =~= if m & 0x0002 != 0 { w1.push("private"@) } else { w1 });
    if m & 0x0004 != 0 { w.push(lit("protected")); }
    let ghost w3 = descs(w@);
    assert(w3 =~= if m & 0x0004 != 0 { w2.push("protected"@) } else { w2 });
    if m & 0x0008 != 0 { w.push(lit("static")); }
    let ghost w4 = descs(w@);
    assert(w4 =~= if m & 0x0008 != 0 { w3.push("static"@) } else { w3 });
    if m & 0x0010 != 0 { w.push(lit("final")); }
    let ghost w5 = descs(w@);
    assert(w5 =~= if m & 0x0010 != 0 { w4.push("final"@) } else { w4 });
    if m & 0x0020 != 0 { w.push(lit("synchronized")); }
    let ghost w6 = descs(w@);
    assert(w6 =~= if m & 0x0020 != 0 { w5.push("synchronized"@) } else { w5 });
    if m & 0x0400 != 0 { w.push(lit("volatile")); }
    let ghost w7 = descs(w@);
    assert(w7 =~= if m & 0x0400 != 0 { w6.push("volatile"@) } else { w6 });
    if m & 0x0800 != 0 { w.push(lit("transient")); }
    assert(descs(w@) =~= modifier_words(m));
    join_chars(&w, &lit(" "))
}

/// Runs a heap-only reflection native.
pub fn invoke_reflect(heap: &mut Heap, k: ReflectMethod, args: &[Value]) -> (res: Result<Option<Value>, VmError>)
    requires
        args@.len() >= reflect_arity(k),
    ensures
        answers(old(heap)@, final(heap)@, reflect_spec(old(heap)@, k, args@), res),
{
    match k {
        ReflectMethod::ClassGetModifiers | ReflectMethod::CanAccess => Ok(Some(Value::Int(1))),
        ReflectMethod::ClassIsHidden => Ok(Some(Value::Int(0))),
        ReflectMethod::ClassGetComponentType | ReflectMethod::MethodGetReturnType
        | ReflectMethod::MethodGetParameterTypes | ReflectMethod::FieldGetObject
        | ReflectMethod::ConstructorGetParameterTypes => Ok(Some(Value::Reference(Reference::Null))),
        ReflectMethod::FieldSet | ReflectMethod::FieldSetInt | ReflectMethod::FieldSetLong
        | ReflectMethod::FieldSetObject | ReflectMethod::SetAccessible => Ok(None),
        ReflectMethod::MethodGetName | ReflectMethod::FieldGetName => {
            let r = args[0].as_reference()?;
            Ok(Some(Value::Reference(crate::regex::reference_field(heap, r, "__name"))))
        },
        ReflectMethod::MethodGetDeclaringClass | ReflectMethod::FieldGetDeclaringClass
        | ReflectMethod::ConstructorGetDeclaringClass => {
            let r = args[0].as_reference()?;
            Ok(Some(Value::Reference(crate::regex::reference_field(heap, r, "__declaring_class"))))
        },
        ReflectMethod::FieldGetType => {
            let r = args[0].as_reference()?;
            Ok(Some(Value::Reference(crate::regex::reference_field(heap, r, "__type"))))
        },
        ReflectMethod::MethodGetModifiers | ReflectMethod::FieldGetModifiers
        | ReflectMethod::ConstructorGetModifiers => {
            let r = args[0].as_reference()?;
            Ok(Some(Value::Int(crate::regex::int_field_or(heap, r, "__modifiers", 0))))
        },
        ReflectMethod::ModifierToString => {
            let m = args[0].as_int()?;
            Ok(Some(heap.new_string(modifier_string(m))))
        },
        _ => {
            let m = args[0].as_int()?;
            let bit: i32 = match k {
                ReflectMethod::IsPublic => 0x0001,
                ReflectMethod::IsPrivate => 0x0002,
                ReflectMethod::IsProtected => 0x0004,
                ReflectMethod::IsStatic => 0x0008,
                ReflectMethod::IsFinal => 0x0010,
                _ => 0x0020,
            };
            Ok(Some(Value::Int(if m & bit != 0 { 1 } else { 0 })))
        },
    }
}


/// How many arguments a native reads (receiver included).
pub fn reflect_arg_count(k: ReflectMethod) -> (n: usize)
    ensures
        n == reflect_arity(k),
{
    match k {
        ReflectMethod::ClassGetModifiers | ReflectMethod::ClassGetComponentType
        | ReflectMethod::ClassIsHidden | ReflectMethod::MethodGetReturnType
        | ReflectMethod::MethodGetParameterTypes | ReflectMethod::FieldSet
        | ReflectMethod::FieldSetInt | ReflectMethod::FieldSetLong | ReflectMethod::FieldGetObject
        | ReflectMethod::FieldSetObject | ReflectMethod::ConstructorGetParameterTypes
        | ReflectMethod::SetAccessible | ReflectMethod::CanAccess => 0,
        _ => 1,
    }
}

} // verus!
