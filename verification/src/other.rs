//! The natives of `java.lang.System`, `java.lang.invoke`, `Unsafe` and a few
//! internal classes that work on the heap alone: array copies, identity
//! hashes, the hidden fields of lookups, handle infos, method types and call
//! sites, the fixed answers of `Unsafe`, `Reflection` and `CDS`, and the
//! `Unsafe` field and array accessors.

use vstd::prelude::*;
use crate::chars::eq_str;
use crate::handles::{full_privilege, get_field, get_object_field, has_full_privilege_access, lookup_modes, lookup_modes_of};
use crate::heap::{deref, deref_error, heap_set_field, Heap};
use crate::helpers::{arraycopy, arraycopy_spec};
use crate::model::{obj_kind, Expected, HeapValue, Obj, Reference, Value, VmError};
use crate::native::{answers, done, fail, give, give_int, give_str, on_int, on_ref, on_str, str_arg, NativeResult};
use crate::unsafe_access::{method_arity, unsafe_answers, unsafe_invoke, UnsafeMethod};

verus! {

/// The hidden fields that the getters of `java.lang.invoke` objects read.
#[derive(Clone, Copy, PartialEq, Eq, Structural, Debug)]
pub enum HiddenField {
    ReferenceKind,
    DeclaringClass,
    Name,
    MethodType,
    Descriptor,
    Target,
    LookupClass,
}

pub open spec fn hidden_name(f: HiddenField) -> Seq<char> {
    match f {
        HiddenField::ReferenceKind => "__referenceKind"@,
        HiddenField::DeclaringClass => "__declaringClass"@,
        HiddenField::Name => "__name"@,
        HiddenField::MethodType => "__methodType"@,
        HiddenField::Descriptor => "__descriptor"@,
        HiddenField::Target => "__target"@,
        HiddenField::LookupClass => "__lookupClass"@,
    }
}

fn hidden_field_name(f: HiddenField) -> (s: &'static str)
    ensures
        s@ == hidden_name(f),
{
    match f {
        HiddenField::ReferenceKind => "__referenceKind",
        HiddenField::DeclaringClass => "__declaringClass",
        HiddenField::Name => "__name",
        HiddenField::MethodType => "__methodType",
        HiddenField::Descriptor => "__descriptor",
        HiddenField::Target => "__target",
        HiddenField::LookupClass => "__lookupClass",
    }
}

/// The natives of this module.
#[derive(Clone, Copy, PartialEq, Eq, Structural, Debug)]
pub enum OtherMethod {
    /// `System.arraycopy`.
    ArrayCopy,
    /// `System.lineSeparator`.
    LineSeparator,
    /// `System.identityHashCode`: the heap index of the object, 0 for null.
    IdentityHashCode,
    /// A getter that returns a hidden field of its receiver.
    Read(HiddenField),
    /// `Lookup.previousLookupClass`: null when the field cannot be read.
    PreviousLookupClass,
    /// `Lookup.lookupModes`.
    LookupModes,
    /// `Lookup.hasFullPrivilegeAccess`.
    HasFullPrivilegeAccess,
    /// A call site's constructor from a handle, or `setTarget`.
    SetTarget,
    /// A call site's constructor from a method type: no target yet.
    ClearTarget,
    /// A native that does nothing but answer a fixed value (or nothing).
    Fixed(Option<Value>),
    /// An `Unsafe` field or array accessor.
    Unsafe(UnsafeMethod),
}

pub open spec fn is_call_site(c: Seq<char>) -> bool {
    c == "java/lang/invoke/ConstantCallSite"@ || c == "java/lang/invoke/MutableCallSite"@
        || c == "java/lang/invoke/VolatileCallSite"@
}

pub open spec fn is_settable_call_site(c: Seq<char>) -> bool {
    c == "java/lang/invoke/MutableCallSite"@ || c == "java/lang/invoke/VolatileCallSite"@
}

/// The `Unsafe` accessor a name and descriptor select.
pub open spec fn unsafe_accessor(n: Seq<char>, d: Seq<char>) -> Option<UnsafeMethod> {
    let o = "Ljava/lang/Object;"@;
    if n == "compareAndSetInt"@ && d == "(Ljava/lang/Object;JII)Z"@ {
        Some(UnsafeMethod::CompareAndSetInt)
    } else if n == "compareAndSetLong"@ && d == "(Ljava/lang/Object;JJJ)Z"@ {
        Some(UnsafeMethod::CompareAndSetLong)
    } else if (n == "compareAndSetReference"@ || n == "compareAndSetObject"@)
        && d == "(Ljava/lang/Object;JLjava/lang/Object;Ljava/lang/Object;)Z"@ {
        Some(UnsafeMethod::CompareAndSetReference)
    } else if n == "getAndAddInt"@ && d == "(Ljava/lang/Object;JI)I"@ {
        Some(UnsafeMethod::GetAndAddInt)
    } else if n == "getAndAddLong"@ && d == "(Ljava/lang/Object;JJ)J"@ {
        Some(UnsafeMethod::GetAndAddLong)
    } else if n == "getAndSetInt"@ && d == "(Ljava/lang/Object;JI)I"@ {
        Some(UnsafeMethod::GetAndSetInt)
    } else if n == "getAndSetLong"@ && d == "(Ljava/lang/Object;JJ)J"@ {
        Some(UnsafeMethod::GetAndSetLong)
    } else if (n == "getAndSetReference"@ || n == "getAndSetObject"@)
        && d == "(Ljava/lang/Object;JLjava/lang/Object;)Ljava/lang/Object;"@ {
        Some(UnsafeMethod::GetAndSetReference)
    } else if (n == "getIntVolatile"@ || n == "getInt"@) && d == "(Ljava/lang/Object;J)I"@ {
        Some(UnsafeMethod::GetInt)
    } else if (n == "putIntVolatile"@ || n == "putInt"@) && d == "(Ljava/lang/Object;JI)V"@ {
        Some(UnsafeMethod::PutInt)
    } else if (n == "getLongVolatile"@ || n == "getLong"@) && d == "(Ljava/lang/Object;J)J"@ {
        Some(UnsafeMethod::GetLong)
    } else if (n == "putLongVolatile"@ || n == "putLong"@) && d == "(Ljava/lang/Object;JJ)V"@ {
        Some(UnsafeMethod::PutLong)
    } else if (n == "getReferenceVolatile"@ || n == "getReference"@ || n == "getObject"@)
        && d == "(Ljava/lang/Object;J)Ljava/lang/Object;"@ {
        Some(UnsafeMethod::GetReference)
    } else if (n == "putReferenceVolatile"@ || n == "putReference"@ || n == "putObject"@)
        && d == "(Ljava/lang/Object;JLjava/lang/Object;)V"@ {
        Some(UnsafeMethod::PutReference)
    } else if (n == "getByte"@ && d == "(Ljava/lang/Object;J)B"@) || (n == "getBoolean"@ && d == "(Ljava/lang/Object;J)Z"@) {
        Some(UnsafeMethod::GetInt)
    } else if (n == "putByte"@ && d == "(Ljava/lang/Object;JB)V"@) || (n == "putBoolean"@ && d == "(Ljava/lang/Object;JZ)V"@) {
        Some(UnsafeMethod::PutInt)
    } else {
        None
    }
}

/// The `Unsafe` natives answered here.
pub open spec fn unsafe_native(n: Seq<char>, d: Seq<char>) -> Option<OtherMethod> {
    if n == "registerNatives"@ && d == "()V"@ {
        Some(OtherMethod::Fixed(None))
    } else if (n == "arrayBaseOffset"@ || n == "arrayIndexScale"@) && d == "(Ljava/lang/Class;)I"@ {
        Some(OtherMethod::Fixed(Some(Value::Int(if n == "arrayBaseOffset"@ { 0i32 } else { 1i32 }))))
    } else if n == "addressSize"@ && d == "()I"@ {
        Some(OtherMethod::Fixed(Some(Value::Int(8))))
    } else if n == "pageSize"@ && d == "()I"@ {
        Some(OtherMethod::Fixed(Some(Value::Int(4096))))
    } else if n == "staticFieldOffset"@ {
        Some(OtherMethod::Fixed(Some(Value::Long(0))))
    } else if n == "staticFieldBase"@ {
        Some(OtherMethod::Fixed(Some(Value::Reference(Reference::Null))))
    } else if (n == "storeFence"@ || n == "loadFence"@ || n == "fullFence"@) && d == "()V"@ {
        Some(OtherMethod::Fixed(None))
    } else {
        match unsafe_accessor(n, d) {
            Some(m) => Some(OtherMethod::Unsafe(m)),
            None => None,
        }
    }
}

/// The native a call selects, when it is one of this module's.
pub open spec fn other_decode(c: Seq<char>, n: Seq<char>, d: Seq<char>) -> Option<OtherMethod> {
    let lookup = "java/lang/invoke/MethodHandles$Lookup"@;
    let info = "java/lang/invoke/MethodHandleInfo"@;
    if c == "java/lang/System"@ {
        if n == "arraycopy"@ && d == "(Ljava/lang/Object;ILjava/lang/Object;II)V"@ {
            Some(OtherMethod::ArrayCopy)
        } else if n == "lineSeparator"@ && d == "()Ljava/lang/String;"@ {
            Some(OtherMethod::LineSeparator)
        } else if n == "identityHashCode"@ && d == "(Ljava/lang/Object;)I"@ {
            Some(OtherMethod::IdentityHashCode)
        } else {
            None
        }
    } else if c == lookup {
        if n == "lookupModes"@ && d == "()I"@ {
            Some(OtherMethod::LookupModes)
        } else if n == "lookupClass"@ && d == "()Ljava/lang/Class;"@ {
            Some(OtherMethod::Read(HiddenField::LookupClass))
        } else if n == "previousLookupClass"@ && d == "()Ljava/lang/Class;"@ {
            Some(OtherMethod::PreviousLookupClass)
        } else if n == "hasFullPrivilegeAccess"@ && d == "()Z"@ {
            Some(OtherMethod::HasFullPrivilegeAccess)
        } else {
            None
        }
    } else if c == info {
        if n == "getReferenceKind"@ && d == "()I"@ {
            Some(OtherMethod::Read(HiddenField::ReferenceKind))
        } else if n == "getDeclaringClass"@ && d == "()Ljava/lang/Class;"@ {
            Some(OtherMethod::Read(HiddenField::DeclaringClass))
        } else if n == "getName"@ && d == "()Ljava/lang/String;"@ {
            Some(OtherMethod::Read(HiddenField::Name))
        } else if n == "getMethodType"@ && d == "()Ljava/lang/invoke/MethodType;"@ {
            Some(OtherMethod::Read(HiddenField::MethodType))
        } else if n == "getModifiers"@ && d == "()I"@ {
            Some(OtherMethod::Fixed(Some(Value::Int(1))))
        } else {
            None
        }
    } else if c == "java/lang/invoke/MethodType"@ {
        if (n == "toMethodDescriptorString"@ || n == "toString"@) && d == "()Ljava/lang/String;"@ {
            Some(OtherMethod::Read(HiddenField::Descriptor))
        } else {
            None
        }
    } else if c == "java/lang/invoke/CallSite"@ || is_call_site(c) {
        if n == "getTarget"@ && d == "()Ljava/lang/invoke/MethodHandle;"@ {
            Some(OtherMethod::Read(HiddenField::Target))
        } else if is_call_site(c) && n == "<init>"@ && d == "(Ljava/lang/invoke/MethodHandle;)V"@ {
            Some(OtherMethod::SetTarget)
        } else if is_settable_call_site(c) && n == "<init>"@ && d == "(Ljava/lang/invoke/MethodType;)V"@ {
            Some(OtherMethod::ClearTarget)
        } else if is_settable_call_site(c) && n == "setTarget"@ && d == "(Ljava/lang/invoke/MethodHandle;)V"@ {
            Some(OtherMethod::SetTarget)
        } else if (c == "java/lang/invoke/MutableCallSite"@ && n == "syncAll"@ && d == "([Ljava/lang/invoke/MutableCallSite;)V"@)
            || (c == "java/lang/invoke/VolatileCallSite"@ && n == "syncAll"@ && d == "([Ljava/lang/invoke/VolatileCallSite;)V"@) {
            Some(OtherMethod::Fixed(None))
        } else {
            None
        }
    } else if c == "jdk/internal/reflect/Reflection"@ {
        if n == "getCallerClass"@ && d == "()Ljava/lang/Class;"@ {
            Some(OtherMethod::Fixed(Some(Value::Reference(Reference::Null))))
        } else {
            Some(OtherMethod::Fixed(None))
        }
    } else if c == "jdk/internal/misc/Unsafe"@ {
        unsafe_native(n, d)
    } else if c == "jdk/internal/misc/CDS"@ {
        if (n == "isDumpingClassList0"@ || n == "isDumpingArchive0"@ || n == "isSharingEnabled0"@) && d == "()Z"@ {
            Some(OtherMethod::Fixed(Some(Value::Int(0))))
        } else {
            Some(OtherMethod::Fixed(None))
        }
    } else {
        None
    }
}

pub open spec fn other_arity(k: OtherMethod) -> nat {
    match k {
        OtherMethod::ArrayCopy => 5,
        OtherMethod::LineSeparator | OtherMethod::Fixed(_) => 0,
        OtherMethod::SetTarget => 2,
        OtherMethod::Unsafe(m) => method_arity(m),
        _ => 1,
    }
}

/// Sets a named field of the object a reference designates, as the
/// interpreter does: a reference to nothing or to a cell that is no object
/// is an error.
pub open spec fn put_field(heap: Seq<Obj>, r: Reference, name: Seq<char>, v: Value) -> NativeResult {
    match deref(heap, r) {
        None => fail(deref_error(r)),
        Some(Obj::Object { .. }) => done(heap_set_field(heap, r, name, v), None),
        Some(o) => fail(VmError::InvalidHeapValue { expected: Expected::Object, actual: obj_kind(o) }),
    }
}

/// The heap index of a reference as `identityHashCode` reports it.
pub open spec fn identity_hash(r: Reference) -> i32 {
    match r {
        Reference::Null => 0,
        Reference::Heap(i) => i as i32,
    }
}

/// What a native of this module does (the `Unsafe` accessors aside, whose
/// contract is `unsafe_answers`).
pub open spec fn other_spec(heap: Seq<Obj>, k: OtherMethod, args: Seq<Value>) -> NativeResult {
    match k {
        OtherMethod::ArrayCopy => on_ref(args, 0, |src: Reference| on_int(args, 1, |sp: i32| on_ref(args, 2, |dst: Reference|
            on_int(args, 3, |dp: i32| on_int(args, 4, |len: i32|
                match arraycopy_spec(heap, src, sp, dst, dp, len) {
                    Ok(h) => done(h, None),
                    Err(f) => Err(f),
                }))))),
        OtherMethod::LineSeparator => give_str(heap, seq!['\n']),
        OtherMethod::IdentityHashCode => on_ref(args, 0, |r: Reference| give_int(heap, identity_hash(r))),
        OtherMethod::Read(f) => on_ref(args, 0, |r: Reference| match get_field(heap, r, hidden_name(f)) {
            Ok(v) => give(heap, v),
            Err(x) => Err(x),
        }),
        OtherMethod::PreviousLookupClass => on_ref(args, 0, |r: Reference| give(heap,
            match get_field(heap, r, "__previousLookupClass"@) {
                Ok(v) => v,
                Err(_) => Value::Reference(Reference::Null),
            })),
        OtherMethod::LookupModes => on_ref(args, 0, |r: Reference| give_int(heap, lookup_modes_of(heap, r))),
        OtherMethod::HasFullPrivilegeAccess => on_ref(args, 0, |r: Reference|
            give_int(heap, if full_privilege(lookup_modes_of(heap, r)) { 1i32 } else { 0i32 })),
        OtherMethod::SetTarget => on_ref(args, 0, |r: Reference| put_field(heap, r, "__target"@, args[1])),
        OtherMethod::ClearTarget => on_ref(args, 0, |r: Reference| put_field(heap, r, "__target"@, Value::Reference(Reference::Null))),
        OtherMethod::Fixed(v) => done(heap, v),
        OtherMethod::Unsafe(_) => done(heap, None),
    }
}

/// Whether a call's outcome is the one specified for its native.
pub open spec fn other_answers(h0: Seq<Obj>, h1: Seq<Obj>, k: OtherMethod, args: Seq<Value>, res: Result<Option<Value>, VmError>) -> bool {
    match k {
        OtherMethod::Unsafe(m) => unsafe_answers(h0, h1, m, args, res),
        _ => answers(h0, h1, other_spec(h0, k, args), res),
    }
}

fn unsafe_accessor_of(n: &[char], d: &[char]) -> (res: Option<UnsafeMethod>)
    ensures
        res == unsafe_accessor(n@, d@),
{
    if eq_str(n, "compareAndSetInt") && eq_str(d, "(Ljava/lang/Object;JII)Z") {
        Some(UnsafeMethod::CompareAndSetInt)
    } else if eq_str(n, "compareAndSetLong") && eq_str(d, "(Ljava/lang/Object;JJJ)Z") {
        Some(UnsafeMethod::CompareAndSetLong)
    } else if (eq_str(n, "compareAndSetReference") || eq_str(n, "compareAndSetObject"))
        && eq_str(d, "(Ljava/lang/Object;JLjava/lang/Object;Ljava/lang/Object;)Z") {
        Some(UnsafeMethod::CompareAndSetReference)
    } else if eq_str(n, "getAndAddInt") && eq_str(d, "(Ljava/lang/Object;JI)I") {
        Some(UnsafeMethod::GetAndAddInt)
    } else if eq_str(n, "getAndAddLong") && eq_str(d, "(Ljava/lang/Object;JJ)J") {
        Some(UnsafeMethod::GetAndAddLong)
    } else if eq_str(n, "getAndSetInt") && eq_str(d, "(Ljava/lang/Object;JI)I") {
        Some(UnsafeMethod::GetAndSetInt)
    } else if eq_str(n, "getAndSetLong") && eq_str(d, "(Ljava/lang/Object;JJ)J") {
        Some(UnsafeMethod::GetAndSetLong)
    } else if (eq_str(n, "getAndSetReference") || eq_str(n, "getAndSetObject"))
        && eq_str(d, "(Ljava/lang/Object;JLjava/lang/Object;)Ljava/lang/Object;") {
        Some(UnsafeMethod::GetAndSetReference)
    } else if (eq_str(n, "getIntVolatile") || eq_str(n, "getInt")) && eq_str(d, "(Ljava/lang/Object;J)I") {
        Some(UnsafeMethod::GetInt)
    } else if (eq_str(n, "putIntVolatile") || eq_str(n, "putInt")) && eq_str(d, "(Ljava/lang/Object;JI)V") {
        Some(UnsafeMethod::PutInt)
    } else if (eq_str(n, "getLongVolatile") || eq_str(n, "getLong")) && eq_str(d, "(Ljava/lang/Object;J)J") {
        Some(UnsafeMethod::GetLong)
    } else if (eq_str(n, "putLongVolatile") || eq_str(n, "putLong")) && eq_str(d, "(Ljava/lang/Object;JJ)V") {
        Some(UnsafeMethod::PutLong)
    } else if (eq_str(n, "getReferenceVolatile") || eq_str(n, "getReference") || eq_str(n, "getObject"))
        && eq_str(d, "(Ljava/lang/Object;J)Ljava/lang/Object;") {
        Some(UnsafeMethod::GetReference)
    } else if (eq_str(n, "putReferenceVolatile") || eq_str(n, "putReference") || eq_str(n, "putObject"))
        && eq_str(d, "(Ljava/lang/Object;JLjava/lang/Object;)V") {
        Some(UnsafeMethod::PutReference)
    } else if (eq_str(n, "getByte") && eq_str(d, "(Ljava/lang/Object;J)B")) || (eq_str(n, "getBoolean") && eq_str(d, "(Ljava/lang/Object;J)Z")) {
        Some(UnsafeMethod::GetInt)
    } else if (eq_str(n, "putByte") && eq_str(d, "(Ljava/lang/Object;JB)V")) || (eq_str(n, "putBoolean") && eq_str(d, "(Ljava/lang/Object;JZ)V")) {
        Some(UnsafeMethod::PutInt)
    } else {
        None
    }
}

fn unsafe_native_of(n: &[char], d: &[char]) -> (res: Option<OtherMethod>)
    ensures
        res == unsafe_native(n@, d@),
{
    if eq_str(n, "registerNatives") && eq_str(d, "()V") {
        Some(OtherMethod::Fixed(None))
    } else if (eq_str(n, "arrayBaseOffset") || eq_str(n, "arrayIndexScale")) && eq_str(d, "(Ljava/lang/Class;)I") {
        Some(OtherMethod::Fixed(Some(Value::Int(if eq_str(n, "arrayBaseOffset") { 0i32 } else { 1i32 }))))
    } else if eq_str(n, "addressSize") && eq_str(d, "()I") {
        Some(OtherMethod::Fixed(Some(Value::Int(8))))
    } else if eq_str(n, "pageSize") && eq_str(d, "()I") {
        Some(OtherMethod::Fixed(Some(Value::Int(4096))))
    } else if eq_str(n, "staticFieldOffset") {
        Some(OtherMethod::Fixed(Some(Value::Long(0))))
    } else if eq_str(n, "staticFieldBase") {
        Some(OtherMethod::Fixed(Some(Value::Reference(Reference::Null))))
    } else if (eq_str(n, "storeFence") || eq_str(n, "loadFence") || eq_str(n, "fullFence")) && eq_str(d, "()V") {
        Some(OtherMethod::Fixed(None))
    } else {
        match unsafe_accessor_of(n, d) {
            Some(m) => Some(OtherMethod::Unsafe(m)),
            None => None,
        }
    }
}

fn is_call_site_name(c: &[char]) -> (b: bool)
    ensures
        b == is_call_site(c@),
{
    eq_str(c, "java/lang/invoke/ConstantCallSite") || eq_str(c, "java/lang/invoke/MutableCallSite")
        || eq_str(c, "java/lang/invoke/VolatileCallSite")
}

fn is_settable_call_site_name(c: &[char]) -> (b: bool)
    ensures
        b == is_settable_call_site(c@),
{
    eq_str(c, "java/lang/invoke/MutableCallSite") || eq_str(c, "java/lang/invoke/VolatileCallSite")
}

/// The native a call selects, when it is one of this module's.
pub fn other_method(c: &[char], n: &[char], d: &[char]) -> (res: Option<OtherMethod>)
    ensures
        res == other_decode(c@, n@, d@),
{
    if eq_str(c, "java/lang/System") {
        if eq_str(n, "arraycopy") && eq_str(d, "(Ljava/lang/Object;ILjava/lang/Object;II)V") {
            Some(OtherMethod::ArrayCopy)
        } else if eq_str(n, "lineSeparator") && eq_str(d, "()Ljava/lang/String;") {
            Some(OtherMethod::LineSeparator)
        } else if eq_str(n, "identityHashCode") && eq_str(d, "(Ljava/lang/Object;)I") {
            Some(OtherMethod::IdentityHashCode)
        } else {
            None
        }
    } else if eq_str(c, "java/lang/invoke/MethodHandles$Lookup") {
        if eq_str(n, "lookupModes") && eq_str(d, "()I") {
            Some(OtherMethod::LookupModes)
        } else if eq_str(n, "lookupClass") && eq_str(d, "()Ljava/lang/Class;") {
            Some(OtherMethod::Read(HiddenField::LookupClass))
        } else if eq_str(n, "previousLookupClass") && eq_str(d, "()Ljava/lang/Class;") {
            Some(OtherMethod::PreviousLookupClass)
        } else if eq_str(n, "hasFullPrivilegeAccess") && eq_str(d, "()Z") {
            Some(OtherMethod::HasFullPrivilegeAccess)
        } else {
            None
        }
    } else if eq_str(c, "java/lang/invoke/MethodHandleInfo") {
        if eq_str(n, "getReferenceKind") && eq_str(d, "()I") {
            Some(OtherMethod::Read(HiddenField::ReferenceKind))
        } else if eq_str(n, "getDeclaringClass") && eq_str(d, "()Ljava/lang/Class;") {
            Some(OtherMethod::Read(HiddenField::DeclaringClass))
        } else if eq_str(n, "getName") && eq_str(d, "()Ljava/lang/String;") {
            Some(OtherMethod::Read(HiddenField::Name))
        } else if eq_str(n, "getMethodType") && eq_str(d, "()Ljava/lang/invoke/MethodType;") {
            Some(OtherMethod::Read(HiddenField::MethodType))
        } else if eq_str(n, "getModifiers") && eq_str(d, "()I") {
            Some(OtherMethod::Fixed(Some(Value::Int(1))))
        } else {
            None
        }
    } else if eq_str(c, "java/lang/invoke/MethodType") {
        if (eq_str(n, "toMethodDescriptorString") || eq_str(n, "toString")) && eq_str(d, "()Ljava/lang/String;") {
            Some(OtherMethod::Read(HiddenField::Descriptor))
        } else {
            None
        }
    } else if eq_str(c, "java/lang/invoke/CallSite") || is_call_site_name(c) {
        if eq_str(n, "getTarget") && eq_str(d, "()Ljava/lang/invoke/MethodHandle;") {
            Some(OtherMethod::Read(HiddenField::Target))
        } else if is_call_site_name(c) && eq_str(n, "<init>") && eq_str(d, "(Ljava/lang/invoke/MethodHandle;)V") {
            Some(OtherMethod::SetTarget)
        } else if is_settable_call_site_name(c) && eq_str(n, "<init>") && eq_str(d, "(Ljava/lang/invoke/MethodType;)V") {
            Some(OtherMethod::ClearTarget)
        } else if is_settable_call_site_name(c) && eq_str(n, "setTarget") && eq_str(d, "(Ljava/lang/invoke/MethodHandle;)V") {
            Some(OtherMethod::SetTarget)
        } else if (eq_str(c, "java/lang/invoke/MutableCallSite") && eq_str(n, "syncAll") && eq_str(d, "([Ljava/lang/invoke/MutableCallSite;)V"))
            || (eq_str(c, "java/lang/invoke/VolatileCallSite") && eq_str(n, "syncAll") && eq_str(d, "([Ljava/lang/invoke/VolatileCallSite;)V")) {
            Some(OtherMethod::Fixed(None))
        } else {
            None
        }
    } else if eq_str(c, "jdk/internal/reflect/Reflection") {
        if eq_str(n, "getCallerClass") && eq_str(d, "()Ljava/lang/Class;") {
            Some(OtherMethod::Fixed(Some(Value::Reference(Reference::Null))))
        } else {
            Some(OtherMethod::Fixed(None))
        }
    } else if eq_str(c, "jdk/internal/misc/Unsafe") {
        unsafe_native_of(n, d)
    } else if eq_str(c, "jdk/internal/misc/CDS") {
        if (eq_str(n, "isDumpingClassList0") || eq_str(n, "isDumpingArchive0") || eq_str(n, "isSharingEnabled0")) && eq_str(d, "()Z") {
            Some(OtherMethod::Fixed(Some(Value::Int(0))))
        } else {
            Some(OtherMethod::Fixed(None))
        }
    } else {
        None
    }
}

/// How many arguments a native reads.
pub fn other_arg_count(k: OtherMethod) -> (n: usize)
    ensures
        n == other_arity(k),
{
    match k {
        OtherMethod::ArrayCopy => 5,
        OtherMethod::LineSeparator | OtherMethod::Fixed(_) => 0,
        OtherMethod::SetTarget => 2,
        OtherMethod::Unsafe(m) => match m {
            UnsafeMethod::CompareAndSetInt | UnsafeMethod::CompareAndSetLong
            | UnsafeMethod::CompareAndSetReference => 5,
            UnsafeMethod::GetInt | UnsafeMethod::GetLong | UnsafeMethod::GetReference => 3,
            _ => 4,
        },
        _ => 1,
    }
}

/// Sets a named field of an object, refusing references to nothing and to
/// cells that are not objects.
pub(crate) fn put_object_field(heap: &mut Heap, r: Reference, name: &str, v: Value) -> (res: Result<Option<Value>, VmError>)
    ensures
        answers(old(heap)@, final(heap)@, put_field(old(heap)@, r, name@, v), res),
{
    let is_object = match heap.get(r)? {
        HeapValue::Object { .. } => true,
        other => {
            return Err(VmError::InvalidHeapValue { expected: Expected::Object, actual: other.kind_name() });
        },
    };
    if is_object {
        heap.set_object_field(r, name, v);
    }
    Ok(None)
}

fn identity_hash_of(r: Reference) -> (h: i32)
    ensures
        h == identity_hash(r),
{
    match r {
        Reference::Null => 0,
        Reference::Heap(i) => i as i32,
    }
}

/// Runs one of this module's natives.
pub fn invoke_other(heap: &mut Heap, k: OtherMethod, args: &[Value]) -> (res: Result<Option<Value>, VmError>)
    requires
        args@.len() >= other_arity(k),
    ensures
        other_answers(old(heap)@, final(heap)@, k, args@, res),
{
    match k {
        OtherMethod::ArrayCopy => {
            let src = args[0].as_reference()?;
            let sp = args[1].as_int()?;
            let dst = args[2].as_reference()?;
            let dp = args[3].as_int()?;
            let len = args[4].as_int()?;
            arraycopy(heap, src, sp, dst, dp, len)?;
            Ok(None)
        },
        OtherMethod::LineSeparator => {
            let mut s: Vec<char> = Vec::new();
            s.push('\n');
            assert(s@ =~= seq!['\n']);
            Ok(Some(heap.new_string(s)))
        },
        OtherMethod::IdentityHashCode => {
            let r = args[0].as_reference()?;
            Ok(Some(Value::Int(identity_hash_of(r))))
        },
        OtherMethod::Read(f) => {
            let r = args[0].as_reference()?;
            Ok(Some(get_object_field(heap, r, hidden_field_name(f))?))
        },
        OtherMethod::PreviousLookupClass => {
            let r = args[0].as_reference()?;
            match get_object_field(heap, r, "__previousLookupClass") {
                Ok(v) => Ok(Some(v)),
                Err(_) => Ok(Some(Value::Reference(Reference::Null))),
            }
        },
        OtherMethod::LookupModes => {
            let r = args[0].as_reference()?;
            Ok(Some(Value::Int(lookup_modes(heap, r))))
        },
        OtherMethod::HasFullPrivilegeAccess => {
            let r = args[0].as_reference()?;
            let full = has_full_privilege_access(lookup_modes(heap, r));
            Ok(Some(Value::Int(if full { 1 } else { 0 })))
        },
        OtherMethod::SetTarget => {
            let r = args[0].as_reference()?;
            put_object_field(heap, r, "__target", args[1])
        },
        OtherMethod::ClearTarget => {
            let r = args[0].as_reference()?;
            put_object_field(heap, r, "__target", Value::Reference(Reference::Null))
        },
        OtherMethod::Fixed(v) => Ok(v),
        OtherMethod::Unsafe(m) => unsafe_invoke(heap, m, args),
    }
}

/// The system properties with a fixed value; the others (the separators,
/// the operating system's name and architecture, and environment variables)
/// depend on the machine.
pub open spec fn fixed_property(key: Seq<char>) -> Option<Seq<char>> {
    if key == "line.separator"@ {
        Some(seq!['\n'])
    } else if key == "java.version"@ || key == "java.specification.version"@ {
        Some("21"@)
    } else {
        None
    }
}

/// The value of a fixed system property.
pub fn fixed_property_value(key: &[char]) -> (res: Option<Vec<char>>)
    ensures
        match res {
            Some(v) => fixed_property(key@) == Some(v@),
            None => fixed_property(key@) is None,
        },
{
    if eq_str(key, "line.separator") {
        let mut v: Vec<char> = Vec::new();
        v.push('\n');
        assert(v@ =~= seq!['\n']);
        Some(v)
    } else if eq_str(key, "java.version") || eq_str(key, "java.specification.version") {
        Some(crate::chars::lit("21"))
    } else {
        None
    }
}

/// `System.getProperty(key)`: a fixed property's value, or else `machine`
/// (what the platform or the environment gives for the key); a new string,
/// or null when there is none.
pub open spec fn property_spec(heap: Seq<Obj>, args: Seq<Value>, machine: Option<Seq<char>>) -> NativeResult {
    on_str(heap, args, 0, |key: Seq<char>| match fixed_property(key) {
        Some(v) => give_str(heap, v),
        None => match machine {
            Some(v) => give_str(heap, v),
            None => give(heap, Value::Reference(Reference::Null)),
        },
    })
}

/// `System.getProperty`, given what the machine answers for the key.
pub fn system_get_property(heap: &mut Heap, args: &[Value], machine: Option<Vec<char>>) -> (res: Result<Option<Value>, VmError>)
    requires
        args@.len() >= 1,
    ensures
        answers(old(heap)@, final(heap)@, property_spec(old(heap)@, args@, match machine {
            Some(v) => Some(v@),
            None => None,
        }), res),
{
    let key = str_arg(heap, args, 0)?;
    match fixed_property_value(&key) {
        Some(v) => Ok(Some(heap.new_string(v))),
        None => match machine {
            Some(v) => Ok(Some(heap.new_string(v))),
            None => Ok(Some(Value::Reference(Reference::Null))),
        },
    }
}

/// `Unsafe.getUnsafe`: the `theUnsafe` static field of the `Unsafe` class.
pub fn get_unsafe(t: &crate::classes::ClassTable) -> (res: Result<Option<Value>, VmError>)
    ensures
        match res {
            Ok(v) => crate::classes::static_field(t@, "jdk/internal/misc/Unsafe"@, "theUnsafe"@) matches Ok(x) && v == Some(x),
            Err(e) => crate::classes::static_field(t@, "jdk/internal/misc/Unsafe"@, "theUnsafe"@) matches Err(f)
                && crate::model::raises(e, f),
        },
{
    let v = crate::classes::get_static_field(t, &crate::chars::lit("jdk/internal/misc/Unsafe"), "theUnsafe")?;
    Ok(Some(v))
}

} // verus!
