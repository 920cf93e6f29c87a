//! The `java.io.File` natives that read or set the path a file object
//! holds (its first field) without touching the file system.

use vstd::prelude::*;
use crate::chars::eq_str;
use crate::heap::{deref, Heap};
use crate::io_objects::{file_path_string, first_ref, object_path, set_nth_field, write_nth_field};
use crate::model::{ref_arg, Obj, Reference, Value, VmError};
use crate::native::{answers, done, fail, give, give_bool, give_str, on_ref, NativeResult};
use crate::paths::{file_name, parent, path_file_name, path_parent};

verus! {

/// The path natives of `java.io.File`.
#[derive(Clone, Copy, PartialEq, Eq, Structural, Debug)]
pub enum FileMethod {
    /// `<init>(String)`: the path string becomes the first field.
    Init,
    GetPath,
    GetName,
    GetParent,
    IsHidden,
}

pub open spec fn file_signature(k: FileMethod) -> (Seq<char>, Seq<char>) {
    match k {
        FileMethod::Init => ("<init>"@, "(Ljava/lang/String;)V"@),
        FileMethod::GetPath => ("getPath"@, "()Ljava/lang/String;"@),
        FileMethod::GetName => ("getName"@, "()Ljava/lang/String;"@),
        FileMethod::GetParent => ("getParent"@, "()Ljava/lang/String;"@),
        FileMethod::IsHidden => ("isHidden"@, "()Z"@),
    }
}

pub open spec fn file_arity(k: FileMethod) -> nat {
    if k is Init { 2 } else { 1 }
}

/// `<init>` writes the first field of its receiver, which must have one
/// when the receiver is an object.
pub open spec fn file_pre(heap: Seq<Obj>, k: FileMethod, args: Seq<Value>) -> bool {
    k is Init ==> match ref_arg(args, 0) {
        Ok(r) => deref(heap, r) matches Some(Obj::Object { fields, .. }) ==> fields.len() > 0,
        Err(_) => true,
    }
}

/// Continues with the path a file object holds (`None` when it has none).
pub open spec fn on_file_path(heap: Seq<Obj>, r: Reference, f: spec_fn(Option<Seq<char>>) -> NativeResult) -> NativeResult {
    match object_path(heap, r) {
        Ok(p) => f(p),
        Err(e) => fail(e),
    }
}

/// What a file native does.
pub open spec fn file_spec(heap: Seq<Obj>, k: FileMethod, args: Seq<Value>) -> NativeResult {
    let null = Value::Reference(Reference::Null);
    on_ref(args, 0, |r: Reference| match k {
        FileMethod::Init => on_ref(args, 1, |p: Reference| done(set_nth_field(heap, r, 0, Value::Reference(p)), None)),
        FileMethod::GetPath => match deref(heap, r) {
            None => fail(crate::heap::deref_error(r)),
            Some(Obj::Object { fields, .. }) => give(heap, Value::Reference(match first_ref(fields) {
                Some(x) => x,
                None => Reference::Null,
            })),
            Some(_) => give(heap, null),
        },
        FileMethod::GetName => on_file_path(heap, r, |p: Option<Seq<char>>| give_str(heap, match p {
            Some(s) => match file_name(s) {
                Some(n) => n,
                None => seq![],
            },
            None => seq![],
        })),
        FileMethod::GetParent => on_file_path(heap, r, |p: Option<Seq<char>>| match p {
            Some(s) => match parent(s) {
                Some(q) => if q.len() > 0 { give_str(heap, q) } else { give(heap, null) },
                None => give(heap, null),
            },
            None => give(heap, null),
        }),
        FileMethod::IsHidden => on_file_path(heap, r, |p: Option<Seq<char>>| give_bool(heap, match p {
            Some(s) => file_name(s) matches Some(n) && n.len() > 0 && n[0] == '.',
            None => false,
        })),
    })
}

/// The file native a class, name and descriptor select.
pub fn file_method(c: &[char], n: &[char], d: &[char]) -> (res: Option<FileMethod>)
    ensures
        match res {
            Some(k) => c@ == "java/io/File"@ && file_signature(k) == (n@, d@),
            None => c@ != "java/io/File"@ || forall|k: FileMethod| file_signature(k) != (n@, d@),
        },
{
    if !eq_str(c, "java/io/File") {
        return None;
    }
    if eq_str(n, "<init>") && eq_str(d, "(Ljava/lang/String;)V") {
        Some(FileMethod::Init)
    } else if eq_str(n, "getPath") && eq_str(d, "()Ljava/lang/String;") {
        Some(FileMethod::GetPath)
    } else if eq_str(n, "getName") && eq_str(d, "()Ljava/lang/String;") {
        Some(FileMethod::GetName)
    } else if eq_str(n, "getParent") && eq_str(d, "()Ljava/lang/String;") {
        Some(FileMethod::GetParent)
    } else if eq_str(n, "isHidden") && eq_str(d, "()Z") {
        Some(FileMethod::IsHidden)
    } else {
        None
    }
}

/// Whether a file native can run on these arguments.
pub fn file_callable(heap: &Heap, k: FileMethod, args: &[Value]) -> (res: bool)
    ensures
        res == (args@.len() >= file_arity(k) && file_pre(heap@, k, args@)),
{
    let need: usize = if k == FileMethod::Init { 2 } else { 1 };
    if args.len() < need {
        return false;
    }
    if k != FileMethod::Init {
        return true;
    }
    match args[0].as_reference() {
        Ok(r) => match heap.get(r) {
            Ok(crate::model::HeapValue::Object { fields, .. }) => fields.len() > 0,
            _ => true,
        },
        Err(_) => true,
    }
}

/// Runs a file native.
pub fn invoke_file(heap: &mut Heap, k: FileMethod, args: &[Value]) -> (res: Result<Option<Value>, VmError>)
    requires
        args@.len() >= file_arity(k),
        file_pre(old(heap)@, k, args@),
    ensures
        answers(old(heap)@, final(heap)@, file_spec(old(heap)@, k, args@), res),
{
    let r = args[0].as_reference()?;
    let null = Value::Reference(Reference::Null);
    match k {
        FileMethod::Init => {
            let p = args[1].as_reference()?;
            let ghost h0 = heap@;
            match write_nth_field(heap, r, 0, Value::Reference(p)) {
                Ok(_) => Ok(None),
                Err(_) => {
                    assert(set_nth_field(h0, r, 0, Value::Reference(p)) == h0);
                    Ok(None)
                },
            }
        },
        FileMethod::GetPath => match heap.get(r)? {
            crate::model::HeapValue::Object { fields, .. } => {
                let v = if fields.len() > 0 {
                    match fields[0].value {
                        Value::Reference(x) => x,
                        _ => Reference::Null,
                    }
                } else {
                    Reference::Null
                };
                Ok(Some(Value::Reference(v)))
            },
            _ => Ok(Some(null)),
        },
        FileMethod::GetName => {
            let p = file_path_string(heap, r)?;
            let name = match p {
                Some(s) => match path_file_name(&s) {
                    Some(n) => n,
                    None => Vec::new(),
                },
                None => Vec::new(),
            };
            Ok(Some(heap.new_string(name)))
        },
        FileMethod::GetParent => {
            let p = file_path_string(heap, r)?;
            match p {
                Some(s) => match path_parent(&s) {
                    Some(q) => if q.len() > 0 { Ok(Some(heap.new_string(q))) } else { Ok(Some(null)) },
                    None => Ok(Some(null)),
                },
                None => Ok(Some(null)),
            }
        },
        FileMethod::IsHidden => {
            let p = file_path_string(heap, r)?;
            let hidden = match p {
                Some(s) => match path_file_name(&s) {
                    Some(n) => n.len() > 0 && n[0] == '.',
                    None => false,
                },
                None => false,
            };
            Ok(Some(Value::Int(if hidden { 1 } else { 0 })))
        },
    }
}

} // verus!
