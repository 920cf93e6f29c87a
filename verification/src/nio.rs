//! The `java.nio` natives that work on the heap: buffers, `Path` and
//! `Paths`, `Files.isHidden`, the `StandardOpenOption` accessors and the
//! natives that answer a fixed value (`FileStore`, `Channels`, `Console`
//! and the `Files` stream factories). The `Files` natives that reach the
//! file system, and `Path.toAbsolutePath`, which needs the working
//! directory, are run by the caller (`path_to_absolute` does the rest of
//! the latter).

use vstd::prelude::*;
use crate::buffers::{buffer_arity, buffer_class_name, buffer_method, buffer_pre, buffer_signature, buffer_spec, buffer_supported, invoke_buffer, BufferClass, BufferOp};
use crate::chars::eq_str;
use crate::heap::{deref, Heap};
use crate::helpers::{string_value, stringify_reference};
use crate::io_objects::{new_path_object, object_path, path_reference_to_pathbuf, path_string_from_object, with_path_object};
use crate::model::{Expected, HeapValue, Obj, Reference, Value, VmError, obj_kind};
use crate::native::{answers, done, fail, give, give_bool, give_int, give_str, on_int, on_ref, throw, NativeResult};
use crate::paths::{comps_prefix, comps_suffix, file_name, has_root, join, name_parts, normalized, parent, views, join_all, normalize_path, path_ends_with, path_file_name, path_join, path_join_all, path_name_components, path_parent, path_starts_with, root_path};

verus! {

/// The `Path`, `Paths` and `Files` natives computed from path text.
#[derive(Clone, Copy, PartialEq, Eq, Structural, Debug)]
pub enum PathOp {
    /// `getFileName` returning a `Path`.
    FileName,
    /// `getFileName` returning a `String` (empty when there is none).
    FileNameText,
    Parent,
    Root,
    IsAbsolute,
    NameCount,
    /// `getName(i)` returning a `Path`.
    Name,
    /// `getName(i)` returning a `String`.
    NameText,
    Subpath,
    ToText,
    Normalize,
    Resolve,
    StartsWith,
    EndsWith,
    /// `Paths.get(first, more...)`.
    Get,
    /// `Files.isHidden`: the file name begins with `.`.
    IsHidden,
}

/// The natives of this module.
#[derive(Clone, Copy, PartialEq, Eq, Structural, Debug)]
pub enum NioMethod {
    Buffer(BufferClass, BufferOp),
    Path(PathOp),
    /// `StandardOpenOption.name`: the option's first field.
    OptionName,
    /// `StandardOpenOption.ordinal`: the option's second field.
    OptionOrdinal,
    /// A native that answers a fixed value (or nothing).
    Fixed(Option<Value>),
}

/// The path natives by name and descriptor.
pub open spec fn path_op(c: Seq<char>, n: Seq<char>, d: Seq<char>) -> Option<PathOp> {
    if c == "java/nio/file/Path"@ {
        if n == "getFileName"@ && d == "()Ljava/nio/file/Path;"@ {
            Some(PathOp::FileName)
        } else if n == "getFileName"@ && d == "()Ljava/lang/String;"@ {
            Some(PathOp::FileNameText)
        } else if n == "getParent"@ && d == "()Ljava/nio/file/Path;"@ {
            Some(PathOp::Parent)
        } else if n == "getRoot"@ && d == "()Ljava/nio/file/Path;"@ {
            Some(PathOp::Root)
        } else if n == "isAbsolute"@ && d == "()Z"@ {
            Some(PathOp::IsAbsolute)
        } else if n == "getNameCount"@ && d == "()I"@ {
            Some(PathOp::NameCount)
        } else if n == "getName"@ && d == "(I)Ljava/nio/file/Path;"@ {
            Some(PathOp::Name)
        } else if n == "getName"@ && d == "(I)Ljava/lang/String;"@ {
            Some(PathOp::NameText)
        } else if n == "subpath"@ && d == "(II)Ljava/nio/file/Path;"@ {
            Some(PathOp::Subpath)
        } else if n == "toString"@ && d == "()Ljava/lang/String;"@ {
            Some(PathOp::ToText)
        } else if n == "normalize"@ && d == "()Ljava/nio/file/Path;"@ {
            Some(PathOp::Normalize)
        } else if n == "resolve"@ && d == "(Ljava/lang/String;)Ljava/nio/file/Path;"@ {
            Some(PathOp::Resolve)
        } else if n == "startsWith"@ && d == "(Ljava/lang/String;)Z"@ {
            Some(PathOp::StartsWith)
        } else if n == "endsWith"@ && d == "(Ljava/lang/String;)Z"@ {
            Some(PathOp::EndsWith)
        } else {
            None
        }
    } else if c == "java/nio/file/Paths"@ && n == "get"@ && d == "(Ljava/lang/String;[Ljava/lang/String;)Ljava/nio/file/Path;"@ {
        Some(PathOp::Get)
    } else if c == "java/nio/file/Files"@ && n == "isHidden"@ && d == "(Ljava/nio/file/Path;)Z"@ {
        Some(PathOp::IsHidden)
    } else {
        None
    }
}

/// The natives that answer a fixed value.
pub open spec fn fixed_nio(c: Seq<char>, n: Seq<char>, d: Seq<char>) -> Option<Option<Value>> {
    let null = Some(Value::Reference(Reference::Null));
    if c == "java/nio/file/Path"@ && n == "toUri"@ && d == "()Ljava/net/URI;"@ {
        Some(null)
    } else if c == "java/nio/file/Files"@ && (
        (n == "getFileStore"@ && d == "(Ljava/nio/file/Path;)Ljava/nio/file/FileStore;"@)
        || (n == "newInputStream"@ && d == "(Ljava/nio/file/Path;[Ljava/nio/file/OpenOption;)Ljava/io/InputStream;"@)
        || (n == "newOutputStream"@ && d == "(Ljava/nio/file/Path;[Ljava/nio/file/OpenOption;)Ljava/io/OutputStream;"@)
        || (n == "newBufferedReader"@ && d == "(Ljava/nio/file/Path;)Ljava/io/BufferedReader;"@)
        || (n == "newBufferedWriter"@ && d == "(Ljava/nio/file/Path;[Ljava/nio/file/OpenOption;)Ljava/io/BufferedWriter;"@)) {
        Some(null)
    } else if c == "java/nio/file/FileStore"@ {
        if (n == "name"@ || n == "type"@) && d == "()Ljava/lang/String;"@ {
            Some(null)
        } else if (n == "getTotalSpace"@ || n == "getUsableSpace"@ || n == "getUnallocatedSpace"@) && d == "()J"@ {
            Some(Some(Value::Long(0)))
        } else if n == "isReadOnly"@ && d == "()Z"@ {
            Some(Some(Value::Int(0)))
        } else {
            None
        }
    } else if c == "java/nio/channels/Channels"@ && (
        (n == "newInputStream"@ && d == "(Ljava/nio/channels/ReadableByteChannel;)Ljava/io/InputStream;"@)
        || (n == "newOutputStream"@ && d == "(Ljava/nio/channels/WritableByteChannel;)Ljava/io/OutputStream;"@)
        || (n == "newChannel"@ && d == "(Ljava/io/InputStream;)Ljava/nio/channels/ReadableByteChannel;"@)
        || (n == "newChannel"@ && d == "(Ljava/io/OutputStream;)Ljava/nio/channels/WritableByteChannel;"@)) {
        Some(null)
    } else if c == "java/io/Console"@ {
        if (n == "readLine"@ && (d == "()Ljava/lang/String;"@ || d == "(Ljava/lang/String;;[Ljava/lang/Object;)Ljava/lang/String;"@))
            || ((n == "printf"@ || n == "format"@) && d == "(Ljava/lang/String;[Ljava/lang/Object;)Ljava/io/Console;"@) {
            Some(null)
        } else if n == "flush"@ && d == "()V"@ {
            Some(None)
        } else {
            None
        }
    } else {
        None
    }
}

/// Whether a native is the one a class, name and descriptor select.
pub open spec fn nio_matches(k: NioMethod, c: Seq<char>, n: Seq<char>, d: Seq<char>) -> bool {
    let soo = "java/nio/file/StandardOpenOption"@;
    match k {
        NioMethod::Buffer(b, op) => buffer_supported(b, op) && buffer_class_name(b) == c
            && buffer_signature(b, op) == (n, d),
        NioMethod::Path(op) => path_op(c, n, d) == Some(op),
        NioMethod::Fixed(v) => fixed_nio(c, n, d) == Some(v),
        NioMethod::OptionName => c == soo && n == "name"@ && d == "()Ljava/lang/String;"@,
        NioMethod::OptionOrdinal => c == soo && n == "ordinal"@ && d == "()I"@,
    }
}

pub open spec fn path_arity(op: PathOp) -> nat {
    match op {
        PathOp::Name | PathOp::NameText | PathOp::Resolve | PathOp::StartsWith | PathOp::EndsWith | PathOp::Get => 2,
        PathOp::Subpath => 3,
        _ => 1,
    }
}

pub open spec fn nio_arity(k: NioMethod) -> nat {
    match k {
        NioMethod::Buffer(_, op) => buffer_arity(op),
        NioMethod::Path(op) => path_arity(op),
        NioMethod::Fixed(_) => 0,
        _ => 1,
    }
}

/// Whether a native can run on these arguments.
pub open spec fn nio_pre(heap: Seq<Obj>, k: NioMethod, args: Seq<Value>) -> bool {
    &&& args.len() >= nio_arity(k)
    &&& match k {
        NioMethod::Buffer(b, op) => buffer_supported(b, op) && buffer_pre(heap, b, op, args),
        _ => true,
    }
}

/// The text of a `Path` object, which must have one.
pub open spec fn path_text(heap: Seq<Obj>, r: Reference) -> Result<Seq<char>, VmError> {
    match object_path(heap, r) {
        Ok(Some(s)) => Ok(s),
        Ok(None) => Err(VmError::NullReference),
        Err(e) => Err(e),
    }
}

/// Returns a new `Path` object for the text.
pub open spec fn give_path(heap: Seq<Obj>, s: Seq<char>) -> NativeResult {
    Ok((Some(Value::Reference(Reference::Heap((heap.len() + 1) as usize))),
        with_path_object(heap, "java/nio/file/Path"@, "__path"@, s)))
}

/// Continues with the text of the path object `r`.
pub open spec fn on_path(heap: Seq<Obj>, r: Reference, f: spec_fn(Seq<char>) -> NativeResult) -> NativeResult {
    match path_text(heap, r) {
        Ok(p) => f(p),
        Err(e) => fail(e),
    }
}

/// Continues with the text of a string reference.
pub open spec fn on_text(heap: Seq<Obj>, r: Reference, f: spec_fn(Seq<char>) -> NativeResult) -> NativeResult {
    match string_value(heap, r) {
        Ok(s) => f(s),
        Err(e) => fail(e),
    }
}

/// `Paths.get`: `first` with each non-null part pushed on, in order.
pub open spec fn pushed_parts(heap: Seq<Obj>, first: Seq<char>, parts: Seq<Reference>) -> Result<Seq<char>, VmError>
    decreases parts.len(),
{
    if parts.len() == 0 {
        Ok(first)
    } else {
        match pushed_parts(heap, first, parts.drop_last()) {
            Err(e) => Err(e),
            Ok(p) => if parts.last() == Reference::Null {
                Ok(p)
            } else {
                match string_value(heap, parts.last()) {
                    Ok(s) => Ok(join(p, s)),
                    Err(e) => Err(e),
                }
            },
        }
    }
}

/// The parts array of `Paths.get`: none for null, an error for what is not
/// an array of references.
pub open spec fn more_parts(heap: Seq<Obj>, r: Reference) -> Result<Seq<Reference>, VmError> {
    match r {
        Reference::Null => Ok(seq![]),
        _ => match deref(heap, r) {
            None => Err(crate::heap::deref_error(r)),
            Some(Obj::RefArray { values, .. }) => Ok(values),
            Some(o) => Err(VmError::InvalidHeapValue { expected: Expected::ReferenceArray, actual: obj_kind(o) }),
        },
    }
}

/// A path component at an index, as `getName` checks it.
pub open spec fn name_at(p: Seq<char>, i: i32, make: spec_fn(Seq<char>) -> NativeResult) -> NativeResult {
    if i < 0 || i >= name_parts(p).len() {
        throw("java/lang/IllegalArgumentException"@)
    } else {
        make(name_parts(p)[i as int])
    }
}

/// What a path native does.
pub open spec fn path_spec(heap: Seq<Obj>, op: PathOp, args: Seq<Value>) -> NativeResult {
    let null = Value::Reference(Reference::Null);
    match op {
        PathOp::Get => on_ref(args, 0, |r0: Reference| on_text(heap, r0, |first: Seq<char>|
            on_ref(args, 1, |r1: Reference| match more_parts(heap, r1) {
                Err(e) => fail(e),
                Ok(parts) => match pushed_parts(heap, first, parts) {
                    Err(e) => fail(e),
                    Ok(p) => give_path(heap, p),
                },
            }))),
        PathOp::ToText => on_ref(args, 0, |r: Reference| match object_path(heap, r) {
            Ok(Some(s)) => give_str(heap, s),
            Ok(None) => give(heap, null),
            Err(e) => fail(e),
        }),
        PathOp::Name | PathOp::NameText => on_ref(args, 0, |r: Reference| on_int(args, 1, |i: i32| on_path(heap, r, |p: Seq<char>|
            name_at(p, i, |c: Seq<char>| if op == PathOp::Name { give_path(heap, c) } else { give_str(heap, c) })))),
        PathOp::Subpath => on_ref(args, 0, |r: Reference| on_int(args, 1, |b: i32| on_int(args, 2, |e: i32| on_path(heap, r, |p: Seq<char>|
            if b < 0 || e < 0 || b >= e || e > name_parts(p).len() {
                throw("java/lang/IllegalArgumentException"@)
            } else {
                give_path(heap, join_all(name_parts(p).subrange(b as int, e as int)))
            })))),
        PathOp::Resolve => on_ref(args, 0, |r: Reference| on_ref(args, 1, |o: Reference| on_path(heap, r, |p: Seq<char>|
            if o == Reference::Null {
                throw("java/lang/NullPointerException"@)
            } else {
                on_text(heap, o, |s: Seq<char>| give_path(heap, join(p, s)))
            }))),
        PathOp::StartsWith | PathOp::EndsWith => on_ref(args, 0, |r: Reference| on_ref(args, 1, |o: Reference| on_path(heap, r, |p: Seq<char>|
            on_text(heap, o, |s: Seq<char>| give_bool(heap, if op == PathOp::StartsWith {
                comps_prefix(normalized(p), normalized(s))
            } else {
                comps_suffix(normalized(p), normalized(s))
            }))))),
        _ => on_ref(args, 0, |r: Reference| on_path(heap, r, |p: Seq<char>| match op {
            PathOp::FileName => match file_name(p) {
                Some(n) => give_path(heap, n),
                None => give(heap, null),
            },
            PathOp::FileNameText => give_str(heap, match file_name(p) { Some(n) => n, None => seq![] }),
            PathOp::Parent => match parent(p) {
                Some(q) => if q.len() > 0 { give_path(heap, q) } else { give(heap, null) },
                None => give(heap, null),
            },
            PathOp::Root => if has_root(p) { give_path(heap, seq!['/']) } else { give(heap, null) },
            PathOp::IsAbsolute => give_bool(heap, has_root(p)),
            PathOp::NameCount => give_int(heap, name_parts(p).len() as i32),
            PathOp::Normalize => give_path(heap, normalized(p)),
            _ => give_bool(heap, file_name(p) matches Some(n) && n.len() > 0 && n[0] == '.'),
        })),
    }
}

/// The first or second field of an option object.
pub open spec fn option_field(heap: Seq<Obj>, r: Reference, second: bool) -> NativeResult {
    match deref(heap, r) {
        None => fail(crate::heap::deref_error(r)),
        Some(Obj::Object { fields, .. }) => if !second {
            give(heap, Value::Reference(if fields.len() > 0 && fields[0].1 is Reference { fields[0].1->Reference_0 } else { Reference::Null }))
        } else {
            give_int(heap, if fields.len() > 1 && fields[1].1 is Int { fields[1].1->Int_0 } else { 0i32 })
        },
        Some(_) => if !second { give(heap, Value::Reference(Reference::Null)) } else { give_int(heap, 0) },
    }
}

/// What a native of this module does.
pub open spec fn nio_spec(heap: Seq<Obj>, k: NioMethod, args: Seq<Value>) -> NativeResult {
    match k {
        NioMethod::Buffer(b, op) => buffer_spec(heap, b, op, args),
        NioMethod::Path(op) => path_spec(heap, op, args),
        NioMethod::OptionName => on_ref(args, 0, |r: Reference| option_field(heap, r, false)),
        NioMethod::OptionOrdinal => on_ref(args, 0, |r: Reference| option_field(heap, r, true)),
        NioMethod::Fixed(v) => done(heap, v),
    }
}

fn path_op_of(c: &[char], n: &[char], d: &[char]) -> (res: Option<PathOp>)
    ensures
        res == path_op(c@, n@, d@),
{
    if eq_str(c, "java/nio/file/Path") {
        if eq_str(n, "getFileName") && eq_str(d, "()Ljava/nio/file/Path;") {
            Some(PathOp::FileName)
        } else if eq_str(n, "getFileName") && eq_str(d, "()Ljava/lang/String;") {
            Some(PathOp::FileNameText)
        } else if eq_str(n, "getParent") && eq_str(d, "()Ljava/nio/file/Path;") {
            Some(PathOp::Parent)
        } else if eq_str(n, "getRoot") && eq_str(d, "()Ljava/nio/file/Path;") {
            Some(PathOp::Root)
        } else if eq_str(n, "isAbsolute") && eq_str(d, "()Z") {
            Some(PathOp::IsAbsolute)
        } else if eq_str(n, "getNameCount") && eq_str(d, "()I") {
            Some(PathOp::NameCount)
        } else if eq_str(n, "getName") && eq_str(d, "(I)Ljava/nio/file/Path;") {
            Some(PathOp::Name)
        } else if eq_str(n, "getName") && eq_str(d, "(I)Ljava/lang/String;") {
            Some(PathOp::NameText)
        } else if eq_str(n, "subpath") && eq_str(d, "(II)Ljava/nio/file/Path;") {
            Some(PathOp::Subpath)
        } else if eq_str(n, "toString") && eq_str(d, "()Ljava/lang/String;") {
            Some(PathOp::ToText)
        } else if eq_str(n, "normalize") && eq_str(d, "()Ljava/nio/file/Path;") {
            Some(PathOp::Normalize)
        } else if eq_str(n, "resolve") && eq_str(d, "(Ljava/lang/String;)Ljava/nio/file/Path;") {
            Some(PathOp::Resolve)
        } else if eq_str(n, "startsWith") && eq_str(d, "(Ljava/lang/String;)Z") {
            Some(PathOp::StartsWith)
        } else if eq_str(n, "endsWith") && eq_str(d, "(Ljava/lang/String;)Z") {
            Some(PathOp::EndsWith)
        } else {
            None
        }
    } else if eq_str(c, "java/nio/file/Paths") && eq_str(n, "get") && eq_str(d, "(Ljava/lang/String;[Ljava/lang/String;)Ljava/nio/file/Path;") {
        Some(PathOp::Get)
    } else if eq_str(c, "java/nio/file/Files") && eq_str(n, "isHidden") && eq_str(d, "(Ljava/nio/file/Path;)Z") {
        Some(PathOp::IsHidden)
    } else {
        None
    }
}

fn fixed_nio_of(c: &[char], n: &[char], d: &[char]) -> (res: Option<Option<Value>>)
    ensures
        res == fixed_nio(c@, n@, d@),
{
    let null = Some(Value::Reference(Reference::Null));
    if eq_str(c, "java/nio/file/Path") && eq_str(n, "toUri") && eq_str(d, "()Ljava/net/URI;") {
        Some(null)
    } else if eq_str(c, "java/nio/file/Files") && (
        (eq_str(n, "getFileStore") && eq_str(d, "(Ljava/nio/file/Path;)Ljava/nio/file/FileStore;"))
        || (eq_str(n, "newInputStream") && eq_str(d, "(Ljava/nio/file/Path;[Ljava/nio/file/OpenOption;)Ljava/io/InputStream;"))
        || (eq_str(n, "newOutputStream") && eq_str(d, "(Ljava/nio/file/Path;[Ljava/nio/file/OpenOption;)Ljava/io/OutputStream;"))
        || (eq_str(n, "newBufferedReader") && eq_str(d, "(Ljava/nio/file/Path;)Ljava/io/BufferedReader;"))
        || (eq_str(n, "newBufferedWriter") && eq_str(d, "(Ljava/nio/file/Path;[Ljava/nio/file/OpenOption;)Ljava/io/BufferedWriter;"))) {
        Some(null)
    } else if eq_str(c, "java/nio/file/FileStore") {
        if (eq_str(n, "name") || eq_str(n, "type")) && eq_str(d, "()Ljava/lang/String;") {
            Some(null)
        } else if (eq_str(n, "getTotalSpace") || eq_str(n, "getUsableSpace") || eq_str(n, "getUnallocatedSpace")) && eq_str(d, "()J") {
            Some(Some(Value::Long(0)))
        } else if eq_str(n, "isReadOnly") && eq_str(d, "()Z") {
            Some(Some(Value::Int(0)))
        } else {
            None
        }
    } else if eq_str(c, "java/nio/channels/Channels") && (
        (eq_str(n, "newInputStream") && eq_str(d, "(Ljava/nio/channels/ReadableByteChannel;)Ljava/io/InputStream;"))
        || (eq_str(n, "newOutputStream") && eq_str(d, "(Ljava/nio/channels/WritableByteChannel;)Ljava/io/OutputStream;"))
        || (eq_str(n, "newChannel") && eq_str(d, "(Ljava/io/InputStream;)Ljava/nio/channels/ReadableByteChannel;"))
        || (eq_str(n, "newChannel") && eq_str(d, "(Ljava/io/OutputStream;)Ljava/nio/channels/WritableByteChannel;"))) {
        Some(null)
    } else if eq_str(c, "java/io/Console") {
        if (eq_str(n, "readLine") && (eq_str(d, "()Ljava/lang/String;") || eq_str(d, "(Ljava/lang/String;;[Ljava/lang/Object;)Ljava/lang/String;")))
            || ((eq_str(n, "printf") || eq_str(n, "format")) && eq_str(d, "(Ljava/lang/String;[Ljava/lang/Object;)Ljava/io/Console;")) {
            Some(null)
        } else if eq_str(n, "flush") && eq_str(d, "()V") {
            Some(None)
        } else {
            None
        }
    } else {
        None
    }
}

/// The native a call selects, when it is one of this module's.
pub fn nio_method(c: &[char], n: &[char], d: &[char]) -> (res: Option<NioMethod>)
    ensures
        match res {
            Some(k) => nio_matches(k, c@, n@, d@),
            None => forall|k: NioMethod| !nio_matches(k, c@, n@, d@),
        },
{
    if let Some((b, op)) = buffer_method(c, n, d) {
        return Some(NioMethod::Buffer(b, op));
    }
    if let Some(op) = path_op_of(c, n, d) {
        return Some(NioMethod::Path(op));
    }
    if let Some(v) = fixed_nio_of(c, n, d) {
        return Some(NioMethod::Fixed(v));
    }
    if eq_str(c, "java/nio/file/StandardOpenOption") && eq_str(n, "name") && eq_str(d, "()Ljava/lang/String;") {
        return Some(NioMethod::OptionName);
    }
    if eq_str(c, "java/nio/file/StandardOpenOption") && eq_str(n, "ordinal") && eq_str(d, "()I") {
        return Some(NioMethod::OptionOrdinal);
    }
    None
}

/// How many arguments a native reads.
pub fn nio_arg_count(k: NioMethod) -> (n: usize)
    ensures
        n == nio_arity(k),
{
    match k {
        NioMethod::Buffer(_, op) => match op {
            BufferOp::SetPosition | BufferOp::SetLimit | BufferOp::GetAt | BufferOp::Put => 2,
            BufferOp::PutAt => 3,
            BufferOp::IsDirect => 0,
            _ => 1,
        },
        NioMethod::Path(op) => match op {
            PathOp::Name | PathOp::NameText | PathOp::Resolve | PathOp::StartsWith | PathOp::EndsWith | PathOp::Get => 2,
            PathOp::Subpath => 3,
            _ => 1,
        },
        NioMethod::Fixed(_) => 0,
        _ => 1,
    }
}

/// The text of a `Path` object, which must have one.
fn path_text_of(heap: &Heap, r: Reference) -> (res: Result<Vec<char>, VmError>)
    ensures
        match res {
            Ok(p) => path_text(heap@, r) == Ok::<Seq<char>, VmError>(p@),
            Err(e) => path_text(heap@, r) == Err::<Seq<char>, VmError>(e),
        },
{
    path_reference_to_pathbuf(heap, r)
}

/// The parts array of `Paths.get`.
fn more_parts_of(heap: &Heap, r: Reference) -> (res: Result<Vec<Reference>, VmError>)
    ensures
        match res {
            Ok(v) => more_parts(heap@, r) == Ok::<Seq<Reference>, VmError>(v@),
            Err(e) => more_parts(heap@, r) == Err::<Seq<Reference>, VmError>(e),
        },
{
    match r {
        Reference::Null => Ok(Vec::new()),
        _ => match heap.get(r)? {
            HeapValue::ReferenceArray { values, .. } => {
                let mut v: Vec<Reference> = Vec::new();
                let mut i: usize = 0;
                while i < values.len()
                    invariant
                        i <= values@.len(),
                        v@ == values@.subrange(0, i as int),
                    decreases values@.len() - i,
                {
                    v.push(values[i]);
                    i = i + 1;
                    assert(v@ =~= values@.subrange(0, i as int));
                }
                assert(values@.subrange(0, i as int) =~= values@);
                Ok(v)
            },
            other => Err(VmError::InvalidHeapValue { expected: Expected::ReferenceArray, actual: other.kind_name() }),
        },
    }
}

/// `first` with each non-null part pushed on.
fn pushed_parts_of(heap: &Heap, first: &Vec<char>, parts: &Vec<Reference>) -> (res: Result<Vec<char>, VmError>)
    ensures
        match res {
            Ok(p) => pushed_parts(heap@, first@, parts@) == Ok::<Seq<char>, VmError>(p@),
            Err(e) => pushed_parts(heap@, first@, parts@) == Err::<Seq<char>, VmError>(e),
        },
{
    let ghost f = first@;
    let mut path = crate::helpers::copy_chars(first);
    let mut i: usize = 0;
    while i < parts.len()
        invariant
            i <= parts@.len(),
            f == first@,
            pushed_parts(heap@, f, parts@.subrange(0, i as int)) == Ok::<Seq<char>, VmError>(path@),
        decreases parts@.len() - i,
    {
        assert(parts@.subrange(0, i + 1).drop_last() =~= parts@.subrange(0, i as int));
        let part = parts[i];
        if part != Reference::Null {
            match stringify_reference(heap, part) {
                Ok(s) => {
                    path = path_join(&path, &s);
                },
                Err(e) => {
                    proof {
                        lemma_pushed_parts_fail(heap@, f, parts@, i as int, e);
                    }
                    return Err(e);
                },
            }
        }
        i = i + 1;
    }
    assert(parts@.subrange(0, i as int) =~= parts@);
    Ok(path)
}

/// Once a part fails, the whole fails with it.
proof fn lemma_pushed_parts_fail(heap: Seq<Obj>, first: Seq<char>, parts: Seq<Reference>, i: int, e: VmError)
    requires
        0 <= i < parts.len(),
        parts[i] != Reference::Null,
        pushed_parts(heap, first, parts.subrange(0, i)) is Ok,
        string_value(heap, parts[i]) == Err::<Seq<char>, VmError>(e),
    ensures
        pushed_parts(heap, first, parts) == Err::<Seq<char>, VmError>(e),
    decreases parts.len(),
{
    if parts.len() == i + 1 {
        assert(parts.drop_last() =~= parts.subrange(0, i));
    } else {
        assert(parts.drop_last().subrange(0, i) =~= parts.subrange(0, i));
        lemma_pushed_parts_fail(heap, first, parts.drop_last(), i, e);
    }
}

/// Elements `b..e` of a vector of names.
fn names_between(v: &Vec<Vec<char>>, b: usize, e: usize) -> (res: Vec<Vec<char>>)
    requires
        b <= e <= v@.len(),
    ensures
        views(res@) == views(v@).subrange(b as int, e as int),
{
    let mut res: Vec<Vec<char>> = Vec::new();
    let mut k = b;
    while k < e
        invariant
            b <= k <= e <= v@.len(),
            views(res@) == views(v@).subrange(b as int, k as int),
        decreases e - k,
    {
        let ghost before = views(res@);
        res.push(crate::helpers::copy_chars(&v[k]));
        assert(views(res@) =~= before.push(views(v@)[k as int]));
        k = k + 1;
        assert(views(res@) =~= views(v@).subrange(b as int, k as int));
    }
    res
}

/// Runs a path native.
pub fn invoke_path(heap: &mut Heap, op: PathOp, args: &[Value]) -> (res: Result<Option<Value>, VmError>)
    requires
        args@.len() >= path_arity(op),
    ensures
        answers(old(heap)@, final(heap)@, path_spec(old(heap)@, op, args@), res),
{
    let null = Value::Reference(Reference::Null);
    match op {
        PathOp::Get => {
            let r0 = args[0].as_reference()?;
            let first = stringify_reference(heap, r0)?;
            let r1 = args[1].as_reference()?;
            let parts = more_parts_of(heap, r1)?;
            let p = pushed_parts_of(heap, &first, &parts)?;
            Ok(Some(Value::Reference(new_path_object(heap, p))))
        },
        PathOp::ToText => {
            let r = args[0].as_reference()?;
            match path_string_from_object(heap, r)? {
                Some(s) => Ok(Some(heap.new_string(s))),
                None => Ok(Some(null)),
            }
        },
        PathOp::Name | PathOp::NameText => {
            let r = args[0].as_reference()?;
            let i = args[1].as_int()?;
            let p = path_text_of(heap, r)?;
            let parts = path_name_components(&p);
            if i < 0 || i as usize >= parts.len() {
                return Err(crate::model::exception("java/lang/IllegalArgumentException"));
            }
            let c = crate::helpers::copy_chars(&parts[i as usize]);
            assert(c@ == name_parts(p@)[i as int]);
            if op == PathOp::Name {
                Ok(Some(Value::Reference(new_path_object(heap, c))))
            } else {
                Ok(Some(heap.new_string(c)))
            }
        },
        PathOp::Subpath => {
            let r = args[0].as_reference()?;
            let b = args[1].as_int()?;
            let e = args[2].as_int()?;
            let p = path_text_of(heap, r)?;
            let parts = path_name_components(&p);
            if b < 0 || e < 0 || b >= e || e as usize > parts.len() {
                return Err(crate::model::exception("java/lang/IllegalArgumentException"));
            }
            let sub = names_between(&parts, b as usize, e as usize);
            let q = path_join_all(&sub);
            Ok(Some(Value::Reference(new_path_object(heap, q))))
        },
        PathOp::Resolve => {
            let r = args[0].as_reference()?;
            let o = args[1].as_reference()?;
            let p = path_text_of(heap, r)?;
            if o == Reference::Null {
                return Err(crate::model::exception("java/lang/NullPointerException"));
            }
            let s = stringify_reference(heap, o)?;
            let q = path_join(&p, &s);
            Ok(Some(Value::Reference(new_path_object(heap, q))))
        },
        PathOp::StartsWith | PathOp::EndsWith => {
            let r = args[0].as_reference()?;
            let o = args[1].as_reference()?;
            let p = path_text_of(heap, r)?;
            let s = stringify_reference(heap, o)?;
            let np = normalize_path(&p);
            let ns = normalize_path(&s);
            let b = if op == PathOp::StartsWith { path_starts_with(&np, &ns) } else { path_ends_with(&np, &ns) };
            Ok(Some(Value::Int(if b { 1 } else { 0 })))
        },
        _ => {
            let r = args[0].as_reference()?;
            let p = path_text_of(heap, r)?;
            match op {
                PathOp::FileName => match path_file_name(&p) {
                    Some(n) => Ok(Some(Value::Reference(new_path_object(heap, n)))),
                    None => Ok(Some(null)),
                },
                PathOp::FileNameText => match path_file_name(&p) {
                    Some(n) => Ok(Some(heap.new_string(n))),
                    None => Ok(Some(heap.new_string(Vec::new()))),
                },
                PathOp::Parent => match path_parent(&p) {
                    Some(q) => if q.len() > 0 {
                        Ok(Some(Value::Reference(new_path_object(heap, q))))
                    } else {
                        Ok(Some(null))
                    },
                    None => Ok(Some(null)),
                },
                PathOp::Root => match root_path(&p) {
                    Some(q) => Ok(Some(Value::Reference(new_path_object(heap, q)))),
                    None => Ok(Some(null)),
                },
                PathOp::IsAbsolute => Ok(Some(Value::Int(if p.len() > 0 && p[0] == '/' { 1 } else { 0 }))),
                PathOp::NameCount => {
                    let parts = path_name_components(&p);
                    Ok(Some(Value::Int(parts.len() as i32)))
                },
                PathOp::Normalize => Ok(Some(Value::Reference(new_path_object(heap, normalize_path(&p))))),
                _ => {
                    let hidden = match path_file_name(&p) {
                        Some(n) => n.len() > 0 && n[0] == '.',
                        None => false,
                    };
                    Ok(Some(Value::Int(if hidden { 1 } else { 0 })))
                },
            }
        },
    }
}

/// The first or second field of an option object.
fn option_field_of(heap: &Heap, r: Reference, second: bool) -> (res: Result<Option<Value>, VmError>)
    ensures
        answers(heap@, heap@, option_field(heap@, r, second), res),
{
    match heap.get(r)? {
        HeapValue::Object { fields, .. } => {
            if !second {
                let v = if fields.len() > 0 {
                    match fields[0].value {
                        Value::Reference(x) => x,
                        _ => Reference::Null,
                    }
                } else {
                    Reference::Null
                };
                Ok(Some(Value::Reference(v)))
            } else {
                let v = if fields.len() > 1 {
                    match fields[1].value {
                        Value::Int(x) => x,
                        _ => 0,
                    }
                } else {
                    0
                };
                Ok(Some(Value::Int(v)))
            }
        },
        _ => if !second { Ok(Some(Value::Reference(Reference::Null))) } else { Ok(Some(Value::Int(0))) },
    }
}

fn supported(c: BufferClass, op: BufferOp) -> (b: bool)
    ensures
        b == buffer_supported(c, op),
{
    match op {
        BufferOp::Capacity | BufferOp::Position | BufferOp::SetPosition | BufferOp::Limit
        | BufferOp::SetLimit | BufferOp::Mark | BufferOp::Reset | BufferOp::Clear | BufferOp::Flip
        | BufferOp::Rewind | BufferOp::Remaining | BufferOp::HasRemaining => true,
        BufferOp::IsDirect => c == BufferClass::Bytes,
        BufferOp::Length => c == BufferClass::Chars,
        _ => c != BufferClass::Plain,
    }
}

/// Whether a native can run on these arguments.
pub fn nio_callable(heap: &Heap, k: NioMethod, args: &[Value]) -> (res: bool)
    ensures
        res == nio_pre(heap@, k, args@),
{
    match k {
        NioMethod::Buffer(b, op) => supported(b, op) && crate::buffers::buffer_callable(heap, b, op, args),
        _ => args.len() >= nio_arg_count(k),
    }
}

/// Runs a `java.nio` native.
pub fn invoke_nio(heap: &mut Heap, k: NioMethod, args: &[Value]) -> (res: Result<Option<Value>, VmError>)
    requires
        nio_pre(old(heap)@, k, args@),
    ensures
        answers(old(heap)@, final(heap)@, nio_spec(old(heap)@, k, args@), res),
{
    match k {
        NioMethod::Buffer(b, op) => invoke_buffer(heap, b, op, args),
        NioMethod::Path(op) => invoke_path(heap, op, args),
        NioMethod::OptionName => {
            let r = args[0].as_reference()?;
            option_field_of(heap, r, false)
        },
        NioMethod::OptionOrdinal => {
            let r = args[0].as_reference()?;
            option_field_of(heap, r, true)
        },
        NioMethod::Fixed(v) => Ok(v),
    }
}

/// `Path.toAbsolutePath`, given the working directory: a relative path is
/// joined to it, and the result is normalized.
pub open spec fn absolute_spec(heap: Seq<Obj>, args: Seq<Value>, cwd: Seq<char>) -> NativeResult {
    on_ref(args, 0, |r: Reference| on_path(heap, r, |p: Seq<char>|
        give_path(heap, normalized(if has_root(p) { p } else { join(cwd, p) }))))
}

/// `Path.toAbsolutePath` with the given working directory.
pub fn path_to_absolute(heap: &mut Heap, args: &[Value], cwd: &Vec<char>) -> (res: Result<Option<Value>, VmError>)
    requires
        args@.len() >= 1,
    ensures
        answers(old(heap)@, final(heap)@, absolute_spec(old(heap)@, args@, cwd@), res),
{
    let r = args[0].as_reference()?;
    let p = path_text_of(heap, r)?;
    let a = if p.len() > 0 && p[0] == '/' { p } else { path_join(cwd, &p) };
    Ok(Some(Value::Reference(new_path_object(heap, normalize_path(&a)))))
}

} // verus!
