//! The heap side of the file and path natives: `File`, `Path`,
//! `FileDescriptor`, stream and `RandomAccessFile` objects keep their
//! state in positional fields, and open options are enum objects named by
//! their first field. The file system itself is reached by the caller.

use vstd::prelude::*;
use crate::chars::{eq_str, lit};
use crate::heap::{deref, deref_error, field, Heap};
use crate::helpers::copy_chars;
use crate::model::{obj_kind, Expected, Field, HeapValue, Obj, Reference, Value, VmError, fields_view};
use crate::native::next_ref;

verus! {

/// The first field of an object, when it holds a reference.
pub open spec fn first_ref(fields: Seq<(Seq<char>, Value)>) -> Option<Reference> {
    if fields.len() > 0 {
        match fields[0].1 {
            Value::Reference(r) => Some(r),
            _ => None,
        }
    } else {
        None
    }
}

/// The path string a `File` or `Path` object holds in its first field:
/// `None` when that field is missing or `null`.
pub open spec fn object_path(heap: Seq<Obj>, r: Reference) -> Result<Option<Seq<char>>, VmError> {
    match deref(heap, r) {
        None => Err(deref_error(r)),
        Some(Obj::Object { fields, .. }) => match first_ref(fields) {
            None => Ok(None),
            Some(Reference::Null) => Ok(None),
            Some(p) => match deref(heap, p) {
                None => Err(deref_error(p)),
                Some(Obj::Str(s)) => Ok(Some(s)),
                Some(o) => Err(VmError::InvalidHeapValue { expected: Expected::String, actual: obj_kind(o) }),
            },
        },
        Some(o) => Err(VmError::InvalidHeapValue { expected: Expected::Object, actual: obj_kind(o) }),
    }
}

/// The path a `File` object holds.
pub fn file_path_string(heap: &Heap, file_ref: Reference) -> (res: Result<Option<Vec<char>>, VmError>)
    ensures
        match res {
            Ok(Some(s)) => object_path(heap@, file_ref) == Ok::<Option<Seq<char>>, VmError>(Some(s@)),
            Ok(None) => object_path(heap@, file_ref) == Ok::<Option<Seq<char>>, VmError>(None),
            Err(e) => object_path(heap@, file_ref) == Err::<Option<Seq<char>>, VmError>(e),
        },
{
    match heap.get(file_ref)? {
        HeapValue::Object { fields, .. } => {
            let path_ref = if fields.len() > 0 {
                match fields[0].value {
                    Value::Reference(r) => Some(r),
                    _ => None,
                }
            } else {
                None
            };
            match path_ref {
                None => Ok(None),
                Some(Reference::Null) => Ok(None),
                Some(p) => match heap.get(p)? {
                    HeapValue::String(s) => Ok(Some(copy_chars(s))),
                    v => Err(VmError::InvalidHeapValue { expected: Expected::String, actual: v.kind_name() }),
                },
            }
        },
        v => Err(VmError::InvalidHeapValue { expected: Expected::Object, actual: v.kind_name() }),
    }
}

/// The path a `java.nio.file.Path` object holds (read as for `File`).
pub fn path_string_from_object(heap: &Heap, object_ref: Reference) -> (res: Result<Option<Vec<char>>, VmError>)
    ensures
        match res {
            Ok(Some(s)) => object_path(heap@, object_ref) == Ok::<Option<Seq<char>>, VmError>(Some(s@)),
            Ok(None) => object_path(heap@, object_ref) == Ok::<Option<Seq<char>>, VmError>(None),
            Err(e) => object_path(heap@, object_ref) == Err::<Option<Seq<char>>, VmError>(e),
        },
{
    file_path_string(heap, object_ref)
}

/// The path of a `Path` object, which must have one.
pub fn path_reference_to_pathbuf(heap: &Heap, reference: Reference) -> (res: Result<Vec<char>, VmError>)
    ensures
        match res {
            Ok(s) => object_path(heap@, reference) == Ok::<Option<Seq<char>>, VmError>(Some(s@)),
            Err(e) => match object_path(heap@, reference) {
                Ok(None) => e == VmError::NullReference,
                Ok(Some(_)) => false,
                Err(x) => e == x,
            },
        },
{
    match path_string_from_object(heap, reference)? {
        Some(s) => Ok(s),
        None => Err(VmError::NullReference),
    }
}

/// The heap after allocating a path string and an object of the given
/// class holding it in its single field.
pub open spec fn with_path_object(heap: Seq<Obj>, class_name: Seq<char>, field_name: Seq<char>, path: Seq<char>) -> Seq<Obj> {
    heap.push(Obj::Str(path)).push(Obj::Object {
        class_name,
        fields: seq![(field_name, Value::Reference(Reference::Heap(heap.len() as usize)))],
    })
}

pub(crate) fn new_path_holder(heap: &mut Heap, class_name: &str, field_name: &str, path: Vec<char>) -> (r: Reference)
    ensures
        r == Reference::Heap((old(heap)@.len() + 1) as usize),
        final(heap)@ == with_path_object(old(heap)@, class_name@, field_name@, path@),
{
    let ghost p = path@;
    let s = heap.new_string(path);
    let mut fields: Vec<Field> = Vec::new();
    fields.push(field(field_name, s));
    assert(fields_view(fields@) =~= seq![(field_name@, s)]);
    heap.allocate(HeapValue::Object { class_name: lit(class_name), fields })
}

/// A new `java.io.File` for a path.
pub fn new_file_object(heap: &mut Heap, path: Vec<char>) -> (r: Reference)
    ensures
        r == Reference::Heap((old(heap)@.len() + 1) as usize),
        final(heap)@ == with_path_object(old(heap)@, "java/io/File"@, "path"@, path@),
{
    new_path_holder(heap, "java/io/File", "path", path)
}

/// A new `java.nio.file.Path` for a path.
pub fn new_path_object(heap: &mut Heap, path: Vec<char>) -> (r: Reference)
    ensures
        r == Reference::Heap((old(heap)@.len() + 1) as usize),
        final(heap)@ == with_path_object(old(heap)@, "java/nio/file/Path"@, "__path"@, path@),
{
    new_path_holder(heap, "java/nio/file/Path", "__path", path)
}

/// The kinds of I/O failure the natives tell apart.
#[derive(Clone, Copy, PartialEq, Eq, Structural, Debug)]
pub enum IoErrorKind {
    NotFound,
    AlreadyExists,
    PermissionDenied,
    DirectoryNotEmpty,
    Other,
}

/// The exception a `java.io` native throws for an I/O failure.
pub open spec fn io_exception(kind: IoErrorKind) -> Seq<char> {
    match kind {
        IoErrorKind::NotFound => "java/io/FileNotFoundException"@,
        IoErrorKind::AlreadyExists => "java/nio/file/FileAlreadyExistsException"@,
        IoErrorKind::PermissionDenied => "java/nio/file/AccessDeniedException"@,
        IoErrorKind::DirectoryNotEmpty => "java/nio/file/DirectoryNotEmptyException"@,
        IoErrorKind::Other => "java/io/IOException"@,
    }
}

/// The exception a `java.nio.file` native throws: as for `java.io`, but a
/// missing file is `NoSuchFileException`.
pub open spec fn nio_exception(kind: IoErrorKind) -> Seq<char> {
    match kind {
        IoErrorKind::NotFound => "java/nio/file/NoSuchFileException"@,
        _ => io_exception(kind),
    }
}

pub fn io_exception_for_error(kind: IoErrorKind) -> (res: Vec<char>)
    ensures
        res@ == io_exception(kind),
{
    match kind {
        IoErrorKind::NotFound => lit("java/io/FileNotFoundException"),
        IoErrorKind::AlreadyExists => lit("java/nio/file/FileAlreadyExistsException"),
        IoErrorKind::PermissionDenied => lit("java/nio/file/AccessDeniedException"),
        IoErrorKind::DirectoryNotEmpty => lit("java/nio/file/DirectoryNotEmptyException"),
        IoErrorKind::Other => lit("java/io/IOException"),
    }
}

pub fn nio_exception_for_error(kind: IoErrorKind) -> (res: Vec<char>)
    ensures
        res@ == nio_exception(kind),
{
    match kind {
        IoErrorKind::NotFound => lit("java/nio/file/NoSuchFileException"),
        _ => io_exception_for_error(kind),
    }
}

/// A new `FileDescriptor` for an I/O resource id.
pub fn new_file_descriptor(heap: &mut Heap, resource_id: u64) -> (r: Reference)
    ensures
        r == next_ref(old(heap)@),
        final(heap)@ == old(heap)@.push(Obj::Object {
            class_name: "java/io/FileDescriptor"@,
            fields: seq![("fd"@, Value::Long(resource_id as i64))],
        }),
{
    let mut fields: Vec<Field> = Vec::new();
    fields.push(field("fd", Value::Long(resource_id as i64)));
    assert(fields_view(fields@) =~= seq![("fd"@, Value::Long(resource_id as i64))]);
    heap.allocate(HeapValue::Object { class_name: lit("java/io/FileDescriptor"), fields })
}

/// Field `i` of the object `r` designates, if it has one.
pub open spec fn nth_field(heap: Seq<Obj>, r: Reference, i: int) -> Option<Value> {
    match deref(heap, r) {
        Some(Obj::Object { fields, .. }) => if 0 <= i < fields.len() { Some(fields[i].1) } else { None },
        _ => None,
    }
}

pub(crate) fn read_nth_field(heap: &Heap, r: Reference, i: usize) -> (res: Result<Option<Value>, VmError>)
    ensures
        match res {
            Ok(v) => deref(heap@, r) is Some && v == nth_field(heap@, r, i as int),
            Err(e) => deref(heap@, r) is None && e == deref_error(r),
        },
{
    match heap.get(r)? {
        HeapValue::Object { fields, .. } => {
            if i < fields.len() {
                Ok(Some(fields[i].value))
            } else {
                Ok(None)
            }
        },
        _ => Ok(None),
    }
}

/// The resource id a `FileDescriptor` holds (0 when it holds none).
pub fn fd_resource_id(heap: &Heap, fd_ref: Reference) -> (res: Result<u64, VmError>)
    ensures
        match res {
            Ok(id) => deref(heap@, fd_ref) is Some && id == match nth_field(heap@, fd_ref, 0) {
                Some(Value::Long(x)) => x as u64,
                _ => 0u64,
            },
            Err(e) => deref(heap@, fd_ref) is None && e == deref_error(fd_ref),
        },
{
    match read_nth_field(heap, fd_ref, 0)? {
        Some(Value::Long(x)) => Ok(x as u64),
        _ => Ok(0),
    }
}

/// The heap after setting field `i` of an object that has it; other cells
/// stay as they are.
pub open spec fn set_nth_field(heap: Seq<Obj>, r: Reference, i: int, v: Value) -> Seq<Obj> {
    match deref(heap, r) {
        Some(Obj::Object { class_name, fields }) => if 0 <= i < fields.len() {
            heap.update(r->Heap_0 as int, Obj::Object { class_name, fields: fields.update(i, (fields[i].0, v)) })
        } else {
            heap
        },
        _ => heap,
    }
}

pub(crate) fn write_nth_field(heap: &mut Heap, r: Reference, i: usize, v: Value) -> (res: Result<(), VmError>)
    ensures
        match res {
            Ok(_) => deref(old(heap)@, r) is Some && final(heap)@ == set_nth_field(old(heap)@, r, i as int, v),
            Err(e) => deref(old(heap)@, r) is None && e == deref_error(r) && final(heap)@ == old(heap)@,
        },
{
    match r {
        Reference::Null => Err(VmError::NullReference),
        Reference::Heap(k) => {
            if k >= heap.values.len() {
                return Err(VmError::InvalidReference);
            }
            let ghost before = heap@;
            if let HeapValue::Object { fields, .. } = &mut heap.values[k] {
                if i < fields.len() {
                    let ghost fv = fields_view(fields@);
                    let name = copy_chars(&fields[i].name);
                    fields.set(i, Field { name, value: v });
                    assert(fields_view(fields@) =~= fv.update(i as int, (fv[i as int].0, v)));
                }
            }
            assert(heap@ =~= set_nth_field(before, r, i as int, v));
            Ok(())
        },
    }
}

/// Stores a resource id in a `FileDescriptor`.
pub fn fd_set_resource_id(heap: &mut Heap, fd_ref: Reference, id: u64) -> (res: Result<(), VmError>)
    ensures
        match res {
            Ok(_) => deref(old(heap)@, fd_ref) is Some
                && final(heap)@ == set_nth_field(old(heap)@, fd_ref, 0, Value::Long(id as i64)),
            Err(e) => deref(old(heap)@, fd_ref) is None && e == deref_error(fd_ref) && final(heap)@ == old(heap)@,
        },
{
    write_nth_field(heap, fd_ref, 0, Value::Long(id as i64))
}

/// The `FileDescriptor` a stream object holds in its first field.
pub fn fis_get_fd_ref(heap: &Heap, obj_ref: Reference) -> (res: Result<Reference, VmError>)
    ensures
        match res {
            Ok(r) => deref(heap@, obj_ref) is Some && r == match nth_field(heap@, obj_ref, 0) {
                Some(Value::Reference(x)) => x,
                _ => Reference::Null,
            },
            Err(e) => deref(heap@, obj_ref) is None && e == deref_error(obj_ref),
        },
{
    match read_nth_field(heap, obj_ref, 0)? {
        Some(Value::Reference(x)) => Ok(x),
        _ => Ok(Reference::Null),
    }
}

/// Whether a `RandomAccessFile` was opened for writing (its third field).
pub fn raf_get_rw(heap: &Heap, obj_ref: Reference) -> (res: Result<bool, VmError>)
    ensures
        match res {
            Ok(b) => deref(heap@, obj_ref) is Some && b == match nth_field(heap@, obj_ref, 2) {
                Some(Value::Int(i)) => i != 0,
                _ => false,
            },
            Err(e) => deref(heap@, obj_ref) is None && e == deref_error(obj_ref),
        },
{
    match read_nth_field(heap, obj_ref, 2)? {
        Some(Value::Int(i)) => Ok(i != 0),
        _ => Ok(false),
    }
}

/// Records whether a `RandomAccessFile` is open for writing.
pub fn raf_set_rw(heap: &mut Heap, obj_ref: Reference, rw: bool) -> (res: Result<(), VmError>)
    ensures
        match res {
            Ok(_) => final(heap)@ == set_nth_field(old(heap)@, obj_ref, 2, Value::Int(if rw { 1i32 } else { 0i32 })),
            Err(e) => deref(old(heap)@, obj_ref) is None && e == deref_error(obj_ref) && final(heap)@ == old(heap)@,
        },
{
    write_nth_field(heap, obj_ref, 2, Value::Int(if rw { 1 } else { 0 }))
}

/// The `StandardOpenOption` flags a native reads.
#[derive(Clone, Copy, PartialEq, Eq, Structural, Debug)]
pub struct OpenFlags {
    pub append: bool,
    pub truncate: bool,
    pub create: bool,
    pub create_new: bool,
}

/// The name of an open option (its first field), `None` for `null` or an
/// option without a name.
pub open spec fn option_name(heap: Seq<Obj>, r: Reference) -> Result<Option<Seq<char>>, VmError> {
    if r == Reference::Null {
        Ok(None)
    } else {
        match deref(heap, r) {
            None => Err(deref_error(r)),
            Some(Obj::Object { fields, .. }) => match first_ref(fields) {
                None => Ok(None),
                Some(nr) => match deref(heap, nr) {
                    None => Err(deref_error(nr)),
                    Some(Obj::Str(s)) => Ok(Some(s)),
                    Some(o) => Err(VmError::InvalidHeapValue { expected: Expected::String, actual: obj_kind(o) }),
                },
            },
            Some(o) => Err(VmError::InvalidHeapValue { expected: Expected::Object, actual: obj_kind(o) }),
        }
    }
}

/// The flags after reading one option name.
pub open spec fn add_option(f: OpenFlags, name: Seq<char>) -> OpenFlags {
    if name == "APPEND"@ {
        OpenFlags { append: true, ..f }
    } else if name == "TRUNCATE_EXISTING"@ {
        OpenFlags { truncate: true, ..f }
    } else if name == "CREATE"@ {
        OpenFlags { create: true, ..f }
    } else if name == "CREATE_NEW"@ {
        OpenFlags { create_new: true, ..f }
    } else {
        f
    }
}

/// No option set.
pub open spec fn no_options() -> OpenFlags {
    OpenFlags { append: false, truncate: false, create: false, create_new: false }
}

/// The flags the options name, read in order; the first unreadable option
/// is the error.
pub open spec fn options_flags(heap: Seq<Obj>, opts: Seq<Reference>) -> Result<OpenFlags, VmError>
    decreases opts.len(),
{
    if opts.len() == 0 {
        Ok(no_options())
    } else {
        match options_flags(heap, opts.drop_last()) {
            Err(e) => Err(e),
            Ok(f) => match option_name(heap, opts.last()) {
                Err(e) => Err(e),
                Ok(None) => Ok(f),
                Ok(Some(n)) => Ok(add_option(f, n)),
            },
        }
    }
}

/// What `read_open_options` gives for an options array (`null` is none).
pub open spec fn open_options(heap: Seq<Obj>, r: Reference) -> Result<OpenFlags, VmError> {
    if r == Reference::Null {
        Ok(no_options())
    } else {
        match deref(heap, r) {
            None => Err(deref_error(r)),
            Some(Obj::RefArray { values, .. }) => options_flags(heap, values),
            Some(o) => Err(VmError::InvalidHeapValue { expected: Expected::ReferenceArray, actual: obj_kind(o) }),
        }
    }
}

fn read_option_name(heap: &Heap, r: Reference) -> (res: Result<Option<Vec<char>>, VmError>)
    ensures
        match res {
            Ok(Some(s)) => option_name(heap@, r) == Ok::<Option<Seq<char>>, VmError>(Some(s@)),
            Ok(None) => option_name(heap@, r) == Ok::<Option<Seq<char>>, VmError>(None),
            Err(e) => option_name(heap@, r) == Err::<Option<Seq<char>>, VmError>(e),
        },
{
    if r == Reference::Null {
        return Ok(None);
    }
    match heap.get(r)? {
        HeapValue::Object { fields, .. } => {
            let name_ref = if fields.len() > 0 {
                match fields[0].value {
                    Value::Reference(x) => Some(x),
                    _ => None,
                }
            } else {
                None
            };
            match name_ref {
                None => Ok(None),
                Some(nr) => match heap.get(nr)? {
                    HeapValue::String(s) => Ok(Some(copy_chars(s))),
                    v => Err(VmError::InvalidHeapValue { expected: Expected::String, actual: v.kind_name() }),
                },
            }
        },
        v => Err(VmError::InvalidHeapValue { expected: Expected::Object, actual: v.kind_name() }),
    }
}

fn with_option(f: OpenFlags, name: &Vec<char>) -> (res: OpenFlags)
    ensures
        res == add_option(f, name@),
{
    if eq_str(name.as_slice(), "APPEND") {
        OpenFlags { append: true, ..f }
    } else if eq_str(name.as_slice(), "TRUNCATE_EXISTING") {
        OpenFlags { truncate: true, ..f }
    } else if eq_str(name.as_slice(), "CREATE") {
        OpenFlags { create: true, ..f }
    } else if eq_str(name.as_slice(), "CREATE_NEW") {
        OpenFlags { create_new: true, ..f }
    } else {
        f
    }
}

/// `read_open_options`: the `APPEND`, `TRUNCATE_EXISTING`, `CREATE` and
/// `CREATE_NEW` flags of an array of open options.
pub fn read_open_options(heap: &Heap, options_ref: Reference) -> (res: Result<OpenFlags, VmError>)
    ensures
        match res {
            Ok(f) => open_options(heap@, options_ref) == Ok::<OpenFlags, VmError>(f),
            Err(e) => open_options(heap@, options_ref) == Err::<OpenFlags, VmError>(e),
        },
{
    let mut flags = OpenFlags { append: false, truncate: false, create: false, create_new: false };
    if options_ref == Reference::Null {
        return Ok(flags);
    }
    let opts: &Vec<Reference> = match heap.get(options_ref)? {
        HeapValue::ReferenceArray { values, .. } => values,
        v => {
            return Err(VmError::InvalidHeapValue { expected: Expected::ReferenceArray, actual: v.kind_name() });
        },
    };
    let mut i: usize = 0;
    while i < opts.len()
        invariant
            i <= opts@.len(),
            open_options(heap@, options_ref) == options_flags(heap@, opts@),
            options_flags(heap@, opts@.subrange(0, i as int)) == Ok::<OpenFlags, VmError>(flags),
        decreases opts@.len() - i,
    {
        assert(opts@.subrange(0, i + 1).drop_last() =~= opts@.subrange(0, i as int));
        assert(opts@.subrange(0, i + 1).last() == opts@[i as int]);
        match read_option_name(heap, opts[i]) {
            Err(e) => {
                proof {
                    lemma_options_error_stays(heap@, opts@, i as int + 1, e);
                }
                return Err(e);
            },
            Ok(None) => {},
            Ok(Some(n)) => {
                flags = with_option(flags, &n);
            },
        }
        i = i + 1;
    }
    assert(opts@.subrange(0, opts@.len() as int) =~= opts@);
    Ok(flags)
}

/// An error in a prefix of the options is the error of the whole array.
proof fn lemma_options_error_stays(heap: Seq<Obj>, opts: Seq<Reference>, k: int, e: VmError)
    requires
        0 <= k <= opts.len(),
        options_flags(heap, opts.subrange(0, k)) == Err::<OpenFlags, VmError>(e),
    ensures
        options_flags(heap, opts) == Err::<OpenFlags, VmError>(e),
    decreases opts.len() - k,
{
    if k < opts.len() {
        assert(opts.subrange(0, k + 1).drop_last() =~= opts.subrange(0, k));
        lemma_options_error_stays(heap, opts, k + 1, e);
    } else {
        assert(opts.subrange(0, k) =~= opts);
    }
}

/// How a file stream opens its file: to read, to read and write
/// (creating it), to write afresh (creating or truncating it), or to
/// append (creating it).
#[derive(Clone, Copy, PartialEq, Eq, Structural, Debug)]
pub enum OpenMode {
    Read,
    ReadWrite,
    Create,
    Append,
}

pub open spec fn mode_of(mode: u8) -> Option<OpenMode> {
    if mode == 0 {
        Some(OpenMode::Read)
    } else if mode == 1 {
        Some(OpenMode::ReadWrite)
    } else if mode == 2 {
        Some(OpenMode::Create)
    } else if mode == 3 {
        Some(OpenMode::Append)
    } else {
        None
    }
}

/// The open mode a mode number selects; any other number is an
/// `IllegalArgumentException`, raised before the file is touched.
pub fn open_mode(mode: u8) -> (res: Result<OpenMode, VmError>)
    ensures
        match res {
            Ok(m) => mode_of(mode) == Some(m),
            Err(e) => mode_of(mode) is None && crate::model::is_exception(e, "java/lang/IllegalArgumentException"@),
        },
{
    match mode {
        0 => Ok(OpenMode::Read),
        1 => Ok(OpenMode::ReadWrite),
        2 => Ok(OpenMode::Create),
        3 => Ok(OpenMode::Append),
        _ => Err(crate::model::exception("java/lang/IllegalArgumentException")),
    }
}

/// The heap after a stream object records the file it opened: its
/// `FileDescriptor` (the stream's first field) takes the resource id, and
/// the path, a new string, goes into the stream's second field.
pub open spec fn opened_stream(heap: Seq<Obj>, obj_ref: Reference, path: Seq<char>, resource_id: u64) -> Result<Seq<Obj>, VmError> {
    match deref(heap, obj_ref) {
        None => Err(deref_error(obj_ref)),
        Some(_) => {
            let fd = match nth_field(heap, obj_ref, 0) {
                Some(Value::Reference(x)) => x,
                _ => Reference::Null,
            };
            match deref(heap, fd) {
                None => Err(deref_error(fd)),
                Some(_) => {
                    let h1 = set_nth_field(heap, fd, 0, Value::Long(resource_id as i64));
                    let h2 = h1.push(Obj::Str(path));
                    Ok(set_nth_field(h2, obj_ref, 1, Value::Reference(Reference::Heap(h1.len() as usize))))
                },
            }
        },
    }
}

/// Records on a stream object the file it has opened under a resource id.
pub fn open_file_stream(heap: &mut Heap, obj_ref: Reference, path: Vec<char>, resource_id: u64) -> (res: Result<(), VmError>)
    ensures
        match res {
            Ok(_) => opened_stream(old(heap)@, obj_ref, path@, resource_id) == Ok::<Seq<Obj>, VmError>(final(heap)@),
            Err(e) => opened_stream(old(heap)@, obj_ref, path@, resource_id) == Err::<Seq<Obj>, VmError>(e)
                && final(heap)@ == old(heap)@,
        },
{
    let ghost p = path@;
    let fd_ref = fis_get_fd_ref(heap, obj_ref)?;
    fd_set_resource_id(heap, fd_ref, resource_id)?;
    let ghost h1 = heap@;
    let pv = heap.new_string(path);
    let r = write_nth_field(heap, obj_ref, 1, pv);
    proof {
        assert(h1.len() == old(heap)@.len());
        assert(deref(h1, obj_ref) is Some);
        assert(deref(h1.push(Obj::Str(p)), obj_ref) is Some);
    }
    r
}

/// The low 8 bits of each `int` in `vs[from..to]`, the bytes a stream
/// writes out of an array.
pub open spec fn low_bytes(vs: Seq<i32>, from: int, to: int) -> Seq<u8> {
    Seq::new((to - from) as nat, |k: int| vs[from + k] as u8)
}

/// The bytes `[from, to)` of the `int` array `buf` refers to, to be written
/// out: none when `buf` designates another kind of cell; `to` is cut at the
/// array's end.
pub open spec fn array_bytes(heap: Seq<Obj>, buf: Reference, from: int, to: int) -> Result<Seq<u8>, VmError> {
    match deref(heap, buf) {
        None => Err(deref_error(buf)),
        Some(Obj::IntArray(vs)) => Ok(low_bytes(vs, from, if to < vs.len() { to } else { vs.len() as int })),
        Some(_) => Ok(seq![]),
    }
}

/// Reads the bytes a stream writes out of an array.
pub fn bytes_of_array(heap: &Heap, buf: Reference, from: usize, to: usize) -> (res: Result<Vec<u8>, VmError>)
    requires
        match deref(heap@, buf) {
            Some(Obj::IntArray(vs)) => from <= (if to < vs.len() { to as int } else { vs.len() as int }),
            _ => true,
        },
    ensures
        match res {
            Ok(b) => array_bytes(heap@, buf, from as int, to as int) == Ok::<Seq<u8>, VmError>(b@),
            Err(e) => array_bytes(heap@, buf, from as int, to as int) == Err::<Seq<u8>, VmError>(e),
        },
{
    match heap.get(buf)? {
        HeapValue::IntArray { values } => {
            let end = if to < values.len() { to } else { values.len() };
            let mut out: Vec<u8> = Vec::new();
            let mut k = from;
            while k < end
                invariant
                    from <= k <= end <= values@.len(),
                    out@ == low_bytes(values@, from as int, k as int),
                decreases end - k,
            {
                out.push(values[k] as u8);
                k = k + 1;
                assert(out@ =~= low_bytes(values@, from as int, k as int));
            }
            Ok(out)
        },
        _ => {
            let out: Vec<u8> = Vec::new();
            assert(out@ =~= seq![]);
            Ok(out)
        },
    }
}

/// The heap after bytes read from a file are stored, each as an `int`,
/// into the array `buf` refers to from `off` on; nothing is stored when
/// they do not fit or `buf` designates another kind of cell.
pub open spec fn stored_bytes(heap: Seq<Obj>, buf: Reference, off: int, bytes: Seq<u8>) -> Result<Seq<Obj>, VmError> {
    match deref(heap, buf) {
        None => Err(deref_error(buf)),
        Some(Obj::IntArray(vs)) => if off + bytes.len() <= vs.len() {
            Ok(heap.update(buf->Heap_0 as int, Obj::IntArray(Seq::new(vs.len(), |k: int|
                if off <= k < off + bytes.len() { bytes[k - off] as i32 } else { vs[k] }))))
        } else {
            Ok(heap)
        },
        Some(_) => Ok(heap),
    }
}

/// Stores bytes read from a file into an `int` array.
pub fn store_bytes(heap: &mut Heap, buf: Reference, off: usize, bytes: &Vec<u8>) -> (res: Result<(), VmError>)
    ensures
        match res {
            Ok(_) => stored_bytes(old(heap)@, buf, off as int, bytes@) == Ok::<Seq<Obj>, VmError>(final(heap)@),
            Err(e) => stored_bytes(old(heap)@, buf, off as int, bytes@) == Err::<Seq<Obj>, VmError>(e)
                && final(heap)@ == old(heap)@,
        },
{
    let k = match buf {
        Reference::Null => {
            return Err(VmError::NullReference);
        },
        Reference::Heap(k) => k,
    };
    if k >= heap.values.len() {
        return Err(VmError::InvalidReference);
    }
    let ghost h0 = heap@;
    if let HeapValue::IntArray { values } = &mut heap.values[k] {
        let ghost vs = values@;
        if bytes.len() <= values.len() && off <= values.len() - bytes.len() {
            let n = values.len();
            let mut i: usize = 0;
            while i < bytes.len()
                invariant
                    i <= bytes@.len(),
                    n == vs.len(),
                    off + bytes@.len() <= vs.len(),
                    values@.len() == vs.len(),
                    forall|j: int| 0 <= j < vs.len() ==> values@[j] == (if off <= j < off + i { bytes@[j - off] as i32 } else { vs[j] }),
                decreases bytes@.len() - i,
            {
                values.set(off + i, bytes[i] as i32);
                i = i + 1;
            }
            assert(values@ =~= Seq::new(vs.len(), |j: int| if off <= j < off + bytes@.len() { bytes@[j - off] as i32 } else { vs[j] }));
        }
    }
    assert(heap@ =~= stored_bytes(h0, buf, off as int, bytes@)->Ok_0) by {
        assert(heap@.len() == h0.len());
    }
    Ok(())
}

} // verus!
