//! Properties of the `java.io.File` and `java.nio.file.Path` objects that
//! span building one and reading it.

use vstd::prelude::*;
use crate::io_objects::{object_path, with_path_object};
use crate::model::{Obj, Reference};

verus! {

/// Reading the path of a new path-holding object gives back the path it
/// was made with: for `File` objects (`new_file_object`, read by
/// `file_path_string`) and `Path` objects (`new_path_object`, read by
/// `path_string_from_object`) alike, whatever the class and field names.
pub proof fn law_path_object_round_trip(heap: Seq<Obj>, class_name: Seq<char>, field_name: Seq<char>, path: Seq<char>)
    requires
        heap.len() + 2 <= usize::MAX,
    ensures
        object_path(
            with_path_object(heap, class_name, field_name, path),
            Reference::Heap((heap.len() + 1) as usize),
        ) == Ok::<Option<Seq<char>>, crate::model::VmError>(Some(path)),
{
    let h = with_path_object(heap, class_name, field_name, path);
    assert(h[heap.len() as int] == Obj::Str(path));
}

} // verus!
