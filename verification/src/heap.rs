//! The heap: a growing sequence of cells addressed by `Reference::Heap`.

use vstd::prelude::*;
use crate::chars::eq_str;
use crate::chars::lit;
use crate::model::{field_get, field_index, field_set, fields_view, lemma_field_index_first, lemma_field_index_none, Field, HeapValue, Obj, Reference, Value, VmError};

verus! {

/// The interpreter's heap.
pub struct Heap {
    pub values: Vec<HeapValue>,
}

impl View for Heap {
    type V = Seq<Obj>;

    open spec fn view(&self) -> Seq<Obj> {
        self.values@.map_values(|v: HeapValue| v@)
    }
}

/// The cell a reference designates, if any.
pub open spec fn deref(heap: Seq<Obj>, r: Reference) -> Option<Obj> {
    match r {
        Reference::Null => None,
        Reference::Heap(i) => if i < heap.len() {
            Some(heap[i as int])
        } else {
            None
        },
    }
}

/// The error raised when a reference designates no cell.
pub open spec fn deref_error(r: Reference) -> VmError {
    match r {
        Reference::Null => VmError::NullReference,
        Reference::Heap(_) => VmError::InvalidReference,
    }
}

/// The named field of the object a reference designates.
pub open spec fn object_field(heap: Seq<Obj>, r: Reference, name: Seq<char>) -> Option<Value> {
    match deref(heap, r) {
        Some(Obj::Object { fields, .. }) => field_get(fields, name),
        _ => None,
    }
}

/// The heap after setting a named field of an object; cells that are not
/// objects are left alone.
pub open spec fn heap_set_field(heap: Seq<Obj>, r: Reference, name: Seq<char>, v: Value) -> Seq<
    Obj,
> {
    match deref(heap, r) {
        Some(Obj::Object { class_name, fields }) => heap.update(
            r->Heap_0 as int,
            Obj::Object { class_name, fields: field_set(fields, name, v) },
        ),
        _ => heap,
    }
}

/// A new object with the given class and fields.
pub open spec fn new_object(class_name: Seq<char>, fields: Seq<(Seq<char>, Value)>) -> Obj {
    Obj::Object { class_name, fields }
}

/// The value held by the `__name`-style reference field, when it designates a string.
pub open spec fn string_of(heap: Seq<Obj>, r: Reference) -> Option<Seq<char>> {
    match deref(heap, r) {
        Some(Obj::Str(s)) => Some(s),
        _ => None,
    }
}

impl Heap {
    pub fn new() -> (h: Heap)
        ensures
            h@ == Seq::<Obj>::empty(),
    {
        let h = Heap { values: Vec::new() };
        assert(h@ =~= Seq::<Obj>::empty());
        h
    }

    /// The cell a reference designates.
    pub fn get(&self, r: Reference) -> (res: Result<&HeapValue, VmError>)
        ensures
            match res {
                Ok(v) => deref(self@, r) == Some(v@),
                Err(e) => deref(self@, r) is None && e == deref_error(r),
            },
    {
        match r {
            Reference::Null => Err(VmError::NullReference),
            Reference::Heap(i) => {
                if i < self.values.len() {
                    Ok(&self.values[i])
                } else {
                    Err(VmError::InvalidReference)
                }
            },
        }
    }

    /// Stores a new cell and returns its reference.
    pub fn allocate(&mut self, v: HeapValue) -> (r: Reference)
        ensures
            final(self)@ == old(self)@.push(v@),
            r == Reference::Heap(old(self)@.len() as usize),
            old(self)@.len() < usize::MAX,
    {
        let i = self.values.len();
        self.values.push(v);
        let n = self.values.len();
        assert(n == i + 1);
        assert(self@ =~= old(self)@.push(v@));
        Reference::Heap(i)
    }

    /// Stores a new string and returns it as a value.
    pub fn new_string(&mut self, s: Vec<char>) -> (v: Value)
        ensures
            final(self)@ == old(self)@.push(Obj::Str(s@)),
            v == Value::Reference(Reference::Heap(old(self)@.len() as usize)),
    {
        let r = self.allocate(HeapValue::String(s));
        Value::Reference(r)
    }

    /// Replaces the cell at a valid index.
    pub fn replace(&mut self, i: usize, v: HeapValue)
        requires
            i < old(self)@.len(),
        ensures
            final(self)@ == old(self)@.update(i as int, v@),
    {
        self.values.set(i, v);
        assert(self@ =~= old(self)@.update(i as int, v@));
    }

    /// The named field of an object; `None` when the reference designates
    /// no object or the object has no such field.
    pub fn object_field(&self, r: Reference, name: &str) -> (res: Option<Value>)
        ensures
            res == object_field(self@, r, name@),
    {
        match self.get(r) {
            Ok(HeapValue::Object { fields, .. }) => field_lookup(fields, name),
            _ => None,
        }
    }

    /// Sets a named field of an object; does nothing for other cells.
    pub fn set_object_field(&mut self, r: Reference, name: &str, v: Value)
        ensures
            final(self)@ == heap_set_field(old(self)@, r, name@, v),
    {
        if let Reference::Heap(i) = r {
            if i < self.values.len() {
                match &mut self.values[i] {
                    HeapValue::Object { fields, .. } => {
                        field_put(fields, name, v);
                    },
                    _ => {},
                }
                assert(self@ =~= heap_set_field(old(self)@, r, name@, v));
            }
        }
    }
}

/// The position of the first field with the given name.
pub fn field_position(fields: &Vec<Field>, name: &str) -> (res: Option<usize>)
    ensures
        match res {
            Some(i) => i < fields@.len() && field_index(fields_view(fields@), name@) == i as int,
            None => field_index(fields_view(fields@), name@) == -1,
        },
{
    let ghost fv = fields_view(fields@);
    let mut i: usize = 0;
    while i < fields.len()
        invariant
            fv == fields_view(fields@),
            i <= fields@.len(),
            forall|j: int| 0 <= j < i ==> fv[j].0 != name@,
        decreases fields@.len() - i,
    {
        if eq_str(fields[i].name.as_slice(), name) {
            proof {
                lemma_field_index_first(fv, name@, i as int);
            }
            return Some(i);
        }
        i = i + 1;
    }
    proof {
        lemma_field_index_none(fv, name@);
    }
    None
}

/// The value of the named field.
pub fn field_lookup(fields: &Vec<Field>, name: &str) -> (res: Option<Value>)
    ensures
        res == field_get(fields_view(fields@), name@),
{
    match field_position(fields, name) {
        Some(i) => Some(fields[i].value),
        None => None,
    }
}

/// Sets the named field: overwrites the first field of that name, or adds one.
pub fn field_put(fields: &mut Vec<Field>, name: &str, v: Value)
    ensures
        fields_view(final(fields)@) == field_set(fields_view(old(fields)@), name@, v),
{
    match field_position(fields, name) {
        Some(i) => {
            let n = lit(name);
            fields.set(i, Field { name: n, value: v });
        },
        None => {
            let n = lit(name);
            fields.push(Field { name: n, value: v });
        },
    }
    assert(fields_view(fields@) =~= field_set(fields_view(old(fields)@), name@, v));
}

/// A field with the given name and value.
pub fn field(name: &str, v: Value) -> (f: Field)
    ensures
        f@ == (name@, v),
{
    Field { name: lit(name), value: v }
}

} // verus!
