//! The heap model: references, values, heap objects and the errors that
//! native methods report.

use vstd::prelude::*;

verus! {

/// A reference to a heap cell, or `null`.
#[derive(Clone, Copy, PartialEq, Eq, Structural, Debug)]
pub enum Reference {
    Null,
    Heap(usize),
}

/// An operand-stack or field value. Floating-point values are carried by
/// their IEEE-754 bit patterns.
#[derive(Clone, Copy, PartialEq, Eq, Structural, Debug)]
pub enum Value {
    Int(i32),
    Long(i64),
    Float(u32),
    Double(u64),
    Reference(Reference),
    ReturnAddress(usize),
}

/// The kind of a value, as reported in a type mismatch.
#[derive(Clone, Copy, PartialEq, Eq, Structural, Debug)]
pub enum ValueKind {
    Int,
    Long,
    Float,
    Double,
    Reference,
    ReturnAddress,
}

/// The kind of a heap cell, as reported when a cell of another kind was expected.
#[derive(Clone, Copy, PartialEq, Eq, Structural, Debug)]
pub enum HeapKind {
    Object,
    String,
    StringBuilder,
    IntArray,
    LongArray,
    FloatArray,
    DoubleArray,
    ReferenceArray,
    NonObject,
}

/// What a native method expected to find in a heap cell.
#[derive(Clone, Copy, PartialEq, Eq, Structural, Debug)]
pub enum Expected {
    Object,
    String,
    Array,
    ObjectOrArray,
    ReferenceArray,
}

/// Errors raised by native methods.
#[derive(Debug)]
pub enum VmError {
    NullReference,
    /// A reference to a heap cell that was never allocated.
    InvalidReference,
    InvalidHeapValue { expected: Expected, actual: HeapKind },
    TypeMismatch { expected: ValueKind, actual: ValueKind },
    UnhandledException { class_name: Vec<char> },
    FieldNotFound { class_name: Vec<char>, field_name: Vec<char> },
    MethodNotFound { class_name: Vec<char>, method_name: Vec<char>, descriptor: Vec<char> },
    ArrayIndexOutOfBounds { index: i32, len: usize },
    DivisionByZero,
    /// A Java call made on the native method's behalf returned something
    /// other than the expected kind of value.
    BadCallResult { expected: ValueKind },
}

/// A Java exception of the given class, as the error of a native method.
pub open spec fn is_exception(e: VmError, class_name: Seq<char>) -> bool {
    e matches VmError::UnhandledException { class_name: c } && c@ == class_name
}

/// How a native method fails, as contracts state it: a VM error, or a Java
/// exception of the named class.
pub enum Fault {
    Error(VmError),
    Exception(Seq<char>),
    /// `FieldNotFound` with the given class and field names.
    FieldMissing(Seq<char>, Seq<char>),
}

/// Whether an error is the given failure.
pub open spec fn raises(e: VmError, f: Fault) -> bool {
    match f {
        Fault::Error(x) => e == x,
        Fault::Exception(name) => is_exception(e, name),
        Fault::FieldMissing(c, n) => e matches VmError::FieldNotFound { class_name, field_name }
            && class_name@ == c && field_name@ == n,
    }
}

/// Whether a specified outcome is a failure that the error reports.
pub open spec fn fails_with<T>(r: Result<T, Fault>, e: VmError) -> bool {
    match r {
        Err(f) => raises(e, f),
        Ok(_) => false,
    }
}

/// A Java exception of the named class, as an error value.
pub fn exception(class_name: &str) -> (e: VmError)
    ensures
        is_exception(e, class_name@),
{
    VmError::UnhandledException { class_name: crate::chars::lit(class_name) }
}

/// A named instance field of an object.
pub struct Field {
    pub name: Vec<char>,
    pub value: Value,
}

impl View for Field {
    type V = (Seq<char>, Value);

    open spec fn view(&self) -> (Seq<char>, Value) {
        (self.name@, self.value)
    }
}

/// The mathematical content of a heap cell.
pub enum Obj {
    Object { class_name: Seq<char>, fields: Seq<(Seq<char>, Value)> },
    Str(Seq<char>),
    Builder(Seq<char>),
    IntArray(Seq<i32>),
    LongArray(Seq<i64>),
    FloatArray(Seq<u32>),
    DoubleArray(Seq<u64>),
    RefArray { component_type: Seq<char>, values: Seq<Reference> },
}

/// A heap cell.
pub enum HeapValue {
    Object { class_name: Vec<char>, fields: Vec<Field> },
    String(Vec<char>),
    StringBuilder(Vec<char>),
    IntArray { values: Vec<i32> },
    LongArray { values: Vec<i64> },
    FloatArray { values: Vec<u32> },
    DoubleArray { values: Vec<u64> },
    ReferenceArray { component_type: Vec<char>, values: Vec<Reference> },
}

pub open spec fn fields_view(fields: Seq<Field>) -> Seq<(Seq<char>, Value)> {
    fields.map_values(|f: Field| f@)
}

impl View for HeapValue {
    type V = Obj;

    open spec fn view(&self) -> Obj {
        match self {
            HeapValue::Object { class_name, fields } => Obj::Object {
                class_name: class_name@,
                fields: fields_view(fields@),
            },
            HeapValue::String(s) => Obj::Str(s@),
            HeapValue::StringBuilder(s) => Obj::Builder(s@),
            HeapValue::IntArray { values } => Obj::IntArray(values@),
            HeapValue::LongArray { values } => Obj::LongArray(values@),
            HeapValue::FloatArray { values } => Obj::FloatArray(values@),
            HeapValue::DoubleArray { values } => Obj::DoubleArray(values@),
            HeapValue::ReferenceArray { component_type, values } => Obj::RefArray {
                component_type: component_type@,
                values: values@,
            },
        }
    }
}

/// The kind of a heap cell's content.
pub open spec fn obj_kind(o: Obj) -> HeapKind {
    match o {
        Obj::Object { .. } => HeapKind::Object,
        Obj::Str(_) => HeapKind::String,
        Obj::Builder(_) => HeapKind::StringBuilder,
        Obj::IntArray(_) => HeapKind::IntArray,
        Obj::LongArray(_) => HeapKind::LongArray,
        Obj::FloatArray(_) => HeapKind::FloatArray,
        Obj::DoubleArray(_) => HeapKind::DoubleArray,
        Obj::RefArray { .. } => HeapKind::ReferenceArray,
    }
}

impl HeapValue {
    /// The kind of this cell.
    pub fn kind_name(&self) -> (k: HeapKind)
        ensures
            k == obj_kind(self@),
    {
        match self {
            HeapValue::Object { .. } => HeapKind::Object,
            HeapValue::String(_) => HeapKind::String,
            HeapValue::StringBuilder(_) => HeapKind::StringBuilder,
            HeapValue::IntArray { .. } => HeapKind::IntArray,
            HeapValue::LongArray { .. } => HeapKind::LongArray,
            HeapValue::FloatArray { .. } => HeapKind::FloatArray,
            HeapValue::DoubleArray { .. } => HeapKind::DoubleArray,
            HeapValue::ReferenceArray { .. } => HeapKind::ReferenceArray,
        }
    }
}

/// The kind of a value.
pub open spec fn value_kind(v: Value) -> ValueKind {
    match v {
        Value::Int(_) => ValueKind::Int,
        Value::Long(_) => ValueKind::Long,
        Value::Float(_) => ValueKind::Float,
        Value::Double(_) => ValueKind::Double,
        Value::Reference(_) => ValueKind::Reference,
        Value::ReturnAddress(_) => ValueKind::ReturnAddress,
    }
}

impl Value {
    pub fn kind(&self) -> (k: ValueKind)
        ensures
            k == value_kind(*self),
    {
        match self {
            Value::Int(_) => ValueKind::Int,
            Value::Long(_) => ValueKind::Long,
            Value::Float(_) => ValueKind::Float,
            Value::Double(_) => ValueKind::Double,
            Value::Reference(_) => ValueKind::Reference,
            Value::ReturnAddress(_) => ValueKind::ReturnAddress,
        }
    }

    /// The `int` held by this value.
    pub fn as_int(&self) -> (res: Result<i32, VmError>)
        ensures
            match *self {
                Value::Int(i) => res == Ok::<i32, VmError>(i),
                _ => res == Err::<i32, VmError>(
                    VmError::TypeMismatch { expected: ValueKind::Int, actual: value_kind(*self) },
                ),
            },
    {
        match self {
            Value::Int(i) => Ok(*i),
            _ => Err(VmError::TypeMismatch { expected: ValueKind::Int, actual: self.kind() }),
        }
    }

    /// The `long` held by this value.
    pub fn as_long(&self) -> (res: Result<i64, VmError>)
        ensures
            match *self {
                Value::Long(i) => res == Ok::<i64, VmError>(i),
                _ => res == Err::<i64, VmError>(
                    VmError::TypeMismatch { expected: ValueKind::Long, actual: value_kind(*self) },
                ),
            },
    {
        match self {
            Value::Long(i) => Ok(*i),
            _ => Err(VmError::TypeMismatch { expected: ValueKind::Long, actual: self.kind() }),
        }
    }

    /// The reference held by this value.
    pub fn as_reference(&self) -> (res: Result<Reference, VmError>)
        ensures
            match *self {
                Value::Reference(r) => res == Ok::<Reference, VmError>(r),
                _ => res == Err::<Reference, VmError>(
                    VmError::TypeMismatch {
                        expected: ValueKind::Reference,
                        actual: value_kind(*self),
                    },
                ),
            },
    {
        match self {
            Value::Reference(r) => Ok(*r),
            _ => Err(
                VmError::TypeMismatch { expected: ValueKind::Reference, actual: self.kind() },
            ),
        }
    }
}

/// Argument `i` as an `int`, or the type mismatch reading it reports.
pub open spec fn int_arg(args: Seq<Value>, i: int) -> Result<i32, VmError> {
    match args[i] {
        Value::Int(x) => Ok(x),
        v => Err(VmError::TypeMismatch { expected: ValueKind::Int, actual: value_kind(v) }),
    }
}

/// Argument `i` as a `long`.
pub open spec fn long_arg(args: Seq<Value>, i: int) -> Result<i64, VmError> {
    match args[i] {
        Value::Long(x) => Ok(x),
        v => Err(VmError::TypeMismatch { expected: ValueKind::Long, actual: value_kind(v) }),
    }
}

/// Argument `i` as a reference.
pub open spec fn ref_arg(args: Seq<Value>, i: int) -> Result<Reference, VmError> {
    match args[i] {
        Value::Reference(x) => Ok(x),
        v => Err(VmError::TypeMismatch { expected: ValueKind::Reference, actual: value_kind(v) }),
    }
}

/// The first position of a field with the given name, or -1.
pub open spec fn field_index(fields: Seq<(Seq<char>, Value)>, name: Seq<char>) -> int
    decreases fields.len(),
{
    if fields.len() == 0 {
        -1
    } else if fields.last().0 == name && field_index(fields.drop_last(), name) < 0 {
        fields.len() - 1
    } else {
        field_index(fields.drop_last(), name)
    }
}

/// The value of the named field, if the object has one.
pub open spec fn field_get(fields: Seq<(Seq<char>, Value)>, name: Seq<char>) -> Option<Value> {
    let i = field_index(fields, name);
    if i >= 0 {
        Some(fields[i].1)
    } else {
        None
    }
}

/// The fields after setting the named field: an existing field is
/// overwritten in place, a new one is added at the end.
pub open spec fn field_set(fields: Seq<(Seq<char>, Value)>, name: Seq<char>, v: Value) -> Seq<
    (Seq<char>, Value),
> {
    let i = field_index(fields, name);
    if i >= 0 {
        fields.update(i, (name, v))
    } else {
        fields.push((name, v))
    }
}

pub proof fn lemma_field_index(fields: Seq<(Seq<char>, Value)>, name: Seq<char>)
    ensures
        -1 <= field_index(fields, name) < fields.len(),
        field_index(fields, name) >= 0 ==> fields[field_index(fields, name)].0 == name,
        field_index(fields, name) >= 0 ==> forall|j: int|
            0 <= j < field_index(fields, name) ==> fields[j].0 != name,
        field_index(fields, name) < 0 ==> forall|j: int| 0 <= j < fields.len() ==> fields[j].0 != name,
    decreases fields.len(),
{
    if fields.len() > 0 {
        let d = fields.drop_last();
        lemma_field_index(d, name);
        assert forall|j: int| 0 <= j < d.len() implies d[j] == fields[j] by {}
    }
}

/// Characterizes `field_index` by the first position holding the name.
pub proof fn lemma_field_index_first(fields: Seq<(Seq<char>, Value)>, name: Seq<char>, i: int)
    requires
        0 <= i < fields.len(),
        fields[i].0 == name,
        forall|j: int| 0 <= j < i ==> fields[j].0 != name,
    ensures
        field_index(fields, name) == i,
{
    lemma_field_index(fields, name);
    let k = field_index(fields, name);
    if k < 0 {
        assert(fields[i].0 != name);
    } else if k < i {
        assert(fields[k].0 != name);
    } else if k > i {
        assert(fields[i].0 != name);
    }
}

/// Characterizes `field_index` when no field holds the name.
pub proof fn lemma_field_index_none(fields: Seq<(Seq<char>, Value)>, name: Seq<char>)
    requires
        forall|j: int| 0 <= j < fields.len() ==> fields[j].0 != name,
    ensures
        field_index(fields, name) == -1,
{
    lemma_field_index(fields, name);
    if field_index(fields, name) >= 0 {
        assert(fields[field_index(fields, name)].0 == name);
    }
}

} // verus!
