//! The `java.util.concurrent` natives: the atomic variables, which keep
//! their value in a hidden `__value` field, `LongAdder`, the `TimeUnit`
//! conversions, and the natives that do no work in a single-threaded
//! interpreter.

use vstd::prelude::*;
use crate::chars::eq_str;
use crate::concurrent_stubs::{concurrent_stub, stub_answer};
use crate::heap::{deref, deref_error, heap_set_field, Heap};
use crate::model::{field_get, HeapValue, Obj, Reference, Value, ValueKind, VmError, value_kind};
use crate::native::{answers, done, fail, give, give_int, on_long, on_ref, NativeResult};

verus! {

/// The atomic variable classes.
#[derive(Clone, Copy, PartialEq, Eq, Structural, Debug)]
pub enum AtomicKind {
    Int,
    Long,
    Ref,
}

/// The operations of the atomic variable classes.
#[derive(Clone, Copy, PartialEq, Eq, Structural, Debug)]
pub enum AtomicOp {
    Get,
    SetValue,
    GetAndSet,
    CompareAndSet,
    IncrementAndGet,
    DecrementAndGet,
    GetAndIncrement,
    GetAndDecrement,
    AddAndGet,
    GetAndAdd,
    Init,
}

/// The operations of `LongAdder`.
#[derive(Clone, Copy, PartialEq, Eq, Structural, Debug)]
pub enum AdderOp {
    Add,
    Sum,
    Increment,
    Decrement,
    Reset,
}

/// The `TimeUnit` conversions.
#[derive(Clone, Copy, PartialEq, Eq, Structural, Debug)]
pub enum TimeUnitOp {
    ToNanos,
    ToMicros,
    ToMillis,
    ToSeconds,
}

/// A `java.util.concurrent` native.
#[derive(Clone, Copy, PartialEq, Eq, Structural, Debug)]
pub enum ConcurrentMethod {
    Atomic(AtomicKind, AtomicOp),
    Adder(AdderOp),
    TimeUnit(TimeUnitOp),
    /// A native that does no work and returns the given value.
    Inert(Option<Value>),
}

/// The operations each atomic class implements.
pub open spec fn atomic_supported(kind: AtomicKind, op: AtomicOp) -> bool {
    match kind {
        AtomicKind::Int => true,
        AtomicKind::Long => !(op is GetAndIncrement || op is GetAndDecrement || op is GetAndAdd),
        AtomicKind::Ref => op is Get || op is SetValue || op is GetAndSet || op is CompareAndSet || op is Init,
    }
}

pub open spec fn atomic_class(kind: AtomicKind) -> Seq<char> {
    match kind {
        AtomicKind::Int => "java/util/concurrent/atomic/AtomicInteger"@,
        AtomicKind::Long => "java/util/concurrent/atomic/AtomicLong"@,
        AtomicKind::Ref => "java/util/concurrent/atomic/AtomicReference"@,
    }
}

pub open spec fn atomic_name(op: AtomicOp) -> Seq<char> {
    match op {
        AtomicOp::Get => "get"@,
        AtomicOp::SetValue => "set"@,
        AtomicOp::GetAndSet => "getAndSet"@,
        AtomicOp::CompareAndSet => "compareAndSet"@,
        AtomicOp::IncrementAndGet => "incrementAndGet"@,
        AtomicOp::DecrementAndGet => "decrementAndGet"@,
        AtomicOp::GetAndIncrement => "getAndIncrement"@,
        AtomicOp::GetAndDecrement => "getAndDecrement"@,
        AtomicOp::AddAndGet => "addAndGet"@,
        AtomicOp::GetAndAdd => "getAndAdd"@,
        AtomicOp::Init => "<init>"@,
    }
}

/// The descriptor shapes of the atomic operations.
pub open spec fn atomic_descriptor(kind: AtomicKind, op: AtomicOp) -> Seq<char> {
    match kind {
        AtomicKind::Int => match op {
            AtomicOp::SetValue | AtomicOp::Init => "(I)V"@,
            AtomicOp::GetAndSet | AtomicOp::AddAndGet | AtomicOp::GetAndAdd => "(I)I"@,
            AtomicOp::CompareAndSet => "(II)Z"@,
            _ => "()I"@,
        },
        AtomicKind::Long => match op {
            AtomicOp::SetValue | AtomicOp::Init => "(J)V"@,
            AtomicOp::GetAndSet | AtomicOp::AddAndGet | AtomicOp::GetAndAdd => "(J)J"@,
            AtomicOp::CompareAndSet => "(JJ)Z"@,
            _ => "()J"@,
        },
        AtomicKind::Ref => match op {
            AtomicOp::SetValue | AtomicOp::Init => "(Ljava/lang/Object;)V"@,
            AtomicOp::GetAndSet => "(Ljava/lang/Object;)Ljava/lang/Object;"@,
            AtomicOp::CompareAndSet => "(Ljava/lang/Object;Ljava/lang/Object;)Z"@,
            _ => "()Ljava/lang/Object;"@,
        },
    }
}

pub open spec fn adder_signature(op: AdderOp) -> (Seq<char>, Seq<char>) {
    match op {
        AdderOp::Add => ("add"@, "(J)V"@),
        AdderOp::Sum => ("sum"@, "()J"@),
        AdderOp::Increment => ("increment"@, "()V"@),
        AdderOp::Decrement => ("decrement"@, "()V"@),
        AdderOp::Reset => ("reset"@, "()V"@),
    }
}

pub open spec fn time_unit_name(op: TimeUnitOp) -> Seq<char> {
    match op {
        TimeUnitOp::ToNanos => "toNanos"@,
        TimeUnitOp::ToMicros => "toMicros"@,
        TimeUnitOp::ToMillis => "toMillis"@,
        TimeUnitOp::ToSeconds => "toSeconds"@,
    }
}

/// Whether a native is the one a call of `name` with descriptor `d` on
/// class `c` selects.
pub open spec fn concurrent_matches(k: ConcurrentMethod, c: Seq<char>, name: Seq<char>, d: Seq<char>) -> bool {
    match k {
        ConcurrentMethod::Atomic(kind, op) => atomic_supported(kind, op) && c == atomic_class(kind)
            && name == atomic_name(op) && d == atomic_descriptor(kind, op),
        ConcurrentMethod::Adder(op) => c == "java/util/concurrent/atomic/LongAdder"@
            && (name, d) == adder_signature(op),
        ConcurrentMethod::TimeUnit(op) => c == "java/util/concurrent/TimeUnit"@
            && name == time_unit_name(op) && d == "(J)J"@,
        ConcurrentMethod::Inert(a) => concurrent_stub(c, name, d) == Some(a),
    }
}

/// How many arguments (receiver included) a native reads.
pub open spec fn concurrent_arity(k: ConcurrentMethod) -> nat {
    match k {
        ConcurrentMethod::Atomic(_, op) => match op {
            AtomicOp::CompareAndSet => 3,
            AtomicOp::SetValue | AtomicOp::Init | AtomicOp::GetAndSet | AtomicOp::AddAndGet
            | AtomicOp::GetAndAdd => 2,
            _ => 1,
        },
        ConcurrentMethod::Adder(op) => if op is Add { 2 } else { 1 },
        ConcurrentMethod::TimeUnit(_) => 1,
        ConcurrentMethod::Inert(_) => 0,
    }
}

/// The value an atomic variable of a kind holds before it is set.
pub open spec fn zero_of(kind: AtomicKind) -> Value {
    match kind {
        AtomicKind::Int => Value::Int(0),
        AtomicKind::Long => Value::Long(0),
        AtomicKind::Ref => Value::Reference(Reference::Null),
    }
}

pub open spec fn kind_of(kind: AtomicKind) -> ValueKind {
    match kind {
        AtomicKind::Int => ValueKind::Int,
        AtomicKind::Long => ValueKind::Long,
        AtomicKind::Ref => ValueKind::Reference,
    }
}

/// Argument `i` read as a value of the kind.
pub open spec fn kind_arg(args: Seq<Value>, i: int, kind: AtomicKind) -> Result<Value, VmError> {
    if value_kind(args[i]) == kind_of(kind) {
        Ok(args[i])
    } else {
        Err(VmError::TypeMismatch { expected: kind_of(kind), actual: value_kind(args[i]) })
    }
}

/// The value of an atomic object: its `__value` field when that holds a
/// value of the kind, else the kind's zero.
pub open spec fn object_current(fields: Seq<(Seq<char>, Value)>, kind: AtomicKind) -> Value {
    match field_get(fields, "__value"@) {
        Some(v) => if value_kind(v) == kind_of(kind) { v } else { zero_of(kind) },
        None => zero_of(kind),
    }
}

/// The value the atomic variable `r` holds (the kind's zero for a cell that
/// is not an object).
pub open spec fn atomic_current(heap: Seq<Obj>, r: Reference, kind: AtomicKind) -> Result<Value, VmError> {
    match deref(heap, r) {
        None => Err(deref_error(r)),
        Some(Obj::Object { fields, .. }) => Ok(object_current(fields, kind)),
        Some(_) => Ok(zero_of(kind)),
    }
}

/// The heap after storing `v` as the value of the atomic variable `r`.
pub open spec fn store(heap: Seq<Obj>, r: Reference, v: Value) -> Seq<Obj> {
    heap_set_field(heap, r, "__value"@, v)
}

/// A value of a numeric kind plus `delta`, wrapping as Java arithmetic does.
pub open spec fn plus(v: Value, delta: i64) -> Value {
    match v {
        Value::Int(a) => Value::Int(a.wrapping_add(delta as i32)),
        Value::Long(a) => Value::Long(a.wrapping_add(delta)),
        _ => v,
    }
}

/// An update of an atomic variable: `delta` added; the result is the new
/// value (`after`) or the old one; a cell that is not an object is left
/// alone and answers the kind's zero.
pub open spec fn update(heap: Seq<Obj>, r: Reference, kind: AtomicKind, delta: i64, after: bool) -> NativeResult {
    match deref(heap, r) {
        None => fail(deref_error(r)),
        Some(Obj::Object { fields, .. }) => {
            let old = object_current(fields, kind);
            let new = plus(old, delta);
            done(store(heap, r, new), Some(if after { new } else { old }))
        },
        Some(_) => give(heap, zero_of(kind)),
    }
}

/// Stores a value, failing when `r` designates no cell.
pub open spec fn set_value(heap: Seq<Obj>, r: Reference, v: Value) -> NativeResult {
    match deref(heap, r) {
        None => fail(deref_error(r)),
        Some(_) => done(store(heap, r, v), None),
    }
}

/// What an atomic variable operation does.
pub open spec fn atomic_spec(heap: Seq<Obj>, kind: AtomicKind, op: AtomicOp, args: Seq<Value>) -> NativeResult {
    on_ref(args, 0, |r: Reference| match op {
        AtomicOp::Get => match atomic_current(heap, r, kind) {
            Ok(v) => give(heap, v),
            Err(e) => fail(e),
        },
        AtomicOp::SetValue | AtomicOp::Init => match kind_arg(args, 1, kind) {
            Err(e) => fail(e),
            Ok(v) => set_value(heap, r, v),
        },
        AtomicOp::GetAndSet => match kind_arg(args, 1, kind) {
            Err(e) => fail(e),
            Ok(v) => match atomic_current(heap, r, kind) {
                Err(e) => fail(e),
                Ok(old) => done(store(heap, r, v), Some(old)),
            },
        },
        AtomicOp::CompareAndSet => match kind_arg(args, 1, kind) {
            Err(e) => fail(e),
            Ok(expect) => match kind_arg(args, 2, kind) {
                Err(e) => fail(e),
                Ok(new) => match deref(heap, r) {
                    None => fail(deref_error(r)),
                    Some(Obj::Object { fields, .. }) => if field_get(fields, "__value"@) == Some(expect) {
                        done(store(heap, r, new), Some(Value::Int(1)))
                    } else {
                        give_int(heap, 0)
                    },
                    Some(_) => give_int(heap, 0),
                },
            },
        },
        AtomicOp::IncrementAndGet => update(heap, r, kind, 1, true),
        AtomicOp::DecrementAndGet => update(heap, r, kind, -1i64, true),
        AtomicOp::GetAndIncrement => update(heap, r, kind, 1, false),
        AtomicOp::GetAndDecrement => update(heap, r, kind, -1i64, false),
        AtomicOp::AddAndGet | AtomicOp::GetAndAdd => match kind_arg(args, 1, kind) {
            Err(e) => fail(e),
            Ok(d) => update(heap, r, kind, match d {
                Value::Int(x) => x as i64,
                Value::Long(x) => x,
                _ => 0,
            }, op is AddAndGet),
        },
    })
}

/// What a `LongAdder` operation does: its sum is kept like an `AtomicLong`'s value.
pub open spec fn adder_spec(heap: Seq<Obj>, op: AdderOp, args: Seq<Value>) -> NativeResult {
    on_ref(args, 0, |r: Reference| match op {
        AdderOp::Sum => match atomic_current(heap, r, AtomicKind::Long) {
            Ok(v) => give(heap, v),
            Err(e) => fail(e),
        },
        AdderOp::Add => on_long(args, 1, |delta: i64| match update(heap, r, AtomicKind::Long, delta, true) {
            Ok((_, h)) => done(h, None),
            Err(e) => Err(e),
        }),
        AdderOp::Increment => match update(heap, r, AtomicKind::Long, 1, true) {
            Ok((_, h)) => done(h, None),
            Err(e) => Err(e),
        },
        AdderOp::Decrement => match update(heap, r, AtomicKind::Long, -1i64, true) {
            Ok((_, h)) => done(h, None),
            Err(e) => Err(e),
        },
        AdderOp::Reset => set_value(heap, r, Value::Long(0)),
    })
}

/// What a `java.util.concurrent` native does.
pub open spec fn concurrent_spec(heap: Seq<Obj>, k: ConcurrentMethod, args: Seq<Value>) -> NativeResult {
    match k {
        ConcurrentMethod::Atomic(kind, op) => atomic_spec(heap, kind, op, args),
        ConcurrentMethod::Adder(op) => adder_spec(heap, op, args),
        ConcurrentMethod::TimeUnit(_) => on_long(args, 0, |v: i64| give(heap, Value::Long(v))),
        ConcurrentMethod::Inert(a) => done(heap, a),
    }
}


/// The atomic operation of a kind a name and descriptor select.
fn atomic_op(kind: AtomicKind, n: &[char], d: &[char]) -> (res: Option<AtomicOp>)
    ensures
        match res {
            Some(op) => atomic_supported(kind, op) && n@ == atomic_name(op) && d@ == atomic_descriptor(kind, op),
            None => forall|op: AtomicOp| atomic_supported(kind, op) ==> !(n@ == atomic_name(op) && d@ == atomic_descriptor(kind, op)),
        },
{
    match kind {
        AtomicKind::Int => {
            if eq_str(n, "get") && eq_str(d, "()I") {
                return Some(AtomicOp::Get);
            }
            if eq_str(n, "set") && eq_str(d, "(I)V") {
                return Some(AtomicOp::SetValue);
            }
            if eq_str(n, "getAndSet") && eq_str(d, "(I)I") {
                return Some(AtomicOp::GetAndSet);
            }
            if eq_str(n, "compareAndSet") && eq_str(d, "(II)Z") {
                return Some(AtomicOp::CompareAndSet);
            }
            if eq_str(n, "incrementAndGet") && eq_str(d, "()I") {
                return Some(AtomicOp::IncrementAndGet);
            }
            if eq_str(n, "decrementAndGet") && eq_str(d, "()I") {
                return Some(AtomicOp::DecrementAndGet);
            }
            if eq_str(n, "getAndIncrement") && eq_str(d, "()I") {
                return Some(AtomicOp::GetAndIncrement);
            }
            if eq_str(n, "getAndDecrement") && eq_str(d, "()I") {
                return Some(AtomicOp::GetAndDecrement);
            }
            if eq_str(n, "addAndGet") && eq_str(d, "(I)I") {
                return Some(AtomicOp::AddAndGet);
            }
            if eq_str(n, "getAndAdd") && eq_str(d, "(I)I") {
                return Some(AtomicOp::GetAndAdd);
            }
            if eq_str(n, "<init>") && eq_str(d, "(I)V") {
                return Some(AtomicOp::Init);
            }
        },
        AtomicKind::Long => {
            if eq_str(n, "get") && eq_str(d, "()J") {
                return Some(AtomicOp::Get);
            }
            if eq_str(n, "set") && eq_str(d, "(J)V") {
                return Some(AtomicOp::SetValue);
            }
            if eq_str(n, "getAndSet") && eq_str(d, "(J)J") {
                return Some(AtomicOp::GetAndSet);
            }
            if eq_str(n, "compareAndSet") && eq_str(d, "(JJ)Z") {
                return Some(AtomicOp::CompareAndSet);
            }
            if eq_str(n, "incrementAndGet") && eq_str(d, "()J") {
                return Some(AtomicOp::IncrementAndGet);
            }
            if eq_str(n, "decrementAndGet") && eq_str(d, "()J") {
                return Some(AtomicOp::DecrementAndGet);
            }
            if eq_str(n, "addAndGet") && eq_str(d, "(J)J") {
                return Some(AtomicOp::AddAndGet);
            }
            if eq_str(n, "<init>") && eq_str(d, "(J)V") {
                return Some(AtomicOp::Init);
            }
        },
        AtomicKind::Ref => {
            if eq_str(n, "get") && eq_str(d, "()Ljava/lang/Object;") {
                return Some(AtomicOp::Get);
            }
            if eq_str(n, "set") && eq_str(d, "(Ljava/lang/Object;)V") {
                return Some(AtomicOp::SetValue);
            }
            if eq_str(n, "getAndSet") && eq_str(d, "(Ljava/lang/Object;)Ljava/lang/Object;") {
                return Some(AtomicOp::GetAndSet);
            }
            if eq_str(n, "compareAndSet") && eq_str(d, "(Ljava/lang/Object;Ljava/lang/Object;)Z") {
                return Some(AtomicOp::CompareAndSet);
            }
            if eq_str(n, "<init>") && eq_str(d, "(Ljava/lang/Object;)V") {
                return Some(AtomicOp::Init);
            }
        },
    }
    proof {
        assert forall|op: AtomicOp| atomic_supported(kind, op) implies !(n@ == atomic_name(op) && d@ == atomic_descriptor(kind, op)) by {
            match kind {
                AtomicKind::Int => match op {
                    AtomicOp::Get => {},
                    AtomicOp::SetValue => {},
                    AtomicOp::GetAndSet => {},
                    AtomicOp::CompareAndSet => {},
                    AtomicOp::IncrementAndGet => {},
                    AtomicOp::DecrementAndGet => {},
                    AtomicOp::GetAndIncrement => {},
                    AtomicOp::GetAndDecrement => {},
                    AtomicOp::AddAndGet => {},
                    AtomicOp::GetAndAdd => {},
                    AtomicOp::Init => {},
                },
                AtomicKind::Long => match op {
                    AtomicOp::Get => {},
                    AtomicOp::SetValue => {},
                    AtomicOp::GetAndSet => {},
                    AtomicOp::CompareAndSet => {},
                    AtomicOp::IncrementAndGet => {},
                    AtomicOp::DecrementAndGet => {},
                    AtomicOp::GetAndIncrement => {},
                    AtomicOp::GetAndDecrement => {},
                    AtomicOp::AddAndGet => {},
                    AtomicOp::GetAndAdd => {},
                    AtomicOp::Init => {},
                },
                AtomicKind::Ref => match op {
                    AtomicOp::Get => {},
                    AtomicOp::SetValue => {},
                    AtomicOp::GetAndSet => {},
                    AtomicOp::CompareAndSet => {},
                    AtomicOp::IncrementAndGet => {},
                    AtomicOp::DecrementAndGet => {},
                    AtomicOp::GetAndIncrement => {},
                    AtomicOp::GetAndDecrement => {},
                    AtomicOp::AddAndGet => {},
                    AtomicOp::GetAndAdd => {},
                    AtomicOp::Init => {},
                },
            }
        }
    }
    None
}

/// The `LongAdder` operation a name and descriptor select.
fn adder_op(n: &[char], d: &[char]) -> (res: Option<AdderOp>)
    ensures
        match res {
            Some(op) => adder_signature(op) == (n@, d@),
            None => forall|op: AdderOp| adder_signature(op) != (n@, d@),
        },
{
    if eq_str(n, "add") && eq_str(d, "(J)V") {
        return Some(AdderOp::Add);
    }
    if eq_str(n, "sum") && eq_str(d, "()J") {
        return Some(AdderOp::Sum);
    }
    if eq_str(n, "increment") && eq_str(d, "()V") {
        return Some(AdderOp::Increment);
    }
    if eq_str(n, "decrement") && eq_str(d, "()V") {
        return Some(AdderOp::Decrement);
    }
    if eq_str(n, "reset") && eq_str(d, "()V") {
        return Some(AdderOp::Reset);
    }
    proof {
        assert forall|op: AdderOp| adder_signature(op) != (n@, d@) by {
            match op {
                AdderOp::Add => {},
                AdderOp::Sum => {},
                AdderOp::Increment => {},
                AdderOp::Decrement => {},
                AdderOp::Reset => {},
            }
        }
    }
    None
}

/// The `TimeUnit` conversion a name selects.
fn time_unit_op(n: &[char]) -> (res: Option<TimeUnitOp>)
    ensures
        match res {
            Some(op) => time_unit_name(op) == n@,
            None => forall|op: TimeUnitOp| time_unit_name(op) != n@,
        },
{
    if eq_str(n, "toNanos") {
        return Some(TimeUnitOp::ToNanos);
    }
    if eq_str(n, "toMicros") {
        return Some(TimeUnitOp::ToMicros);
    }
    if eq_str(n, "toMillis") {
        return Some(TimeUnitOp::ToMillis);
    }
    if eq_str(n, "toSeconds") {
        return Some(TimeUnitOp::ToSeconds);
    }
    proof {
        assert forall|op: TimeUnitOp| time_unit_name(op) != n@ by {
            match op {
                TimeUnitOp::ToNanos => {},
                TimeUnitOp::ToMicros => {},
                TimeUnitOp::ToMillis => {},
                TimeUnitOp::ToSeconds => {},
            }
        }
    }
    None
}

/// The atomic class an internal name designates.
fn atomic_kind(c: &[char]) -> (res: Option<AtomicKind>)
    ensures
        match res {
            Some(kind) => atomic_class(kind) == c@,
            None => forall|kind: AtomicKind| atomic_class(kind) != c@,
        },
{
    if eq_str(c, "java/util/concurrent/atomic/AtomicInteger") {
        return Some(AtomicKind::Int);
    }
    if eq_str(c, "java/util/concurrent/atomic/AtomicLong") {
        return Some(AtomicKind::Long);
    }
    if eq_str(c, "java/util/concurrent/atomic/AtomicReference") {
        return Some(AtomicKind::Ref);
    }
    proof {
        assert forall|kind: AtomicKind| atomic_class(kind) != c@ by {
            match kind {
                AtomicKind::Int => {},
                AtomicKind::Long => {},
                AtomicKind::Ref => {},
            }
        }
    }
    None
}

/// The class names of the atomic variables, `LongAdder` and `TimeUnit` are
/// distinct.
proof fn lemma_concurrent_classes(kind: AtomicKind)
    ensures
        atomic_class(kind) != "java/util/concurrent/atomic/LongAdder"@,
        atomic_class(kind) != "java/util/concurrent/TimeUnit"@,
        "java/util/concurrent/atomic/LongAdder"@ != "java/util/concurrent/TimeUnit"@,
        forall|k2: AtomicKind| atomic_class(k2) == atomic_class(kind) ==> k2 == kind,
{
    reveal_strlit("java/util/concurrent/atomic/AtomicInteger");
    reveal_strlit("java/util/concurrent/atomic/AtomicLong");
    reveal_strlit("java/util/concurrent/atomic/AtomicReference");
    reveal_strlit("java/util/concurrent/atomic/LongAdder");
    reveal_strlit("java/util/concurrent/TimeUnit");
    assert("java/util/concurrent/atomic/LongAdder"@.len() == 37);
    assert("java/util/concurrent/TimeUnit"@.len() == 29);
    match kind {
        AtomicKind::Int => assert(atomic_class(kind).len() == 41),
        AtomicKind::Long => assert(atomic_class(kind).len() == 38),
        AtomicKind::Ref => assert(atomic_class(kind).len() == 43),
    }
}

/// The native a call selects, if it is one of the `java.util.concurrent`
/// natives implemented here.
pub fn concurrent_method(c: &[char], n: &[char], d: &[char]) -> (res: Option<ConcurrentMethod>)
    ensures
        match res {
            Some(k) => concurrent_matches(k, c@, n@, d@),
            None => forall|k: ConcurrentMethod| !concurrent_matches(k, c@, n@, d@),
        },
{
    if let Some(kind) = atomic_kind(c) {
        if let Some(op) = atomic_op(kind, n, d) {
            return Some(ConcurrentMethod::Atomic(kind, op));
        }
    }
    if eq_str(c, "java/util/concurrent/atomic/LongAdder") {
        if let Some(op) = adder_op(n, d) {
            return Some(ConcurrentMethod::Adder(op));
        }
    }
    if eq_str(c, "java/util/concurrent/TimeUnit") && eq_str(d, "(J)J") {
        if let Some(op) = time_unit_op(n) {
            return Some(ConcurrentMethod::TimeUnit(op));
        }
    }
    if let Some(a) = stub_answer(c, n, d) {
        return Some(ConcurrentMethod::Inert(a));
    }
    proof {
        assert forall|k: ConcurrentMethod| !concurrent_matches(k, c@, n@, d@) by {
            match k {
                ConcurrentMethod::Atomic(kind, op) => {
                    lemma_concurrent_classes(kind);
                },
                ConcurrentMethod::Adder(op) => {
                    lemma_concurrent_classes(AtomicKind::Int);
                },
                ConcurrentMethod::TimeUnit(op) => {
                    lemma_concurrent_classes(AtomicKind::Int);
                },
                ConcurrentMethod::Inert(a) => {},
            }
        }
    }
    None
}


/// Whether a value is of an atomic variable's kind.
fn is_kind(v: Value, kind: AtomicKind) -> (res: bool)
    ensures
        res == (value_kind(v) == kind_of(kind)),
{
    match (v, kind) {
        (Value::Int(_), AtomicKind::Int) => true,
        (Value::Long(_), AtomicKind::Long) => true,
        (Value::Reference(_), AtomicKind::Ref) => true,
        _ => false,
    }
}

fn zero(kind: AtomicKind) -> (v: Value)
    ensures
        v == zero_of(kind),
{
    match kind {
        AtomicKind::Int => Value::Int(0),
        AtomicKind::Long => Value::Long(0),
        AtomicKind::Ref => Value::Reference(Reference::Null),
    }
}

/// Reads argument `i` as a value of the kind.
fn read_kind_arg(args: &[Value], i: usize, kind: AtomicKind) -> (res: Result<Value, VmError>)
    requires
        i < args@.len(),
    ensures
        match res {
            Ok(v) => kind_arg(args@, i as int, kind) == Ok::<Value, VmError>(v),
            Err(e) => kind_arg(args@, i as int, kind) == Err::<Value, VmError>(e),
        },
{
    let v = args[i];
    if is_kind(v, kind) {
        Ok(v)
    } else {
        let expected = match kind {
            AtomicKind::Int => ValueKind::Int,
            AtomicKind::Long => ValueKind::Long,
            AtomicKind::Ref => ValueKind::Reference,
        };
        Err(VmError::TypeMismatch { expected, actual: v.kind() })
    }
}

/// The value of an atomic object's fields.
fn current_in(fields: &Vec<crate::model::Field>, kind: AtomicKind) -> (v: Value)
    ensures
        v == object_current(crate::model::fields_view(fields@), kind),
{
    match crate::heap::field_lookup(fields, "__value") {
        Some(v) => if is_kind(v, kind) {
            v
        } else {
            zero(kind)
        },
        None => zero(kind),
    }
}

/// The value of an atomic object, `None` for a cell that is not an object.
fn read_current(heap: &Heap, r: Reference, kind: AtomicKind) -> (res: Result<Option<Value>, VmError>)
    ensures
        match res {
            Ok(Some(v)) => deref(heap@, r) matches Some(Obj::Object { fields, .. }) && v == object_current(fields, kind),
            Ok(None) => deref(heap@, r) is Some && !(deref(heap@, r) matches Some(Obj::Object { .. })),
            Err(e) => deref(heap@, r) is None && e == deref_error(r),
        },
{
    match heap.get(r)? {
        HeapValue::Object { fields, .. } => Ok(Some(current_in(fields, kind))),
        _ => Ok(None),
    }
}

/// A numeric value plus `delta`, wrapping.
fn plus_delta(v: Value, delta: i64) -> (res: Value)
    ensures
        res == plus(v, delta),
{
    match v {
        Value::Int(a) => Value::Int(a.wrapping_add(delta as i32)),
        Value::Long(a) => Value::Long(a.wrapping_add(delta)),
        _ => v,
    }
}

/// Adds `delta` to an atomic variable.
fn apply_update(heap: &mut Heap, r: Reference, kind: AtomicKind, delta: i64, after: bool) -> (res: Result<Option<Value>, VmError>)
    ensures
        answers(old(heap)@, final(heap)@, update(old(heap)@, r, kind, delta, after), res),
{
    match read_current(heap, r, kind)? {
        Some(old) => {
            let new = plus_delta(old, delta);
            heap.set_object_field(r, "__value", new);
            Ok(Some(if after { new } else { old }))
        },
        None => Ok(Some(zero(kind))),
    }
}

/// Stores the value of an atomic variable.
fn store_value(heap: &mut Heap, r: Reference, v: Value) -> (res: Result<Option<Value>, VmError>)
    ensures
        answers(old(heap)@, final(heap)@, set_value(old(heap)@, r, v), res),
{
    heap.get(r)?;
    heap.set_object_field(r, "__value", v);
    Ok(None)
}

/// How many arguments a native reads (receiver included).
pub fn concurrent_arg_count(k: ConcurrentMethod) -> (n: usize)
    ensures
        n == concurrent_arity(k),
{
    match k {
        ConcurrentMethod::Atomic(_, op) => match op {
            AtomicOp::CompareAndSet => 3,
            AtomicOp::SetValue | AtomicOp::Init | AtomicOp::GetAndSet | AtomicOp::AddAndGet
            | AtomicOp::GetAndAdd => 2,
            _ => 1,
        },
        ConcurrentMethod::Adder(op) => match op {
            AdderOp::Add => 2,
            _ => 1,
        },
        ConcurrentMethod::TimeUnit(_) => 1,
        ConcurrentMethod::Inert(_) => 0,
    }
}

/// Runs an atomic variable operation.
fn invoke_atomic(heap: &mut Heap, kind: AtomicKind, op: AtomicOp, args: &[Value]) -> (res: Result<Option<Value>, VmError>)
    requires
        args@.len() >= concurrent_arity(ConcurrentMethod::Atomic(kind, op)),
    ensures
        answers(old(heap)@, final(heap)@, atomic_spec(old(heap)@, kind, op, args@), res),
{
    let r = args[0].as_reference()?;
    match op {
        AtomicOp::Get => {
            let v = read_current(heap, r, kind)?;
            Ok(Some(match v {
                Some(x) => x,
                None => zero(kind),
            }))
        },
        AtomicOp::SetValue | AtomicOp::Init => {
            let v = read_kind_arg(args, 1, kind)?;
            store_value(heap, r, v)
        },
        AtomicOp::GetAndSet => {
            let v = read_kind_arg(args, 1, kind)?;
            let old = match read_current(heap, r, kind)? {
                Some(x) => x,
                None => zero(kind),
            };
            heap.set_object_field(r, "__value", v);
            Ok(Some(old))
        },
        AtomicOp::CompareAndSet => {
            let expect = read_kind_arg(args, 1, kind)?;
            let new = read_kind_arg(args, 2, kind)?;
            let matched = match heap.get(r)? {
                HeapValue::Object { fields, .. } => match crate::heap::field_lookup(fields, "__value") {
                    Some(v) => v == expect,
                    None => false,
                },
                _ => false,
            };
            if matched {
                heap.set_object_field(r, "__value", new);
                Ok(Some(Value::Int(1)))
            } else {
                Ok(Some(Value::Int(0)))
            }
        },
        AtomicOp::IncrementAndGet => apply_update(heap, r, kind, 1, true),
        AtomicOp::DecrementAndGet => apply_update(heap, r, kind, -1, true),
        AtomicOp::GetAndIncrement => apply_update(heap, r, kind, 1, false),
        AtomicOp::GetAndDecrement => apply_update(heap, r, kind, -1, false),
        AtomicOp::AddAndGet | AtomicOp::GetAndAdd => {
            let d = read_kind_arg(args, 1, kind)?;
            let delta: i64 = match d {
                Value::Int(x) => x as i64,
                Value::Long(x) => x,
                _ => 0,
            };
            let after = match op {
                AtomicOp::AddAndGet => true,
                _ => false,
            };
            apply_update(heap, r, kind, delta, after)
        },
    }
}

/// Runs a `LongAdder` operation.
fn invoke_adder(heap: &mut Heap, op: AdderOp, args: &[Value]) -> (res: Result<Option<Value>, VmError>)
    requires
        args@.len() >= concurrent_arity(ConcurrentMethod::Adder(op)),
    ensures
        answers(old(heap)@, final(heap)@, adder_spec(old(heap)@, op, args@), res),
{
    let r = args[0].as_reference()?;
    match op {
        AdderOp::Sum => {
            let v = read_current(heap, r, AtomicKind::Long)?;
            Ok(Some(match v {
                Some(x) => x,
                None => Value::Long(0),
            }))
        },
        AdderOp::Add => {
            let delta = args[1].as_long()?;
            apply_update(heap, r, AtomicKind::Long, delta, true)?;
            Ok(None)
        },
        AdderOp::Increment => {
            apply_update(heap, r, AtomicKind::Long, 1, true)?;
            Ok(None)
        },
        AdderOp::Decrement => {
            apply_update(heap, r, AtomicKind::Long, -1, true)?;
            Ok(None)
        },
        AdderOp::Reset => store_value(heap, r, Value::Long(0)),
    }
}

/// Runs a `java.util.concurrent` native.
pub fn invoke_concurrent(heap: &mut Heap, k: ConcurrentMethod, args: &[Value]) -> (res: Result<Option<Value>, VmError>)
    requires
        args@.len() >= concurrent_arity(k),
    ensures
        answers(old(heap)@, final(heap)@, concurrent_spec(old(heap)@, k, args@), res),
{
    match k {
        ConcurrentMethod::Atomic(kind, op) => invoke_atomic(heap, kind, op, args),
        ConcurrentMethod::Adder(op) => invoke_adder(heap, op, args),
        ConcurrentMethod::TimeUnit(_) => {
            let v = args[0].as_long()?;
            Ok(Some(Value::Long(v)))
        },
        ConcurrentMethod::Inert(a) => Ok(a),
    }
}

} // verus!
