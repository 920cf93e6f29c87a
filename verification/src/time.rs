//! Natives of `java.time.Instant` and `java.time.Duration`. An instant
//! keeps `__epoch_second` and `__nano`, a duration `__seconds` and
//! `__nano`. Reading the clock for `Instant.now` is the caller's part.

use vstd::prelude::*;
use crate::chars::{eq_str, lit};
use crate::heap::{deref, object_field, Heap};
use crate::helpers::append_chars;
use crate::model::{exception, raises, Fault, HeapValue, Obj, Reference, Value, VmError, fields_view};
use crate::native::{answers, done, give, give_bool, give_int, give_new, give_str, next_ref, on_long, on_ref, sign, NativeResult};
use crate::numfmt::{decimal, long_to_decimal, radix_digits, unsigned_digits};

verus! {

/// Division truncated toward zero, as Rust's `/` divides by a positive
/// constant.
pub open spec fn tdiv(a: int, b: int) -> int {
    if a >= 0 {
        a / b
    } else {
        -((-a) / b)
    }
}

/// The remainder that goes with `tdiv` (it has the sign of `a`).
pub open spec fn tmod(a: int, b: int) -> int {
    a - tdiv(a, b) * b
}

/// A `long` field, if present.
pub open spec fn long_field(heap: Seq<Obj>, r: Reference, name: Seq<char>) -> Option<i64> {
    match object_field(heap, r, name) {
        Some(Value::Long(x)) => Some(x),
        _ => None,
    }
}

/// An `int` field, if present.
pub open spec fn int_field(heap: Seq<Obj>, r: Reference, name: Seq<char>) -> Option<i32> {
    match object_field(heap, r, name) {
        Some(Value::Int(x)) => Some(x),
        _ => None,
    }
}

/// A `long` field, 0 when absent.
pub open spec fn long_or0(heap: Seq<Obj>, r: Reference, name: Seq<char>) -> int {
    match long_field(heap, r, name) {
        Some(x) => x as int,
        None => 0,
    }
}

/// An `int` field, 0 when absent.
pub open spec fn int_or0(heap: Seq<Obj>, r: Reference, name: Seq<char>) -> int {
    match int_field(heap, r, name) {
        Some(x) => x as int,
        None => 0,
    }
}

/// An instant's seconds since the epoch (0 when unset).
pub open spec fn epoch(heap: Seq<Obj>, r: Reference) -> int {
    long_or0(heap, r, "__epoch_second"@)
}

/// The nanosecond part of an instant or a duration (0 when unset).
pub open spec fn nanos(heap: Seq<Obj>, r: Reference) -> int {
    int_or0(heap, r, "__nano"@)
}

/// A duration's seconds (0 when unset).
pub open spec fn seconds(heap: Seq<Obj>, r: Reference) -> int {
    long_or0(heap, r, "__seconds"@)
}

/// A new instant.
pub open spec fn instant_obj(e: int, n: int) -> Obj {
    Obj::Object {
        class_name: "java/time/Instant"@,
        fields: seq![("__epoch_second"@, Value::Long(e as i64)), ("__nano"@, Value::Int(n as i32))],
    }
}

/// A new duration.
pub open spec fn duration_obj(s: int, n: int) -> Obj {
    Obj::Object {
        class_name: "java/time/Duration"@,
        fields: seq![("__seconds"@, Value::Long(s as i64)), ("__nano"@, Value::Int(n as i32))],
    }
}

/// Whether a value fits a `long`.
pub open spec fn fits_long(x: int) -> bool {
    i64::MIN <= x <= i64::MAX
}

/// Whether a value fits an `int`.
pub open spec fn fits_int(x: int) -> bool {
    i32::MIN <= x <= i32::MAX
}

/// `-1`, `0` or `1` comparing by seconds first, then by nanoseconds.
pub open spec fn compare_times(s1: int, n1: int, s2: int, n2: int) -> i32 {
    if s1 != s2 {
        sign(s1 - s2)
    } else {
        sign(n1 - n2)
    }
}

/// Zeros before a digit string to make it `width` characters long.
pub open spec fn zeros(k: int) -> Seq<char> {
    Seq::new(if k > 0 { k as nat } else { 0 }, |i: int| '0')
}

/// `{:09}`: at least nine characters, zero-padded after the sign.
pub open spec fn nano_text(n: int) -> Seq<char> {
    if n >= 0 {
        let d = radix_digits(n as nat, 10);
        zeros(9 - d.len()) + d
    } else {
        let d = radix_digits((-n) as nat, 10);
        seq!['-'] + zeros(8 - d.len()) + d
    }
}

/// `Instant.toString`: seconds, a dot, nanoseconds padded to nine digits.
pub open spec fn instant_text(e: int, n: int) -> Seq<char> {
    decimal(e) + seq!['.'] + nano_text(n)
}

/// `Duration.toString`: `PT`, the magnitude of the seconds and `S`, with a
/// minus sign for a negative duration.
pub open spec fn duration_text(s: int, n: int) -> Seq<char> {
    let mag = if s < 0 { -s } else { s };
    (if s < 0 || (s == 0 && n < 0) { seq!['-'] } else { Seq::empty() }) + "PT"@ + decimal(mag) + "S"@
}

/// The `java.time` natives.
#[derive(Clone, Copy, PartialEq, Eq, Structural, Debug)]
pub enum TimeMethod {
    OfEpochSecond,
    OfEpochSecondAdjusted,
    OfEpochMilli,
    GetEpochSecond,
    InstantGetNano,
    ToEpochMilli,
    IsAfter,
    IsBefore,
    PlusSeconds,
    PlusMillis,
    PlusNanos,
    MinusSeconds,
    MinusMillis,
    InstantCompareTo,
    InstantEquals,
    InstantHashCode,
    InstantToString,
    OfSeconds,
    OfMillis,
    OfNanos,
    GetSeconds,
    DurationGetNano,
    ToMillis,
    ToMicros,
    IsNegative,
    IsZero,
    DurationCompareTo,
    DurationToString,
}

pub open spec fn time_signature(k: TimeMethod) -> (Seq<char>, Seq<char>, Seq<char>) {
    let i = "java/time/Instant"@;
    let d = "java/time/Duration"@;
    match k {
        TimeMethod::OfEpochSecond => (i, "ofEpochSecond"@, "(J)Ljava/time/Instant;"@),
        TimeMethod::OfEpochSecondAdjusted => (i, "ofEpochSecond"@, "(JJ)Ljava/time/Instant;"@),
        TimeMethod::OfEpochMilli => (i, "ofEpochMilli"@, "(J)Ljava/time/Instant;"@),
        TimeMethod::GetEpochSecond => (i, "getEpochSecond"@, "()J"@),
        TimeMethod::InstantGetNano => (i, "getNano"@, "()I"@),
        TimeMethod::ToEpochMilli => (i, "toEpochMilli"@, "()J"@),
        TimeMethod::IsAfter => (i, "isAfter"@, "(Ljava/time/Instant;)Z"@),
        TimeMethod::IsBefore => (i, "isBefore"@, "(Ljava/time/Instant;)Z"@),
        TimeMethod::PlusSeconds => (i, "plusSeconds"@, "(J)Ljava/time/Instant;"@),
        TimeMethod::PlusMillis => (i, "plusMillis"@, "(J)Ljava/time/Instant;"@),
        TimeMethod::PlusNanos => (i, "plusNanos"@, "(J)Ljava/time/Instant;"@),
        TimeMethod::MinusSeconds => (i, "minusSeconds"@, "(J)Ljava/time/Instant;"@),
        TimeMethod::MinusMillis => (i, "minusMillis"@, "(J)Ljava/time/Instant;"@),
        TimeMethod::InstantCompareTo => (i, "compareTo"@, "(Ljava/time/Instant;)I"@),
        TimeMethod::InstantEquals => (i, "equals"@, "(Ljava/lang/Object;)Z"@),
        TimeMethod::InstantHashCode => (i, "hashCode"@, "()I"@),
        TimeMethod::InstantToString => (i, "toString"@, "()Ljava/lang/String;"@),
        TimeMethod::OfSeconds => (d, "ofSeconds"@, "(J)Ljava/time/Duration;"@),
        TimeMethod::OfMillis => (d, "ofMillis"@, "(J)Ljava/time/Duration;"@),
        TimeMethod::OfNanos => (d, "ofNanos"@, "(J)Ljava/time/Duration;"@),
        TimeMethod::GetSeconds => (d, "getSeconds"@, "()J"@),
        TimeMethod::DurationGetNano => (d, "getNano"@, "()I"@),
        TimeMethod::ToMillis => (d, "toMillis"@, "()J"@),
        TimeMethod::ToMicros => (d, "toMicros"@, "()J"@),
        TimeMethod::IsNegative => (d, "isNegative"@, "()Z"@),
        TimeMethod::IsZero => (d, "isZero"@, "()Z"@),
        TimeMethod::DurationCompareTo => (d, "compareTo"@, "(Ljava/time/Duration;)I"@),
        TimeMethod::DurationToString => (d, "toString"@, "()Ljava/lang/String;"@),
    }
}

pub open spec fn time_arity(k: TimeMethod) -> nat {
    match k {
        TimeMethod::OfEpochSecondAdjusted | TimeMethod::IsAfter | TimeMethod::IsBefore
        | TimeMethod::PlusSeconds | TimeMethod::PlusMillis | TimeMethod::PlusNanos
        | TimeMethod::MinusSeconds | TimeMethod::MinusMillis | TimeMethod::InstantCompareTo
        | TimeMethod::InstantEquals | TimeMethod::DurationCompareTo => 2,
        _ => 1,
    }
}

/// Whether the cell is an object.
pub open spec fn is_object(heap: Seq<Obj>, r: Reference) -> bool {
    deref(heap, r) matches Some(Obj::Object { .. })
}

/// What each `java.time` native does.
pub open spec fn time_spec(heap: Seq<Obj>, k: TimeMethod, args: Seq<Value>) -> NativeResult {
    match k {
        TimeMethod::OfEpochSecond => on_long(args, 0, |e: i64| give_new(heap, instant_obj(e as int, 0))),
        TimeMethod::OfEpochSecondAdjusted => on_long(args, 0, |e: i64| on_long(args, 1, |adj: i64|
            give_new(heap, instant_obj(e + tdiv(adj as int, 1_000_000_000), tmod(adj as int, 1_000_000_000))))),
        TimeMethod::OfEpochMilli => on_long(args, 0, |m: i64|
            give_new(heap, instant_obj(tdiv(m as int, 1000), tmod(m as int, 1000) * 1_000_000))),
        TimeMethod::GetEpochSecond => on_ref(args, 0, |r: Reference| done(heap, match long_field(heap, r, "__epoch_second"@) {
            Some(x) => Some(Value::Long(x)),
            None => None,
        })),
        TimeMethod::InstantGetNano => on_ref(args, 0, |r: Reference| done(heap, match int_field(heap, r, "__nano"@) {
            Some(x) => Some(Value::Int(x)),
            None => None,
        })),
        TimeMethod::ToEpochMilli => on_ref(args, 0, |r: Reference|
            give(heap, Value::Long((epoch(heap, r) * 1000 + tdiv(nanos(heap, r), 1_000_000)) as i64))),
        TimeMethod::IsAfter => on_ref(args, 0, |o: Reference| on_ref(args, 1, |t: Reference|
            give_bool(heap, epoch(heap, t) > epoch(heap, o)))),
        TimeMethod::IsBefore => on_ref(args, 0, |o: Reference| on_ref(args, 1, |t: Reference|
            give_bool(heap, epoch(heap, t) < epoch(heap, o)))),
        TimeMethod::PlusSeconds => on_long(args, 0, |s: i64| on_ref(args, 1, |t: Reference|
            give_new(heap, instant_obj(epoch(heap, t) + s, nanos(heap, t))))),
        TimeMethod::PlusMillis => on_long(args, 0, |m: i64| on_ref(args, 1, |t: Reference| {
            let total = epoch(heap, t) * 1000 + m + tdiv(nanos(heap, t), 1_000_000);
            give_new(heap, instant_obj(tdiv(total, 1000), tmod(total, 1000) * 1_000_000))
        })),
        TimeMethod::PlusNanos => on_long(args, 0, |n: i64| on_ref(args, 1, |t: Reference| {
            let total = epoch(heap, t) * 1_000_000_000 + n + nanos(heap, t);
            give_new(heap, instant_obj(tdiv(total, 1_000_000_000), tmod(total, 1_000_000_000)))
        })),
        TimeMethod::MinusSeconds => on_long(args, 0, |s: i64| on_ref(args, 1, |t: Reference|
            give_new(heap, instant_obj(epoch(heap, t) - s, nanos(heap, t))))),
        TimeMethod::MinusMillis => on_long(args, 0, |m: i64| on_ref(args, 1, |t: Reference| {
            let total = epoch(heap, t) * 1000 - m + tdiv(nanos(heap, t), 1_000_000);
            give_new(heap, instant_obj(tdiv(total, 1000), tmod(total, 1000) * 1_000_000))
        })),
        TimeMethod::InstantCompareTo => on_ref(args, 0, |o: Reference| on_ref(args, 1, |t: Reference|
            give_int(heap, compare_times(epoch(heap, t), nanos(heap, t), epoch(heap, o), nanos(heap, o))))),
        TimeMethod::InstantEquals => on_ref(args, 0, |o: Reference| on_ref(args, 1, |t: Reference|
            give_bool(heap, o != Reference::Null && epoch(heap, t) == epoch(heap, o) && nanos(heap, t) == nanos(heap, o)))),
        TimeMethod::InstantHashCode => on_ref(args, 0, |t: Reference| {
            let e = epoch(heap, t) as i64;
            give_int(heap, ((e ^ (e >> 32u64)) as i32) ^ (nanos(heap, t) as i32))
        }),
        TimeMethod::InstantToString => on_ref(args, 0, |t: Reference|
            give_str(heap, instant_text(epoch(heap, t), nanos(heap, t)))),
        TimeMethod::OfSeconds => on_long(args, 0, |s: i64| give_new(heap, duration_obj(s as int, 0))),
        TimeMethod::OfMillis => on_long(args, 0, |m: i64|
            give_new(heap, duration_obj(tdiv(m as int, 1000), tmod(m as int, 1000) * 1_000_000))),
        TimeMethod::OfNanos => on_long(args, 0, |n: i64|
            give_new(heap, duration_obj(tdiv(n as int, 1_000_000_000), tmod(n as int, 1_000_000_000)))),
        TimeMethod::GetSeconds => on_ref(args, 0, |r: Reference| give(heap, Value::Long(seconds(heap, r) as i64))),
        TimeMethod::DurationGetNano => on_ref(args, 0, |r: Reference| give_int(heap, nanos(heap, r) as i32)),
        TimeMethod::ToMillis => on_ref(args, 0, |r: Reference|
            give(heap, Value::Long((seconds(heap, r) * 1000 + tdiv(nanos(heap, r), 1_000_000)) as i64))),
        TimeMethod::ToMicros => on_ref(args, 0, |r: Reference|
            give(heap, Value::Long((seconds(heap, r) * 1_000_000 + tdiv(nanos(heap, r), 1000)) as i64))),
        TimeMethod::IsNegative => on_ref(args, 0, |r: Reference| give_bool(heap, seconds(heap, r) < 0)),
        TimeMethod::IsZero => on_ref(args, 0, |r: Reference|
            give_bool(heap, is_object(heap, r) && seconds(heap, r) == 0 && nanos(heap, r) == 0)),
        TimeMethod::DurationCompareTo => on_ref(args, 0, |o: Reference| on_ref(args, 1, |t: Reference|
            give_int(heap, compare_times(seconds(heap, t), nanos(heap, t), seconds(heap, o), nanos(heap, o))))),
        TimeMethod::DurationToString => on_ref(args, 0, |r: Reference|
            give_str(heap, duration_text(seconds(heap, r), nanos(heap, r)))),
    }
}

/// The inputs on which the natives' `long` and `int` arithmetic does not
/// overflow (where it would, the interpreter's arithmetic traps).
pub open spec fn time_pre(heap: Seq<Obj>, k: TimeMethod, args: Seq<Value>) -> bool {
    match k {
        TimeMethod::OfEpochSecondAdjusted => match (args[0], args[1]) {
            (Value::Long(e), Value::Long(adj)) => fits_long(e + tdiv(adj as int, 1_000_000_000)),
            _ => true,
        },
        TimeMethod::ToEpochMilli => match args[0] {
            Value::Reference(r) => fits_long(epoch(heap, r) * 1000)
                && fits_long(epoch(heap, r) * 1000 + tdiv(nanos(heap, r), 1_000_000)),
            _ => true,
        },
        TimeMethod::PlusSeconds | TimeMethod::MinusSeconds => match (args[0], args[1]) {
            (Value::Long(s), Value::Reference(t)) => fits_long(
                if k is PlusSeconds { epoch(heap, t) + s } else { epoch(heap, t) - s }),
            _ => true,
        },
        TimeMethod::PlusMillis | TimeMethod::MinusMillis => match (args[0], args[1]) {
            (Value::Long(m), Value::Reference(t)) => {
                let step = if k is PlusMillis { epoch(heap, t) * 1000 + m } else { epoch(heap, t) * 1000 - m };
                fits_long(epoch(heap, t) * 1000) && fits_long(step) && fits_long(step + tdiv(nanos(heap, t), 1_000_000))
            },
            _ => true,
        },
        TimeMethod::PlusNanos => match (args[0], args[1]) {
            (Value::Long(n), Value::Reference(t)) => fits_long(epoch(heap, t) * 1_000_000_000)
                && fits_long(epoch(heap, t) * 1_000_000_000 + n)
                && fits_long(epoch(heap, t) * 1_000_000_000 + n + nanos(heap, t)),
            _ => true,
        },
        TimeMethod::InstantCompareTo => match (args[0], args[1]) {
            (Value::Reference(o), Value::Reference(t)) => if epoch(heap, t) != epoch(heap, o) {
                fits_long(epoch(heap, t) - epoch(heap, o))
            } else {
                fits_int(nanos(heap, t) - nanos(heap, o))
            },
            _ => true,
        },
        TimeMethod::DurationCompareTo => match (args[0], args[1]) {
            (Value::Reference(o), Value::Reference(t)) => if seconds(heap, t) != seconds(heap, o) {
                fits_long(seconds(heap, t) - seconds(heap, o))
            } else {
                fits_int(nanos(heap, t) - nanos(heap, o))
            },
            _ => true,
        },
        TimeMethod::ToMillis => match args[0] {
            Value::Reference(r) => fits_long(seconds(heap, r) * 1000)
                && fits_long(seconds(heap, r) * 1000 + tdiv(nanos(heap, r), 1_000_000)),
            _ => true,
        },
        TimeMethod::ToMicros => match args[0] {
            Value::Reference(r) => fits_long(seconds(heap, r) * 1_000_000)
                && fits_long(seconds(heap, r) * 1_000_000 + tdiv(nanos(heap, r), 1000)),
            _ => true,
        },
        TimeMethod::DurationToString => match args[0] {
            Value::Reference(r) => seconds(heap, r) != i64::MIN,
            _ => true,
        },
        _ => true,
    }
}

/// `get_instant_epoch_second`: the `__epoch_second` field as a value.
pub fn get_instant_epoch_second(heap: &Heap, reference: Reference) -> (res: Result<Option<Value>, VmError>)
    ensures
        res == Ok::<Option<Value>, VmError>(match long_field(heap@, reference, "__epoch_second"@) {
            Some(x) => Some(Value::Long(x)),
            None => None,
        }),
{
    match heap.object_field(reference, "__epoch_second") {
        Some(Value::Long(x)) => Ok(Some(Value::Long(x))),
        _ => Ok(None),
    }
}

/// `get_instant_nano`: the `__nano` field as a value.
pub fn get_instant_nano(heap: &Heap, reference: Reference) -> (res: Result<Option<Value>, VmError>)
    ensures
        res == Ok::<Option<Value>, VmError>(match int_field(heap@, reference, "__nano"@) {
            Some(x) => Some(Value::Int(x)),
            None => None,
        }),
{
    match heap.object_field(reference, "__nano") {
        Some(Value::Int(x)) => Ok(Some(Value::Int(x))),
        _ => Ok(None),
    }
}

/// A `long` field, 0 when absent.
fn long_or_zero(heap: &Heap, r: Reference, name: &str) -> (res: i64)
    ensures
        res == long_or0(heap@, r, name@),
{
    match heap.object_field(r, name) {
        Some(Value::Long(x)) => x,
        _ => 0,
    }
}

/// An `int` field, 0 when absent.
fn int_or_zero(heap: &Heap, r: Reference, name: &str) -> (res: i32)
    ensures
        res == int_or0(heap@, r, name@),
{
    match heap.object_field(r, name) {
        Some(Value::Int(x)) => x,
        _ => 0,
    }
}

/// A new object with a `long` and an `int` field.
fn new_pair(heap: &mut Heap, class_name: &str, first: &str, a: i64, b: i32) -> (r: Reference)
    ensures
        r == next_ref(old(heap)@),
        final(heap)@ == old(heap)@.push(Obj::Object {
            class_name: class_name@,
            fields: seq![(first@, Value::Long(a)), ("__nano"@, Value::Int(b))],
        }),
{
    let mut fields = Vec::new();
    fields.push(crate::heap::field(first, Value::Long(a)));
    fields.push(crate::heap::field("__nano", Value::Int(b)));
    assert(fields_view(fields@) =~= seq![(first@, Value::Long(a)), ("__nano"@, Value::Int(b))]);
    heap.allocate(HeapValue::Object { class_name: lit(class_name), fields })
}

/// A new instant.
pub fn new_instant(heap: &mut Heap, epoch_second: i64, nano: i32) -> (r: Reference)
    ensures
        r == next_ref(old(heap)@),
        final(heap)@ == old(heap)@.push(instant_obj(epoch_second as int, nano as int)),
{
    new_pair(heap, "java/time/Instant", "__epoch_second", epoch_second, nano)
}

/// A new duration.
pub fn new_duration(heap: &mut Heap, secs: i64, nano: i32) -> (r: Reference)
    ensures
        r == next_ref(old(heap)@),
        final(heap)@ == old(heap)@.push(duration_obj(secs as int, nano as int)),
{
    new_pair(heap, "java/time/Duration", "__seconds", secs, nano)
}

/// `Instant.now` for a clock reading of whole seconds and nanoseconds since
/// the epoch.
pub fn instant_now(heap: &mut Heap, secs: u64, subsec_nanos: u32) -> (r: Reference)
    ensures
        r == next_ref(old(heap)@),
        final(heap)@ == old(heap)@.push(instant_obj((secs as i64) as int, (subsec_nanos as i32) as int)),
{
    new_instant(heap, secs as i64, subsec_nanos as i32)
}

/// `{:09}` of a nanosecond count.
fn nano_digits(n: i32) -> (res: Vec<char>)
    ensures
        res@ == nano_text(n as int),
{
    let neg = n < 0;
    let mag: u64 = if neg { (-(n as i64)) as u64 } else { n as u64 };
    let d = unsigned_digits(mag, 10);
    let width: usize = if neg { 8 } else { 9 };
    let mut res = Vec::new();
    if neg {
        res.push('-');
    }
    let mut k: usize = d.len();
    let ghost start = res@;
    while k < width
        invariant
            d.len() <= k <= width || (k == d.len() && k >= width),
            width == if neg { 8usize } else { 9usize },
            res@ == start + Seq::new((k - d.len()) as nat, |i: int| '0'),
        decreases width - k,
    {
        res.push('0');
        k = k + 1;
        assert(res@ =~= start + Seq::new((k - d.len()) as nat, |i: int| '0'));
    }
    append_chars(&mut res, &d);
    proof {
        let z = zeros(width - d@.len());
        assert(Seq::new((k - d.len()) as nat, |i: int| '0') =~= z);
        if neg {
            assert(start =~= seq!['-']);
        } else {
            assert(start =~= Seq::<char>::empty());
        }
        assert(res@ =~= nano_text(n as int));
    }
    res
}

/// The text `Instant.toString` gives.
pub fn instant_string(e: i64, n: i32) -> (res: Vec<char>)
    ensures
        res@ == instant_text(e as int, n as int),
{
    let mut res = long_to_decimal(e);
    res.push('.');
    let nd = nano_digits(n);
    append_chars(&mut res, &nd);
    res
}

/// The text `Duration.toString` gives.
pub fn duration_string(secs: i64, n: i32) -> (res: Vec<char>)
    requires
        secs != i64::MIN,
    ensures
        res@ == duration_text(secs as int, n as int),
{
    let mut res = Vec::new();
    if secs < 0 || (secs == 0 && n < 0) {
        res.push('-');
    }
    let pt = lit("PT");
    append_chars(&mut res, &pt);
    let mag: i64 = if secs < 0 { -secs } else { secs };
    let digits = long_to_decimal(mag);
    append_chars(&mut res, &digits);
    res.push('S');
    proof {
        reveal_strlit("S");
        assert("S"@ =~= seq!['S']);
        if secs < 0 || (secs == 0 && n < 0) {
            assert(res@ =~= duration_text(secs as int, n as int));
        } else {
            assert(res@ =~= duration_text(secs as int, n as int));
        }
    }
    res
}

/// -1, 0 or 1 comparing by seconds, then nanoseconds.
fn compare_pair(s1: i64, n1: i32, s2: i64, n2: i32) -> (res: i32)
    requires
        s1 != s2 ==> fits_long(s1 - s2),
        s1 == s2 ==> fits_int(n1 - n2),
    ensures
        res == compare_times(s1 as int, n1 as int, s2 as int, n2 as int),
{
    if s1 != s2 {
        let d = s1 - s2;
        if d < 0 { -1 } else if d == 0 { 0 } else { 1 }
    } else {
        let d = n1 - n2;
        if d < 0 { -1 } else if d == 0 { 0 } else { 1 }
    }
}

/// The instant natives that create an instant from numbers.
fn instant_of(heap: &mut Heap, k: TimeMethod, args: &[Value]) -> (res: Result<Option<Value>, VmError>)
    requires
        args@.len() >= time_arity(k),
        time_pre(old(heap)@, k, args@),
        k is OfEpochSecond || k is OfEpochSecondAdjusted || k is OfEpochMilli || k is OfSeconds
            || k is OfMillis || k is OfNanos,
    ensures
        answers(old(heap)@, final(heap)@, time_spec(old(heap)@, k, args@), res),
{
    match k {
        TimeMethod::OfEpochSecond => {
            let e = args[0].as_long()?;
            Ok(Some(Value::Reference(new_instant(heap, e, 0))))
        },
        TimeMethod::OfEpochSecondAdjusted => {
            let e = args[0].as_long()?;
            let adj = args[1].as_long()?;
            let q = adj / 1_000_000_000;
            let r = adj % 1_000_000_000;
            Ok(Some(Value::Reference(new_instant(heap, e + q, r as i32))))
        },
        TimeMethod::OfEpochMilli => {
            let m = args[0].as_long()?;
            let q = m / 1000;
            let r = m % 1000;
            Ok(Some(Value::Reference(new_instant(heap, q, (r * 1_000_000) as i32))))
        },
        TimeMethod::OfSeconds => {
            let s = args[0].as_long()?;
            Ok(Some(Value::Reference(new_duration(heap, s, 0))))
        },
        TimeMethod::OfMillis => {
            let m = args[0].as_long()?;
            let q = m / 1000;
            let r = m % 1000;
            Ok(Some(Value::Reference(new_duration(heap, q, (r * 1_000_000) as i32))))
        },
        _ => {
            let n = args[0].as_long()?;
            let q = n / 1_000_000_000;
            let r = n % 1_000_000_000;
            Ok(Some(Value::Reference(new_duration(heap, q, r as i32))))
        },
    }
}

/// The instant natives that derive a new instant from an instant.
fn instant_shift(heap: &mut Heap, k: TimeMethod, args: &[Value]) -> (res: Result<Option<Value>, VmError>)
    requires
        args@.len() >= time_arity(k),
        time_pre(old(heap)@, k, args@),
        k is PlusSeconds || k is PlusMillis || k is PlusNanos || k is MinusSeconds || k is MinusMillis,
    ensures
        answers(old(heap)@, final(heap)@, time_spec(old(heap)@, k, args@), res),
{
    let amount = args[0].as_long()?;
    let t = args[1].as_reference()?;
    let e = long_or_zero(heap, t, "__epoch_second");
    let n = int_or_zero(heap, t, "__nano");
    match k {
        TimeMethod::PlusSeconds => Ok(Some(Value::Reference(new_instant(heap, e + amount, n)))),
        TimeMethod::MinusSeconds => Ok(Some(Value::Reference(new_instant(heap, e - amount, n)))),
        TimeMethod::PlusNanos => {
            let total = (e * 1_000_000_000 + amount) + n as i64;
            Ok(Some(Value::Reference(new_instant(heap, total / 1_000_000_000, (total % 1_000_000_000) as i32))))
        },
        _ => {
            let base = e * 1000;
            let plus = match k {
                TimeMethod::PlusMillis => true,
                _ => false,
            };
            let step = if plus { base + amount } else { base - amount };
            let total = step + (n / 1_000_000) as i64;
            Ok(Some(Value::Reference(new_instant(heap, total / 1000, ((total % 1000) * 1_000_000) as i32))))
        },
    }
}

/// The natives that only read instants and durations.
fn time_query(heap: &mut Heap, k: TimeMethod, args: &[Value]) -> (res: Result<Option<Value>, VmError>)
    requires
        args@.len() >= time_arity(k),
        time_pre(old(heap)@, k, args@),
        !(k is OfEpochSecond || k is OfEpochSecondAdjusted || k is OfEpochMilli || k is OfSeconds
            || k is OfMillis || k is OfNanos || k is PlusSeconds || k is PlusMillis || k is PlusNanos
            || k is MinusSeconds || k is MinusMillis),
    ensures
        answers(old(heap)@, final(heap)@, time_spec(old(heap)@, k, args@), res),
{
    match k {
        TimeMethod::GetEpochSecond => {
            let r = args[0].as_reference()?;
            get_instant_epoch_second(heap, r)
        },
        TimeMethod::InstantGetNano => {
            let r = args[0].as_reference()?;
            get_instant_nano(heap, r)
        },
        TimeMethod::ToEpochMilli => {
            let r = args[0].as_reference()?;
            let e = long_or_zero(heap, r, "__epoch_second");
            let n = int_or_zero(heap, r, "__nano");
            Ok(Some(Value::Long(e * 1000 + (n / 1_000_000) as i64)))
        },
        TimeMethod::IsAfter | TimeMethod::IsBefore => {
            let o = args[0].as_reference()?;
            let t = args[1].as_reference()?;
            let te = long_or_zero(heap, t, "__epoch_second");
            let oe = long_or_zero(heap, o, "__epoch_second");
            let b = match k {
                TimeMethod::IsAfter => te > oe,
                _ => te < oe,
            };
            Ok(Some(Value::Int(if b { 1 } else { 0 })))
        },
        TimeMethod::InstantCompareTo => {
            let o = args[0].as_reference()?;
            let t = args[1].as_reference()?;
            let te = long_or_zero(heap, t, "__epoch_second");
            let tn = int_or_zero(heap, t, "__nano");
            let oe = long_or_zero(heap, o, "__epoch_second");
            let on = int_or_zero(heap, o, "__nano");
            Ok(Some(Value::Int(compare_pair(te, tn, oe, on))))
        },
        TimeMethod::InstantEquals => {
            let o = args[0].as_reference()?;
            let t = args[1].as_reference()?;
            if o == Reference::Null {
                return Ok(Some(Value::Int(0)));
            }
            let te = long_or_zero(heap, t, "__epoch_second");
            let tn = int_or_zero(heap, t, "__nano");
            let oe = long_or_zero(heap, o, "__epoch_second");
            let on = int_or_zero(heap, o, "__nano");
            Ok(Some(Value::Int(if te == oe && tn == on { 1 } else { 0 })))
        },
        TimeMethod::InstantHashCode => {
            let t = args[0].as_reference()?;
            let e = long_or_zero(heap, t, "__epoch_second");
            let n = int_or_zero(heap, t, "__nano");
            Ok(Some(Value::Int(((e ^ (e >> 32u64)) as i32) ^ n)))
        },
        TimeMethod::InstantToString => {
            let t = args[0].as_reference()?;
            let e = long_or_zero(heap, t, "__epoch_second");
            let n = int_or_zero(heap, t, "__nano");
            Ok(Some(heap.new_string(instant_string(e, n))))
        },
        TimeMethod::GetSeconds => {
            let r = args[0].as_reference()?;
            Ok(Some(Value::Long(long_or_zero(heap, r, "__seconds"))))
        },
        TimeMethod::DurationGetNano => {
            let r = args[0].as_reference()?;
            Ok(Some(Value::Int(int_or_zero(heap, r, "__nano"))))
        },
        TimeMethod::ToMillis => {
            let r = args[0].as_reference()?;
            let s = long_or_zero(heap, r, "__seconds");
            let n = int_or_zero(heap, r, "__nano");
            Ok(Some(Value::Long(s * 1000 + (n / 1_000_000) as i64)))
        },
        TimeMethod::ToMicros => {
            let r = args[0].as_reference()?;
            let s = long_or_zero(heap, r, "__seconds");
            let n = int_or_zero(heap, r, "__nano");
            Ok(Some(Value::Long(s * 1_000_000 + (n / 1000) as i64)))
        },
        TimeMethod::IsNegative => {
            let r = args[0].as_reference()?;
            let s = long_or_zero(heap, r, "__seconds");
            Ok(Some(Value::Int(if s < 0 { 1 } else { 0 })))
        },
        TimeMethod::IsZero => {
            let r = args[0].as_reference()?;
            let obj = match heap.get(r) {
                Ok(HeapValue::Object { .. }) => true,
                _ => false,
            };
            let s = long_or_zero(heap, r, "__seconds");
            let n = int_or_zero(heap, r, "__nano");
            Ok(Some(Value::Int(if obj && s == 0 && n == 0 { 1 } else { 0 })))
        },
        TimeMethod::DurationCompareTo => {
            let o = args[0].as_reference()?;
            let t = args[1].as_reference()?;
            let ts = long_or_zero(heap, t, "__seconds");
            let tn = int_or_zero(heap, t, "__nano");
            let os = long_or_zero(heap, o, "__seconds");
            let on = int_or_zero(heap, o, "__nano");
            Ok(Some(Value::Int(compare_pair(ts, tn, os, on))))
        },
        _ => {
            let r = args[0].as_reference()?;
            let s = long_or_zero(heap, r, "__seconds");
            let n = int_or_zero(heap, r, "__nano");
            Ok(Some(heap.new_string(duration_string(s, n))))
        },
    }
}

/// The native a call selects; an unknown call is the nameless exception
/// (`Instant.now`, which reads the clock, is the caller's).
pub fn time_method(class_name: &[char], name: &[char], descriptor: &[char]) -> (res: Result<TimeMethod, VmError>)
    ensures
        match res {
            Ok(k) => time_signature(k) == (class_name@, name@, descriptor@),
            Err(e) => raises(e, Fault::Exception(Seq::empty()))
                && forall|k: TimeMethod| time_signature(k) != (class_name@, name@, descriptor@),
        },
{
    let is_instant = eq_str(class_name, "java/time/Instant");
    let is_duration = eq_str(class_name, "java/time/Duration");
    if is_instant && eq_str(name, "ofEpochSecond") && eq_str(descriptor, "(J)Ljava/time/Instant;") {
        return Ok(TimeMethod::OfEpochSecond);
    }
    if is_instant && eq_str(name, "ofEpochSecond") && eq_str(descriptor, "(JJ)Ljava/time/Instant;") {
        return Ok(TimeMethod::OfEpochSecondAdjusted);
    }
    if is_instant && eq_str(name, "ofEpochMilli") && eq_str(descriptor, "(J)Ljava/time/Instant;") {
        return Ok(TimeMethod::OfEpochMilli);
    }
    if is_instant && eq_str(name, "getEpochSecond") && eq_str(descriptor, "()J") {
        return Ok(TimeMethod::GetEpochSecond);
    }
    if is_instant && eq_str(name, "getNano") && eq_str(descriptor, "()I") {
        return Ok(TimeMethod::InstantGetNano);
    }
    if is_instant && eq_str(name, "toEpochMilli") && eq_str(descriptor, "()J") {
        return Ok(TimeMethod::ToEpochMilli);
    }
    if is_instant && eq_str(name, "isAfter") && eq_str(descriptor, "(Ljava/time/Instant;)Z") {
        return Ok(TimeMethod::IsAfter);
    }
    if is_instant && eq_str(name, "isBefore") && eq_str(descriptor, "(Ljava/time/Instant;)Z") {
        return Ok(TimeMethod::IsBefore);
    }
    if is_instant && eq_str(name, "plusSeconds") && eq_str(descriptor, "(J)Ljava/time/Instant;") {
        return Ok(TimeMethod::PlusSeconds);
    }
    if is_instant && eq_str(name, "plusMillis") && eq_str(descriptor, "(J)Ljava/time/Instant;") {
        return Ok(TimeMethod::PlusMillis);
    }
    if is_instant && eq_str(name, "plusNanos") && eq_str(descriptor, "(J)Ljava/time/Instant;") {
        return Ok(TimeMethod::PlusNanos);
    }
    if is_instant && eq_str(name, "minusSeconds") && eq_str(descriptor, "(J)Ljava/time/Instant;") {
        return Ok(TimeMethod::MinusSeconds);
    }
    if is_instant && eq_str(name, "minusMillis") && eq_str(descriptor, "(J)Ljava/time/Instant;") {
        return Ok(TimeMethod::MinusMillis);
    }
    if is_instant && eq_str(name, "compareTo") && eq_str(descriptor, "(Ljava/time/Instant;)I") {
        return Ok(TimeMethod::InstantCompareTo);
    }
    if is_instant && eq_str(name, "equals") && eq_str(descriptor, "(Ljava/lang/Object;)Z") {
        return Ok(TimeMethod::InstantEquals);
    }
    if is_instant && eq_str(name, "hashCode") && eq_str(descriptor, "()I") {
        return Ok(TimeMethod::InstantHashCode);
    }
    if is_instant && eq_str(name, "toString") && eq_str(descriptor, "()Ljava/lang/String;") {
        return Ok(TimeMethod::InstantToString);
    }
    if is_duration && eq_str(name, "ofSeconds") && eq_str(descriptor, "(J)Ljava/time/Duration;") {
        return Ok(TimeMethod::OfSeconds);
    }
    if is_duration && eq_str(name, "ofMillis") && eq_str(descriptor, "(J)Ljava/time/Duration;") {
        return Ok(TimeMethod::OfMillis);
    }
    if is_duration && eq_str(name, "ofNanos") && eq_str(descriptor, "(J)Ljava/time/Duration;") {
        return Ok(TimeMethod::OfNanos);
    }
    if is_duration && eq_str(name, "getSeconds") && eq_str(descriptor, "()J") {
        return Ok(TimeMethod::GetSeconds);
    }
    if is_duration && eq_str(name, "getNano") && eq_str(descriptor, "()I") {
        return Ok(TimeMethod::DurationGetNano);
    }
    if is_duration && eq_str(name, "toMillis") && eq_str(descriptor, "()J") {
        return Ok(TimeMethod::ToMillis);
    }
    if is_duration && eq_str(name, "toMicros") && eq_str(descriptor, "()J") {
        return Ok(TimeMethod::ToMicros);
    }
    if is_duration && eq_str(name, "isNegative") && eq_str(descriptor, "()Z") {
        return Ok(TimeMethod::IsNegative);
    }
    if is_duration && eq_str(name, "isZero") && eq_str(descriptor, "()Z") {
        return Ok(TimeMethod::IsZero);
    }
    if is_duration && eq_str(name, "compareTo") && eq_str(descriptor, "(Ljava/time/Duration;)I") {
        return Ok(TimeMethod::DurationCompareTo);
    }
    if is_duration && eq_str(name, "toString") && eq_str(descriptor, "()Ljava/lang/String;") {
        return Ok(TimeMethod::DurationToString);
    }
    proof {
        assert forall|k: TimeMethod| time_signature(k) != (class_name@, name@, descriptor@) by {
            match k {
                TimeMethod::OfEpochSecond => {},
                TimeMethod::OfEpochSecondAdjusted => {},
                TimeMethod::OfEpochMilli => {},
                TimeMethod::GetEpochSecond => {},
                TimeMethod::InstantGetNano => {},
                TimeMethod::ToEpochMilli => {},
                TimeMethod::IsAfter => {},
                TimeMethod::IsBefore => {},
                TimeMethod::PlusSeconds => {},
                TimeMethod::PlusMillis => {},
                TimeMethod::PlusNanos => {},
                TimeMethod::MinusSeconds => {},
                TimeMethod::MinusMillis => {},
                TimeMethod::InstantCompareTo => {},
                TimeMethod::InstantEquals => {},
                TimeMethod::InstantHashCode => {},
                TimeMethod::InstantToString => {},
                TimeMethod::OfSeconds => {},
                TimeMethod::OfMillis => {},
                TimeMethod::OfNanos => {},
                TimeMethod::GetSeconds => {},
                TimeMethod::DurationGetNano => {},
                TimeMethod::ToMillis => {},
                TimeMethod::ToMicros => {},
                TimeMethod::IsNegative => {},
                TimeMethod::IsZero => {},
                TimeMethod::DurationCompareTo => {},
                TimeMethod::DurationToString => {},
            }
        }
        reveal_strlit("");
    }
    let e = exception("");
    assert(Seq::<char>::empty() =~= ""@);
    Err(e)
}

/// Runs a `java.time` native.
pub fn invoke_time(heap: &mut Heap, k: TimeMethod, args: &[Value]) -> (res: Result<Option<Value>, VmError>)
    requires
        args@.len() >= time_arity(k),
        time_pre(old(heap)@, k, args@),
    ensures
        answers(old(heap)@, final(heap)@, time_spec(old(heap)@, k, args@), res),
{
    match k {
        TimeMethod::OfEpochSecond | TimeMethod::OfEpochSecondAdjusted | TimeMethod::OfEpochMilli
        | TimeMethod::OfSeconds | TimeMethod::OfMillis | TimeMethod::OfNanos => instant_of(heap, k, args),
        TimeMethod::PlusSeconds | TimeMethod::PlusMillis | TimeMethod::PlusNanos
        | TimeMethod::MinusSeconds | TimeMethod::MinusMillis => instant_shift(heap, k, args),
        _ => time_query(heap, k, args),
    }
}


/// Whether a value fits a `long`.
fn long_fits(x: i128) -> (res: bool)
    ensures
        res == fits_long(x as int),
{
    -9223372036854775808i128 <= x && x <= 9223372036854775807i128
}

/// Whether a value fits an `int`.
fn int_fits(x: i128) -> (res: bool)
    ensures
        res == fits_int(x as int),
{
    -2147483648i128 <= x && x <= 2147483647i128
}

/// `tdiv` on machine integers.
fn truncating_div(a: i128, b: i128) -> (res: i128)
    requires
        b > 0,
        -0x1_0000_0000_0000_0000_0000i128 <= a <= 0x1_0000_0000_0000_0000_0000i128,
    ensures
        res as int == tdiv(a as int, b as int),
{
    if a >= 0 {
        a / b
    } else {
        -((-a) / b)
    }
}

/// Whether a time native can be run on these arguments: there are enough
/// of them and its arithmetic does not overflow (`time_pre`).
pub fn time_callable(heap: &Heap, k: TimeMethod, args: &[Value]) -> (res: bool)
    ensures
        res == (args@.len() >= time_arity(k) && time_pre(heap@, k, args@)),
{
    let two = match k {
        TimeMethod::OfEpochSecondAdjusted | TimeMethod::IsAfter | TimeMethod::IsBefore
        | TimeMethod::PlusSeconds | TimeMethod::PlusMillis | TimeMethod::PlusNanos
        | TimeMethod::MinusSeconds | TimeMethod::MinusMillis | TimeMethod::InstantCompareTo
        | TimeMethod::InstantEquals | TimeMethod::DurationCompareTo => true,
        _ => false,
    };
    if args.len() < (if two { 2 } else { 1 }) {
        return false;
    }
    match k {
        TimeMethod::OfEpochSecondAdjusted => match (args[0], args[1]) {
            (Value::Long(e), Value::Long(adj)) => long_fits(e as i128 + truncating_div(adj as i128, 1_000_000_000)),
            _ => true,
        },
        TimeMethod::ToEpochMilli => match args[0] {
            Value::Reference(r) => {
                let e = long_or_zero(heap, r, "__epoch_second") as i128;
                let n = int_or_zero(heap, r, "__nano") as i128;
                long_fits(e * 1000) && long_fits(e * 1000 + truncating_div(n, 1_000_000))
            },
            _ => true,
        },
        TimeMethod::PlusSeconds | TimeMethod::MinusSeconds => match (args[0], args[1]) {
            (Value::Long(s), Value::Reference(t)) => {
                let e = long_or_zero(heap, t, "__epoch_second") as i128;
                long_fits(if let TimeMethod::PlusSeconds = k { e + s as i128 } else { e - s as i128 })
            },
            _ => true,
        },
        TimeMethod::PlusMillis | TimeMethod::MinusMillis => match (args[0], args[1]) {
            (Value::Long(m), Value::Reference(t)) => {
                let e = long_or_zero(heap, t, "__epoch_second") as i128;
                let n = int_or_zero(heap, t, "__nano") as i128;
                let step = if let TimeMethod::PlusMillis = k { e * 1000 + m as i128 } else { e * 1000 - m as i128 };
                long_fits(e * 1000) && long_fits(step) && long_fits(step + truncating_div(n, 1_000_000))
            },
            _ => true,
        },
        TimeMethod::PlusNanos => match (args[0], args[1]) {
            (Value::Long(x), Value::Reference(t)) => {
                let e = long_or_zero(heap, t, "__epoch_second") as i128;
                let n = int_or_zero(heap, t, "__nano") as i128;
                long_fits(e * 1_000_000_000) && long_fits(e * 1_000_000_000 + x as i128)
                    && long_fits(e * 1_000_000_000 + x as i128 + n)
            },
            _ => true,
        },
        TimeMethod::InstantCompareTo | TimeMethod::DurationCompareTo => match (args[0], args[1]) {
            (Value::Reference(o), Value::Reference(t)) => {
                let field = if let TimeMethod::InstantCompareTo = k { "__epoch_second" } else { "__seconds" };
                let st = long_or_zero(heap, t, field) as i128;
                let so = long_or_zero(heap, o, field) as i128;
                if st != so {
                    long_fits(st - so)
                } else {
                    int_fits(int_or_zero(heap, t, "__nano") as i128 - int_or_zero(heap, o, "__nano") as i128)
                }
            },
            _ => true,
        },
        TimeMethod::ToMillis | TimeMethod::ToMicros => match args[0] {
            Value::Reference(r) => {
                let s = long_or_zero(heap, r, "__seconds") as i128;
                let n = int_or_zero(heap, r, "__nano") as i128;
                if let TimeMethod::ToMillis = k {
                    long_fits(s * 1000) && long_fits(s * 1000 + truncating_div(n, 1_000_000))
                } else {
                    long_fits(s * 1_000_000) && long_fits(s * 1_000_000 + truncating_div(n, 1000))
                }
            },
            _ => true,
        },
        TimeMethod::DurationToString => match args[0] {
            Value::Reference(r) => long_or_zero(heap, r, "__seconds") != i64::MIN,
            _ => true,
        },
        _ => true,
    }
}

} // verus!
