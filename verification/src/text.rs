//! Natives of `java.text.NumberFormat`, `DecimalFormat` and
//! `MessageFormat`. Formatting floating-point numbers is the caller's part.

use vstd::prelude::*;
use crate::chars::{eq_str, lit};
use crate::heap::{deref, deref_error, heap_set_field, Heap};
use crate::helpers::{append_chars, display_string, string_value, stringify_heap, stringify_reference};
use crate::model::{HeapValue, Obj, Reference, Value, VmError};
use crate::native::{answers, done, fail, give_str, on_int, on_long, on_ref, NativeResult};
use crate::numfmt::{decimal, int_to_decimal, long_to_decimal};
use crate::strings::{digit_value, digits_value, lemma_digits_grow};

verus! {

broadcast use vstd::seq_lib::group_seq_properties;

/// An ASCII decimal digit (`char::is_digit(10)`).
pub open spec fn is_digit(c: char) -> bool {
    '0' <= c <= '9'
}

/// The end of the run of digits starting at `i`.
pub open spec fn digit_run(p: Seq<char>, i: int) -> int
    decreases p.len() - i,
{
    if 0 <= i < p.len() && is_digit(p[i]) {
        digit_run(p, i + 1)
    } else {
        i
    }
}

pub proof fn lemma_digit_run(p: Seq<char>, i: int)
    requires
        0 <= i <= p.len(),
    ensures
        i <= digit_run(p, i) <= p.len(),
        forall|k: int| i <= k < digit_run(p, i) ==> is_digit(#[trigger] p[k]),
    decreases p.len() - i,
{
    if i < p.len() && is_digit(p[i]) {
        lemma_digit_run(p, i + 1);
    }
}

/// The argument a `{n}` placeholder names, or nothing when there is no such
/// argument.
pub open spec fn arg_text(idx: Seq<char>, args: Seq<Seq<char>>) -> Seq<char> {
    if idx.len() > 0 {
        match digits_value(idx, 10) {
            Some(v) => if v < args.len() { args[v] } else { Seq::empty() },
            None => Seq::empty(),
        }
    } else {
        Seq::empty()
    }
}

/// `MessageFormat` as implemented here, from position `i`: `{n}` is replaced
/// by argument `n`; `{n{` is kept as `{n` followed by what comes after; a
/// `{n` followed by any other character keeps `{n` and drops that
/// character; other characters are copied.
pub open spec fn message_from(p: Seq<char>, i: int, args: Seq<Seq<char>>) -> Seq<char>
    decreases p.len() - i,
{
    if i < 0 || i >= p.len() {
        Seq::empty()
    } else if p[i] != '{' {
        seq![p[i]] + message_from(p, i + 1, args)
    } else {
        let j = digit_run(p, i + 1);
        proof {
            lemma_digit_run(p, i + 1);
        }
        let idx = p.subrange(i + 1, j);
        if j < p.len() {
            let piece = if p[j] == '}' { arg_text(idx, args) } else { seq!['{'] + idx };
            piece + message_from(p, j + 1, args)
        } else {
            seq!['{'] + idx
        }
    }
}

/// `simple_message_format`.
pub open spec fn message_format(p: Seq<char>, args: Seq<Seq<char>>) -> Seq<char> {
    message_from(p, 0, args)
}

/// The index a run of digits names, if it is below `limit`.
fn arg_index(idx: &Vec<char>, limit: usize) -> (res: Option<usize>)
    requires
        idx@.len() > 0,
        forall|k: int| 0 <= k < idx@.len() ==> is_digit(#[trigger] idx@[k]),
    ensures
        match res {
            Some(v) => digits_value(idx@, 10) == Some(v as int) && v < limit,
            None => digits_value(idx@, 10) matches Some(v) ==> v >= limit,
        },
{
    let mut v: u128 = 0;
    let mut i: usize = 0;
    while i < idx.len()
        invariant
            i <= idx@.len(),
            forall|k: int| 0 <= k < idx@.len() ==> is_digit(#[trigger] idx@[k]),
            digits_value(idx@.subrange(0, i as int), 10) == Some(v as int),
            v <= limit,
        decreases idx@.len() - i,
    {
        let c = idx[i];
        let d = (c as u32 - 48) as u128;
        assert(idx@.subrange(0, i + 1).drop_last() =~= idx@.subrange(0, i as int));
        assert(idx@.subrange(0, i + 1).last() == c);
        assert(is_digit(c));
        assert(digit_value(c) == d);
        v = v * 10 + d;
        i = i + 1;
        if v > limit as u128 {
            proof {
                lemma_digits_grow(idx@, 10, i as int);
            }
            return None;
        }
    }
    assert(idx@.subrange(0, idx@.len() as int) =~= idx@);
    if v < limit as u128 {
        Some(v as usize)
    } else {
        None
    }
}

/// `simple_message_format`: fills the `{n}` placeholders of a pattern.
pub fn simple_message_format(pattern: &Vec<char>, args: &Vec<Vec<char>>) -> (res: Vec<char>)
    ensures
        res@ == message_format(pattern@, args@.map_values(|a: Vec<char>| a@)),
{
    let ghost av = args@.map_values(|a: Vec<char>| a@);
    let p = pattern;
    let n = p.len();
    let mut out: Vec<char> = Vec::new();
    let mut i: usize = 0;
    while i < n
        invariant
            n == p@.len(),
            i <= n,
            av == args@.map_values(|a: Vec<char>| a@),
            out@ + message_from(p@, i as int, av) == message_from(p@, 0, av),
        decreases n - i,
    {
        let c = p[i];
        if c != '{' {
            out.push(c);
            proof {
                assert(out@ + message_from(p@, i + 1, av) =~= message_from(p@, 0, av));
            }
            i = i + 1;
        } else {
            let mut j = i + 1;
            while j < n && '0' <= p[j] && p[j] <= '9'
                invariant
                    n == p@.len(),
                    i + 1 <= j <= n,
                    digit_run(p@, i + 1) == digit_run(p@, j as int),
                decreases n - j,
            {
                j = j + 1;
            }
            let idx = crate::descriptors::sub_chars(p, i + 1, j);
            proof {
                lemma_digit_run(p@, i + 1);
            }
            let ghost before = out@;
            if j < n {
                let d = p[j];
                if d == '}' {
                    if idx.len() > 0 {
                        match arg_index(&idx, args.len()) {
                            Some(k) => {
                                append_chars(&mut out, &args[k]);
                            },
                            None => {},
                        }
                    }
                } else {
                    out.push('{');
                    append_chars(&mut out, &idx);
                }
                proof {
                    let piece = if d == '}' { arg_text(idx@, av) } else { seq!['{'] + idx@ };
                    assert(out@ =~= before + piece);
                    assert(message_from(p@, i as int, av) == piece + message_from(p@, j + 1, av));
                    assert(out@ + message_from(p@, j + 1, av) =~= before + message_from(p@, i as int, av));
                }
                i = j + 1;
            } else {
                out.push('{');
                append_chars(&mut out, &idx);
                proof {
                    assert(out@ + message_from(p@, n as int, av) =~= before + message_from(p@, i as int, av));
                }
                i = n;
            }
        }
    }
    out
}

/// `get_array_length`: the length of any array as an `int`, 0 for other
/// cells.
pub open spec fn array_length(heap: Seq<Obj>, arr: Reference) -> Result<i32, VmError> {
    match deref(heap, arr) {
        None => Err(deref_error(arr)),
        Some(Obj::RefArray { values, .. }) => Ok(values.len() as i32),
        Some(Obj::IntArray(v)) => Ok(v.len() as i32),
        Some(Obj::LongArray(v)) => Ok(v.len() as i32),
        Some(Obj::DoubleArray(v)) => Ok(v.len() as i32),
        Some(Obj::FloatArray(v)) => Ok(v.len() as i32),
        Some(_) => Ok(0),
    }
}

pub fn get_array_length(heap: &Heap, arr_ref: Reference) -> (res: Result<i32, VmError>)
    ensures
        res == array_length(heap@, arr_ref),
{
    match heap.get(arr_ref)? {
        HeapValue::ReferenceArray { values, .. } => Ok(values.len() as i32),
        HeapValue::IntArray { values } => Ok(values.len() as i32),
        HeapValue::LongArray { values } => Ok(values.len() as i32),
        HeapValue::DoubleArray { values } => Ok(values.len() as i32),
        HeapValue::FloatArray { values } => Ok(values.len() as i32),
        _ => Ok(0),
    }
}

/// `get_array_element`: an element of a reference array, `null` past its
/// end or for any other cell.
pub open spec fn element_ref(heap: Seq<Obj>, arr: Reference, index: i32) -> Reference {
    match deref(heap, arr) {
        Some(Obj::RefArray { values, .. }) => {
            let i = index as usize;
            if i < values.len() { values[i as int] } else { Reference::Null }
        },
        _ => Reference::Null,
    }
}

pub fn get_array_element(heap: &Heap, arr_ref: Reference, index: i32) -> (res: Result<Reference, VmError>)
    ensures
        match res {
            Ok(r) => deref(heap@, arr_ref) is Some && r == element_ref(heap@, arr_ref, index),
            Err(e) => deref(heap@, arr_ref) is None && e == deref_error(arr_ref),
        },
{
    match heap.get(arr_ref)? {
        HeapValue::ReferenceArray { values, .. } => {
            let i = index as usize;
            if i < values.len() {
                Ok(values[i])
            } else {
                Ok(Reference::Null)
            }
        },
        _ => Ok(Reference::Null),
    }
}

/// The text a `MessageFormat` argument contributes.
pub open spec fn element_text(heap: Seq<Obj>, r: Reference) -> Result<Seq<char>, VmError> {
    if r == Reference::Null {
        Ok("null"@)
    } else {
        display_string(heap, r)
    }
}

/// The texts of the first `n` elements, or the first error.
pub open spec fn element_texts(heap: Seq<Obj>, arr: Reference, n: nat) -> Result<Seq<Seq<char>>, VmError>
    decreases n,
{
    if n == 0 {
        Ok(Seq::empty())
    } else {
        match element_texts(heap, arr, (n - 1) as nat) {
            Err(e) => Err(e),
            Ok(ts) => match element_text(heap, element_ref(heap, arr, (n - 1) as i32)) {
                Err(e) => Err(e),
                Ok(t) => Ok(ts.push(t)),
            },
        }
    }
}

/// The `java.text` natives (the floating-point `format` overloads are the
/// caller's).
#[derive(Clone, Copy, PartialEq, Eq, Structural, Debug)]
pub enum TextMethod {
    NumberFormatInt,
    NumberFormatLong,
    NumberFormatObject,
    DecimalFormatInit,
    ApplyPattern,
    DecimalFormatInt,
    DecimalFormatLong,
    SetMaximumFractionDigits,
    SetMinimumFractionDigits,
    SetMaximumIntegerDigits,
    SetMinimumIntegerDigits,
    MessageFormatInit,
    MessageFormatStatic,
    MessageFormatObject,
}

pub open spec fn text_signature(k: TextMethod) -> (Seq<char>, Seq<char>, Seq<char>) {
    let nf = "java/text/NumberFormat"@;
    let df = "java/text/DecimalFormat"@;
    let mf = "java/text/MessageFormat"@;
    match k {
        TextMethod::NumberFormatInt => (nf, "format"@, "(I)Ljava/lang/String;"@),
        TextMethod::NumberFormatLong => (nf, "format"@, "(J)Ljava/lang/String;"@),
        TextMethod::NumberFormatObject => (nf, "format"@, "(Ljava/lang/Object;)Ljava/lang/String;"@),
        TextMethod::DecimalFormatInit => (df, "<init>"@, "(Ljava/lang/String;)V"@),
        TextMethod::ApplyPattern => (df, "applyPattern"@, "(Ljava/lang/String;)V"@),
        TextMethod::DecimalFormatInt => (df, "format"@, "(I)Ljava/lang/String;"@),
        TextMethod::DecimalFormatLong => (df, "format"@, "(J)Ljava/lang/String;"@),
        TextMethod::SetMaximumFractionDigits => (df, "setMaximumFractionDigits"@, "(I)V"@),
        TextMethod::SetMinimumFractionDigits => (df, "setMinimumFractionDigits"@, "(I)V"@),
        TextMethod::SetMaximumIntegerDigits => (df, "setMaximumIntegerDigits"@, "(I)V"@),
        TextMethod::SetMinimumIntegerDigits => (df, "setMinimumIntegerDigits"@, "(I)V"@),
        TextMethod::MessageFormatInit => (mf, "<init>"@, "(Ljava/lang/String;)V"@),
        TextMethod::MessageFormatStatic => (mf, "format"@, "(Ljava/lang/String;[Ljava/lang/Object;)Ljava/lang/String;"@),
        TextMethod::MessageFormatObject => (mf, "format"@, "(Ljava/lang/Object;)Ljava/lang/String;"@),
    }
}

pub open spec fn text_arity(k: TextMethod) -> nat {
    match k {
        TextMethod::ApplyPattern | TextMethod::MessageFormatInit | TextMethod::MessageFormatStatic => 2,
        TextMethod::SetMaximumFractionDigits | TextMethod::SetMinimumFractionDigits
        | TextMethod::SetMaximumIntegerDigits | TextMethod::SetMinimumIntegerDigits => 0,
        _ => 1,
    }
}

/// Records a pattern in a format object's `__pattern` field.
pub open spec fn set_pattern(heap: Seq<Obj>, this: Reference, pattern: Reference) -> NativeResult {
    done(heap_set_field(heap, this, "__pattern"@, Value::Reference(pattern)), None)
}

/// What each `java.text` native does.
pub open spec fn text_spec(heap: Seq<Obj>, k: TextMethod, args: Seq<Value>) -> NativeResult {
    match k {
        TextMethod::NumberFormatInt | TextMethod::DecimalFormatInt => on_int(args, 0,
            |v: i32| give_str(heap, decimal(v as int))),
        TextMethod::NumberFormatLong | TextMethod::DecimalFormatLong => on_long(args, 0,
            |v: i64| give_str(heap, decimal(v as int))),
        TextMethod::NumberFormatObject | TextMethod::MessageFormatObject => on_ref(args, 0,
            |r: Reference| match display_string(heap, r) {
                Err(e) => fail(e),
                Ok(s) => give_str(heap, s),
            }),
        TextMethod::DecimalFormatInit => on_ref(args, 0, |pr: Reference| on_ref(args, args.len() - 1,
            |this: Reference| match string_value(heap, pr) {
                Err(e) => fail(e),
                Ok(_) => set_pattern(heap, this, pr),
            })),
        TextMethod::ApplyPattern | TextMethod::MessageFormatInit => on_ref(args, 0, |pr: Reference| on_ref(args, 1,
            |this: Reference| set_pattern(heap, this, pr))),
        TextMethod::SetMaximumFractionDigits | TextMethod::SetMinimumFractionDigits
        | TextMethod::SetMaximumIntegerDigits | TextMethod::SetMinimumIntegerDigits => done(heap, None),
        TextMethod::MessageFormatStatic => on_ref(args, 0, |pr: Reference| on_ref(args, 1, |ar: Reference|
            match string_value(heap, pr) {
                Err(e) => fail(e),
                Ok(p) => match array_length(heap, ar) {
                    Err(e) => fail(e),
                    Ok(count) => match element_texts(heap, ar, if count > 0 { count as nat } else { 0 }) {
                        Err(e) => fail(e),
                        Ok(ts) => give_str(heap, message_format(p, ts)),
                    },
                },
            })),
    }
}

/// The native a call selects, if it is one of these.
pub fn text_method(class_name: &[char], name: &[char], descriptor: &[char]) -> (res: Option<TextMethod>)
    ensures
        match res {
            Some(k) => text_signature(k) == (class_name@, name@, descriptor@),
            None => forall|k: TextMethod| text_signature(k) != (class_name@, name@, descriptor@),
        },
{
    let nf = eq_str(class_name, "java/text/NumberFormat");
    let df = eq_str(class_name, "java/text/DecimalFormat");
    let mf = eq_str(class_name, "java/text/MessageFormat");
    let n = name;
    let d = descriptor;
    if nf && eq_str(n, "format") && eq_str(d, "(I)Ljava/lang/String;") {
        return Some(TextMethod::NumberFormatInt);
    }
    if nf && eq_str(n, "format") && eq_str(d, "(J)Ljava/lang/String;") {
        return Some(TextMethod::NumberFormatLong);
    }
    if nf && eq_str(n, "format") && eq_str(d, "(Ljava/lang/Object;)Ljava/lang/String;") {
        return Some(TextMethod::NumberFormatObject);
    }
    if df && eq_str(n, "<init>") && eq_str(d, "(Ljava/lang/String;)V") {
        return Some(TextMethod::DecimalFormatInit);
    }
    if df && eq_str(n, "applyPattern") && eq_str(d, "(Ljava/lang/String;)V") {
        return Some(TextMethod::ApplyPattern);
    }
    if df && eq_str(n, "format") && eq_str(d, "(I)Ljava/lang/String;") {
        return Some(TextMethod::DecimalFormatInt);
    }
    if df && eq_str(n, "format") && eq_str(d, "(J)Ljava/lang/String;") {
        return Some(TextMethod::DecimalFormatLong);
    }
    if df && eq_str(n, "setMaximumFractionDigits") && eq_str(d, "(I)V") {
        return Some(TextMethod::SetMaximumFractionDigits);
    }
    if df && eq_str(n, "setMinimumFractionDigits") && eq_str(d, "(I)V") {
        return Some(TextMethod::SetMinimumFractionDigits);
    }
    if df && eq_str(n, "setMaximumIntegerDigits") && eq_str(d, "(I)V") {
        return Some(TextMethod::SetMaximumIntegerDigits);
    }
    if df && eq_str(n, "setMinimumIntegerDigits") && eq_str(d, "(I)V") {
        return Some(TextMethod::SetMinimumIntegerDigits);
    }
    if mf && eq_str(n, "<init>") && eq_str(d, "(Ljava/lang/String;)V") {
        return Some(TextMethod::MessageFormatInit);
    }
    if mf && eq_str(n, "format") && eq_str(d, "(Ljava/lang/String;[Ljava/lang/Object;)Ljava/lang/String;") {
        return Some(TextMethod::MessageFormatStatic);
    }
    if mf && eq_str(n, "format") && eq_str(d, "(Ljava/lang/Object;)Ljava/lang/String;") {
        return Some(TextMethod::MessageFormatObject);
    }
    proof {
        assert forall|k: TextMethod| text_signature(k) != (class_name@, name@, descriptor@) by {
            match k {
                TextMethod::NumberFormatInt => {},
                TextMethod::NumberFormatLong => {},
                TextMethod::NumberFormatObject => {},
                TextMethod::DecimalFormatInit => {},
                TextMethod::ApplyPattern => {},
                TextMethod::DecimalFormatInt => {},
                TextMethod::DecimalFormatLong => {},
                TextMethod::SetMaximumFractionDigits => {},
                TextMethod::SetMinimumFractionDigits => {},
                TextMethod::SetMaximumIntegerDigits => {},
                TextMethod::SetMinimumIntegerDigits => {},
                TextMethod::MessageFormatInit => {},
                TextMethod::MessageFormatStatic => {},
                TextMethod::MessageFormatObject => {},
            }
        }
    }
    None
}

/// The argument texts of `MessageFormat.format`.
fn argument_texts(heap: &Heap, ar: Reference, count: i32) -> (res: Result<Vec<Vec<char>>, VmError>)
    requires
        deref(heap@, ar) is Some,
    ensures
        match res {
            Ok(ts) => element_texts(heap@, ar, if count > 0 { count as nat } else { 0 })
                == Ok::<Seq<Seq<char>>, VmError>(ts@.map_values(|t: Vec<char>| t@)),
            Err(e) => element_texts(heap@, ar, if count > 0 { count as nat } else { 0 })
                == Err::<Seq<Seq<char>>, VmError>(e),
        },
{
    let mut out: Vec<Vec<char>> = Vec::new();
    let mut i: i32 = 0;
    let n: i32 = if count > 0 { count } else { 0 };
    assert(out@.map_values(|t: Vec<char>| t@) =~= Seq::<Seq<char>>::empty());
    while i < n
        invariant
            0 <= i <= n,
            n == if count > 0 { count } else { 0 },
            deref(heap@, ar) is Some,
            element_texts(heap@, ar, i as nat) == Ok::<Seq<Seq<char>>, VmError>(out@.map_values(|t: Vec<char>| t@)),
        decreases n - i,
    {
        let r = get_array_element(heap, ar, i)?;
        let t = if r != Reference::Null {
            match stringify_heap(heap, r) {
                Ok(t) => t,
                Err(e) => {
                    proof {
                        lemma_texts_error_stays(heap@, ar, (i + 1) as nat, n as nat, e);
                    }
                    return Err(e);
                },
            }
        } else {
            lit("null")
        };
        let ghost prev = out@.map_values(|t: Vec<char>| t@);
        out.push(t);
        assert(out@.map_values(|t: Vec<char>| t@) =~= prev.push(t@));
        i = i + 1;
    }
    Ok(out)
}

/// An error among the first `k` elements is the error of the first `n`.
proof fn lemma_texts_error_stays(heap: Seq<Obj>, ar: Reference, k: nat, n: nat, e: VmError)
    requires
        k <= n,
        element_texts(heap, ar, k) == Err::<Seq<Seq<char>>, VmError>(e),
    ensures
        element_texts(heap, ar, n) == Err::<Seq<Seq<char>>, VmError>(e),
    decreases n - k,
{
    if k < n {
        lemma_texts_error_stays(heap, ar, k + 1, n, e);
    }
}

/// Runs a `java.text` native.
pub fn invoke_text(heap: &mut Heap, k: TextMethod, args: &[Value]) -> (res: Result<Option<Value>, VmError>)
    requires
        args@.len() >= text_arity(k),
    ensures
        answers(old(heap)@, final(heap)@, text_spec(old(heap)@, k, args@), res),
{
    match k {
        TextMethod::NumberFormatInt | TextMethod::DecimalFormatInt => {
            let v = args[0].as_int()?;
            Ok(Some(heap.new_string(int_to_decimal(v))))
        },
        TextMethod::NumberFormatLong | TextMethod::DecimalFormatLong => {
            let v = args[0].as_long()?;
            Ok(Some(heap.new_string(long_to_decimal(v))))
        },
        TextMethod::NumberFormatObject | TextMethod::MessageFormatObject => {
            let r = args[0].as_reference()?;
            let s = stringify_heap(heap, r)?;
            Ok(Some(heap.new_string(s)))
        },
        TextMethod::DecimalFormatInit => {
            let pr = args[0].as_reference()?;
            let this = args[args.len() - 1].as_reference()?;
            let _pattern = stringify_reference(heap, pr)?;
            heap.set_object_field(this, "__pattern", Value::Reference(pr));
            Ok(None)
        },
        TextMethod::ApplyPattern | TextMethod::MessageFormatInit => {
            let pr = args[0].as_reference()?;
            let this = args[1].as_reference()?;
            heap.set_object_field(this, "__pattern", Value::Reference(pr));
            Ok(None)
        },
        TextMethod::SetMaximumFractionDigits | TextMethod::SetMinimumFractionDigits
        | TextMethod::SetMaximumIntegerDigits | TextMethod::SetMinimumIntegerDigits => Ok(None),
        TextMethod::MessageFormatStatic => {
            let pr = args[0].as_reference()?;
            let ar = args[1].as_reference()?;
            let p = stringify_reference(heap, pr)?;
            let count = get_array_length(heap, ar)?;
            let texts = argument_texts(heap, ar, count)?;
            let s = simple_message_format(&p, &texts);
            Ok(Some(heap.new_string(s)))
        },
    }
}


/// How many arguments a native reads (receiver included).
pub fn text_arg_count(k: TextMethod) -> (n: usize)
    ensures
        n == text_arity(k),
{
    match k {
        TextMethod::ApplyPattern | TextMethod::MessageFormatInit | TextMethod::MessageFormatStatic => 2,
        TextMethod::SetMaximumFractionDigits | TextMethod::SetMinimumFractionDigits
        | TextMethod::SetMaximumIntegerDigits | TextMethod::SetMinimumIntegerDigits => 0,
        _ => 1,
    }
}

} // verus!
