//! The `java.lang.Thread` natives that keep a thread's settings in its
//! named fields: construction, the name, priority, daemon flag, group,
//! context class loader and uncaught-exception handler, and the id. Starting,
//! running and joining threads, and their liveness and interruption, belong
//! to the interpreter.

use vstd::prelude::*;
use crate::chars::{eq_str, lit};
use crate::handles::{get_field, get_object_field};
use crate::heap::{deref, deref_error, heap_set_field, Heap};
use crate::model::{obj_kind, Expected, Fault, HeapValue, Obj, Reference, Value, VmError};
use crate::native::{answers, done, fail, give, on_ref, NativeResult};
use crate::numfmt::{radix_digits, unsigned_digits};
use crate::other::put_field;

verus! {

/// The settings a thread keeps in named fields.
#[derive(Clone, Copy, PartialEq, Eq, Structural, Debug)]
pub enum ThreadField {
    Name,
    Priority,
    Daemon,
    ThreadGroup,
    ContextClassLoader,
    UncaughtExceptionHandler,
}

pub open spec fn thread_field_name(f: ThreadField) -> Seq<char> {
    match f {
        ThreadField::Name => "name"@,
        ThreadField::Priority => "priority"@,
        ThreadField::Daemon => "daemon"@,
        ThreadField::ThreadGroup => "threadGroup"@,
        ThreadField::ContextClassLoader => "contextClassLoader"@,
        ThreadField::UncaughtExceptionHandler => "uncaughtExceptionHandler"@,
    }
}

fn thread_field_text(f: ThreadField) -> (s: &'static str)
    ensures
        s@ == thread_field_name(f),
{
    match f {
        ThreadField::Name => "name",
        ThreadField::Priority => "priority",
        ThreadField::Daemon => "daemon",
        ThreadField::ThreadGroup => "threadGroup",
        ThreadField::ContextClassLoader => "contextClassLoader",
        ThreadField::UncaughtExceptionHandler => "uncaughtExceptionHandler",
    }
}

/// The thread natives of this module.
#[derive(Clone, Copy, PartialEq, Eq, Structural, Debug)]
pub enum ThreadMethod {
    /// `<init>()` (no target) or `<init>(Runnable)`.
    Init(bool),
    Get(ThreadField),
    Put(ThreadField),
    GetId,
    /// The other `Thread` natives, and every `ThreadGroup` native: nothing
    /// to do.
    Inert,
}

/// The getter and setter names and descriptors of a setting.
pub open spec fn accessor(f: ThreadField) -> (Seq<char>, Seq<char>, Seq<char>, Seq<char>) {
    match f {
        ThreadField::Name => ("getName"@, "()Ljava/lang/String;"@, "setName"@, "(Ljava/lang/String;)V"@),
        ThreadField::Priority => ("getPriority"@, "()I"@, "setPriority"@, "(I)V"@),
        ThreadField::Daemon => ("isDaemon"@, "()Z"@, "setDaemon"@, "(Z)V"@),
        ThreadField::ThreadGroup => ("getThreadGroup"@, "()Ljava/lang/ThreadGroup;"@, ""@, ""@),
        ThreadField::ContextClassLoader => ("getContextClassLoader"@, "()Ljava/lang/ClassLoader;"@,
            "setContextClassLoader"@, "(Ljava/lang/ClassLoader;)V"@),
        ThreadField::UncaughtExceptionHandler => ("getUncaughtExceptionHandler"@,
            "()Ljava/lang/Thread$UncaughtExceptionHandler;"@, "setUncaughtExceptionHandler"@,
            "(Ljava/lang/Thread$UncaughtExceptionHandler;)V"@),
    }
}

/// The `Thread` natives the interpreter runs itself.
pub open spec fn interpreter_thread_native(n: Seq<char>, d: Seq<char>) -> bool {
    (n == "currentThread"@ && d == "()Ljava/lang/Thread;"@) || (n == "start"@ && d == "()V"@)
        || (n == "run"@ && d == "()V"@) || (n == "join"@ && d == "()V"@) || (n == "isAlive"@ && d == "()Z"@)
        || (n == "isInterrupted"@ && d == "()Z"@) || (n == "interrupt"@ && d == "()V"@)
}

/// The natives a setting's getter or setter, the constructors and `getId`
/// are.
pub open spec fn specific(n: Seq<char>, d: Seq<char>) -> bool {
    (n == "<init>"@ && (d == "()V"@ || d == "(Ljava/lang/Runnable;)V"@)) || (n == "getId"@ && d == "()J"@)
        || exists|f: ThreadField| #![auto] (accessor(f).0 == n && accessor(f).1 == d)
            || (accessor(f).2.len() > 0 && accessor(f).2 == n && accessor(f).3 == d)
}

/// Whether a native is the one a class, name and descriptor select.
pub open spec fn thread_matches(k: ThreadMethod, c: Seq<char>, n: Seq<char>, d: Seq<char>) -> bool {
    let thread = c == "java/lang/Thread"@ && !interpreter_thread_native(n, d);
    match k {
        ThreadMethod::Init(with_target) => thread && n == "<init>"@
            && d == (if with_target { "(Ljava/lang/Runnable;)V"@ } else { "()V"@ }),
        ThreadMethod::GetId => thread && n == "getId"@ && d == "()J"@,
        ThreadMethod::Get(f) => thread && accessor(f).0 == n && accessor(f).1 == d,
        ThreadMethod::Put(f) => thread && accessor(f).2.len() > 0 && accessor(f).2 == n && accessor(f).3 == d,
        ThreadMethod::Inert => c == "java/lang/ThreadGroup"@ || (thread && !specific(n, d)),
    }
}

pub open spec fn thread_arity(k: ThreadMethod) -> nat {
    match k {
        ThreadMethod::Init(true) | ThreadMethod::Put(_) => 2,
        ThreadMethod::Inert => 0,
        _ => 1,
    }
}

/// The name a new thread gets: `Thread-` and its heap index.
pub open spec fn thread_name(index: usize) -> Seq<char> {
    "Thread-"@ + radix_digits(index as nat, 10)
}

/// The heap after a constructor sets a thread's fields, in order.
pub open spec fn initialized(heap: Seq<Obj>, r: Reference, target: Value, name: Value) -> Seq<Obj> {
    let null = Value::Reference(Reference::Null);
    let h1 = heap_set_field(heap, r, "target"@, target);
    let h2 = heap_set_field(h1, r, "name"@, name);
    let h3 = heap_set_field(h2, r, "priority"@, Value::Int(5));
    let h4 = heap_set_field(h3, r, "daemon"@, Value::Int(0));
    let h5 = heap_set_field(h4, r, "threadGroup"@, null);
    let h6 = heap_set_field(h5, r, "contextClassLoader"@, null);
    heap_set_field(h6, r, "uncaughtExceptionHandler"@, null)
}

/// What a constructor gives and the heap after it: the name string is
/// allocated first, so a receiver that is not an object fails after it.
pub open spec fn thread_init(heap: Seq<Obj>, r: Reference, target: Value) -> (Result<Option<Value>, Fault>, Seq<Obj>) {
    match r {
        Reference::Null => (Err(Fault::Error(VmError::NullReference)), heap),
        Reference::Heap(i) => {
            let h1 = heap.push(Obj::Str(thread_name(i)));
            let name = Value::Reference(Reference::Heap(heap.len() as usize));
            match deref(h1, r) {
                None => (Err(Fault::Error(deref_error(r))), h1),
                Some(Obj::Object { .. }) => (Ok(None), initialized(h1, r, target, name)),
                Some(o) => (Err(Fault::Error(VmError::InvalidHeapValue { expected: Expected::Object, actual: obj_kind(o) })), h1),
            }
        },
    }
}

/// What the other natives do.
pub open spec fn thread_spec(heap: Seq<Obj>, k: ThreadMethod, args: Seq<Value>) -> NativeResult {
    match k {
        ThreadMethod::Inert => done(heap, None),
        _ => on_ref(args, 0, |r: Reference| match k {
            ThreadMethod::Get(f) => match get_field(heap, r, thread_field_name(f)) {
                Ok(v) => give(heap, v),
                Err(x) => Err(x),
            },
            ThreadMethod::Put(f) => put_field(heap, r, thread_field_name(f), args[1]),
            _ => match r {
                Reference::Heap(i) => give(heap, Value::Long(i as i64)),
                Reference::Null => fail(VmError::NullReference),
            },
        }),
    }
}

fn accessor_of(n: &[char], d: &[char], getter: bool) -> (res: Option<ThreadField>)
    ensures
        match res {
            Some(f) => if getter { accessor(f).0 == n@ && accessor(f).1 == d@ } else {
                accessor(f).2.len() > 0 && accessor(f).2 == n@ && accessor(f).3 == d@
            },
            None => forall|f: ThreadField| if getter { !(accessor(f).0 == n@ && accessor(f).1 == d@) } else {
                !(accessor(f).2.len() > 0 && accessor(f).2 == n@ && accessor(f).3 == d@)
            },
        },
{
    if getter {
        if eq_str(n, "getName") && eq_str(d, "()Ljava/lang/String;") {
            return Some(ThreadField::Name);
        }
        if eq_str(n, "getPriority") && eq_str(d, "()I") {
            return Some(ThreadField::Priority);
        }
        if eq_str(n, "isDaemon") && eq_str(d, "()Z") {
            return Some(ThreadField::Daemon);
        }
        if eq_str(n, "getThreadGroup") && eq_str(d, "()Ljava/lang/ThreadGroup;") {
            return Some(ThreadField::ThreadGroup);
        }
        if eq_str(n, "getContextClassLoader") && eq_str(d, "()Ljava/lang/ClassLoader;") {
            return Some(ThreadField::ContextClassLoader);
        }
        if eq_str(n, "getUncaughtExceptionHandler") && eq_str(d, "()Ljava/lang/Thread$UncaughtExceptionHandler;") {
            return Some(ThreadField::UncaughtExceptionHandler);
        }
    } else {
        if eq_str(n, "setName") && eq_str(d, "(Ljava/lang/String;)V") {
            proof { reveal_strlit("setName"); }
            return Some(ThreadField::Name);
        }
        if eq_str(n, "setPriority") && eq_str(d, "(I)V") {
            proof { reveal_strlit("setPriority"); }
            return Some(ThreadField::Priority);
        }
        if eq_str(n, "setDaemon") && eq_str(d, "(Z)V") {
            proof { reveal_strlit("setDaemon"); }
            return Some(ThreadField::Daemon);
        }
        if eq_str(n, "setContextClassLoader") && eq_str(d, "(Ljava/lang/ClassLoader;)V") {
            proof { reveal_strlit("setContextClassLoader"); }
            return Some(ThreadField::ContextClassLoader);
        }
        if eq_str(n, "setUncaughtExceptionHandler") && eq_str(d, "(Ljava/lang/Thread$UncaughtExceptionHandler;)V") {
            proof { reveal_strlit("setUncaughtExceptionHandler"); }
            return Some(ThreadField::UncaughtExceptionHandler);
        }
        proof {
            reveal_strlit("");
        }
    }
    proof {
        assert forall|f: ThreadField| if getter { !(accessor(f).0 == n@ && accessor(f).1 == d@) } else {
            !(accessor(f).2.len() > 0 && accessor(f).2 == n@ && accessor(f).3 == d@)
        } by {
            match f {
                ThreadField::Name => {},
                ThreadField::Priority => {},
                ThreadField::Daemon => {},
                ThreadField::ThreadGroup => {},
                ThreadField::ContextClassLoader => {},
                ThreadField::UncaughtExceptionHandler => {},
            }
        }
    }
    None
}

fn is_interpreter_native(n: &[char], d: &[char]) -> (b: bool)
    ensures
        b == interpreter_thread_native(n@, d@),
{
    (eq_str(n, "currentThread") && eq_str(d, "()Ljava/lang/Thread;")) || (eq_str(n, "start") && eq_str(d, "()V"))
        || (eq_str(n, "run") && eq_str(d, "()V")) || (eq_str(n, "join") && eq_str(d, "()V"))
        || (eq_str(n, "isAlive") && eq_str(d, "()Z")) || (eq_str(n, "isInterrupted") && eq_str(d, "()Z"))
        || (eq_str(n, "interrupt") && eq_str(d, "()V"))
}

/// The native a call selects, when it is one of this module's.
pub fn thread_method(c: &[char], n: &[char], d: &[char]) -> (res: Option<ThreadMethod>)
    ensures
        match res {
            Some(k) => thread_matches(k, c@, n@, d@),
            None => forall|k: ThreadMethod| !thread_matches(k, c@, n@, d@),
        },
{
    if eq_str(c, "java/lang/ThreadGroup") {
        return Some(ThreadMethod::Inert);
    }
    if !eq_str(c, "java/lang/Thread") || is_interpreter_native(n, d) {
        return None;
    }
    if eq_str(n, "<init>") && eq_str(d, "()V") {
        return Some(ThreadMethod::Init(false));
    }
    if eq_str(n, "<init>") && eq_str(d, "(Ljava/lang/Runnable;)V") {
        return Some(ThreadMethod::Init(true));
    }
    if eq_str(n, "getId") && eq_str(d, "()J") {
        return Some(ThreadMethod::GetId);
    }
    if let Some(f) = accessor_of(n, d, true) {
        return Some(ThreadMethod::Get(f));
    }
    if let Some(f) = accessor_of(n, d, false) {
        return Some(ThreadMethod::Put(f));
    }
    Some(ThreadMethod::Inert)
}

/// How many arguments a native reads.
pub fn thread_arg_count(k: ThreadMethod) -> (n: usize)
    ensures
        n == thread_arity(k),
{
    match k {
        ThreadMethod::Init(true) | ThreadMethod::Put(_) => 2,
        ThreadMethod::Inert => 0,
        _ => 1,
    }
}

/// A thread constructor: names the thread after its heap index and sets
/// its fields, `target` being the runnable (null for none).
pub fn thread_init_native(heap: &mut Heap, r: Reference, target: Value) -> (res: Result<Option<Value>, VmError>)
    ensures
        final(heap)@ == thread_init(old(heap)@, r, target).1,
        match res {
            Ok(v) => thread_init(old(heap)@, r, target).0 == Ok::<Option<Value>, Fault>(v),
            Err(e) => crate::model::fails_with(thread_init(old(heap)@, r, target).0, e),
        },
{
    let i = match r {
        Reference::Null => {
            return Err(VmError::NullReference);
        },
        Reference::Heap(i) => i,
    };
    let mut name = lit("Thread-");
    let digits = unsigned_digits(i as u64, 10);
    let ghost before = name@;
    let mut k: usize = 0;
    while k < digits.len()
        invariant
            k <= digits@.len(),
            name@ == before + digits@.subrange(0, k as int),
        decreases digits@.len() - k,
    {
        name.push(digits[k]);
        k = k + 1;
        assert(name@ =~= before + digits@.subrange(0, k as int));
    }
    assert(digits@.subrange(0, k as int) =~= digits@);
    let nv = heap.new_string(name);
    let is_object = match heap.get(r)? {
        HeapValue::Object { .. } => true,
        other => {
            return Err(VmError::InvalidHeapValue { expected: Expected::Object, actual: other.kind_name() });
        },
    };
    let null = Value::Reference(Reference::Null);
    heap.set_object_field(r, "target", target);
    heap.set_object_field(r, "name", nv);
    heap.set_object_field(r, "priority", Value::Int(5));
    heap.set_object_field(r, "daemon", Value::Int(0));
    heap.set_object_field(r, "threadGroup", null);
    heap.set_object_field(r, "contextClassLoader", null);
    heap.set_object_field(r, "uncaughtExceptionHandler", null);
    Ok(None)
}

/// Runs a thread native other than a constructor.
pub fn invoke_thread(heap: &mut Heap, k: ThreadMethod, args: &[Value]) -> (res: Result<Option<Value>, VmError>)
    requires
        args@.len() >= thread_arity(k),
        !(k is Init),
    ensures
        answers(old(heap)@, final(heap)@, thread_spec(old(heap)@, k, args@), res),
{
    match k {
        ThreadMethod::Inert => Ok(None),
        _ => {
            let r = args[0].as_reference()?;
            match k {
                ThreadMethod::Get(f) => Ok(Some(get_object_field(heap, r, thread_field_text(f))?)),
                ThreadMethod::Put(f) => crate::other::put_object_field(heap, r, thread_field_text(f), args[1]),
                _ => match r {
                    Reference::Heap(i) => Ok(Some(Value::Long(i as i64))),
                    Reference::Null => Err(VmError::NullReference),
                },
            }
        },
    }
}

} // verus!
