use jvm_rs::concurrent::{concurrent_arg_count, concurrent_method, invoke_concurrent, ConcurrentMethod};
use jvm_rs::heap::Heap;
use jvm_rs::model::{Field, HeapValue, Reference, Value, VmError};
use jvm_rs::util::{int_sum, invoke_util, long_sum, util_arg_count, util_method};

fn chars(s: &str) -> Vec<char> {
    s.chars().collect()
}

fn util(heap: &mut Heap, class: &str, name: &str, desc: &str, args: &[Value]) -> Result<Option<Value>, VmError> {
    let k = util_method(&chars(class), &chars(name), &chars(desc)).expect("native not found");
    assert!(args.len() >= util_arg_count(k));
    invoke_util(heap, k, args)
}

fn conc(heap: &mut Heap, class: &str, name: &str, desc: &str, args: &[Value]) -> Result<Option<Value>, VmError> {
    let k = concurrent_method(&chars(class), &chars(name), &chars(desc)).expect("native not found");
    assert!(args.len() >= concurrent_arg_count(k));
    invoke_concurrent(heap, k, args)
}

fn exception_name(e: &VmError) -> String {
    match e {
        VmError::UnhandledException { class_name } => class_name.iter().collect(),
        other => panic!("not an exception: {:?}", other),
    }
}

fn object(heap: &mut Heap, class: &str) -> Value {
    Value::Reference(heap.allocate(HeapValue::Object { class_name: chars(class), fields: Vec::new() }))
}

fn int_array(heap: &mut Heap, values: Vec<i32>) -> Value {
    Value::Reference(heap.allocate(HeapValue::IntArray { values }))
}

fn field_value(heap: &Heap, v: Option<Value>, name: &str) -> Value {
    match v {
        Some(Value::Reference(Reference::Heap(i))) => match &heap.values[i] {
            HeapValue::Object { fields, .. } => {
                let f: &Field = fields.iter().find(|f| f.name.iter().collect::<String>() == name).expect("field");
                f.value
            },
            _ => panic!("not an object"),
        },
        other => panic!("not a reference: {:?}", other),
    }
}

#[test]
fn require_non_null_throws_on_null() {
    let mut heap = Heap::new();
    let desc = "(Ljava/lang/Object;)Ljava/lang/Object;";
    let e = util(&mut heap, "java/util/Objects", "requireNonNull", desc, &[Value::Reference(Reference::Null)]).unwrap_err();
    assert_eq!(exception_name(&e), "java/lang/NullPointerException");
    let o = object(&mut heap, "Foo");
    let r = util(&mut heap, "java/util/Objects", "requireNonNull", desc, &[o]).unwrap();
    assert_eq!(r, Some(o));
}

#[test]
fn objects_equals_compares_string_text() {
    let mut heap = Heap::new();
    let a = heap.new_string(chars("same"));
    let b = heap.new_string(chars("same"));
    let c = object(&mut heap, "Foo");
    let desc = "(Ljava/lang/Object;Ljava/lang/Object;)Z";
    assert_eq!(util(&mut heap, "java/util/Objects", "equals", desc, &[a, b]).unwrap(), Some(Value::Int(1)));
    assert_eq!(util(&mut heap, "java/util/Objects", "equals", desc, &[a, c]).unwrap(), Some(Value::Int(0)));
    let n = Value::Reference(Reference::Null);
    assert_eq!(util(&mut heap, "java/util/Objects", "equals", desc, &[n, n]).unwrap(), Some(Value::Int(1)));
}

#[test]
fn objects_check_index_bounds() {
    let mut heap = Heap::new();
    let ok = util(&mut heap, "java/util/Objects", "checkIndex", "(II)I", &[Value::Int(2), Value::Int(3)]).unwrap();
    assert_eq!(ok, Some(Value::Int(2)));
    let e = util(&mut heap, "java/util/Objects", "checkIndex", "(II)I", &[Value::Int(3), Value::Int(3)]).unwrap_err();
    assert_eq!(exception_name(&e), "java/lang/ArrayIndexOutOfBoundsException");
    let e2 = util(&mut heap, "java/util/Objects", "checkFromIndexSize", "(III)I", &[Value::Int(2), Value::Int(5), Value::Int(6)]).unwrap_err();
    assert_eq!(exception_name(&e2), "java/lang/IndexOutOfBoundsException");
    let ok2 = util(&mut heap, "java/util/Objects", "checkFromToIndex", "(JJJ)J", &[Value::Long(1), Value::Long(4), Value::Long(4)]).unwrap();
    assert_eq!(ok2, Some(Value::Long(1)));
}

#[test]
fn objects_hash_code_of_null_is_zero() {
    let mut heap = Heap::new();
    let h = util(&mut heap, "java/util/Objects", "hashCode", "(Ljava/lang/Object;)I", &[Value::Reference(Reference::Null)]).unwrap();
    assert_eq!(h, Some(Value::Int(0)));
}

#[test]
fn optional_of_then_get() {
    let mut heap = Heap::new();
    let x = object(&mut heap, "Foo");
    let o = util(&mut heap, "java/util/Optional", "of", "(Ljava/lang/Object;)Ljava/util/Optional;", &[x]).unwrap().unwrap();
    assert_eq!(util(&mut heap, "java/util/Optional", "isPresent", "()Z", &[o]).unwrap(), Some(Value::Int(1)));
    assert_eq!(util(&mut heap, "java/util/Optional", "get", "()Ljava/lang/Object;", &[o]).unwrap(), Some(x));
    let empty = util(&mut heap, "java/util/Optional", "of", "(Ljava/lang/Object;)Ljava/util/Optional;", &[Value::Reference(Reference::Null)]).unwrap().unwrap();
    assert_eq!(util(&mut heap, "java/util/Optional", "isEmpty", "()Z", &[empty]).unwrap(), Some(Value::Int(1)));
    let e = util(&mut heap, "java/util/Optional", "get", "()Ljava/lang/Object;", &[empty]).unwrap_err();
    assert_eq!(exception_name(&e), "java/util/NoSuchElementException");
    let f = util(&mut heap, "java/util/Optional", "orElse", "(Ljava/lang/Object;)Ljava/lang/Object;", &[empty, x]).unwrap();
    assert_eq!(f, Some(x));
}

#[test]
fn int_stream_sum_min_max() {
    let mut heap = Heap::new();
    let arr = int_array(&mut heap, vec![4, -2, 9, 1]);
    let s = util(&mut heap, "java/util/Arrays", "stream", "([I)Ljava/util/stream/IntStream;", &[arr]).unwrap().unwrap();
    assert_eq!(util(&mut heap, "__jvm_rs/NativeIntStream", "sum", "()I", &[s]).unwrap(), Some(Value::Int(12)));
    assert_eq!(util(&mut heap, "__jvm_rs/NativeIntStream", "count", "()J", &[s]).unwrap(), Some(Value::Long(4)));
    let mn = util(&mut heap, "__jvm_rs/NativeIntStream", "min", "()Ljava/util/OptionalInt;", &[s]).unwrap();
    assert_eq!(field_value(&heap, mn, "value"), Value::Int(-2));
    let mx = util(&mut heap, "__jvm_rs/NativeIntStream", "max", "()Ljava/util/OptionalInt;", &[s]).unwrap();
    assert_eq!(field_value(&heap, mx, "value"), Value::Int(9));
    let got = util(&mut heap, "java/util/OptionalInt", "getAsInt", "()I", &[mx.unwrap()]).unwrap();
    assert_eq!(got, Some(Value::Int(9)));
}

#[test]
fn empty_int_stream_min_is_null() {
    let mut heap = Heap::new();
    let arr = int_array(&mut heap, vec![]);
    let s = util(&mut heap, "java/util/Arrays", "stream", "([I)Ljava/util/stream/IntStream;", &[arr]).unwrap().unwrap();
    let mn = util(&mut heap, "__jvm_rs/NativeIntStream", "min", "()Ljava/util/OptionalInt;", &[s]).unwrap();
    assert_eq!(mn, Some(Value::Reference(Reference::Null)));
    let present = util(&mut heap, "java/util/OptionalInt", "isPresent", "()Z", &[mn.unwrap()]).unwrap();
    assert_eq!(present, Some(Value::Int(0)));
    let fallback = util(&mut heap, "java/util/OptionalInt", "orElse", "(I)I", &[mn.unwrap(), Value::Int(7)]).unwrap();
    assert_eq!(fallback, Some(Value::Int(7)));
}

#[test]
fn stream_sums_wrap_around() {
    assert_eq!(int_sum(&vec![i32::MAX, 1]), i32::MIN);
    assert_eq!(long_sum(&vec![i64::MAX, 2]), i64::MIN + 1);
}

#[test]
fn arrays_equals_by_contents() {
    let mut heap = Heap::new();
    let a = int_array(&mut heap, vec![1, 2, 3]);
    let b = int_array(&mut heap, vec![1, 2, 3]);
    let c = int_array(&mut heap, vec![1, 2]);
    assert_eq!(util(&mut heap, "java/util/Arrays", "equals", "([I[I)Z", &[a, b]).unwrap(), Some(Value::Int(1)));
    assert_eq!(util(&mut heap, "java/util/Arrays", "equals", "([B[B)Z", &[a, c]).unwrap(), Some(Value::Int(0)));
    assert!(util_method(&chars("java/util/Arrays"), &chars("equals"), &chars("([X[X)Z")).is_none());
}

#[test]
fn atomic_integer_operations() {
    let mut heap = Heap::new();
    let a = object(&mut heap, "java/util/concurrent/atomic/AtomicInteger");
    let c = "java/util/concurrent/atomic/AtomicInteger";
    conc(&mut heap, c, "<init>", "(I)V", &[a, Value::Int(5)]).unwrap();
    assert_eq!(conc(&mut heap, c, "get", "()I", &[a]).unwrap(), Some(Value::Int(5)));
    assert_eq!(conc(&mut heap, c, "incrementAndGet", "()I", &[a]).unwrap(), Some(Value::Int(6)));
    assert_eq!(conc(&mut heap, c, "getAndAdd", "(I)I", &[a, Value::Int(4)]).unwrap(), Some(Value::Int(6)));
    assert_eq!(conc(&mut heap, c, "compareAndSet", "(II)Z", &[a, Value::Int(9), Value::Int(1)]).unwrap(), Some(Value::Int(0)));
    assert_eq!(conc(&mut heap, c, "compareAndSet", "(II)Z", &[a, Value::Int(10), Value::Int(1)]).unwrap(), Some(Value::Int(1)));
    assert_eq!(conc(&mut heap, c, "get", "()I", &[a]).unwrap(), Some(Value::Int(1)));
}

#[test]
fn atomic_integer_increment_wraps() {
    let mut heap = Heap::new();
    let a = object(&mut heap, "java/util/concurrent/atomic/AtomicInteger");
    let c = "java/util/concurrent/atomic/AtomicInteger";
    conc(&mut heap, c, "set", "(I)V", &[a, Value::Int(i32::MAX)]).unwrap();
    assert_eq!(conc(&mut heap, c, "incrementAndGet", "()I", &[a]).unwrap(), Some(Value::Int(i32::MIN)));
}

#[test]
fn atomic_reference_get_and_set() {
    let mut heap = Heap::new();
    let a = object(&mut heap, "java/util/concurrent/atomic/AtomicReference");
    let x = object(&mut heap, "X");
    let c = "java/util/concurrent/atomic/AtomicReference";
    assert_eq!(conc(&mut heap, c, "get", "()Ljava/lang/Object;", &[a]).unwrap(), Some(Value::Reference(Reference::Null)));
    let old = conc(&mut heap, c, "getAndSet", "(Ljava/lang/Object;)Ljava/lang/Object;", &[a, x]).unwrap();
    assert_eq!(old, Some(Value::Reference(Reference::Null)));
    assert_eq!(conc(&mut heap, c, "get", "()Ljava/lang/Object;", &[a]).unwrap(), Some(x));
}

#[test]
fn atomic_on_null_fails() {
    let mut heap = Heap::new();
    let e = conc(&mut heap, "java/util/concurrent/atomic/AtomicLong", "get", "()J", &[Value::Reference(Reference::Null)]).unwrap_err();
    assert!(matches!(e, VmError::NullReference));
}

#[test]
fn long_adder_sums() {
    let mut heap = Heap::new();
    let a = object(&mut heap, "java/util/concurrent/atomic/LongAdder");
    let c = "java/util/concurrent/atomic/LongAdder";
    conc(&mut heap, c, "add", "(J)V", &[a, Value::Long(40)]).unwrap();
    conc(&mut heap, c, "increment", "()V", &[a]).unwrap();
    conc(&mut heap, c, "increment", "()V", &[a]).unwrap();
    assert_eq!(conc(&mut heap, c, "sum", "()J", &[a]).unwrap(), Some(Value::Long(42)));
    conc(&mut heap, c, "reset", "()V", &[a]).unwrap();
    assert_eq!(conc(&mut heap, c, "sum", "()J", &[a]).unwrap(), Some(Value::Long(0)));
}

#[test]
fn inert_concurrency_natives() {
    let mut heap = Heap::new();
    assert_eq!(conc(&mut heap, "java/util/concurrent/locks/ReentrantLock", "tryLock", "()Z", &[]).unwrap(), Some(Value::Int(1)));
    assert_eq!(conc(&mut heap, "java/util/concurrent/Semaphore", "availablePermits", "()I", &[]).unwrap(), Some(Value::Int(0)));
    assert_eq!(conc(&mut heap, "java/util/concurrent/CountDownLatch", "countDown", "()V", &[]).unwrap(), None);
    assert_eq!(conc(&mut heap, "java/util/concurrent/atomic/DoubleAdder", "sum", "()D", &[]).unwrap(), Some(Value::Double(0)));
    let k = concurrent_method(&chars("java/util/concurrent/ConcurrentHashMap"), &chars("get"), &chars("(Ljava/lang/Object;)Ljava/lang/Object;"));
    assert!(matches!(k, Some(ConcurrentMethod::Inert(Some(Value::Reference(Reference::Null))))));
    assert!(concurrent_method(&chars("java/util/concurrent/Phaser"), &chars("nope"), &chars("()V")).is_none());
}

#[test]
fn time_unit_conversions_return_argument() {
    let mut heap = Heap::new();
    let r = conc(&mut heap, "java/util/concurrent/TimeUnit", "toMillis", "(J)J", &[Value::Long(1234)]).unwrap();
    assert_eq!(r, Some(Value::Long(1234)));
}
