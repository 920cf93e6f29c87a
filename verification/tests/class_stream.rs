use jvm_rs::byte_stream::{invoke_byte_stream, stream_callable, stream_method};
use jvm_rs::heap::{field, Heap};
use jvm_rs::io_stubs::io_stub_answer;
use jvm_rs::lang_class::{class_method, class_method_arg_count, invoke_class};
use jvm_rs::model::{HeapValue, Reference, Value, VmError};

fn chars(s: &str) -> Vec<char> {
    s.chars().collect()
}

fn text(heap: &Heap, v: Option<Value>) -> String {
    match v {
        Some(Value::Reference(Reference::Heap(i))) => match &heap.values[i] {
            HeapValue::String(s) => s.iter().collect(),
            _ => panic!("not a string"),
        },
        other => panic!("not a string reference: {:?}", other),
    }
}

fn ints(heap: &Heap, v: Option<Value>) -> Vec<i32> {
    match v {
        Some(Value::Reference(Reference::Heap(i))) => match &heap.values[i] {
            HeapValue::IntArray { values } => values.clone(),
            _ => panic!("not an int array"),
        },
        other => panic!("not an array reference: {:?}", other),
    }
}

fn class_call(heap: &mut Heap, class: &str, name: &str, desc: &str, args: &[Value]) -> Result<Option<Value>, VmError> {
    let k = class_method(&chars(class), &chars(name), &chars(desc)).expect("native not found");
    assert!(args.len() >= class_method_arg_count(k));
    invoke_class(heap, k, args)
}

fn class_object(heap: &mut Heap, name: &str) -> Value {
    let n = heap.new_string(chars(name));
    Value::Reference(heap.allocate(HeapValue::Object { class_name: chars("java/lang/Class"), fields: vec![field("__name", n)] }))
}

fn stream(heap: &mut Heap, name: &str, desc: &str, args: &[Value]) -> Result<Option<Value>, VmError> {
    let op = stream_method(&chars(name), &chars(desc)).expect("native not found");
    assert!(stream_callable(heap, op, args));
    invoke_byte_stream(heap, op, args)
}

fn new_stream(heap: &mut Heap) -> Value {
    let obj = heap.allocate(HeapValue::Object {
        class_name: chars("java/io/ByteArrayOutputStream"),
        fields: vec![field("buf", Value::Reference(Reference::Null)), field("count", Value::Int(0))],
    });
    let s = Value::Reference(obj);
    stream(heap, "<init>", "()V", &[s]).unwrap();
    s
}

#[test]
fn class_names_dotted_and_simple() {
    let mut heap = Heap::new();
    let c = class_object(&mut heap, "java/util/Map$Entry");
    let d = "()Ljava/lang/String;";
    let name = class_call(&mut heap, "java/lang/Class", "getName", d, &[c]).unwrap();
    assert_eq!(text(&heap, name), "java.util.Map$Entry");
    let simple = class_call(&mut heap, "java/lang/Class", "getSimpleName", d, &[c]).unwrap();
    assert_eq!(text(&heap, simple), "Entry");
    let shown = class_call(&mut heap, "java/lang/Class", "toString", d, &[c]).unwrap();
    assert_eq!(text(&heap, shown), "java.util.Map$Entry");
}

#[test]
fn class_array_and_primitive_tests() {
    let mut heap = Heap::new();
    let arr = class_object(&mut heap, "[I");
    let int = class_object(&mut heap, "int");
    let obj = class_object(&mut heap, "java/lang/Object");
    let c = "java/lang/Class";
    assert_eq!(class_call(&mut heap, c, "isArray", "()Z", &[arr]).unwrap(), Some(Value::Int(1)));
    assert_eq!(class_call(&mut heap, c, "isArray", "()Z", &[obj]).unwrap(), Some(Value::Int(0)));
    assert_eq!(class_call(&mut heap, c, "isPrimitive", "()Z", &[int]).unwrap(), Some(Value::Int(1)));
    assert_eq!(class_call(&mut heap, c, "isPrimitive", "()Z", &[obj]).unwrap(), Some(Value::Int(0)));
    assert_eq!(class_call(&mut heap, c, "isInterface", "()Z", &[]).unwrap(), Some(Value::Int(0)));
    assert_eq!(class_call(&mut heap, c, "desiredAssertionStatus", "()Z", &[]).unwrap(), Some(Value::Int(0)));
}

#[test]
fn runtime_memory_is_fixed() {
    let mut heap = Heap::new();
    for name in ["freeMemory", "totalMemory", "maxMemory"] {
        let r = class_call(&mut heap, "java/lang/Runtime", name, "()J", &[]).unwrap();
        assert_eq!(r, Some(Value::Long(256 * 1024 * 1024)));
    }
}

#[test]
fn class_name_of_null_fails() {
    let mut heap = Heap::new();
    let r = class_call(&mut heap, "java/lang/Class", "getName", "()Ljava/lang/String;", &[Value::Reference(Reference::Null)]);
    assert!(r.is_err());
}

#[test]
fn byte_stream_write_then_read_back() {
    let mut heap = Heap::new();
    let s = new_stream(&mut heap);
    stream(&mut heap, "write", "(I)V", &[s, Value::Int(72)]).unwrap();
    stream(&mut heap, "write", "(I)V", &[s, Value::Int(105)]).unwrap();
    assert_eq!(stream(&mut heap, "size", "()I", &[s]).unwrap(), Some(Value::Int(2)));
    let bytes = stream(&mut heap, "toByteArray", "()[B", &[s]).unwrap();
    assert_eq!(ints(&heap, bytes), vec![72, 105]);
    let shown = stream(&mut heap, "toString", "()Ljava/lang/String;", &[s]).unwrap();
    assert_eq!(text(&heap, shown), "Hi");
}

#[test]
fn byte_stream_write_range_and_reset() {
    let mut heap = Heap::new();
    let s = new_stream(&mut heap);
    let src = Value::Reference(heap.allocate(HeapValue::IntArray { values: vec![1, 2, 3, 4, 5] }));
    stream(&mut heap, "write", "([BII)V", &[s, src, Value::Int(1), Value::Int(3)]).unwrap();
    let bytes = stream(&mut heap, "toByteArray", "()[B", &[s]).unwrap();
    assert_eq!(ints(&heap, bytes), vec![2, 3, 4]);
    stream(&mut heap, "write", "([B)V", &[s, src]).unwrap();
    assert_eq!(stream(&mut heap, "size", "()I", &[s]).unwrap(), Some(Value::Int(8)));
    stream(&mut heap, "reset", "()V", &[s]).unwrap();
    assert_eq!(stream(&mut heap, "size", "()I", &[s]).unwrap(), Some(Value::Int(0)));
    let empty = stream(&mut heap, "toByteArray", "()[B", &[s]).unwrap();
    assert_eq!(ints(&heap, empty), Vec::<i32>::new());
}

#[test]
fn io_stubs_answer_end_of_input() {
    let read = io_stub_answer(&chars("java/io/InputStream"), &chars("read"), &chars("()I"));
    assert_eq!(read, Some(Some(Value::Int(-1))));
    let close = io_stub_answer(&chars("java/io/OutputStream"), &chars("close"), &chars("()V"));
    assert_eq!(close, Some(None));
    let other = io_stub_answer(&chars("java/io/File"), &chars("exists"), &chars("()Z"));
    assert_eq!(other, None);
}
