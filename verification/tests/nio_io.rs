use jvm_rs::buffers::{buffer_callable, buffer_method, invoke_buffer};
use jvm_rs::heap::Heap;
use jvm_rs::model::{HeapValue, Reference, Value, VmError};
use jvm_rs::print::{invoke_io, print_method};

fn chars(s: &str) -> Vec<char> {
    s.chars().collect()
}

fn buf(heap: &mut Heap, class: &str, name: &str, desc: &str, args: &[Value]) -> Result<Option<Value>, VmError> {
    let (c, op) = buffer_method(&chars(class), &chars(name), &chars(desc)).expect("native not found");
    assert!(buffer_callable(heap, c, op, args));
    invoke_buffer(heap, c, op, args)
}

fn print_line(heap: &Heap, name: &str, desc: &str, args: &[Value]) -> (String, bool) {
    let k = print_method(&chars(name), &chars(desc)).expect("native not found");
    let out = invoke_io(heap, k, args).unwrap();
    (out.text.iter().collect(), out.newline)
}

#[test]
fn byte_buffer_allocate_put_flip_get() {
    let mut heap = Heap::new();
    let c = "java/nio/ByteBuffer";
    let b = buf(&mut heap, c, "allocate", "(I)Ljava/nio/ByteBuffer;", &[Value::Int(4)]).unwrap().unwrap();
    assert_eq!(buf(&mut heap, c, "capacity", "()I", &[b]).unwrap(), Some(Value::Int(4)));
    buf(&mut heap, c, "put", "(B)Ljava/nio/ByteBuffer;", &[b, Value::Int(7)]).unwrap();
    buf(&mut heap, c, "put", "(B)Ljava/nio/ByteBuffer;", &[b, Value::Int(-3)]).unwrap();
    assert_eq!(buf(&mut heap, c, "position", "()I", &[b]).unwrap(), Some(Value::Int(2)));
    buf(&mut heap, c, "flip", "()Ljava/nio/Buffer;", &[b]).unwrap();
    assert_eq!(buf(&mut heap, c, "limit", "()I", &[b]).unwrap(), Some(Value::Int(2)));
    assert_eq!(buf(&mut heap, c, "remaining", "()I", &[b]).unwrap(), Some(Value::Int(2)));
    assert_eq!(buf(&mut heap, c, "get", "()B", &[b]).unwrap(), Some(Value::Int(7)));
    assert_eq!(buf(&mut heap, c, "get", "()B", &[b]).unwrap(), Some(Value::Int(-3)));
    assert_eq!(buf(&mut heap, c, "hasRemaining", "()Z", &[b]).unwrap(), Some(Value::Int(0)));
}

#[test]
fn byte_buffer_reads_bytes_signed() {
    let mut heap = Heap::new();
    let c = "java/nio/ByteBuffer";
    let b = buf(&mut heap, c, "allocate", "(I)Ljava/nio/ByteBuffer;", &[Value::Int(2)]).unwrap().unwrap();
    buf(&mut heap, c, "put", "(IB)Ljava/nio/ByteBuffer;", &[b, Value::Int(1), Value::Int(200)]).unwrap();
    assert_eq!(buf(&mut heap, c, "get", "(I)B", &[b, Value::Int(1)]).unwrap(), Some(Value::Int(-56)));
    assert_eq!(buf(&mut heap, c, "get", "(I)B", &[b, Value::Int(5)]).unwrap(), Some(Value::Int(0)));
}

#[test]
fn char_buffer_reads_bytes_unsigned() {
    let mut heap = Heap::new();
    let c = "java/nio/CharBuffer";
    let arr = Value::Reference(heap.allocate(HeapValue::IntArray { values: vec!['h' as i32, 200] }));
    let b = buf(&mut heap, c, "wrap", "([C)Ljava/nio/CharBuffer;", &[arr]).unwrap().unwrap();
    assert_eq!(buf(&mut heap, c, "length", "()I", &[b]).unwrap(), Some(Value::Int(2)));
    assert_eq!(buf(&mut heap, c, "get", "()C", &[b]).unwrap(), Some(Value::Int('h' as i32)));
    assert_eq!(buf(&mut heap, c, "get", "()C", &[b]).unwrap(), Some(Value::Int(200)));
    assert_eq!(buf(&mut heap, c, "array", "()[C", &[b]).unwrap(), Some(arr));
}

#[test]
fn buffer_clear_resets_position_and_limit() {
    let mut heap = Heap::new();
    let fields = vec![
        jvm_rs::heap::field("", Value::Int(10)),
        jvm_rs::heap::field("", Value::Int(4)),
        jvm_rs::heap::field("", Value::Int(6)),
    ];
    let b = Value::Reference(heap.allocate(HeapValue::Object { class_name: chars("java/nio/Buffer"), fields }));
    let c = "java/nio/Buffer";
    assert_eq!(buf(&mut heap, c, "remaining", "()I", &[b]).unwrap(), Some(Value::Int(2)));
    buf(&mut heap, c, "clear", "()Ljava/nio/Buffer;", &[b]).unwrap();
    assert_eq!(buf(&mut heap, c, "position", "()I", &[b]).unwrap(), Some(Value::Int(0)));
    assert_eq!(buf(&mut heap, c, "limit", "()I", &[b]).unwrap(), Some(Value::Int(10)));
    buf(&mut heap, c, "position", "(I)Ljava/nio/Buffer;", &[b, Value::Int(3)]).unwrap();
    assert_eq!(buf(&mut heap, c, "position", "()I", &[b]).unwrap(), Some(Value::Int(3)));
}

#[test]
fn buffer_with_too_few_fields_is_refused() {
    let mut heap = Heap::new();
    let b = Value::Reference(heap.allocate(HeapValue::Object { class_name: chars("java/nio/Buffer"), fields: vec![] }));
    let (c, op) = buffer_method(&chars("java/nio/Buffer"), &chars("flip"), &chars("()Ljava/nio/Buffer;")).unwrap();
    assert!(!buffer_callable(&heap, c, op, &[b]));
}

#[test]
fn negative_allocation_is_refused() {
    let heap = Heap::new();
    let (c, op) = buffer_method(&chars("java/nio/ByteBuffer"), &chars("allocate"), &chars("(I)Ljava/nio/ByteBuffer;")).unwrap();
    assert!(!buffer_callable(&heap, c, op, &[Value::Int(-1)]));
}

#[test]
fn println_texts() {
    let mut heap = Heap::new();
    let this = Value::Reference(Reference::Null);
    assert_eq!(print_line(&heap, "println", "(I)V", &[this, Value::Int(-42)]), ("-42".to_string(), true));
    assert_eq!(print_line(&heap, "print", "(Z)V", &[this, Value::Int(1)]), ("true".to_string(), false));
    assert_eq!(print_line(&heap, "println", "(C)V", &[this, Value::Int('A' as i32)]), ("A".to_string(), true));
    assert_eq!(print_line(&heap, "println", "(J)V", &[this, Value::Long(1 << 40)]), ("1099511627776".to_string(), true));
    let s = heap.new_string(chars("hi there"));
    assert_eq!(print_line(&heap, "println", "(Ljava/lang/String;)V", &[this, s]), ("hi there".to_string(), true));
    assert_eq!(print_line(&heap, "println", "(Ljava/lang/Object;)V", &[this, Value::Reference(Reference::Null)]), ("null".to_string(), true));
    assert_eq!(print_line(&heap, "println", "()V", &[]), ("".to_string(), true));
    assert_eq!(print_line(&heap, "print", "()V", &[]), ("".to_string(), false));
}

#[test]
fn println_of_a_string_argument_of_wrong_kind_fails() {
    let heap = Heap::new();
    let k = print_method(&chars("println"), &chars("(Ljava/lang/String;)V")).unwrap();
    let e = invoke_io(&heap, k, &[Value::Reference(Reference::Null), Value::Int(3)]).err().unwrap();
    assert!(matches!(e, VmError::TypeMismatch { .. }));
}
