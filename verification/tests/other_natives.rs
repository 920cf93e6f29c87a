use jvm_rs::heap::{field, Heap};
use jvm_rs::model::{HeapValue, Reference, Value, VmError};
use jvm_rs::other::{invoke_other, other_arg_count, other_method, system_get_property};

fn chars(s: &str) -> Vec<char> {
    s.chars().collect()
}

fn text(heap: &Heap, v: Option<Value>) -> String {
    match v {
        Some(Value::Reference(Reference::Heap(i))) => match &heap.values[i] {
            HeapValue::String(s) => s.iter().collect(),
            _ => panic!("not a string"),
        },
        other => panic!("not a string reference: {:?}", other),
    }
}

fn call(heap: &mut Heap, class: &str, name: &str, desc: &str, args: &[Value]) -> Result<Option<Value>, VmError> {
    let k = other_method(&chars(class), &chars(name), &chars(desc)).expect("native not found");
    assert!(args.len() >= other_arg_count(k));
    invoke_other(heap, k, args)
}

fn object(heap: &mut Heap, class: &str, fields: Vec<(&str, Value)>) -> Value {
    let fields = fields.into_iter().map(|(n, v)| field(n, v)).collect();
    Value::Reference(heap.allocate(HeapValue::Object { class_name: chars(class), fields }))
}

const NULL: Value = Value::Reference(Reference::Null);

#[test]
fn identity_hash_is_the_heap_index() {
    let mut heap = Heap::new();
    let _ = object(&mut heap, "A", vec![]);
    let b = object(&mut heap, "B", vec![]);
    let d = "(Ljava/lang/Object;)I";
    assert_eq!(call(&mut heap, "java/lang/System", "identityHashCode", d, &[b]).unwrap(), Some(Value::Int(1)));
    assert_eq!(call(&mut heap, "java/lang/System", "identityHashCode", d, &[NULL]).unwrap(), Some(Value::Int(0)));
}

#[test]
fn line_separator_is_a_newline() {
    let mut heap = Heap::new();
    let r = call(&mut heap, "java/lang/System", "lineSeparator", "()Ljava/lang/String;", &[]).unwrap();
    assert_eq!(text(&heap, r), "\n");
}

#[test]
fn system_arraycopy_copies_ints() {
    let mut heap = Heap::new();
    let src = Value::Reference(heap.allocate(HeapValue::IntArray { values: vec![1, 2, 3, 4] }));
    let dst = Value::Reference(heap.allocate(HeapValue::IntArray { values: vec![0; 4] }));
    let d = "(Ljava/lang/Object;ILjava/lang/Object;II)V";
    let r = call(&mut heap, "java/lang/System", "arraycopy", d, &[src, Value::Int(1), dst, Value::Int(0), Value::Int(3)]);
    assert_eq!(r.unwrap(), None);
    match &heap.values[1] {
        HeapValue::IntArray { values } => assert_eq!(values, &vec![2, 3, 4, 0]),
        _ => panic!("not an int array"),
    }
    let bad = call(&mut heap, "java/lang/System", "arraycopy", d, &[src, Value::Int(2), dst, Value::Int(0), Value::Int(3)]);
    assert!(matches!(bad, Err(VmError::UnhandledException { .. })));
}

#[test]
fn call_site_target_is_set_and_read() {
    let mut heap = Heap::new();
    let site = object(&mut heap, "java/lang/invoke/MutableCallSite", vec![]);
    let handle = object(&mut heap, "java/lang/invoke/MethodHandle", vec![]);
    let c = "java/lang/invoke/MutableCallSite";
    call(&mut heap, c, "<init>", "(Ljava/lang/invoke/MethodType;)V", &[site, NULL]).unwrap();
    let get = "()Ljava/lang/invoke/MethodHandle;";
    assert_eq!(call(&mut heap, c, "getTarget", get, &[site]).unwrap(), Some(NULL));
    call(&mut heap, c, "setTarget", "(Ljava/lang/invoke/MethodHandle;)V", &[site, handle]).unwrap();
    assert_eq!(call(&mut heap, "java/lang/invoke/CallSite", "getTarget", get, &[site]).unwrap(), Some(handle));
}

#[test]
fn call_site_on_a_string_is_refused() {
    let mut heap = Heap::new();
    let s = heap.new_string(chars("x"));
    let r = call(&mut heap, "java/lang/invoke/ConstantCallSite", "<init>", "(Ljava/lang/invoke/MethodHandle;)V", &[s, NULL]);
    assert!(matches!(r, Err(VmError::InvalidHeapValue { .. })));
}

#[test]
fn handle_info_reads_hidden_fields() {
    let mut heap = Heap::new();
    let name = heap.new_string(chars("run"));
    let info = object(&mut heap, "java/lang/invoke/MethodHandleInfo", vec![("__name", name), ("__referenceKind", Value::Int(6))]);
    let c = "java/lang/invoke/MethodHandleInfo";
    assert_eq!(call(&mut heap, c, "getName", "()Ljava/lang/String;", &[info]).unwrap(), Some(name));
    assert_eq!(call(&mut heap, c, "getReferenceKind", "()I", &[info]).unwrap(), Some(Value::Int(6)));
    assert_eq!(call(&mut heap, c, "getModifiers", "()I", &[info]).unwrap(), Some(Value::Int(1)));
    let missing = call(&mut heap, c, "getMethodType", "()Ljava/lang/invoke/MethodType;", &[info]);
    assert!(matches!(missing, Err(VmError::FieldNotFound { .. })));
}

#[test]
fn lookup_modes_default_and_privilege() {
    let mut heap = Heap::new();
    let c = "java/lang/invoke/MethodHandles$Lookup";
    let bare = object(&mut heap, c, vec![]);
    let public = object(&mut heap, c, vec![("__modes", Value::Int(1))]);
    assert_eq!(call(&mut heap, c, "lookupModes", "()I", &[bare]).unwrap(), Some(Value::Int(0x5f)));
    assert_eq!(call(&mut heap, c, "hasFullPrivilegeAccess", "()Z", &[bare]).unwrap(), Some(Value::Int(1)));
    assert_eq!(call(&mut heap, c, "hasFullPrivilegeAccess", "()Z", &[public]).unwrap(), Some(Value::Int(0)));
    assert_eq!(call(&mut heap, c, "previousLookupClass", "()Ljava/lang/Class;", &[bare]).unwrap(), Some(NULL));
}

#[test]
fn unsafe_and_cds_fixed_answers() {
    let mut heap = Heap::new();
    let u = "jdk/internal/misc/Unsafe";
    assert_eq!(call(&mut heap, u, "addressSize", "()I", &[]).unwrap(), Some(Value::Int(8)));
    assert_eq!(call(&mut heap, u, "pageSize", "()I", &[]).unwrap(), Some(Value::Int(4096)));
    assert_eq!(call(&mut heap, u, "arrayIndexScale", "(Ljava/lang/Class;)I", &[]).unwrap(), Some(Value::Int(1)));
    assert_eq!(call(&mut heap, u, "staticFieldOffset", "(Ljava/lang/reflect/Field;)J", &[]).unwrap(), Some(Value::Long(0)));
    assert_eq!(call(&mut heap, u, "fullFence", "()V", &[]).unwrap(), None);
    assert_eq!(call(&mut heap, "jdk/internal/misc/CDS", "isSharingEnabled0", "()Z", &[]).unwrap(), Some(Value::Int(0)));
    assert_eq!(call(&mut heap, "jdk/internal/reflect/Reflection", "getCallerClass", "()Ljava/lang/Class;", &[]).unwrap(), Some(NULL));
    assert!(other_method(&chars(u), &chars("getUnsafe"), &chars("()Ljdk/internal/misc/Unsafe;")).is_none());
}

#[test]
fn unsafe_put_then_get_int_field() {
    let mut heap = Heap::new();
    let u = "jdk/internal/misc/Unsafe";
    let obj = object(&mut heap, "P", vec![("x", Value::Int(3))]);
    call(&mut heap, u, "putInt", "(Ljava/lang/Object;JI)V", &[NULL, obj, Value::Long(0), Value::Int(9)]).unwrap();
    assert_eq!(call(&mut heap, u, "getIntVolatile", "(Ljava/lang/Object;J)I", &[NULL, obj, Value::Long(0)]).unwrap(), Some(Value::Int(9)));
}

#[test]
fn get_property_fixed_and_machine() {
    let mut heap = Heap::new();
    let version = heap.new_string(chars("java.version"));
    let r = system_get_property(&mut heap, &[version], Some(chars("ignored"))).unwrap();
    assert_eq!(text(&heap, r), "21");
    let home = heap.new_string(chars("HOME"));
    let r = system_get_property(&mut heap, &[home], Some(chars("/root"))).unwrap();
    assert_eq!(text(&heap, r), "/root");
    let r = system_get_property(&mut heap, &[home], None).unwrap();
    assert_eq!(r, Some(NULL));
}

fn thread_call(heap: &mut Heap, class: &str, name: &str, desc: &str, args: &[Value]) -> Result<Option<Value>, VmError> {
    let k = jvm_rs::thread::thread_method(&chars(class), &chars(name), &chars(desc)).expect("native not found");
    assert!(args.len() >= jvm_rs::thread::thread_arg_count(k));
    match k {
        jvm_rs::thread::ThreadMethod::Init(with_target) => {
            let r = match args[0] {
                Value::Reference(r) => r,
                _ => panic!("receiver"),
            };
            jvm_rs::thread::thread_init_native(heap, r, if with_target { args[1] } else { NULL })
        },
        _ => jvm_rs::thread::invoke_thread(heap, k, args),
    }
}

#[test]
fn thread_construction_names_and_settings() {
    let mut heap = Heap::new();
    let _ = object(&mut heap, "Filler", vec![]);
    let _ = object(&mut heap, "Filler", vec![]);
    let t = object(&mut heap, "java/lang/Thread", vec![]);
    let c = "java/lang/Thread";
    thread_call(&mut heap, c, "<init>", "()V", &[t]).unwrap();
    let name = thread_call(&mut heap, c, "getName", "()Ljava/lang/String;", &[t]).unwrap();
    assert_eq!(text(&heap, name), "Thread-2");
    assert_eq!(thread_call(&mut heap, c, "getPriority", "()I", &[t]).unwrap(), Some(Value::Int(5)));
    thread_call(&mut heap, c, "setPriority", "(I)V", &[t, Value::Int(9)]).unwrap();
    assert_eq!(thread_call(&mut heap, c, "getPriority", "()I", &[t]).unwrap(), Some(Value::Int(9)));
    assert_eq!(thread_call(&mut heap, c, "isDaemon", "()Z", &[t]).unwrap(), Some(Value::Int(0)));
    assert_eq!(thread_call(&mut heap, c, "getId", "()J", &[t]).unwrap(), Some(Value::Long(2)));
    assert_eq!(thread_call(&mut heap, c, "yield", "()V", &[]).unwrap(), None);
    assert_eq!(thread_call(&mut heap, "java/lang/ThreadGroup", "getName", "()Ljava/lang/String;", &[]).unwrap(), None);
    assert!(jvm_rs::thread::thread_method(&chars(c), &chars("start"), &chars("()V")).is_none());
}

#[test]
fn thread_getter_on_unset_field_fails() {
    let mut heap = Heap::new();
    let t = object(&mut heap, "java/lang/Thread", vec![]);
    let r = thread_call(&mut heap, "java/lang/Thread", "getName", "()Ljava/lang/String;", &[t]);
    assert!(matches!(r, Err(VmError::FieldNotFound { .. })));
    let n = thread_call(&mut heap, "java/lang/Thread", "<init>", "()V", &[NULL]);
    assert!(matches!(n, Err(VmError::NullReference)));
}
