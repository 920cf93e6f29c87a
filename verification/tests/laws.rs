use jvm_rs::bootstrap::bootstrap_other;
use jvm_rs::classes::ClassTable;
use jvm_rs::descriptors::{class_name_descriptor, descriptor_class_name};
use jvm_rs::heap::Heap;
use jvm_rs::io_objects::{file_path_string, new_file_object, new_path_object, path_string_from_object};
use jvm_rs::lang_reflect::{class_ref_for_descriptor, class_ref_to_descriptor};
use jvm_rs::model::{HeapValue, Reference, Value, VmError};
use jvm_rs::other::{invoke_other, other_method};
use jvm_rs::reflect_objects::{new_class_object, new_constructor_object, new_field_object, new_method_object};
use jvm_rs::reflection::{constructor_metadata, field_metadata, method_metadata, new_box, reflection_arguments};
use jvm_rs::time::{invoke_time, time_method};

fn chars(s: &str) -> Vec<char> {
    s.chars().collect()
}

fn string(v: &[char]) -> String {
    v.iter().collect()
}

fn class_object(heap: &mut Heap, name: &str) -> Reference {
    let r = new_class_object(heap, &chars(name));
    assert_eq!(string(&jvm_rs::lang_reflect::get_class_name(heap, r).unwrap()), name);
    r
}

#[test]
fn epoch_milli_round_trip_for_edge_values() {
    let mut heap = Heap::new();
    let of = time_method(&chars("java/time/Instant"), &chars("ofEpochMilli"), &chars("(J)Ljava/time/Instant;")).unwrap();
    let to = time_method(&chars("java/time/Instant"), &chars("toEpochMilli"), &chars("()J")).unwrap();
    for m in [0i64, 1, -1, 999, -999, 1000, -1001, -1500, i64::MAX, i64::MIN] {
        let i = invoke_time(&mut heap, of, &[Value::Long(m)]).unwrap().unwrap();
        assert_eq!(invoke_time(&mut heap, to, &[i]).unwrap(), Some(Value::Long(m)), "round trip of {m}");
    }
}

#[test]
fn unsafe_statics_agree_with_offset_natives() {
    let mut heap = Heap::new();
    let mut t = ClassTable::new();
    bootstrap_other(&mut t, &mut heap);
    let i = t.position_of(&chars("jdk/internal/misc/Unsafe")).unwrap();
    let statics = &t.classes[i].static_fields;
    let read = |name: &str| statics.iter().find(|f| string(&f.name) == name).unwrap().value;
    let unsafe_call = |heap: &mut Heap, n: &str, d: &str| {
        let k = other_method(&chars("jdk/internal/misc/Unsafe"), &chars(n), &chars(d)).unwrap();
        invoke_other(heap, k, &[Value::Reference(Reference::Null)]).unwrap().unwrap()
    };
    let base = unsafe_call(&mut heap, "arrayBaseOffset", "(Ljava/lang/Class;)I");
    let scale = unsafe_call(&mut heap, "arrayIndexScale", "(Ljava/lang/Class;)I");
    for k in ["BOOLEAN", "BYTE", "SHORT", "CHAR", "INT", "LONG", "FLOAT", "DOUBLE", "OBJECT"] {
        assert_eq!(read(&format!("ARRAY_{k}_BASE_OFFSET")), base);
        assert_eq!(read(&format!("ARRAY_{k}_INDEX_SCALE")), scale);
    }
    assert_eq!(read("ADDRESS_SIZE"), unsafe_call(&mut heap, "addressSize", "()I"));
    assert_eq!(read("INVALID_FIELD_OFFSET"), Value::Int(-1));
}

#[test]
fn descriptors_and_names_convert_back() {
    for n in ["int", "void", "boolean", "java/lang/String", "[I", "[Ljava/lang/Object;", ""] {
        assert_eq!(string(&descriptor_class_name(&class_name_descriptor(&chars(n)))), n);
    }
    for d in ["I", "Z", "V", "Ljava/lang/String;", "[J", "[[Ljava/lang/Object;", "L;"] {
        assert_eq!(string(&class_name_descriptor(&descriptor_class_name(&chars(d)))), d);
    }
    // A class descriptor around a primitive type's name does not come back.
    assert_eq!(string(&class_name_descriptor(&descriptor_class_name(&chars("Lint;")))), "I");
}

#[test]
fn field_object_reads_back_its_metadata() {
    let mut heap = Heap::new();
    let owner = class_object(&mut heap, "demo/Point");
    let ty = class_object(&mut heap, "int");
    let name = heap.new_string(chars("x"));
    let Value::Reference(name_ref) = name else { panic!() };
    let f = new_field_object(&mut heap, owner, name_ref, &chars("I"), true, ty);
    let m = field_metadata(&heap, f).unwrap();
    assert_eq!(string(&m.declaring_class), "demo/Point");
    assert_eq!(string(&m.name), "x");
    assert_eq!(string(&m.descriptor), "I");
    assert!(m.is_static);
    let g = new_field_object(&mut heap, owner, name_ref, &chars("J"), false, ty);
    assert!(!field_metadata(&heap, g).unwrap().is_static);
}

#[test]
fn method_and_constructor_objects_read_back_their_metadata() {
    let mut heap = Heap::new();
    let owner = class_object(&mut heap, "demo/Point");
    let ret = class_object(&mut heap, "int");
    let name = heap.new_string(chars("dist"));
    let Value::Reference(name_ref) = name else { panic!() };
    let m = new_method_object(&mut heap, owner, name_ref, Reference::Null, &chars("(I)I"), ret);
    let meta = method_metadata(&heap, m).unwrap();
    assert_eq!((string(&meta.declaring_class), string(&meta.name), string(&meta.descriptor)),
        ("demo/Point".to_string(), "dist".to_string(), "(I)I".to_string()));
    let k = new_constructor_object(&mut heap, owner, Reference::Null, &chars("(II)V"));
    let meta = constructor_metadata(&heap, k).unwrap();
    assert_eq!((string(&meta.declaring_class), string(&meta.name), string(&meta.descriptor)),
        ("demo/Point".to_string(), "<init>".to_string(), "(II)V".to_string()));
}

#[test]
fn reflection_arguments_unbox_each_parameter() {
    let mut heap = Heap::new();
    let i = new_box(&mut heap, "java/lang/Integer", Value::Int(5));
    let l = new_box(&mut heap, "java/lang/Long", Value::Long(-7));
    let s = heap.new_string(chars("s"));
    let Value::Reference(s_ref) = s else { panic!() };
    let arr = heap.allocate(HeapValue::ReferenceArray { component_type: chars("java/lang/Object"), values: vec![i, l, s_ref] });
    let args = reflection_arguments(&heap, arr, &chars("(IJLjava/lang/String;)V")).unwrap();
    assert_eq!(args, vec![Value::Int(5), Value::Long(-7), s]);
    // Parameters past the end of the array receive `null`, unboxed.
    let short = heap.allocate(HeapValue::ReferenceArray { component_type: chars("java/lang/Object"), values: vec![i] });
    let args = reflection_arguments(&heap, short, &chars("(ILjava/lang/Object;)V")).unwrap();
    assert_eq!(args, vec![Value::Int(5), Value::Reference(Reference::Null)]);
    assert_eq!(reflection_arguments(&heap, Reference::Null, &chars("(I)V")).unwrap(), vec![]);
    assert!(matches!(reflection_arguments(&heap, Reference::Heap(999), &chars("(I)V")), Err(VmError::InvalidReference)));
}

#[test]
fn path_and_file_objects_read_back_their_path() {
    let mut heap = Heap::new();
    let f = new_file_object(&mut heap, chars("/tmp/a.txt"));
    assert_eq!(file_path_string(&heap, f).unwrap().map(|p| string(&p)), Some("/tmp/a.txt".to_string()));
    let p = new_path_object(&mut heap, chars("rel/b"));
    assert_eq!(path_string_from_object(&heap, p).unwrap().map(|p| string(&p)), Some("rel/b".to_string()));
}

#[test]
fn class_objects_give_back_their_descriptor() {
    let mut heap = Heap::new();
    for d in ["I", "V", "[J", "Ljava/lang/String;"] {
        let request = class_ref_for_descriptor(&chars(d));
        let c = new_class_object(&mut heap, &request.internal_name);
        assert_eq!(string(&class_ref_to_descriptor(&heap, c).unwrap()), d);
    }
}
