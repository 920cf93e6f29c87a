use jvm_rs::bootstrap::{
    bootstrap_java_io, bootstrap_java_io_writer, bootstrap_java_lang, bootstrap_java_lang_reflect, bootstrap_java_nio,
    bootstrap_java_text, bootstrap_java_time, bootstrap_java_util, bootstrap_java_util_concurrent,
    bootstrap_java_util_regex, bootstrap_other,
};
use jvm_rs::classes::{is_instance_of, is_throwable_class, parse_class_line, split_pieces, ClassTable, RuntimeClass};
use jvm_rs::heap::Heap;
use jvm_rs::model::{HeapValue, Reference, Value};

fn chars(s: &str) -> Vec<char> {
    s.chars().collect()
}

fn string(v: &[char]) -> String {
    v.iter().collect()
}

fn class<'a>(t: &'a ClassTable, name: &str) -> &'a RuntimeClass {
    let i = t.position_of(&chars(name)).unwrap_or_else(|| panic!("{name} not registered"));
    &t.classes[i]
}

fn has_method(c: &RuntimeClass, name: &str, desc: &str) -> bool {
    c.methods.iter().any(|(n, d)| string(n) == name && string(d) == desc)
}

fn static_value(c: &RuntimeClass, name: &str) -> Value {
    c.static_fields.iter().find(|f| string(&f.name) == name).map(|f| f.value).unwrap_or_else(|| panic!("no static {name}"))
}

fn all_classes() -> (ClassTable, Heap) {
    let mut heap = Heap::new();
    let mut t = ClassTable::new();
    bootstrap_java_lang(&mut t, &mut heap);
    bootstrap_java_io(&mut t, &mut heap);
    bootstrap_java_io_writer(&mut t);
    bootstrap_java_util(&mut t);
    bootstrap_java_nio(&mut t, &mut heap);
    bootstrap_other(&mut t, &mut heap);
    bootstrap_java_util_concurrent(&mut t);
    bootstrap_java_lang_reflect(&mut t);
    bootstrap_java_util_regex(&mut t);
    bootstrap_java_text(&mut t);
    bootstrap_java_time(&mut t, &mut heap);
    (t, heap)
}

#[test]
fn class_line_is_parsed() {
    let c = parse_class_line(&chars("a/B,a/A|x/I,y/J|f:I,g:Ljava/lang/String;|m()V,n(II)J"));
    assert_eq!(string(&c.name), "a/B");
    assert_eq!(c.super_class.as_deref().map(string), Some("a/A".to_string()));
    assert_eq!(c.interfaces.iter().map(|i| string(i)).collect::<Vec<_>>(), vec!["x/I", "y/J"]);
    assert_eq!(c.instance_fields.len(), 2);
    assert_eq!(string(&c.instance_fields[1].1), "Ljava/lang/String;");
    assert!(has_method(&c, "m", "()V") && has_method(&c, "n", "(II)J"));
    let bare = parse_class_line(&chars("q/Marker|||"));
    assert!(bare.super_class.is_none() && bare.methods.is_empty() && bare.instance_fields.is_empty());
    assert_eq!(split_pieces(&chars("a,,b"), ',').len(), 3);
}

#[test]
fn java_lang_registers_object_and_exceptions() {
    let mut heap = Heap::new();
    let mut t = ClassTable::new();
    bootstrap_java_lang(&mut t, &mut heap);
    let object = class(&t, "java/lang/Object");
    assert!(object.super_class.is_none());
    assert!(has_method(object, "hashCode", "()I"));
    let npe = chars("java/lang/NullPointerException");
    assert!(is_throwable_class(&t, &npe));
    assert!(!is_throwable_class(&t, &chars("java/lang/String")));
    assert!(is_instance_of(&t, &npe, &chars("java/lang/RuntimeException")));
    let string_class = class(&t, "java/lang/String");
    let ifaces: Vec<String> = string_class.interfaces.iter().map(|i| string(i)).collect();
    assert_eq!(ifaces, vec!["java/lang/Comparable", "java/lang/CharSequence"]);
}

#[test]
fn integer_statics_and_type_object() {
    let mut heap = Heap::new();
    let mut t = ClassTable::new();
    bootstrap_java_lang(&mut t, &mut heap);
    let integer = class(&t, "java/lang/Integer");
    assert_eq!(static_value(integer, "MIN_VALUE"), Value::Int(i32::MIN));
    assert_eq!(static_value(integer, "BYTES"), Value::Int(4));
    match static_value(integer, "TYPE") {
        Value::Reference(Reference::Heap(i)) => match &heap.values[i] {
            HeapValue::Object { class_name, fields } => {
                assert_eq!(string(class_name), "java/lang/Class");
                assert_eq!(string(&fields[0].name), "__name");
            },
            _ => panic!("TYPE is not an object"),
        },
        other => panic!("TYPE is {:?}", other),
    }
}

#[test]
fn every_group_registers_and_class_is_replaced() {
    let (t, heap) = all_classes();
    assert_eq!(t.classes.len(), 142);
    let class_class = class(&t, "java/lang/Class");
    assert!(has_method(class_class, "getDeclaredMethods", "()[Ljava/lang/reflect/Method;"));
    let bytes = class(&t, "java/nio/ByteBuffer");
    assert!(has_method(bytes, "wrap", "( [B)Ljava/nio/ByteBuffer;"));
    let system = class(&t, "java/lang/System");
    assert!(matches!(static_value(system, "out"), Value::Reference(Reference::Heap(_))));
    let days = class(&t, "java/time/DayOfWeek");
    match static_value(days, "WEDNESDAY") {
        Value::Reference(Reference::Heap(i)) => match &heap.values[i] {
            HeapValue::Object { fields, .. } => assert_eq!(fields[0].value, Value::Int(3)),
            _ => panic!("not an object"),
        },
        other => panic!("WEDNESDAY is {:?}", other),
    }
    let unsafe_class = class(&t, "jdk/internal/misc/Unsafe");
    assert_eq!(static_value(unsafe_class, "INVALID_FIELD_OFFSET"), Value::Int(-1));
    assert_eq!(static_value(unsafe_class, "ARRAY_LONG_INDEX_SCALE"), Value::Int(1));
}

#[test]
fn get_unsafe_reads_the_static_instance() {
    let mut heap = Heap::new();
    let mut t = ClassTable::new();
    let missing = jvm_rs::other::get_unsafe(&t);
    assert!(matches!(missing, Err(jvm_rs::model::VmError::FieldNotFound { .. })));
    bootstrap_other(&mut t, &mut heap);
    match jvm_rs::other::get_unsafe(&t).unwrap() {
        Some(Value::Reference(Reference::Heap(i))) => match &heap.values[i] {
            HeapValue::Object { class_name, .. } => assert_eq!(string(class_name), "jdk/internal/misc/Unsafe"),
            _ => panic!("not an object"),
        },
        other => panic!("theUnsafe is {:?}", other),
    }
}

fn registered_by(boot: impl Fn(&mut ClassTable)) -> Vec<(String, String, String)> {
    let mut t = ClassTable::new();
    boot(&mut t);
    let mut out = Vec::new();
    for c in &t.classes {
        for (n, d) in &c.methods {
            out.push((string(&c.name), string(n), string(d)));
        }
    }
    out
}

#[test]
fn java_lang_exceptions_are_throwable() {
    let mut heap = Heap::new();
    let mut t = ClassTable::new();
    bootstrap_java_lang(&mut t, &mut heap);
    for name in [
        "java/lang/Throwable",
        "java/lang/Exception",
        "java/lang/RuntimeException",
        "java/lang/ArithmeticException",
        "java/lang/NullPointerException",
        "java/lang/ClassCastException",
        "java/lang/NegativeArraySizeException",
        "java/lang/ArrayIndexOutOfBoundsException",
        "java/lang/IllegalMonitorStateException",
    ] {
        assert!(is_throwable_class(&t, &chars(name)), "{name} is not throwable");
    }
    assert!(!is_throwable_class(&t, &chars("java/lang/Object")));
    assert!(!is_throwable_class(&t, &chars("java/lang/String")));
}

#[test]
fn reflect_reregistration_keeps_class_methods() {
    let mut heap = Heap::new();
    let mut t = ClassTable::new();
    bootstrap_java_lang(&mut t, &mut heap);
    let before: Vec<(String, String)> =
        class(&t, "java/lang/Class").methods.iter().map(|(n, d)| (string(n), string(d))).collect();
    assert!(!before.is_empty());
    bootstrap_java_lang_reflect(&mut t);
    let after = class(&t, "java/lang/Class");
    for (n, d) in &before {
        assert!(has_method(after, n, d), "java/lang/Class lost {n}{d}");
    }
    assert_eq!(after.super_class.as_deref().map(string), Some("java/lang/Object".to_string()));
    for (n, d) in [
        ("getDeclaredMethod", "(Ljava/lang/String;[Ljava/lang/Class;)Ljava/lang/reflect/Method;"),
        ("getDeclaredField", "(Ljava/lang/String;)Ljava/lang/reflect/Field;"),
        ("getDeclaredConstructor", "([Ljava/lang/Class;)Ljava/lang/reflect/Constructor;"),
        ("getSuperclass", "()Ljava/lang/Class;"),
        ("getModifiers", "()I"),
        ("isHidden", "()Z"),
    ] {
        assert!(has_method(after, n, d), "java/lang/Class lacks {n}{d}");
    }
}

#[test]
fn registered_atomic_methods_have_natives() {
    let methods = registered_by(|t| bootstrap_java_util_concurrent(t));
    let atomic: Vec<_> = methods.iter().filter(|(c, _, _)| c.starts_with("java/util/concurrent/atomic/")).collect();
    assert!(atomic.len() > 20);
    for (c, n, d) in atomic {
        assert!(
            jvm_rs::concurrent::concurrent_method(&chars(c), &chars(n), &chars(d)).is_some(),
            "{c}.{n}{d} has no native"
        );
    }
}

#[test]
fn registered_regex_methods_have_natives() {
    let methods = registered_by(|t| bootstrap_java_util_regex(t));
    assert!(!methods.is_empty());
    for (c, n, d) in &methods {
        assert!(
            jvm_rs::regex::regex_method(&chars(c), &chars(n), &chars(d)).is_ok(),
            "{c}.{n}{d} has no native"
        );
    }
}

#[test]
fn registered_text_methods_have_natives() {
    let methods = registered_by(|t| bootstrap_java_text(t));
    assert!(!methods.is_empty());
    // Formatting a float or a double is the application's (floating point).
    let takes_float = |d: &str| d.starts_with("(F)") || d.starts_with("(D)");
    for (c, n, d) in methods.iter().filter(|(_, _, d)| !takes_float(d)) {
        assert!(
            jvm_rs::text::text_method(&chars(c), &chars(n), &chars(d)).is_some(),
            "{c}.{n}{d} has no native"
        );
    }
}
