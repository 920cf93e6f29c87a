use jvm_rs::handles::{
    drop_lookup_mode, has_full_privilege_access, lookup_find_method, lookup_in_modes, lookup_modes,
    object_field_offset, private_lookup_modes, unreflect_method, OffsetQuery,
};
use jvm_rs::heap::{field, Heap};
use jvm_rs::lang_reflect::modifier_string;
use jvm_rs::model::{HeapValue, Reference, Value, VmError};
use jvm_rs::regex::{regex_method, run_regex, RegexState};
use jvm_rs::text::{invoke_text, simple_message_format, text_method};
use jvm_rs::time::{duration_string, instant_string, invoke_time, time_method};
use jvm_rs::unsafe_access::unsafe_cas_int;

fn chars(s: &str) -> Vec<char> {
    s.chars().collect()
}

fn string(v: &[char]) -> String {
    v.iter().collect()
}

fn text(heap: &Heap, v: Option<Value>) -> String {
    match v {
        Some(Value::Reference(Reference::Heap(i))) => match &heap.values[i] {
            HeapValue::String(s) => string(s),
            _ => panic!("not a string"),
        },
        other => panic!("not a string reference: {:?}", other),
    }
}

fn regex(heap: &mut Heap, state: &mut RegexState, class: &str, name: &str, desc: &str, args: &[Value]) -> Result<Option<Value>, VmError> {
    let k = regex_method(&chars(class), &chars(name), &chars(desc)).expect("native not found");
    run_regex(heap, state, k, args).expect("arguments accepted")
}

fn exception_name(e: &VmError) -> String {
    match e {
        VmError::UnhandledException { class_name } => string(class_name),
        other => panic!("not an exception: {:?}", other),
    }
}

fn class_object(heap: &mut Heap, name: &str) -> Reference {
    let n = heap.new_string(chars(name));
    heap.allocate(HeapValue::Object { class_name: chars("java/lang/Class"), fields: vec![field("__name", n)] })
}

#[test]
fn pattern_matches_finds_a_match_anywhere() {
    let mut heap = Heap::new();
    let mut state = RegexState { compiled: 0 };
    let p = heap.new_string(chars("a+b"));
    let yes = heap.new_string(chars("aaab"));
    let partial = heap.new_string(chars("xxaabyy"));
    let no = heap.new_string(chars("bbb"));
    let d = "(Ljava/lang/String;Ljava/lang/CharSequence;)Z";
    let r1 = regex(&mut heap, &mut state, "java/util/regex/Pattern", "matches", d, &[p, yes]).unwrap();
    assert_eq!(r1, Some(Value::Int(1)));
    let r2 = regex(&mut heap, &mut state, "java/util/regex/Pattern", "matches", d, &[p, no]).unwrap();
    assert_eq!(r2, Some(Value::Int(0)));
    let r3 = regex(&mut heap, &mut state, "java/util/regex/Pattern", "matches", d, &[p, partial]).unwrap();
    assert_eq!(r3, Some(Value::Int(1)));
}

#[test]
fn matcher_find_and_group() {
    let mut heap = Heap::new();
    let mut state = RegexState { compiled: 0 };
    let src = heap.new_string(chars("[0-9]+"));
    let p = regex(&mut heap, &mut state, "java/util/regex/Pattern", "compile", "(Ljava/lang/String;)Ljava/util/regex/Pattern;", &[src]).unwrap().unwrap();
    assert_eq!(state.compiled, 1);
    let input = heap.new_string(chars("ab 12 cd 345"));
    let m = regex(&mut heap, &mut state, "java/util/regex/Pattern", "matcher", "(Ljava/lang/CharSequence;)Ljava/util/regex/Matcher;", &[p, input]).unwrap().unwrap();
    let f1 = regex(&mut heap, &mut state, "java/util/regex/Matcher", "find", "()Z", &[m]).unwrap();
    assert_eq!(f1, Some(Value::Int(1)));
    let g1 = regex(&mut heap, &mut state, "java/util/regex/Matcher", "group", "()Ljava/lang/String;", &[m]).unwrap();
    assert_eq!(text(&heap, g1), "12");
    let s1 = regex(&mut heap, &mut state, "java/util/regex/Matcher", "start", "()I", &[m]).unwrap();
    assert_eq!(s1, Some(Value::Int(3)));
    regex(&mut heap, &mut state, "java/util/regex/Matcher", "find", "()Z", &[m]).unwrap();
    let g2 = regex(&mut heap, &mut state, "java/util/regex/Matcher", "group", "()Ljava/lang/String;", &[m]).unwrap();
    assert_eq!(text(&heap, g2), "345");
    let f3 = regex(&mut heap, &mut state, "java/util/regex/Matcher", "find", "()Z", &[m]).unwrap();
    assert_eq!(f3, Some(Value::Int(0)));
}

#[test]
fn matcher_replace_all() {
    let mut heap = Heap::new();
    let mut state = RegexState { compiled: 0 };
    let src = heap.new_string(chars("o+"));
    let p = regex(&mut heap, &mut state, "java/util/regex/Pattern", "compile", "(Ljava/lang/String;)Ljava/util/regex/Pattern;", &[src]).unwrap().unwrap();
    let input = heap.new_string(chars("foo boo"));
    let m = regex(&mut heap, &mut state, "java/util/regex/Pattern", "matcher", "(Ljava/lang/CharSequence;)Ljava/util/regex/Matcher;", &[p, input]).unwrap().unwrap();
    let rep = heap.new_string(chars("0"));
    let r = regex(&mut heap, &mut state, "java/util/regex/Matcher", "replaceAll", "(Ljava/lang/String;)Ljava/lang/String;", &[rep, m]).unwrap();
    assert_eq!(text(&heap, r), "f0 b0");
}

#[test]
fn pattern_split_into_array() {
    let mut heap = Heap::new();
    let mut state = RegexState { compiled: 0 };
    let src = heap.new_string(chars(",\\s*"));
    let p = regex(&mut heap, &mut state, "java/util/regex/Pattern", "compile", "(Ljava/lang/String;)Ljava/util/regex/Pattern;", &[src]).unwrap().unwrap();
    let input = heap.new_string(chars("a, b,c"));
    let arr = regex(&mut heap, &mut state, "java/util/regex/Pattern", "split", "(Ljava/lang/CharSequence;)[Ljava/lang/String;", &[p, input]).unwrap();
    let parts: Vec<String> = match arr {
        Some(Value::Reference(Reference::Heap(i))) => match &heap.values[i] {
            HeapValue::ReferenceArray { values, .. } => values.iter().map(|r| text(&heap, Some(Value::Reference(*r)))).collect(),
            _ => panic!("not an array"),
        },
        _ => panic!("no array"),
    };
    assert_eq!(parts, vec!["a", "b", "c"]);
}

#[test]
fn bad_pattern_is_a_syntax_exception() {
    let mut heap = Heap::new();
    let mut state = RegexState { compiled: 0 };
    let src = heap.new_string(chars("(unclosed"));
    let e = regex(&mut heap, &mut state, "java/util/regex/Pattern", "compile", "(Ljava/lang/String;)Ljava/util/regex/Pattern;", &[src]).unwrap_err();
    assert_eq!(exception_name(&e), "java/util/PatternSyntaxException");
    assert_eq!(state.compiled, 0);
}

#[test]
fn unknown_regex_native_is_nameless_exception() {
    let e = regex_method(&chars("java/util/regex/Matcher"), &chars("hitEnd"), &chars("()Z")).unwrap_err();
    assert_eq!(exception_name(&e), "");
}

#[test]
fn instant_and_duration_texts() {
    assert_eq!(string(&instant_string(5, 7)), "5.000000007");
    assert_eq!(string(&instant_string(-1, 500000000)), "-1.500000000");
    assert_eq!(string(&duration_string(-90, 0)), "-PT90S");
    assert_eq!(string(&duration_string(3600, 5)), "PT3600S");
}

#[test]
fn instant_of_epoch_milli_round_trip() {
    let mut heap = Heap::new();
    let k = time_method(&chars("java/time/Instant"), &chars("ofEpochMilli"), &chars("(J)Ljava/time/Instant;")).unwrap();
    let i = invoke_time(&mut heap, k, &[Value::Long(1500)]).unwrap().unwrap();
    let k2 = time_method(&chars("java/time/Instant"), &chars("toEpochMilli"), &chars("()J")).unwrap();
    assert_eq!(invoke_time(&mut heap, k2, &[i]).unwrap(), Some(Value::Long(1500)));
    let k3 = time_method(&chars("java/time/Instant"), &chars("getNano"), &chars("()I")).unwrap();
    assert_eq!(invoke_time(&mut heap, k3, &[i]).unwrap(), Some(Value::Int(500000000)));
}

#[test]
fn message_format_fills_placeholders() {
    let args = vec![chars("Ann"), chars("3")];
    assert_eq!(string(&simple_message_format(&chars("{0} has {1} cats"), &args)), "Ann has 3 cats");
    assert_eq!(string(&simple_message_format(&chars("{5} stays"), &args)), " stays");
    assert_eq!(string(&simple_message_format(&chars("a{0x"), &args)), "a{0");
}

#[test]
fn number_format_int() {
    let mut heap = Heap::new();
    let k = text_method(&chars("java/text/NumberFormat"), &chars("format"), &chars("(J)Ljava/lang/String;")).unwrap();
    let r = invoke_text(&mut heap, k, &[Value::Long(-1234567)]).unwrap();
    assert_eq!(text(&heap, r), "-1234567");
}

#[test]
fn modifier_words() {
    assert_eq!(string(&modifier_string(0x0009)), "public static");
    assert_eq!(string(&modifier_string(0x0412)), "private final volatile");
    assert_eq!(string(&modifier_string(0)), "");
}

#[test]
fn lookup_mode_arithmetic() {
    assert_eq!(drop_lookup_mode(0x1f, 0x04), 0x1f);
    assert_eq!(drop_lookup_mode(0x1f, 0x01), 0);
    assert_eq!(drop_lookup_mode(0x1f, 0x02), 0x1d);
    assert_eq!(private_lookup_modes(0x1f, true), Some(0x1f));
    assert_eq!(private_lookup_modes(0x1f, false), Some(0x1b));
    assert_eq!(private_lookup_modes(0x0f, true), None);
    assert_eq!(lookup_in_modes(0x1f, true), 0x1b);
    assert_eq!(lookup_in_modes(0x1f, false), 0x01);
    assert!(has_full_privilege_access(0x12));
    assert!(!has_full_privilege_access(0x02));
}

#[test]
fn lookup_find_method_request() {
    let mut heap = Heap::new();
    let lookup_class = class_object(&mut heap, "com/example/Main");
    let lookup = Value::Reference(heap.allocate(HeapValue::Object {
        class_name: chars("java/lang/invoke/MethodHandles$Lookup"),
        fields: vec![field("__lookupClass", Value::Reference(lookup_class))],
    }));
    assert_eq!(lookup_modes(&heap, match lookup { Value::Reference(r) => r, _ => Reference::Null }), 0x5f);
    let target = Value::Reference(class_object(&mut heap, "java/lang/String"));
    let name = heap.new_string(chars("length"));
    let desc = heap.new_string(chars("()I"));
    let mt = Value::Reference(heap.allocate(HeapValue::Object {
        class_name: chars("java/lang/invoke/MethodType"),
        fields: vec![field("__descriptor", desc)],
    }));
    let q = lookup_find_method(&heap, &[lookup, target, name, mt], 5).unwrap();
    assert_eq!(q.reference_kind, 5);
    assert_eq!(string(&q.lookup_class), "com/example/Main");
    assert_eq!(q.lookup_modes, 0x5f);
    assert_eq!(string(&q.target_class), "java/lang/String");
    assert_eq!(string(&q.member_name), "length");
    assert_eq!(string(&q.descriptor), "()I");
}

#[test]
fn lookup_without_method_type_descriptor_fails() {
    let mut heap = Heap::new();
    let lookup_class = class_object(&mut heap, "Main");
    let lookup = Value::Reference(heap.allocate(HeapValue::Object {
        class_name: chars("java/lang/invoke/MethodHandles$Lookup"),
        fields: vec![field("__lookupClass", Value::Reference(lookup_class))],
    }));
    let target = Value::Reference(class_object(&mut heap, "T"));
    let name = heap.new_string(chars("m"));
    let mt = Value::Reference(heap.allocate(HeapValue::Object { class_name: chars("java/lang/invoke/MethodType"), fields: vec![] }));
    let e = lookup_find_method(&heap, &[lookup, target, name, mt], 6).err().unwrap();
    match e {
        VmError::FieldNotFound { class_name, field_name } => {
            assert_eq!(string(&class_name), "java/lang/invoke/MethodType");
            assert_eq!(string(&field_name), "__descriptor");
        },
        other => panic!("unexpected error {:?}", other),
    }
}

#[test]
fn unreflect_static_method_is_invoke_static() {
    let mut heap = Heap::new();
    let lookup_class = class_object(&mut heap, "Main");
    let lookup = heap.allocate(HeapValue::Object {
        class_name: chars("java/lang/invoke/MethodHandles$Lookup"),
        fields: vec![field("__lookupClass", Value::Reference(lookup_class)), field("__modes", Value::Int(0x1f))],
    });
    let decl = class_object(&mut heap, "Util");
    let name = heap.new_string(chars("helper"));
    let desc = heap.new_string(chars("(I)V"));
    let m = heap.allocate(HeapValue::Object {
        class_name: chars("java/lang/reflect/Method"),
        fields: vec![
            field("__declaring_class", Value::Reference(decl)),
            field("__name", name),
            field("__descriptor", desc),
            field("__modifiers", Value::Int(0x0009)),
        ],
    });
    let q = unreflect_method(&heap, lookup, m).unwrap();
    assert_eq!(q.reference_kind, 6);
    assert_eq!(q.lookup_modes, 0x1f);
    assert_eq!(q.modifiers, Some(9));
    assert_eq!(string(&q.target_class), "Util");
}

#[test]
fn object_field_offset_queries() {
    let mut heap = Heap::new();
    let this = Value::Reference(Reference::Null);
    match object_field_offset(&heap, &[this, Value::Reference(Reference::Null)]).unwrap() {
        OffsetQuery::Known(o) => assert_eq!(o, 0),
        _ => panic!("expected a known offset"),
    }
    let cls = Value::Reference(class_object(&mut heap, "Point"));
    let name = heap.new_string(chars("x"));
    match object_field_offset(&heap, &[this, cls, name, Value::Int(0)]).unwrap() {
        OffsetQuery::InClass { class_name, field_name } => {
            assert_eq!(string(&class_name), "Point");
            assert_eq!(string(&field_name), "x");
        },
        _ => panic!("expected a class lookup"),
    }
}

#[test]
fn unsafe_compare_and_set_int_on_array() {
    let mut heap = Heap::new();
    let arr = Value::Reference(heap.allocate(HeapValue::IntArray { values: vec![10, 20, 30] }));
    let this = Value::Reference(Reference::Null);
    let ok = unsafe_cas_int(&mut heap, &[this, arr, Value::Long(1), Value::Int(20), Value::Int(99)]).unwrap();
    assert_eq!(ok, Some(Value::Int(1)));
    let no = unsafe_cas_int(&mut heap, &[this, arr, Value::Long(1), Value::Int(20), Value::Int(5)]).unwrap();
    assert_eq!(no, Some(Value::Int(0)));
    match &heap.values[0] {
        HeapValue::IntArray { values } => assert_eq!(values, &vec![10, 99, 30]),
        _ => panic!("not an array"),
    }
}
