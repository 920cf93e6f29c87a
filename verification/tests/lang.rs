use jvm_rs::heap::Heap;
use jvm_rs::lang::{invoke_lang, lang_callable, lang_method};
use jvm_rs::lang_number::radix_string;
use jvm_rs::model::{HeapValue, Reference, Value, VmError};

fn chars(s: &str) -> Vec<char> {
    s.chars().collect()
}

fn new_str(heap: &mut Heap, s: &str) -> Value {
    heap.new_string(chars(s))
}

fn text(heap: &Heap, v: Option<Value>) -> String {
    match v {
        Some(Value::Reference(Reference::Heap(i))) => match &heap.values[i] {
            HeapValue::String(s) => s.iter().collect(),
            HeapValue::StringBuilder(s) => s.iter().collect(),
            _ => panic!("not a string"),
        },
        other => panic!("not a reference: {:?}", other),
    }
}

fn call(heap: &mut Heap, class: &str, name: &str, desc: &str, args: &[Value]) -> Result<Option<Value>, VmError> {
    let k = lang_method(&chars(class), &chars(name), &chars(desc)).expect("native not found");
    assert!(lang_callable(heap, k, args));
    invoke_lang(heap, k, args)
}

fn exception_name(e: &VmError) -> String {
    match e {
        VmError::UnhandledException { class_name } => class_name.iter().collect(),
        other => panic!("not an exception: {:?}", other),
    }
}

#[test]
fn string_length_counts_utf16_units() {
    let mut heap = Heap::new();
    let s = new_str(&mut heap, "héllo");
    let r = call(&mut heap, "java/lang/String", "length", "()I", &[s]).unwrap();
    assert_eq!(r, Some(Value::Int(5)));
    let e = new_str(&mut heap, "é");
    let r = call(&mut heap, "java/lang/String", "length", "()I", &[e]).unwrap();
    assert_eq!(r, Some(Value::Int(1)));
    let wide = new_str(&mut heap, "a\u{1F600}");
    let r = call(&mut heap, "java/lang/String", "length", "()I", &[wide]).unwrap();
    assert_eq!(r, Some(Value::Int(3)));
}

#[test]
fn string_char_at_past_end_is_nul() {
    let mut heap = Heap::new();
    let s = new_str(&mut heap, "abc");
    let r = call(&mut heap, "java/lang/String", "charAt", "(I)C", &[s, Value::Int(1)]).unwrap();
    assert_eq!(r, Some(Value::Int('b' as i32)));
    let past = call(&mut heap, "java/lang/String", "charAt", "(I)C", &[s, Value::Int(3)]).unwrap();
    assert_eq!(past, Some(Value::Int(0)));
}

#[test]
fn string_substring_trim_and_case() {
    let mut heap = Heap::new();
    let s = new_str(&mut heap, "  Hello World  ");
    let t = call(&mut heap, "java/lang/String", "trim", "()Ljava/lang/String;", &[s]).unwrap();
    assert_eq!(text(&heap, t), "Hello World");
    let u = call(&mut heap, "java/lang/String", "toUpperCase", "()Ljava/lang/String;", &[t.unwrap()]).unwrap();
    assert_eq!(text(&heap, u), "HELLO WORLD");
    let sub = call(&mut heap, "java/lang/String", "substring", "(II)Ljava/lang/String;", &[t.unwrap(), Value::Int(6), Value::Int(11)]).unwrap();
    assert_eq!(text(&heap, sub), "World");
}

#[test]
fn string_equals_and_compare() {
    let mut heap = Heap::new();
    let a = new_str(&mut heap, "apple");
    let b = new_str(&mut heap, "apple");
    let c = new_str(&mut heap, "banana");
    let eq = call(&mut heap, "java/lang/String", "equals", "(Ljava/lang/Object;)Z", &[a, b]).unwrap();
    assert_eq!(eq, Some(Value::Int(1)));
    let cmp = call(&mut heap, "java/lang/String", "compareTo", "(Ljava/lang/String;)I", &[a, c]).unwrap();
    assert_eq!(cmp, Some(Value::Int('a' as i32 - 'b' as i32)));
}

#[test]
fn string_hash_code_matches_java() {
    let mut heap = Heap::new();
    let s = new_str(&mut heap, "hello");
    let h = call(&mut heap, "java/lang/String", "hashCode", "()I", &[s]).unwrap();
    assert_eq!(h, Some(Value::Int(99162322)));
}

#[test]
fn string_index_of() {
    let mut heap = Heap::new();
    let s = new_str(&mut heap, "hello world");
    let n = new_str(&mut heap, "world");
    let missing = new_str(&mut heap, "xyz");
    let i = call(&mut heap, "java/lang/String", "indexOf", "(Ljava/lang/String;)I", &[s, n]).unwrap();
    assert_eq!(i, Some(Value::Int(6)));
    let j = call(&mut heap, "java/lang/String", "indexOf", "(Ljava/lang/String;)I", &[s, missing]).unwrap();
    assert_eq!(j, Some(Value::Int(-1)));
}

#[test]
fn integer_parse_and_errors() {
    let mut heap = Heap::new();
    let s = new_str(&mut heap, "-123");
    let r = call(&mut heap, "java/lang/Integer", "parseInt", "(Ljava/lang/String;)I", &[s]).unwrap();
    assert_eq!(r, Some(Value::Int(-123)));
    let bad = new_str(&mut heap, "12a");
    let e = call(&mut heap, "java/lang/Integer", "parseInt", "(Ljava/lang/String;)I", &[bad]).unwrap_err();
    assert_eq!(exception_name(&e), "java/lang/NumberFormatException");
    let big = new_str(&mut heap, "2147483648");
    let e2 = call(&mut heap, "java/lang/Integer", "parseInt", "(Ljava/lang/String;)I", &[big]).unwrap_err();
    assert_eq!(exception_name(&e2), "java/lang/NumberFormatException");
}

#[test]
fn integer_text_round_trip() {
    let mut heap = Heap::new();
    let t = call(&mut heap, "java/lang/Integer", "toString", "(I)Ljava/lang/String;", &[Value::Int(-2147483648)]).unwrap();
    assert_eq!(text(&heap, t), "-2147483648");
    let back = call(&mut heap, "java/lang/Integer", "parseInt", "(Ljava/lang/String;)I", &[t.unwrap()]).unwrap();
    assert_eq!(back, Some(Value::Int(-2147483648)));
}

#[test]
fn integer_radix_strings() {
    assert_eq!(radix_string(255, 16).iter().collect::<String>(), "ff");
    assert_eq!(radix_string(5, 2).iter().collect::<String>(), "101");
    assert_eq!(radix_string(-8, 8).iter().collect::<String>(), "-10");
    assert_eq!(radix_string(10, 3).iter().collect::<String>(), "10");
}

#[test]
fn integer_box_round_trip() {
    let mut heap = Heap::new();
    let b = call(&mut heap, "java/lang/Integer", "valueOf", "(I)Ljava/lang/Integer;", &[Value::Int(42)]).unwrap();
    let v = call(&mut heap, "java/lang/Integer", "intValue", "()I", &[b.unwrap()]).unwrap();
    assert_eq!(v, Some(Value::Int(42)));
}

#[test]
fn long_parse_and_compare() {
    let mut heap = Heap::new();
    let s = new_str(&mut heap, "9223372036854775807");
    let r = call(&mut heap, "java/lang/Long", "parseLong", "(Ljava/lang/String;)J", &[s]).unwrap();
    assert_eq!(r, Some(Value::Long(i64::MAX)));
    let c = call(&mut heap, "java/lang/Long", "compare", "(JJ)I", &[Value::Long(3), Value::Long(7)]).unwrap();
    assert_eq!(c, Some(Value::Int(-1)));
}

#[test]
fn math_floor_div_and_mod() {
    let mut heap = Heap::new();
    let q = call(&mut heap, "java/lang/Math", "floorDiv", "(JJ)J", &[Value::Long(-7), Value::Long(2)]).unwrap();
    assert_eq!(q, Some(Value::Long(-4)));
    let m = call(&mut heap, "java/lang/Math", "floorMod", "(JJ)J", &[Value::Long(-7), Value::Long(2)]).unwrap();
    assert_eq!(m, Some(Value::Long(1)));
    let e = call(&mut heap, "java/lang/Math", "floorDiv", "(JJ)J", &[Value::Long(1), Value::Long(0)]).unwrap_err();
    assert!(matches!(e, VmError::DivisionByZero));
}

#[test]
fn math_abs_max_min() {
    let mut heap = Heap::new();
    let a = call(&mut heap, "java/lang/Math", "abs", "(I)I", &[Value::Int(-5)]).unwrap();
    assert_eq!(a, Some(Value::Int(5)));
    let w = call(&mut heap, "java/lang/Math", "abs", "(I)I", &[Value::Int(i32::MIN)]).unwrap();
    assert_eq!(w, Some(Value::Int(i32::MIN)));
    let mx = call(&mut heap, "java/lang/Math", "max", "(II)I", &[Value::Int(3), Value::Int(9)]).unwrap();
    assert_eq!(mx, Some(Value::Int(9)));
}

#[test]
fn character_natives() {
    let mut heap = Heap::new();
    let d = call(&mut heap, "java/lang/Character", "isDigit", "(C)Z", &[Value::Int('7' as i32)]).unwrap();
    assert_eq!(d, Some(Value::Int(1)));
    let u = call(&mut heap, "java/lang/Character", "toUpperCase", "(C)C", &[Value::Int('q' as i32)]).unwrap();
    assert_eq!(u, Some(Value::Int('Q' as i32)));
    let w = call(&mut heap, "java/lang/Character", "isWhitespace", "(C)Z", &[Value::Int('x' as i32)]).unwrap();
    assert_eq!(w, Some(Value::Int(0)));
}

#[test]
fn boolean_parse_ignores_case() {
    let mut heap = Heap::new();
    let s = new_str(&mut heap, "TrUe");
    let r = call(&mut heap, "java/lang/Boolean", "parseBoolean", "(Ljava/lang/String;)Z", &[s]).unwrap();
    assert_eq!(r, Some(Value::Int(1)));
    let n = new_str(&mut heap, "yes");
    let r2 = call(&mut heap, "java/lang/Boolean", "parseBoolean", "(Ljava/lang/String;)Z", &[n]).unwrap();
    assert_eq!(r2, Some(Value::Int(0)));
}

#[test]
fn object_identity_natives() {
    let mut heap = Heap::new();
    let a = new_str(&mut heap, "x");
    let b = new_str(&mut heap, "x");
    let eq = call(&mut heap, "java/lang/Object", "equals", "(Ljava/lang/Object;)Z", &[a, b]).unwrap();
    assert_eq!(eq, Some(Value::Int(0)));
    let h = call(&mut heap, "java/lang/Object", "hashCode", "()I", &[b]).unwrap();
    assert_eq!(h, Some(Value::Int(1)));
}

#[test]
fn builder_append_reverse_and_length() {
    let mut heap = Heap::new();
    let sb = heap.allocate(HeapValue::StringBuilder(Vec::new()));
    let sbv = Value::Reference(sb);
    let s = new_str(&mut heap, "abc");
    call(&mut heap, "java/lang/StringBuilder", "append", "(Ljava/lang/String;)Ljava/lang/StringBuilder;", &[sbv, s]).unwrap();
    call(&mut heap, "java/lang/StringBuilder", "append", "(I)Ljava/lang/StringBuilder;", &[sbv, Value::Int(12)]).unwrap();
    let len = call(&mut heap, "java/lang/StringBuilder", "length", "()I", &[sbv]).unwrap();
    assert_eq!(len, Some(Value::Int(5)));
    call(&mut heap, "java/lang/StringBuilder", "reverse", "()Ljava/lang/StringBuilder;", &[sbv]).unwrap();
    let t = call(&mut heap, "java/lang/StringBuilder", "toString", "()Ljava/lang/String;", &[sbv]).unwrap();
    assert_eq!(text(&heap, t), "21cba");
}

#[test]
fn builder_reverse_twice_is_identity() {
    let mut heap = Heap::new();
    let sb = heap.allocate(HeapValue::StringBuilder(chars("jvm-rs")));
    let sbv = Value::Reference(sb);
    call(&mut heap, "java/lang/StringBuilder", "reverse", "()Ljava/lang/StringBuilder;", &[sbv]).unwrap();
    call(&mut heap, "java/lang/StringBuilder", "reverse", "()Ljava/lang/StringBuilder;", &[sbv]).unwrap();
    let t = call(&mut heap, "java/lang/StringBuilder", "toString", "()Ljava/lang/String;", &[sbv]).unwrap();
    assert_eq!(text(&heap, t), "jvm-rs");
}

#[test]
fn unknown_lang_native_is_not_selected() {
    assert!(lang_method(&chars("java/lang/String"), &chars("intern"), &chars("()Ljava/lang/String;")).is_none());
}
