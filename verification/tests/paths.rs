use std::path::{Component, Path, PathBuf};

use jvm_rs::heap::{field, Heap};
use jvm_rs::model::{HeapValue, Reference, Value, VmError};
use jvm_rs::nio::{invoke_nio, nio_callable, nio_method, path_to_absolute};
use jvm_rs::paths::{
    normalize_path, path_components, path_file_name, path_join, path_name_components, path_parent,
    path_starts_with, root_path,
};

fn chars(s: &str) -> Vec<char> {
    s.chars().collect()
}

fn string(v: &[char]) -> String {
    v.iter().collect()
}

const SAMPLES: [&str; 22] = [
    "", "/", "//", "a", "/a", "a/b", "/a/b", "a/b/", "a//b", "a/./b", "./a", ".", "./", "..",
    "../a", "/..", "a/..", "/a/b/../c", "a/b/.", ".//a/.", "/./a", "x/../../y",
];

fn std_component_text(c: Component) -> String {
    match c {
        Component::RootDir => "/".to_string(),
        Component::CurDir => ".".to_string(),
        Component::ParentDir => "..".to_string(),
        Component::Normal(s) => s.to_string_lossy().into_owned(),
        Component::Prefix(p) => p.as_os_str().to_string_lossy().into_owned(),
    }
}

#[test]
fn components_agree_with_the_platform() {
    for s in SAMPLES {
        let ours: Vec<String> = path_components(&chars(s)).iter().map(|c| string(c)).collect();
        let theirs: Vec<String> = Path::new(s).components().map(std_component_text).collect();
        assert_eq!(ours, theirs, "components of {s:?}");
    }
}

#[test]
fn file_name_and_parent_agree_with_the_platform() {
    for s in SAMPLES {
        let ours = path_file_name(&chars(s)).map(|n| string(&n));
        let theirs = Path::new(s).file_name().map(|n| n.to_string_lossy().into_owned());
        assert_eq!(ours, theirs, "file name of {s:?}");
        let ours = path_parent(&chars(s)).map(|n| string(&n));
        let theirs = Path::new(s).parent().map(|p| p.to_string_lossy().into_owned());
        assert_eq!(ours, theirs, "parent of {s:?}");
    }
}

#[test]
fn join_agrees_with_the_platform() {
    for base in ["", "a", "a/", "/", "/a"] {
        for other in ["", "b", "b/c", "/x"] {
            let ours = string(&path_join(&chars(base), &chars(other)));
            let theirs = PathBuf::from(base).join(other).to_string_lossy().into_owned();
            assert_eq!(ours, theirs, "{base:?} joined with {other:?}");
        }
    }
}

#[test]
fn normalize_path_resolves_dots() {
    let cases = [
        ("/a/b/../c", "/a/c"),
        ("a/./b/", "a/b"),
        ("../a/..", ".."),
        ("/../a", "/a"),
        ("x/../../y", "../y"),
        (".", ""),
        ("/", "/"),
    ];
    for (input, expected) in cases {
        assert_eq!(string(&normalize_path(&chars(input))), expected, "normalize {input:?}");
    }
}

#[test]
fn name_components_keep_leading_dot_and_parents() {
    let names: Vec<String> = path_name_components(&chars("./a/../b")).iter().map(|c| string(c)).collect();
    assert_eq!(names, vec![".", "a", "..", "b"]);
    assert_eq!(root_path(&chars("/x")), Some(chars("/")));
    assert_eq!(root_path(&chars("x")), None);
}

#[test]
fn starts_with_compares_whole_components() {
    assert!(path_starts_with(&chars("/a/bc"), &chars("/a")));
    assert!(!path_starts_with(&chars("/a/bc"), &chars("/a/b")));
    assert!(!path_starts_with(&chars("a/b"), &chars("/a")));
    assert!(path_starts_with(&chars("a/b"), &chars("")));
}

fn path_object(heap: &mut Heap, s: &str) -> Value {
    let text = heap.new_string(chars(s));
    Value::Reference(heap.allocate(HeapValue::Object { class_name: chars("java/nio/file/Path"), fields: vec![field("__path", text)] }))
}

fn text(heap: &Heap, v: Option<Value>) -> Option<String> {
    match v {
        Some(Value::Reference(Reference::Null)) => None,
        Some(Value::Reference(Reference::Heap(i))) => match &heap.values[i] {
            HeapValue::String(s) => Some(string(s)),
            HeapValue::Object { fields, .. } => match fields[0].value {
                Value::Reference(Reference::Heap(j)) => match &heap.values[j] {
                    HeapValue::String(s) => Some(string(s)),
                    _ => panic!("path without text"),
                },
                _ => panic!("path without text"),
            },
            _ => panic!("neither string nor path"),
        },
        other => panic!("not a reference: {:?}", other),
    }
}

fn nio(heap: &mut Heap, class: &str, name: &str, desc: &str, args: &[Value]) -> Result<Option<Value>, VmError> {
    let k = nio_method(&chars(class), &chars(name), &chars(desc)).expect("native not found");
    assert!(nio_callable(heap, k, args));
    invoke_nio(heap, k, args)
}

#[test]
fn path_natives_on_a_path_object() {
    let mut heap = Heap::new();
    let p = path_object(&mut heap, "/usr/lib/../share/doc.txt");
    let c = "java/nio/file/Path";
    let name = nio(&mut heap, c, "getFileName", "()Ljava/nio/file/Path;", &[p]).unwrap();
    assert_eq!(text(&heap, name), Some("doc.txt".to_string()));
    let parent = nio(&mut heap, c, "getParent", "()Ljava/nio/file/Path;", &[p]).unwrap();
    assert_eq!(text(&heap, parent), Some("/usr/lib/../share".to_string()));
    assert_eq!(nio(&mut heap, c, "getNameCount", "()I", &[p]).unwrap(), Some(Value::Int(5)));
    let n2 = nio(&mut heap, c, "getName", "(I)Ljava/lang/String;", &[p, Value::Int(2)]).unwrap();
    assert_eq!(text(&heap, n2), Some("..".to_string()));
    let sub = nio(&mut heap, c, "subpath", "(II)Ljava/nio/file/Path;", &[p, Value::Int(1), Value::Int(4)]).unwrap();
    assert_eq!(text(&heap, sub), Some("lib/../share".to_string()));
    let norm = nio(&mut heap, c, "normalize", "()Ljava/nio/file/Path;", &[p]).unwrap();
    assert_eq!(text(&heap, norm), Some("/usr/share/doc.txt".to_string()));
    assert_eq!(nio(&mut heap, c, "isAbsolute", "()Z", &[p]).unwrap(), Some(Value::Int(1)));
    let bad = nio(&mut heap, c, "getName", "(I)Ljava/nio/file/Path;", &[p, Value::Int(5)]);
    assert!(matches!(bad, Err(VmError::UnhandledException { .. })));
}

#[test]
fn resolve_and_prefix_tests() {
    let mut heap = Heap::new();
    let p = path_object(&mut heap, "base/dir");
    let c = "java/nio/file/Path";
    let rel = heap.new_string(chars("f.txt"));
    let abs = heap.new_string(chars("/etc"));
    let r1 = nio(&mut heap, c, "resolve", "(Ljava/lang/String;)Ljava/nio/file/Path;", &[p, rel]).unwrap();
    assert_eq!(text(&heap, r1), Some("base/dir/f.txt".to_string()));
    let r2 = nio(&mut heap, c, "resolve", "(Ljava/lang/String;)Ljava/nio/file/Path;", &[p, abs]).unwrap();
    assert_eq!(text(&heap, r2), Some("/etc".to_string()));
    let npe = nio(&mut heap, c, "resolve", "(Ljava/lang/String;)Ljava/nio/file/Path;", &[p, Value::Reference(Reference::Null)]);
    assert!(matches!(npe, Err(VmError::UnhandledException { .. })));
    let prefix = heap.new_string(chars("base/./"));
    let suffix = heap.new_string(chars("dir"));
    assert_eq!(nio(&mut heap, c, "startsWith", "(Ljava/lang/String;)Z", &[p, prefix]).unwrap(), Some(Value::Int(1)));
    assert_eq!(nio(&mut heap, c, "endsWith", "(Ljava/lang/String;)Z", &[p, suffix]).unwrap(), Some(Value::Int(1)));
}

#[test]
fn paths_get_joins_the_parts() {
    let mut heap = Heap::new();
    let first = heap.new_string(chars("a"));
    let b = heap.new_string(chars("b"));
    let c = heap.new_string(chars("c.txt"));
    let refs: Vec<Reference> = [b, Value::Reference(Reference::Null), c]
        .iter()
        .map(|v| match v {
            Value::Reference(r) => *r,
            _ => unreachable!(),
        })
        .collect();
    let more = Value::Reference(heap.allocate(HeapValue::ReferenceArray { component_type: chars("java/lang/String"), values: refs }));
    let d = "(Ljava/lang/String;[Ljava/lang/String;)Ljava/nio/file/Path;";
    let p = nio(&mut heap, "java/nio/file/Paths", "get", d, &[first, more]).unwrap();
    assert_eq!(text(&heap, p), Some("a/b/c.txt".to_string()));
    let hidden = path_object(&mut heap, "dir/.cache");
    assert_eq!(nio(&mut heap, "java/nio/file/Files", "isHidden", "(Ljava/nio/file/Path;)Z", &[hidden]).unwrap(), Some(Value::Int(1)));
}

#[test]
fn to_absolute_path_joins_the_working_directory() {
    let mut heap = Heap::new();
    let p = path_object(&mut heap, "x/../y");
    let r = path_to_absolute(&mut heap, &[p], &chars("/home/u")).unwrap();
    assert_eq!(text(&heap, r), Some("/home/u/y".to_string()));
    let q = path_object(&mut heap, "/abs");
    let r = path_to_absolute(&mut heap, &[q], &chars("/home/u")).unwrap();
    assert_eq!(text(&heap, r), Some("/abs".to_string()));
}

#[test]
fn fixed_nio_answers() {
    let mut heap = Heap::new();
    let r = nio(&mut heap, "java/nio/file/FileStore", "getTotalSpace", "()J", &[]).unwrap();
    assert_eq!(r, Some(Value::Long(0)));
    let r = nio(&mut heap, "java/io/Console", "flush", "()V", &[]).unwrap();
    assert_eq!(r, None);
    let name = heap.new_string(chars("APPEND"));
    let opt = Value::Reference(heap.allocate(HeapValue::Object {
        class_name: chars("java/nio/file/StandardOpenOption"),
        fields: vec![field("name", name), field("ordinal", Value::Int(3))],
    }));
    let c = "java/nio/file/StandardOpenOption";
    assert_eq!(nio(&mut heap, c, "name", "()Ljava/lang/String;", &[opt]).unwrap(), Some(name));
    assert_eq!(nio(&mut heap, c, "ordinal", "()I", &[opt]).unwrap(), Some(Value::Int(3)));
}

fn file_object(heap: &mut Heap, s: Option<&str>) -> Value {
    let path = match s {
        Some(s) => heap.new_string(chars(s)),
        None => Value::Reference(Reference::Null),
    };
    Value::Reference(heap.allocate(HeapValue::Object { class_name: chars("java/io/File"), fields: vec![field("path", path)] }))
}

fn file_call(heap: &mut Heap, name: &str, desc: &str, args: &[Value]) -> Result<Option<Value>, VmError> {
    let k = jvm_rs::io_file::file_method(&chars("java/io/File"), &chars(name), &chars(desc)).expect("native not found");
    assert!(jvm_rs::io_file::file_callable(heap, k, args));
    jvm_rs::io_file::invoke_file(heap, k, args)
}

#[test]
fn file_name_parent_and_hidden() {
    let mut heap = Heap::new();
    let f = file_object(&mut heap, Some("/home/u/.profile"));
    let d = "()Ljava/lang/String;";
    let name = file_call(&mut heap, "getName", d, &[f]).unwrap();
    assert_eq!(text(&heap, name), Some(".profile".to_string()));
    let parent = file_call(&mut heap, "getParent", d, &[f]).unwrap();
    assert_eq!(text(&heap, parent), Some("/home/u".to_string()));
    assert_eq!(file_call(&mut heap, "isHidden", "()Z", &[f]).unwrap(), Some(Value::Int(1)));
    let bare = file_object(&mut heap, Some("x"));
    let none = file_call(&mut heap, "getParent", d, &[bare]).unwrap();
    assert_eq!(none, Some(Value::Reference(Reference::Null)));
    let empty = file_object(&mut heap, None);
    let nameless = file_call(&mut heap, "getName", d, &[empty]).unwrap();
    assert_eq!(text(&heap, nameless), Some(String::new()));
}

#[test]
fn file_init_sets_the_path() {
    let mut heap = Heap::new();
    let f = file_object(&mut heap, None);
    let p = heap.new_string(chars("data.txt"));
    file_call(&mut heap, "<init>", "(Ljava/lang/String;)V", &[f, p]).unwrap();
    assert_eq!(file_call(&mut heap, "getPath", "()Ljava/lang/String;", &[f]).unwrap(), Some(p));
}
