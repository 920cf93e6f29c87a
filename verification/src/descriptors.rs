//! JVM type descriptors as reflection uses them: splitting a method
//! descriptor into parameter and return types, and translating between
//! `Class` names and field descriptors.

use vstd::prelude::*;
use crate::chars::{eq_str, lit};
use crate::helpers::{append_chars, copy_chars};
use crate::model::{Value};

verus! {

broadcast use vstd::seq_lib::group_seq_properties;

/// The position just after the first `;` at or after `k` (the end if there is none).
pub open spec fn after_semicolon(s: Seq<char>, k: int) -> int
    decreases s.len() - k,
{
    if k >= s.len() {
        s.len() as int
    } else if s[k] == ';' {
        k + 1
    } else {
        after_semicolon(s, k + 1)
    }
}

/// The first position at or after `k` that is not `[`.
pub open spec fn skip_brackets(s: Seq<char>, k: int) -> int
    decreases s.len() - k,
{
    if k >= s.len() {
        s.len() as int
    } else if s[k] == '[' {
        skip_brackets(s, k + 1)
    } else {
        k
    }
}

/// The end of the type token starting at `i`: a class type runs to its
/// `;`, an array type takes its brackets and element type, anything else
/// is one character.
pub open spec fn token_end(s: Seq<char>, i: int) -> int {
    if s[i] == 'L' {
        after_semicolon(s, i + 1)
    } else if s[i] == '[' {
        let k = skip_brackets(s, i + 1);
        if k >= s.len() {
            k
        } else if s[k] == 'L' {
            after_semicolon(s, k + 1)
        } else {
            k + 1
        }
    } else {
        i + 1
    }
}

pub proof fn lemma_after_semicolon(s: Seq<char>, k: int)
    requires
        0 <= k,
    ensures
        k <= after_semicolon(s, k) <= s.len() || (k > s.len() && after_semicolon(s, k) == s.len()),
        after_semicolon(s, k) >= k || k > s.len(),
    decreases s.len() - k,
{
    if k < s.len() && s[k] != ';' {
        lemma_after_semicolon(s, k + 1);
    }
}

pub proof fn lemma_skip_brackets(s: Seq<char>, k: int)
    requires
        0 <= k <= s.len(),
    ensures
        k <= skip_brackets(s, k) <= s.len(),
    decreases s.len() - k,
{
    if k < s.len() && s[k] == '[' {
        lemma_skip_brackets(s, k + 1);
    }
}

pub proof fn lemma_token_end(s: Seq<char>, i: int)
    requires
        0 <= i < s.len(),
    ensures
        i < token_end(s, i) <= s.len(),
{
    lemma_after_semicolon(s, i + 1);
    if s[i] == '[' {
        lemma_skip_brackets(s, i + 1);
        let k = skip_brackets(s, i + 1);
        if k < s.len() {
            lemma_after_semicolon(s, k + 1);
        }
    }
}

/// The parameter types from position `i` on, up to the closing `)` or the end.
pub open spec fn params_from(s: Seq<char>, i: int) -> Seq<Seq<char>>
    decreases s.len() - i,
{
    if i < 0 || i >= s.len() || s[i] == ')' {
        Seq::empty()
    } else {
        let e = token_end(s, i);
        proof {
            lemma_token_end(s, i);
        }
        if e <= i {
            Seq::empty()
        } else {
            seq![s.subrange(i, e)].add(params_from(s, e))
        }
    }
}

/// The parameter types of a method descriptor; nothing unless it starts with `(`.
pub open spec fn parameter_types(s: Seq<char>) -> Seq<Seq<char>> {
    if s.len() == 0 || s[0] != '(' {
        Seq::empty()
    } else {
        params_from(s, 1)
    }
}

/// The first position at or after `k` holding `;`.
fn find_semicolon_end(s: &Vec<char>, k: usize) -> (e: usize)
    ensures
        e == after_semicolon(s@, k as int),
{
    let mut p = k;
    while p < s.len()
        invariant
            k <= p || p == k,
            after_semicolon(s@, k as int) == after_semicolon(s@, p as int),
        decreases s@.len() - p,
    {
        if s[p] == ';' {
            return p + 1;
        }
        p = p + 1;
    }
    s.len()
}

/// The end of the type token starting at `i`.
fn token_end_at(s: &Vec<char>, i: usize) -> (e: usize)
    requires
        i < s@.len(),
    ensures
        e == token_end(s@, i as int),
{
    let n = s.len();
    assert(i < n);
    if s[i] == 'L' {
        find_semicolon_end(s, i + 1)
    } else if s[i] == '[' {
        let mut k = i + 1;
        while k < s.len() && s[k] == '['
            invariant
                i < k <= s@.len(),
                skip_brackets(s@, i + 1) == skip_brackets(s@, k as int),
            decreases s@.len() - k,
        {
            k = k + 1;
        }
        if k >= s.len() {
            k
        } else if s[k] == 'L' {
            find_semicolon_end(s, k + 1)
        } else {
            k + 1
        }
    } else {
        i + 1
    }
}

/// Characters `a..b` of a vector.
pub fn sub_chars(s: &Vec<char>, a: usize, b: usize) -> (res: Vec<char>)
    requires
        a <= b <= s@.len(),
    ensures
        res@ == s@.subrange(a as int, b as int),
{
    let mut res = Vec::new();
    let mut k = a;
    while k < b
        invariant
            a <= k <= b <= s@.len(),
            res@ == s@.subrange(a as int, k as int),
        decreases b - k,
    {
        res.push(s[k]);
        k = k + 1;
    }
    res
}

/// The parameter types of a method descriptor, e.g. `(I[JLjava/lang/String;)V`
/// gives `I`, `[J`, `Ljava/lang/String;`.
pub fn parameter_descriptors(descriptor: &Vec<char>) -> (res: Vec<Vec<char>>)
    ensures
        res@.map_values(|t: Vec<char>| t@) == parameter_types(descriptor@),
{
    let mut result: Vec<Vec<char>> = Vec::new();
    if descriptor.len() == 0 || descriptor[0] != '(' {
        assert(result@.map_values(|t: Vec<char>| t@) =~= Seq::<Seq<char>>::empty());
        return result;
    }
    let mut i: usize = 1;
    while i < descriptor.len() && descriptor[i] != ')'
        invariant
            1 <= i <= descriptor@.len(),
            descriptor@[0] == '(',
            result@.map_values(|t: Vec<char>| t@).add(params_from(descriptor@, i as int)) == params_from(descriptor@, 1),
        decreases descriptor@.len() - i,
    {
        let e = token_end_at(descriptor, i);
        proof {
            lemma_token_end(descriptor@, i as int);
        }
        let token = sub_chars(descriptor, i, e);
        let ghost before = result@.map_values(|t: Vec<char>| t@);
        result.push(token);
        assert(result@.map_values(|t: Vec<char>| t@) =~= before.push(token@));
        assert(params_from(descriptor@, i as int) =~= seq![descriptor@.subrange(i as int, e as int)].add(params_from(descriptor@, e as int)));
        assert(before.push(token@).add(params_from(descriptor@, e as int)) =~= before.add(params_from(descriptor@, i as int)));
        i = e;
    }
    assert(params_from(descriptor@, i as int) =~= Seq::<Seq<char>>::empty());
    assert(result@.map_values(|t: Vec<char>| t@) =~= result@.map_values(|t: Vec<char>| t@).add(Seq::<Seq<char>>::empty()));
    result
}

/// The first position of `)`, if any.
pub open spec fn first_close(s: Seq<char>, k: int) -> int
    decreases s.len() - k,
{
    if k >= s.len() {
        -1
    } else if s[k] == ')' {
        k
    } else {
        first_close(s, k + 1)
    }
}

/// The return type of a method descriptor: what follows the first `)`, or
/// `V` when there is none.
pub open spec fn return_type(s: Seq<char>) -> Seq<char> {
    let c = first_close(s, 0);
    if c < 0 {
        "V"@
    } else {
        s.subrange(c + 1, s.len() as int)
    }
}

pub proof fn lemma_first_close(s: Seq<char>, k: int)
    requires
        0 <= k,
    ensures
        first_close(s, k) == -1 || (k <= first_close(s, k) < s.len() && s[first_close(s, k)] == ')'),
    decreases s.len() - k,
{
    if k < s.len() && s[k] != ')' {
        lemma_first_close(s, k + 1);
    }
}

pub fn return_descriptor(descriptor: &Vec<char>) -> (res: Vec<char>)
    ensures
        res@ == return_type(descriptor@),
{
    let mut k: usize = 0;
    while k < descriptor.len()
        invariant
            k <= descriptor@.len(),
            first_close(descriptor@, 0) == first_close(descriptor@, k as int),
        decreases descriptor@.len() - k,
    {
        if descriptor[k] == ')' {
            return sub_chars(descriptor, k + 1, descriptor.len());
        }
        k = k + 1;
    }
    lit("V")
}

/// The descriptor for a static field's current value.
pub open spec fn value_descriptor(v: Value) -> Seq<char> {
    match v {
        Value::Int(_) => "I"@,
        Value::Long(_) => "J"@,
        Value::Float(_) => "F"@,
        Value::Double(_) => "D"@,
        Value::Reference(_) => "Ljava/lang/Object;"@,
        Value::ReturnAddress(_) => "I"@,
    }
}

pub fn descriptor_for_value(value: Value) -> (res: Vec<char>)
    ensures
        res@ == value_descriptor(value),
{
    match value {
        Value::Int(_) => lit("I"),
        Value::Long(_) => lit("J"),
        Value::Float(_) => lit("F"),
        Value::Double(_) => lit("D"),
        Value::Reference(_) => lit("Ljava/lang/Object;"),
        Value::ReturnAddress(_) => lit("I"),
    }
}

/// The descriptor letter of a primitive type's name.
pub open spec fn primitive_letter(name: Seq<char>) -> Option<char> {
    if name == "int"@ { Some('I') }
    else if name == "long"@ { Some('J') }
    else if name == "float"@ { Some('F') }
    else if name == "double"@ { Some('D') }
    else if name == "boolean"@ { Some('Z') }
    else if name == "byte"@ { Some('B') }
    else if name == "char"@ { Some('C') }
    else if name == "short"@ { Some('S') }
    else if name == "void"@ { Some('V') }
    else { None }
}

fn primitive_letter_of(name: &Vec<char>) -> (res: Option<char>)
    ensures
        res == primitive_letter(name@),
{
    if eq_str(name, "int") { Some('I') }
    else if eq_str(name, "long") { Some('J') }
    else if eq_str(name, "float") { Some('F') }
    else if eq_str(name, "double") { Some('D') }
    else if eq_str(name, "boolean") { Some('Z') }
    else if eq_str(name, "byte") { Some('B') }
    else if eq_str(name, "char") { Some('C') }
    else if eq_str(name, "short") { Some('S') }
    else if eq_str(name, "void") { Some('V') }
    else { None }
}

/// `L` + name + `;`.
pub open spec fn class_descriptor(name: Seq<char>) -> Seq<char> {
    seq!['L'].add(name).add(seq![';'])
}

fn wrap_class(name: &Vec<char>) -> (res: Vec<char>)
    ensures
        res@ == class_descriptor(name@),
{
    let mut res = Vec::new();
    res.push('L');
    append_chars(&mut res, name);
    res.push(';');
    res
}

/// The descriptor of a `Class` by its name: primitive names map to their
/// letter, array names are already descriptors, anything else is a class.
pub open spec fn name_to_descriptor(name: Seq<char>) -> Seq<char> {
    match primitive_letter(name) {
        Some(c) => seq![c],
        None => if name.len() > 0 && name[0] == '[' {
            name
        } else {
            class_descriptor(name)
        },
    }
}

/// The descriptor of a `Class` object's name (for `Method` lookups by parameter classes).
pub fn class_name_descriptor(name: &Vec<char>) -> (res: Vec<char>)
    ensures
        res@ == name_to_descriptor(name@),
{
    match primitive_letter_of(name) {
        Some(c) => {
            let mut v = Vec::new();
            v.push(c);
            v
        },
        None => if name.len() > 0 && name[0] == '[' {
            copy_chars(name)
        } else {
            wrap_class(name)
        },
    }
}

/// Like `name_to_descriptor`, but a single descriptor letter stands for itself.
pub open spec fn type_name_to_descriptor(name: Seq<char>) -> Seq<char> {
    match primitive_letter(name) {
        Some(c) => seq![c],
        None => if name.len() > 0 && name[0] == '[' {
            name
        } else if name.len() == 1 && "BCDFIJSZV"@.contains(name[0]) {
            name
        } else {
            class_descriptor(name)
        },
    }
}

/// The field descriptor of a `Class<?>` internal name (`int`, `long`,
/// `java/lang/String`, `[I`), as method handles need it.
pub fn type_class_to_descriptor(internal: &Vec<char>) -> (res: Vec<char>)
    ensures
        res@ == type_name_to_descriptor(internal@),
{
    match primitive_letter_of(internal) {
        Some(c) => {
            let mut v = Vec::new();
            v.push(c);
            v
        },
        None => if internal.len() > 0 && internal[0] == '[' {
            copy_chars(internal)
        } else if internal.len() == 1 && is_descriptor_letter(internal[0]) {
            copy_chars(internal)
        } else {
            wrap_class(internal)
        },
    }
}

fn is_descriptor_letter(c: char) -> (res: bool)
    ensures
        res == "BCDFIJSZV"@.contains(c),
{
    proof {
        reveal_strlit("BCDFIJSZV");
    }
    let r = c == 'B' || c == 'C' || c == 'D' || c == 'F' || c == 'I' || c == 'J' || c == 'S' || c == 'Z' || c == 'V';
    proof {
        let s = "BCDFIJSZV"@;
        if r {
            assert(s[0] == 'B' && s[1] == 'C' && s[2] == 'D' && s[3] == 'F' && s[4] == 'I' && s[5] == 'J' && s[6] == 'S' && s[7] == 'Z' && s[8] == 'V');
        }
    }
    r
}

/// The primitive type name of a one-letter descriptor.
pub open spec fn letter_name(d: Seq<char>) -> Option<Seq<char>> {
    if d == "Z"@ { Some("boolean"@) }
    else if d == "B"@ { Some("byte"@) }
    else if d == "C"@ { Some("char"@) }
    else if d == "S"@ { Some("short"@) }
    else if d == "I"@ { Some("int"@) }
    else if d == "J"@ { Some("long"@) }
    else if d == "F"@ { Some("float"@) }
    else if d == "D"@ { Some("double"@) }
    else if d == "V"@ { Some("void"@) }
    else { None }
}

/// The `Class` name a field descriptor denotes: a primitive name, an array
/// descriptor as is, a class descriptor without `L` and `;`, anything else as is.
pub open spec fn descriptor_to_name(d: Seq<char>) -> Seq<char> {
    match letter_name(d) {
        Some(n) => n,
        None => if d.len() > 0 && d[0] == '[' {
            d
        } else if d.len() > 0 && d[0] == 'L' && d.last() == ';' {
            d.subrange(1, d.len() - 1)
        } else {
            d
        },
    }
}

/// The internal name of the class a descriptor denotes (the `Class`
/// object itself is then looked up by that name).
pub fn descriptor_class_name(descriptor: &Vec<char>) -> (res: Vec<char>)
    ensures
        res@ == descriptor_to_name(descriptor@),
{
    if eq_str(descriptor, "Z") { lit("boolean") }
    else if eq_str(descriptor, "B") { lit("byte") }
    else if eq_str(descriptor, "C") { lit("char") }
    else if eq_str(descriptor, "S") { lit("short") }
    else if eq_str(descriptor, "I") { lit("int") }
    else if eq_str(descriptor, "J") { lit("long") }
    else if eq_str(descriptor, "F") { lit("float") }
    else if eq_str(descriptor, "D") { lit("double") }
    else if eq_str(descriptor, "V") { lit("void") }
    else if descriptor.len() > 0 && descriptor[0] == '[' {
        copy_chars(descriptor)
    } else if descriptor.len() > 0 && descriptor[0] == 'L' && descriptor[descriptor.len() - 1] == ';' {
        sub_chars(descriptor, 1, descriptor.len() - 1)
    } else {
        copy_chars(descriptor)
    }
}

/// Naming a class by its descriptor and back gives the name again, for
/// every class name that is not a primitive type name, not an array and
/// not a single descriptor letter.
pub proof fn lemma_class_name_round_trip(name: Seq<char>)
    requires
        primitive_letter(name) is None,
        name.len() > 0,
        name[0] != '[',
    ensures
        descriptor_to_name(name_to_descriptor(name)) == name,
{
    let d = class_descriptor(name);
    assert(d.len() >= 2);
    assert(d[0] == 'L');
    reveal_strlit("Z");
    reveal_strlit("B");
    reveal_strlit("C");
    reveal_strlit("S");
    reveal_strlit("I");
    reveal_strlit("J");
    reveal_strlit("F");
    reveal_strlit("D");
    reveal_strlit("V");
    assert(d.subrange(1, d.len() - 1) =~= name);
}

} // verus!
