//! How class names and field descriptors convert into each other.

use vstd::prelude::*;
use crate::descriptors::{descriptor_to_name, letter_name, name_to_descriptor, primitive_letter};
use crate::lang_reflect::class_descriptor_of;
use crate::model::Obj;
use crate::reflect_objects::{law_class_object_name, member_ref, with_class_object};

verus! {

/// The field descriptors that name a class by its `Class` name: a primitive
/// letter, an array descriptor, or `L<name>;` where the name is neither a
/// primitive type's name nor an array descriptor (`Lint;` or `L[I;` name
/// the class `int` or `[I`, whose own descriptors are `I` and `[I`).
pub open spec fn canonical_descriptor(d: Seq<char>) -> bool {
    ||| letter_name(d) is Some
    ||| (d.len() > 0 && d[0] == '[')
    ||| (d.len() >= 2 && d[0] == 'L' && d.last() == ';' && {
        let n = d.subrange(1, d.len() - 1);
        primitive_letter(n) is None && !(n.len() > 0 && n[0] == '[')
    })
}

/// A primitive type's name and its descriptor letter convert into each
/// other.
proof fn lemma_primitive_round_trip(n: Seq<char>)
    requires
        primitive_letter(n) is Some,
    ensures
        letter_name(seq![primitive_letter(n)->0]) == Some(n),
{
    reveal_strlit("Z");
    reveal_strlit("B");
    reveal_strlit("C");
    reveal_strlit("S");
    reveal_strlit("I");
    reveal_strlit("J");
    reveal_strlit("F");
    reveal_strlit("D");
    reveal_strlit("V");
    reveal_strlit("boolean");
    reveal_strlit("byte");
    reveal_strlit("char");
    reveal_strlit("short");
    reveal_strlit("int");
    reveal_strlit("long");
    reveal_strlit("float");
    reveal_strlit("double");
    reveal_strlit("void");
    let c = primitive_letter(n)->0;
    let d = seq![c];
    assert(d.len() == 1 && d[0] == c);
    if n == "int"@ { assert(d =~= "I"@); }
    else if n == "long"@ { assert(d =~= "J"@); }
    else if n == "float"@ { assert(d =~= "F"@); }
    else if n == "double"@ { assert(d =~= "D"@); }
    else if n == "boolean"@ { assert(d =~= "Z"@); }
    else if n == "byte"@ { assert(d =~= "B"@); }
    else if n == "char"@ { assert(d =~= "C"@); }
    else if n == "short"@ { assert(d =~= "S"@); }
    else { assert(d =~= "V"@); }
}

/// Only a one-letter text is a primitive descriptor.
proof fn lemma_letter_name_short(d: Seq<char>)
    ensures
        letter_name(d) is Some ==> d.len() == 1 && d[0] != '[' && d[0] != 'L',
{
    reveal_strlit("Z");
    reveal_strlit("B");
    reveal_strlit("C");
    reveal_strlit("S");
    reveal_strlit("I");
    reveal_strlit("J");
    reveal_strlit("F");
    reveal_strlit("D");
    reveal_strlit("V");
    reveal_strlit("boolean");
    reveal_strlit("byte");
    reveal_strlit("char");
    reveal_strlit("short");
    reveal_strlit("int");
    reveal_strlit("long");
    reveal_strlit("float");
    reveal_strlit("double");
    reveal_strlit("void");
}

/// Only a primitive type's name has a primitive letter.
proof fn lemma_primitive_name_shape(n: Seq<char>)
    ensures
        primitive_letter(n) is Some ==> n.len() >= 3 && n[0] != '[',
{
    reveal_strlit("Z");
    reveal_strlit("B");
    reveal_strlit("C");
    reveal_strlit("S");
    reveal_strlit("I");
    reveal_strlit("J");
    reveal_strlit("F");
    reveal_strlit("D");
    reveal_strlit("V");
    reveal_strlit("boolean");
    reveal_strlit("byte");
    reveal_strlit("char");
    reveal_strlit("short");
    reveal_strlit("int");
    reveal_strlit("long");
    reveal_strlit("float");
    reveal_strlit("double");
    reveal_strlit("void");
}

/// The descriptor of a class name names that class again, for every name:
/// `descriptor_to_name(name_to_descriptor(n)) == n`.
pub proof fn law_name_descriptor_round_trip(n: Seq<char>)
    ensures
        descriptor_to_name(name_to_descriptor(n)) == n,
{
    lemma_primitive_name_shape(n);
    match primitive_letter(n) {
        Some(c) => {
            lemma_primitive_round_trip(n);
        },
        None => {
            let d = name_to_descriptor(n);
            lemma_letter_name_short(d);
            if n.len() > 0 && n[0] == '[' {
                assert(d == n);
            } else {
                assert(d.len() == n.len() + 2);
                assert(d[0] == 'L');
                assert(d.last() == ';');
                assert(d.subrange(1, d.len() - 1) =~= n);
            }
        },
    }
}

/// The name a canonical field descriptor gives converts back to that
/// descriptor: `class_ref_to_descriptor` undoes `class_ref_for_descriptor`.
pub proof fn law_descriptor_name_round_trip(d: Seq<char>)
    requires
        canonical_descriptor(d),
    ensures
        name_to_descriptor(descriptor_to_name(d)) == d,
{
    lemma_letter_name_short(d);
    match letter_name(d) {
        Some(n) => {
            reveal_strlit("Z");
    reveal_strlit("B");
    reveal_strlit("C");
    reveal_strlit("S");
    reveal_strlit("I");
    reveal_strlit("J");
    reveal_strlit("F");
    reveal_strlit("D");
    reveal_strlit("V");
    reveal_strlit("boolean");
    reveal_strlit("byte");
    reveal_strlit("char");
    reveal_strlit("short");
    reveal_strlit("int");
    reveal_strlit("long");
    reveal_strlit("float");
    reveal_strlit("double");
    reveal_strlit("void");
            assert(d.len() == 1);
            if d =~= "Z"@ {
                assert(n == "boolean"@);
                assert(primitive_letter(n) == Some('Z'));
                assert(d =~= seq!['Z']);
            } else if d =~= "B"@ {
                assert(n == "byte"@);
                assert(n[0] != "long"@[0]);
                assert(primitive_letter(n) == Some('B'));
                assert(d =~= seq!['B']);
            } else if d =~= "C"@ {
                assert(n == "char"@);
                assert(n[0] != "byte"@[0]);
                assert(n[0] != "long"@[0]);
                assert(primitive_letter(n) == Some('C'));
                assert(d =~= seq!['C']);
            } else if d =~= "S"@ {
                assert(n == "short"@);
                assert(n[0] != "float"@[0]);
                assert(primitive_letter(n) == Some('S'));
                assert(d =~= seq!['S']);
            } else if d =~= "I"@ {
                assert(n == "int"@);
                assert(primitive_letter(n) == Some('I'));
                assert(d =~= seq!['I']);
            } else if d =~= "J"@ {
                assert(n == "long"@);
                assert(primitive_letter(n) == Some('J'));
                assert(d =~= seq!['J']);
            } else if d =~= "F"@ {
                assert(n == "float"@);
                assert(primitive_letter(n) == Some('F'));
                assert(d =~= seq!['F']);
            } else if d =~= "D"@ {
                assert(n == "double"@);
                assert(primitive_letter(n) == Some('D'));
                assert(d =~= seq!['D']);
            } else {
                assert(d =~= "V"@);
                assert(n == "void"@);
                assert(n[0] != "long"@[0]);
                assert(n[0] != "byte"@[0]);
                assert(n[0] != "char"@[0]);
                assert(primitive_letter(n) == Some('V'));
                assert(d =~= seq!['V']);
            }
            assert(seq![primitive_letter(n)->0] =~= d);
        },
        None => {
            if d.len() > 0 && d[0] == '[' {
                lemma_primitive_name_shape(d);
            } else {
                let n = d.subrange(1, d.len() - 1);
                assert(descriptor_to_name(d) == n);
                assert(seq!['L'].add(n).add(seq![';']) =~= d);
            }
        },
    }
}

/// `class_ref_to_descriptor` undoes `class_ref_for_descriptor` through
/// `Class` objects: the `Class` object made for the class a canonical
/// descriptor names gives that descriptor back.
pub proof fn law_class_object_descriptor(heap: Seq<Obj>, d: Seq<char>)
    requires
        canonical_descriptor(d),
        heap.len() + 2 <= usize::MAX,
    ensures
        class_descriptor_of(with_class_object(heap, descriptor_to_name(d)), member_ref(heap))
            == Ok::<Seq<char>, crate::model::VmError>(d),
{
    law_class_object_name(heap, descriptor_to_name(d));
    law_descriptor_name_round_trip(d);
}

} // verus!
