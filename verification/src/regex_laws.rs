//! Properties of the `java.util.regex` natives stated over the engine's
//! search results.

use vstd::prelude::*;
use crate::heap::{deref, heap_set_field, object_field};
use crate::helpers::string_value;
use crate::model::{field_get, field_index, field_set, lemma_field_index, lemma_field_index_first, lemma_field_index_none, Obj, Reference, Value, VmError};
use crate::native::{give_int, give_str};
use crate::regex::{char_sequence_text, int_field, pattern_and_input, ref_field, regex_spec, RegexMethod};
use crate::runtime_laws::lemma_field_set_get;
use crate::strings::utf8_len;
use crate::regex_engine::{regex_compiles, regex_first_match, regex_split};
use crate::utf8::index_of_byte;

verus! {

/// `Matcher.replaceFirst(rep)` changes only the leftmost match: with a
/// replacement holding no `$`, the new string is the input up to the
/// first match `find` reports, then `rep`, then the input after that
/// match, unchanged; an input without a match comes back as it was. Every
/// later match stays in place.
pub proof fn law_replace_first_leftmost_only(
    heap: Seq<Obj>,
    compiled: nat,
    rr: Reference,
    this: Reference,
    p: Seq<char>,
    t: Seq<char>,
    rep: Seq<char>,
)
    requires
        pattern_and_input(heap, this) == Ok::<(Seq<char>, Seq<char>), crate::model::Fault>((p, t)),
        string_value(heap, rr) == Ok::<Seq<char>, VmError>(rep),
        regex_compiles(p),
        !rep.contains('$'),
    ensures
        regex_spec(heap, compiled, RegexMethod::ReplaceFirst, seq![Value::Reference(rr), Value::Reference(this)])
            == give_str(heap, match regex_first_match(p, t) {
                None => t,
                Some((s, e)) => t.subrange(0, index_of_byte(t, s as int)) + rep
                    + t.subrange(index_of_byte(t, e as int), t.len() as int),
            }),
{
}

/// `Matcher.replaceAll(rep)` replaces every match: with a replacement
/// holding no `$`, the new string is the pieces of the input between the
/// matches (the pieces `split` yields) with `rep` between each two, so the
/// input without a match comes back as it was. It differs from
/// `replaceFirst` as soon as there are two matches.
pub proof fn law_replace_all_every_match(
    heap: Seq<Obj>,
    compiled: nat,
    rr: Reference,
    this: Reference,
    p: Seq<char>,
    t: Seq<char>,
    rep: Seq<char>,
)
    requires
        pattern_and_input(heap, this) == Ok::<(Seq<char>, Seq<char>), crate::model::Fault>((p, t)),
        string_value(heap, rr) == Ok::<Seq<char>, VmError>(rep),
        regex_compiles(p),
        !rep.contains('$'),
    ensures
        regex_spec(heap, compiled, RegexMethod::ReplaceAll, seq![Value::Reference(rr), Value::Reference(this)])
            matches Ok((Some(_), h1)) && (h1.last() matches Obj::Str(out) && {
                let parts = regex_split(p, t);
                &&& out == crate::regex_engine::joined(parts, rep)
                &&& parts.len() == 1 ==> out == parts[0]
                &&& parts.len() >= 2 ==> {
                    let n = (parts.len() - 1) as int;
                    out.subrange(out.len() - parts[n].len(), out.len() as int) == parts[n]
                    && out.subrange(out.len() - parts[n].len() - rep.len(), out.len() - parts[n].len()) == rep
                }
            }),
{
    let parts = regex_split(p, t);
    let out = crate::regex_engine::joined(parts, rep);
    if parts.len() >= 2 {
        let n = (parts.len() - 1) as int;
        let front = crate::regex_engine::joined(parts.drop_last(), rep);
        assert(out == front + rep + parts[n]);
        assert(out.subrange(out.len() - parts[n].len(), out.len() as int) =~= parts[n]);
        assert(out.subrange(out.len() - parts[n].len() - rep.len(), out.len() - parts[n].len()) =~= rep);
    }
}

/// Setting one field leaves every other field as it was.
proof fn lemma_field_set_other(fields: Seq<(Seq<char>, Value)>, n1: Seq<char>, n2: Seq<char>, v: Value)
    requires
        n1 != n2,
    ensures
        field_get(field_set(fields, n1, v), n2) == field_get(fields, n2),
{
    lemma_field_index(fields, n1);
    lemma_field_index(fields, n2);
    let f2 = field_set(fields, n1, v);
    let k = field_index(fields, n2);
    assert forall|j: int| 0 <= j < fields.len() implies f2[j].0 == fields[j].0 by {}
    if k >= 0 {
        assert forall|j: int| 0 <= j < k implies f2[j].0 != n2 by {}
        lemma_field_index_first(f2, n2, k);
        assert(f2[k] == fields[k]);
    } else {
        assert forall|j: int| 0 <= j < f2.len() implies f2[j].0 != n2 by {}
        lemma_field_index_none(f2, n2);
    }
}

/// Setting a field of an object: that field reads back as set, the others
/// and every other cell stay as they were.
proof fn lemma_heap_set_field(heap: Seq<Obj>, r: Reference, n1: Seq<char>, v: Value)
    requires
        deref(heap, r) matches Some(Obj::Object { .. }),
    ensures
        deref(heap_set_field(heap, r, n1, v), r) matches Some(Obj::Object { .. }),
        object_field(heap_set_field(heap, r, n1, v), r, n1) == Some(v),
        forall|n2: Seq<char>| n2 != n1 ==> object_field(heap_set_field(heap, r, n1, v), r, n2) == #[trigger] object_field(heap, r, n2),
        forall|q: Reference| q != r ==> deref(heap_set_field(heap, r, n1, v), q) == #[trigger] deref(heap, q),
        heap_set_field(heap, r, n1, v).len() == heap.len(),
{
    if let Some(Obj::Object { fields, .. }) = deref(heap, r) {
        lemma_field_set_get(fields, n1, v);
        assert forall|n2: Seq<char>| n2 != n1 implies object_field(heap_set_field(heap, r, n1, v), r, n2) == #[trigger] object_field(heap, r, n2) by {
            lemma_field_set_other(fields, n1, n2, v);
        }
    }
}

/// After a successful `find` on a matcher with no match recorded, `start()`
/// and `end()` report the byte offsets of the first match of the pattern in
/// the input and `group()` returns the text between them.
pub proof fn law_find_then_start_end_group(
    heap: Seq<Obj>,
    compiled: nat,
    this: Reference,
    p: Seq<char>,
    t: Seq<char>,
    s: usize,
    e: usize,
)
    requires
        deref(heap, this) matches Some(Obj::Object { .. }),
        pattern_and_input(heap, this) == Ok::<(Seq<char>, Seq<char>), crate::model::Fault>((p, t)),
        deref(heap, ref_field(heap, this, "__input"@)) == Some(Obj::Str(t)),
        int_field(heap, this, "__match_end"@, -1i32) < 0,
        regex_compiles(p),
        regex_first_match(p, t) == Some((s, e)),
        s < e <= utf8_len(t),
        utf8_len(t) <= i32::MAX,
    ensures
        regex_spec(heap, compiled, RegexMethod::Find, seq![Value::Reference(this)]) matches Ok((Some(Value::Int(1)), h1)) && {
            &&& regex_spec(h1, compiled, RegexMethod::Start, seq![Value::Reference(this)]) == give_int(h1, s as i32)
            &&& regex_spec(h1, compiled, RegexMethod::End, seq![Value::Reference(this)]) == give_int(h1, e as i32)
            &&& regex_spec(h1, compiled, RegexMethod::Group, seq![Value::Reference(this)])
                == give_str(h1, t.subrange(index_of_byte(t, s as int), index_of_byte(t, e as int)))
        },
{
    reveal_strlit("__match_start");
    reveal_strlit("__match_end");
    reveal_strlit("__last_match_start");
    reveal_strlit("__input");
    assert(crate::utf8::suffix_at_byte(t, 0) =~= t);
    let si = s as i32;
    let ei = e as i32;
    assert((0i32 + si) as i32 == si);
    assert((0i32 + ei) as i32 == ei);
    let h_a = heap_set_field(heap, this, "__match_start"@, Value::Int(si));
    lemma_heap_set_field(heap, this, "__match_start"@, Value::Int(si));
    let h_b = heap_set_field(h_a, this, "__match_end"@, Value::Int(ei));
    lemma_heap_set_field(h_a, this, "__match_end"@, Value::Int(ei));
    let h_c = heap_set_field(h_b, this, "__last_match_start"@, Value::Int(si));
    lemma_heap_set_field(h_b, this, "__last_match_start"@, Value::Int(si));
    assert("__match_start"@ != "__match_end"@) by { assert("__match_start"@.len() != "__match_end"@.len()); }
    assert("__match_start"@ != "__last_match_start"@) by { assert("__match_start"@.len() != "__last_match_start"@.len()); }
    assert("__match_end"@ != "__last_match_start"@) by { assert("__match_end"@.len() != "__last_match_start"@.len()); }
    assert("__input"@ != "__match_start"@) by { assert("__input"@.len() != "__match_start"@.len()); }
    assert("__input"@ != "__match_end"@) by { assert("__input"@.len() != "__match_end"@.len()); }
    assert("__input"@ != "__last_match_start"@) by { assert("__input"@.len() != "__last_match_start"@.len()); }
    assert(object_field(h_c, this, "__match_start"@) == Some(Value::Int(si)));
    assert(object_field(h_c, this, "__match_end"@) == Some(Value::Int(ei)));
    let ir = ref_field(heap, this, "__input"@);
    assert(object_field(h_c, this, "__input"@) == object_field(heap, this, "__input"@));
    assert(ref_field(h_c, this, "__input"@) == ir);
    assert(ir != this);
    assert(deref(h_c, ir) == deref(heap, ir));
}

/// `Pattern.matches(p, t)` agrees with `Matcher.find` on a fresh matcher
/// of the same pattern and input: it is true exactly when `find` finds a
/// match (as the interpreter has it, a match anywhere in the input).
pub proof fn law_pattern_matches_is_find(
    heap: Seq<Obj>,
    compiled: nat,
    pr: Reference,
    ir: Reference,
    this: Reference,
    p: Seq<char>,
    t: Seq<char>,
)
    requires
        string_value(heap, pr) == Ok::<Seq<char>, VmError>(p),
        char_sequence_text(heap, ir) == Ok::<Seq<char>, VmError>(t),
        deref(heap, this) matches Some(Obj::Object { .. }),
        pattern_and_input(heap, this) == Ok::<(Seq<char>, Seq<char>), crate::model::Fault>((p, t)),
        int_field(heap, this, "__match_end"@, -1i32) < 0,
        regex_compiles(p),
        utf8_len(t) <= i32::MAX,
        regex_first_match(p, t) matches Some((s, e)) ==> e <= utf8_len(t),
    ensures
        regex_spec(heap, compiled, RegexMethod::PatternMatches, seq![Value::Reference(pr), Value::Reference(ir)])
            matches Ok((Some(Value::Int(m)), _))
            && regex_spec(heap, compiled, RegexMethod::Find, seq![Value::Reference(this)])
                matches Ok((Some(Value::Int(f)), _)) && m == f,
{
    assert(crate::utf8::suffix_at_byte(t, 0) =~= t);
}

} // verus!
