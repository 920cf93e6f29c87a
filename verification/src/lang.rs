//! The `java.lang` natives: which class, name and descriptor select which
//! native, and what each one does.

use vstd::prelude::*;
use crate::chars::eq_str;
use crate::heap::Heap;
use crate::lang_builder::{builder_arity, builder_matches, builder_method, builder_spec, invoke_builder, BuilderMethod};
use crate::lang_misc::{boolean_arity, boolean_method, boolean_signature, boolean_spec, character_method, character_signature, character_spec, invoke_boolean, invoke_character, invoke_object, object_arity, object_method, object_signature, object_spec, BooleanMethod, CharacterMethod, ObjectMethod};
use crate::lang_number::{integer_arity, integer_method, integer_pre, integer_signature, integer_spec, invoke_integer, invoke_long, invoke_math, long_arity, long_method, long_pre, long_signature, long_spec, math_arity, math_method, math_pre, math_signature, math_spec, IntegerMethod, LongMethod, MathMethod};
use crate::lang_string::{invoke_string, string_arity, string_method, string_signature, string_spec, StringMethod};
use crate::model::{Value, VmError, Obj};
use crate::native::{answers, has_first_field, str_arg, NativeResult};

verus! {

/// A `java.lang` native, by class.
#[derive(Clone, Copy, PartialEq, Eq, Structural, Debug)]
pub enum LangMethod {
    Object(ObjectMethod),
    Str(StringMethod),
    Integer(IntegerMethod),
    Long(LongMethod),
    Character(CharacterMethod),
    Boolean(BooleanMethod),
    Math(MathMethod),
    Builder(BuilderMethod),
}

/// Whether a native is the one a call of `name` with `descriptor` on
/// `class_name` selects.
pub open spec fn lang_matches(k: LangMethod, class_name: Seq<char>, name: Seq<char>, descriptor: Seq<char>) -> bool {
    match k {
        LangMethod::Object(m) => class_name == "java/lang/Object"@ && object_signature(m) == (name, descriptor),
        LangMethod::Str(m) => class_name == "java/lang/String"@ && string_signature(m) == (name, descriptor),
        LangMethod::Integer(m) => class_name == "java/lang/Integer"@ && integer_signature(m) == (name, descriptor),
        LangMethod::Long(m) => class_name == "java/lang/Long"@ && long_signature(m) == (name, descriptor),
        LangMethod::Character(m) => class_name == "java/lang/Character"@ && character_signature(m) == (name, descriptor),
        LangMethod::Boolean(m) => class_name == "java/lang/Boolean"@ && boolean_signature(m) == (name, descriptor),
        LangMethod::Math(m) => class_name == "java/lang/Math"@ && math_signature(m) == (name, descriptor),
        LangMethod::Builder(m) => class_name == "java/lang/StringBuilder"@ && builder_matches(m, name, descriptor),
    }
}

/// How many arguments (receiver included) a native reads.
pub open spec fn lang_arity(k: LangMethod) -> nat {
    match k {
        LangMethod::Object(m) => object_arity(m),
        LangMethod::Str(m) => string_arity(m),
        LangMethod::Integer(m) => integer_arity(m),
        LangMethod::Long(m) => long_arity(m),
        LangMethod::Character(_) => 1,
        LangMethod::Boolean(m) => boolean_arity(m),
        LangMethod::Math(m) => math_arity(m),
        LangMethod::Builder(m) => builder_arity(m),
    }
}

/// The inputs on which a native completes (elsewhere the standard library
/// call it makes panics).
pub open spec fn lang_pre(heap: Seq<Obj>, k: LangMethod, args: Seq<Value>) -> bool {
    match k {
        LangMethod::Integer(m) => integer_pre(heap, m, args),
        LangMethod::Long(m) => long_pre(heap, m, args),
        LangMethod::Math(m) => math_pre(m, args),
        _ => true,
    }
}

/// What a `java.lang` native does.
pub open spec fn lang_spec(heap: Seq<Obj>, k: LangMethod, args: Seq<Value>) -> NativeResult {
    match k {
        LangMethod::Object(m) => object_spec(heap, m, args),
        LangMethod::Str(m) => string_spec(heap, m, args),
        LangMethod::Integer(m) => integer_spec(heap, m, args),
        LangMethod::Long(m) => long_spec(heap, m, args),
        LangMethod::Character(m) => character_spec(heap, m, args),
        LangMethod::Boolean(m) => boolean_spec(heap, m, args),
        LangMethod::Math(m) => math_spec(heap, m, args),
        LangMethod::Builder(m) => builder_spec(heap, m, args),
    }
}

/// The native a call selects, if it is one of the `java.lang` natives
/// implemented here.
pub fn lang_method(class_name: &[char], name: &[char], descriptor: &[char]) -> (res: Option<LangMethod>)
    ensures
        match res {
            Some(k) => lang_matches(k, class_name@, name@, descriptor@),
            None => forall|k: LangMethod| !lang_matches(k, class_name@, name@, descriptor@),
        },
{
    if eq_str(class_name, "java/lang/Object") {
        if let Some(m) = object_method(name, descriptor) {
            return Some(LangMethod::Object(m));
        }
    }
    if eq_str(class_name, "java/lang/String") {
        if let Some(m) = string_method(name, descriptor) {
            return Some(LangMethod::Str(m));
        }
    }
    if eq_str(class_name, "java/lang/Integer") {
        if let Some(m) = integer_method(name, descriptor) {
            return Some(LangMethod::Integer(m));
        }
    }
    if eq_str(class_name, "java/lang/Long") {
        if let Some(m) = long_method(name, descriptor) {
            return Some(LangMethod::Long(m));
        }
    }
    if eq_str(class_name, "java/lang/Character") {
        if let Some(m) = character_method(name, descriptor) {
            return Some(LangMethod::Character(m));
        }
    }
    if eq_str(class_name, "java/lang/Boolean") {
        if let Some(m) = boolean_method(name, descriptor) {
            return Some(LangMethod::Boolean(m));
        }
    }
    if eq_str(class_name, "java/lang/Math") {
        if let Some(m) = math_method(name, descriptor) {
            return Some(LangMethod::Math(m));
        }
    }
    if eq_str(class_name, "java/lang/StringBuilder") {
        if let Some(m) = builder_method(name, descriptor) {
            return Some(LangMethod::Builder(m));
        }
    }
    proof {
        assert forall|k: LangMethod| !lang_matches(k, class_name@, name@, descriptor@) by {
            match k {
                LangMethod::Object(m) => {},
                LangMethod::Str(m) => {},
                LangMethod::Integer(m) => {},
                LangMethod::Long(m) => {},
                LangMethod::Character(m) => {},
                LangMethod::Boolean(m) => {},
                LangMethod::Math(m) => {},
                LangMethod::Builder(m) => {},
            }
        }
    }
    None
}

/// Whether a native can be run on these arguments: there are enough of
/// them and `lang_pre` holds.
pub fn lang_callable(heap: &Heap, k: LangMethod, args: &[Value]) -> (res: bool)
    ensures
        res == (args@.len() >= lang_arity(k) && lang_pre(heap@, k, args@)),
{
    let n = args.len();
    let enough = match k {
        LangMethod::Object(m) => match m {
            ObjectMethod::Equals => n >= 2,
            _ => n >= 1,
        },
        LangMethod::Str(m) => match m {
            StringMethod::Length | StringMethod::Init | StringMethod::HashCode
            | StringMethod::IsEmpty | StringMethod::Trim | StringMethod::ToLowerCase
            | StringMethod::ToUpperCase | StringMethod::ToStr | StringMethod::ValueOfInt
            | StringMethod::ValueOfLong | StringMethod::ValueOfBoolean
            | StringMethod::ValueOfChar => n >= 1,
            StringMethod::SubstringRange | StringMethod::ReplaceChar => n >= 3,
            _ => n >= 2,
        },
        LangMethod::Integer(m) => match m {
            IntegerMethod::ParseIntRadix | IntegerMethod::ToStringRadix | IntegerMethod::Compare
            | IntegerMethod::CompareTo | IntegerMethod::CompareToObject
            | IntegerMethod::Init => n >= 2,
            _ => n >= 1,
        },
        LangMethod::Long(m) => match m {
            LongMethod::Init | LongMethod::Compare => n >= 2,
            _ => n >= 1,
        },
        LangMethod::Character(_) => n >= 1,
        LangMethod::Boolean(m) => match m {
            BooleanMethod::GetBoolean => true,
            _ => n >= 1,
        },
        LangMethod::Math(m) => match m {
            MathMethod::Signum | MathMethod::AbsInt | MathMethod::AbsLong => n >= 1,
            _ => n >= 2,
        },
        LangMethod::Builder(m) => match m {
            BuilderMethod::Init | BuilderMethod::ToStr | BuilderMethod::Length
            | BuilderMethod::Reverse => n >= 1,
            BuilderMethod::Append(a) => match a {
                crate::lang_builder::AppendArg::Other => n >= 1,
                _ => n >= 2,
            },
            BuilderMethod::SetCharAt | BuilderMethod::Insert => n >= 3,
            _ => n >= 2,
        },
    };
    if !enough {
        return false;
    }
    match k {
        LangMethod::Integer(IntegerMethod::ParseIntRadix) => {
            match (str_arg(heap, args, 0), args[1].as_int()) {
                (Ok(_), Ok(r)) => 2 <= r && r <= 36,
                _ => true,
            }
        },
        LangMethod::Integer(IntegerMethod::ToStringRadix) => {
            match (args[0].as_int(), args[1].as_int()) {
                (Ok(v), Ok(r)) => !(v < 0 && r != 10) || (2 <= r && r <= 36),
                _ => true,
            }
        },
        LangMethod::Integer(IntegerMethod::Init) | LangMethod::Long(LongMethod::Init) => {
            let is_int = match k {
                LangMethod::Integer(_) => true,
                _ => false,
            };
            let second_ok = if is_int {
                args[1].as_int().is_ok()
            } else {
                args[1].as_long().is_ok()
            };
            match args[0].as_reference() {
                Ok(r) => !second_ok || first_field_settable(heap, r),
                Err(_) => true,
            }
        },
        LangMethod::Math(m) => match m {
            MathMethod::FloorDivInt | MathMethod::FloorModInt => !(args[0] == Value::Int(i32::MIN)
                && args[1] == Value::Int(-1)),
            MathMethod::FloorDivLong | MathMethod::FloorModLong => !(args[0] == Value::Long(
                i64::MIN,
            ) && args[1] == Value::Long(-1)),
            _ => true,
        },
        _ => true,
    }
}

/// Whether a box constructor finds a field to set in the cell `r`
/// designates.
pub fn first_field_settable(heap: &Heap, r: crate::model::Reference) -> (res: bool)
    ensures
        res == has_first_field(heap@, r),
{
    match heap.get(r) {
        Ok(crate::model::HeapValue::Object { fields, .. }) => fields.len() > 0,
        _ => true,
    }
}

/// Runs a `java.lang` native.
pub fn invoke_lang(heap: &mut Heap, k: LangMethod, args: &[Value]) -> (res: Result<Option<Value>, VmError>)
    requires
        args@.len() >= lang_arity(k),
        lang_pre(old(heap)@, k, args@),
    ensures
        answers(old(heap)@, final(heap)@, lang_spec(old(heap)@, k, args@), res),
{
    match k {
        LangMethod::Object(m) => invoke_object(heap, m, args),
        LangMethod::Str(m) => invoke_string(heap, m, args),
        LangMethod::Integer(m) => invoke_integer(heap, m, args),
        LangMethod::Long(m) => invoke_long(heap, m, args),
        LangMethod::Character(m) => invoke_character(heap, m, args),
        LangMethod::Boolean(m) => invoke_boolean(heap, m, args),
        LangMethod::Math(m) => invoke_math(heap, m, args),
        LangMethod::Builder(m) => invoke_builder(heap, m, args),
    }
}

} // verus!
