//! `java.io.PrintStream.print` and `println`: the text a call writes.
//! (Writing it to standard output is the caller's part; `float` and
//! `double` arguments are formatted there too.)

use vstd::prelude::*;
use crate::chars::{eq_str, lit};
use crate::heap::Heap;
use crate::helpers::{display_string, string_value, stringify_heap, stringify_reference};
use crate::lang_string::bool_text;
use crate::model::{int_arg, long_arg, ref_arg, Value, VmError, Obj};
use crate::numfmt::{decimal, int_to_decimal, long_to_decimal};

verus! {

/// The argument kinds `print` and `println` take (besides `float` and `double`).
#[derive(Clone, Copy, PartialEq, Eq, Structural, Debug)]
pub enum PrintArg {
    Int,
    Bool,
    Char,
    Str,
    Long,
    Object,
    Nothing,
}

/// A `PrintStream` native: `println` when `line`, else `print`.
#[derive(Clone, Copy, PartialEq, Eq, Structural, Debug)]
pub struct PrintMethod {
    pub line: bool,
    pub arg: PrintArg,
}

/// What a call writes: the text, and whether a line ends after it.
pub struct PrintOut {
    pub text: Vec<char>,
    pub newline: bool,
}

pub open spec fn print_descriptor(a: PrintArg) -> Seq<char> {
    match a {
        PrintArg::Int => "(I)V"@,
        PrintArg::Bool => "(Z)V"@,
        PrintArg::Char => "(C)V"@,
        PrintArg::Str => "(Ljava/lang/String;)V"@,
        PrintArg::Long => "(J)V"@,
        PrintArg::Object => "(Ljava/lang/Object;)V"@,
        PrintArg::Nothing => "()V"@,
    }
}

/// Whether a native is the one a call of `name` with `descriptor` on
/// `java/io/PrintStream` selects.
pub open spec fn print_matches(k: PrintMethod, name: Seq<char>, descriptor: Seq<char>) -> bool {
    name == (if k.line { "println"@ } else { "print"@ }) && descriptor == print_descriptor(k.arg)
}

/// The text of a `char` argument: its low byte as a character.
pub open spec fn char_text(c: i32) -> Seq<char> {
    seq![(c as u8) as char]
}

/// The text a call writes (receiver first, argument second), or the error
/// reading the argument gives.
pub open spec fn print_text(heap: Seq<Obj>, a: PrintArg, args: Seq<Value>) -> Result<Seq<char>, VmError> {
    match a {
        PrintArg::Int => match int_arg(args, 1) {
            Ok(i) => Ok(decimal(i as int)),
            Err(e) => Err(e),
        },
        PrintArg::Bool => match int_arg(args, 1) {
            Ok(b) => Ok(bool_text(b != 0)),
            Err(e) => Err(e),
        },
        PrintArg::Char => match int_arg(args, 1) {
            Ok(c) => Ok(char_text(c)),
            Err(e) => Err(e),
        },
        PrintArg::Str => match ref_arg(args, 1) {
            Ok(r) => string_value(heap, r),
            Err(e) => Err(e),
        },
        PrintArg::Long => match long_arg(args, 1) {
            Ok(l) => Ok(decimal(l as int)),
            Err(e) => Err(e),
        },
        PrintArg::Object => match ref_arg(args, 1) {
            Ok(r) => display_string(heap, r),
            Err(e) => Err(e),
        },
        PrintArg::Nothing => Ok(Seq::empty()),
    }
}

pub open spec fn print_arity(a: PrintArg) -> nat {
    if a is Nothing { 0 } else { 2 }
}

/// The `PrintStream` native a name and descriptor select.
pub fn print_method(name: &[char], descriptor: &[char]) -> (res: Option<PrintMethod>)
    ensures
        match res {
            Some(k) => print_matches(k, name@, descriptor@),
            None => forall|k: PrintMethod| !print_matches(k, name@, descriptor@),
        },
{
    let line = if eq_str(name, "println") {
        true
    } else if eq_str(name, "print") {
        false
    } else {
        return None;
    };
    let d = descriptor;
    let arg = if eq_str(d, "(I)V") {
        PrintArg::Int
    } else if eq_str(d, "(Z)V") {
        PrintArg::Bool
    } else if eq_str(d, "(C)V") {
        PrintArg::Char
    } else if eq_str(d, "(Ljava/lang/String;)V") {
        PrintArg::Str
    } else if eq_str(d, "(J)V") {
        PrintArg::Long
    } else if eq_str(d, "(Ljava/lang/Object;)V") {
        PrintArg::Object
    } else if eq_str(d, "()V") {
        PrintArg::Nothing
    } else {
        proof {
            assert forall|k: PrintMethod| !print_matches(k, name@, descriptor@) by {
                match k.arg {
                    PrintArg::Int => {},
                    PrintArg::Bool => {},
                    PrintArg::Char => {},
                    PrintArg::Str => {},
                    PrintArg::Long => {},
                    PrintArg::Object => {},
                    PrintArg::Nothing => {},
                }
            }
        }
        return None;
    };
    Some(PrintMethod { line, arg })
}

/// What a `print` or `println` call writes: its argument's text; `println`
/// ends the line, and `print()` writes nothing.
pub fn invoke_io(heap: &Heap, k: PrintMethod, args: &[Value]) -> (res: Result<PrintOut, VmError>)
    requires
        args@.len() >= print_arity(k.arg),
    ensures
        match res {
            Ok(out) => print_text(heap@, k.arg, args@) == Ok::<Seq<char>, VmError>(out.text@)
                && out.newline == k.line,
            Err(e) => print_text(heap@, k.arg, args@) == Err::<Seq<char>, VmError>(e),
        },
{
    let text = match k.arg {
        PrintArg::Int => int_to_decimal(args[1].as_int()?),
        PrintArg::Bool => {
            if args[1].as_int()? != 0 {
                lit("true")
            } else {
                lit("false")
            }
        },
        PrintArg::Char => {
            let c = args[1].as_int()?;
            let mut v = Vec::new();
            v.push((c as u8) as char);
            assert(v@ =~= char_text(c));
            v
        },
        PrintArg::Str => {
            let r = args[1].as_reference()?;
            stringify_reference(heap, r)?
        },
        PrintArg::Long => long_to_decimal(args[1].as_long()?),
        PrintArg::Object => {
            let r = args[1].as_reference()?;
            stringify_heap(heap, r)?
        },
        PrintArg::Nothing => Vec::new(),
    };
    Ok(PrintOut { text, newline: k.line })
}

/// Whether a native is one that `java/io/PrintWriter` has: all of
/// `PrintStream`'s but `print()`.
pub open spec fn writer_print_matches(k: PrintMethod, name: Seq<char>, descriptor: Seq<char>) -> bool {
    print_matches(k, name, descriptor) && !(!k.line && k.arg is Nothing)
}

/// The `PrintWriter` native a name and descriptor select; it writes as
/// `PrintStream` does.
pub fn print_writer_method(name: &[char], descriptor: &[char]) -> (res: Option<PrintMethod>)
    ensures
        match res {
            Some(k) => writer_print_matches(k, name@, descriptor@),
            None => forall|k: PrintMethod| !writer_print_matches(k, name@, descriptor@),
        },
{
    match print_method(name, descriptor) {
        Some(k) => if !k.line && k.arg == PrintArg::Nothing {
            proof {
                reveal_strlit("println");
                reveal_strlit("print");
                reveal_strlit("(I)V");
                reveal_strlit("(Z)V");
                reveal_strlit("(C)V");
                reveal_strlit("(Ljava/lang/String;)V");
                reveal_strlit("(J)V");
                reveal_strlit("(Ljava/lang/Object;)V");
                reveal_strlit("()V");
                assert forall|j: PrintMethod| !writer_print_matches(j, name@, descriptor@) by {
                    if print_matches(j, name@, descriptor@) {
                        assert("println"@.len() == 7 && "print"@.len() == 5);
                        assert(j.line == k.line);
                        assert("()V"@.len() == 3);
                        assert(print_descriptor(j.arg) == print_descriptor(k.arg));
                        assert(print_descriptor(j.arg).len() == 3);
                        match j.arg {
                            PrintArg::Nothing => {},
                            PrintArg::Int => { assert("(I)V"@.len() == 4); },
                            PrintArg::Bool => { assert("(Z)V"@.len() == 4); },
                            PrintArg::Char => { assert("(C)V"@.len() == 4); },
                            PrintArg::Long => { assert("(J)V"@.len() == 4); },
                            PrintArg::Str => { assert("(Ljava/lang/String;)V"@.len() > 3); },
                            PrintArg::Object => { assert("(Ljava/lang/Object;)V"@.len() > 3); },
                        }
                    }
                }
            }
            None
        } else {
            Some(k)
        },
        None => None,
    }
}

} // verus!
