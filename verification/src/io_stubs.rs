//! The answers of the `java.io` stream natives that do no work: reads
//! report end of input, and writes, flushes and closes on the abstract
//! streams are accepted and dropped.

use vstd::prelude::*;
use crate::chars::eq_str;
use crate::model::Value;

verus! {

/// `InputStream`.
pub open spec fn input_stream_stub(n: Seq<char>, d: Seq<char>) -> Option<Option<Value>> {
    if n == "read"@ && d == "()I"@ {
        Some(Some(Value::Int(-1i32)))
    } else if n == "read"@ && d == "([B)I"@ {
        Some(Some(Value::Int(-1i32)))
    } else if n == "read"@ && d == "([BII)I"@ {
        Some(Some(Value::Int(-1i32)))
    } else if n == "skip"@ && d == "(J)J"@ {
        Some(Some(Value::Long(0)))
    } else if n == "available"@ && d == "()I"@ {
        Some(Some(Value::Int(0)))
    } else if n == "close"@ && d == "()V"@ {
        Some(None)
    } else if n == "reset"@ && d == "()V"@ {
        Some(None)
    } else if n == "mark"@ && d == "(I)V"@ {
        Some(None)
    } else if n == "markSupported"@ && d == "()Z"@ {
        Some(Some(Value::Int(0)))
    } else {
        None
    }
}

fn input_stream_answer(n: &[char], d: &[char]) -> (res: Option<Option<Value>>)
    ensures
        res == input_stream_stub(n@, d@),
{
    if eq_str(n, "read") && eq_str(d, "()I") {
        return Some(Some(Value::Int(-1i32)));
    }
    if eq_str(n, "read") && eq_str(d, "([B)I") {
        return Some(Some(Value::Int(-1i32)));
    }
    if eq_str(n, "read") && eq_str(d, "([BII)I") {
        return Some(Some(Value::Int(-1i32)));
    }
    if eq_str(n, "skip") && eq_str(d, "(J)J") {
        return Some(Some(Value::Long(0)));
    }
    if eq_str(n, "available") && eq_str(d, "()I") {
        return Some(Some(Value::Int(0)));
    }
    if eq_str(n, "close") && eq_str(d, "()V") {
        return Some(None);
    }
    if eq_str(n, "reset") && eq_str(d, "()V") {
        return Some(None);
    }
    if eq_str(n, "mark") && eq_str(d, "(I)V") {
        return Some(None);
    }
    if eq_str(n, "markSupported") && eq_str(d, "()Z") {
        return Some(Some(Value::Int(0)));
    }
    None
}

/// `OutputStream`.
pub open spec fn output_stream_stub(n: Seq<char>, d: Seq<char>) -> Option<Option<Value>> {
    if n == "write"@ && d == "(I)V"@ {
        Some(None)
    } else if n == "write"@ && d == "([B)V"@ {
        Some(None)
    } else if n == "write"@ && d == "([BII)V"@ {
        Some(None)
    } else if n == "flush"@ && d == "()V"@ {
        Some(None)
    } else if n == "close"@ && d == "()V"@ {
        Some(None)
    } else {
        None
    }
}

fn output_stream_answer(n: &[char], d: &[char]) -> (res: Option<Option<Value>>)
    ensures
        res == output_stream_stub(n@, d@),
{
    if eq_str(n, "write") && eq_str(d, "(I)V") {
        return Some(None);
    }
    if eq_str(n, "write") && eq_str(d, "([B)V") {
        return Some(None);
    }
    if eq_str(n, "write") && eq_str(d, "([BII)V") {
        return Some(None);
    }
    if eq_str(n, "flush") && eq_str(d, "()V") {
        return Some(None);
    }
    if eq_str(n, "close") && eq_str(d, "()V") {
        return Some(None);
    }
    None
}

/// `Writer`.
pub open spec fn writer_stub(n: Seq<char>, d: Seq<char>) -> Option<Option<Value>> {
    if n == "write"@ && d == "(I)V"@ {
        Some(None)
    } else if n == "write"@ && d == "([C)V"@ {
        Some(None)
    } else if n == "write"@ && d == "([CII)V"@ {
        Some(None)
    } else if n == "write"@ && d == "(Ljava/lang/String;)V"@ {
        Some(None)
    } else if n == "write"@ && d == "(Ljava/lang/String;II)V"@ {
        Some(None)
    } else if n == "flush"@ && d == "()V"@ {
        Some(None)
    } else if n == "close"@ && d == "()V"@ {
        Some(None)
    } else {
        None
    }
}

fn writer_answer(n: &[char], d: &[char]) -> (res: Option<Option<Value>>)
    ensures
        res == writer_stub(n@, d@),
{
    if eq_str(n, "write") && eq_str(d, "(I)V") {
        return Some(None);
    }
    if eq_str(n, "write") && eq_str(d, "([C)V") {
        return Some(None);
    }
    if eq_str(n, "write") && eq_str(d, "([CII)V") {
        return Some(None);
    }
    if eq_str(n, "write") && eq_str(d, "(Ljava/lang/String;)V") {
        return Some(None);
    }
    if eq_str(n, "write") && eq_str(d, "(Ljava/lang/String;II)V") {
        return Some(None);
    }
    if eq_str(n, "flush") && eq_str(d, "()V") {
        return Some(None);
    }
    if eq_str(n, "close") && eq_str(d, "()V") {
        return Some(None);
    }
    None
}

/// `PrintWriter`.
pub open spec fn print_writer_stub(n: Seq<char>, d: Seq<char>) -> Option<Option<Value>> {
    if n == "flush"@ && d == "()V"@ {
        Some(None)
    } else if n == "close"@ && d == "()V"@ {
        Some(None)
    } else if n == "<init>"@ && d == "(Ljava/io/OutputStream;)V"@ {
        Some(None)
    } else if n == "<init>"@ && d == "(Ljava/io/Writer;)V"@ {
        Some(None)
    } else if n == "<init>"@ && d == "()V"@ {
        Some(None)
    } else {
        None
    }
}

fn print_writer_answer(n: &[char], d: &[char]) -> (res: Option<Option<Value>>)
    ensures
        res == print_writer_stub(n@, d@),
{
    if eq_str(n, "flush") && eq_str(d, "()V") {
        return Some(None);
    }
    if eq_str(n, "close") && eq_str(d, "()V") {
        return Some(None);
    }
    if eq_str(n, "<init>") && eq_str(d, "(Ljava/io/OutputStream;)V") {
        return Some(None);
    }
    if eq_str(n, "<init>") && eq_str(d, "(Ljava/io/Writer;)V") {
        return Some(None);
    }
    if eq_str(n, "<init>") && eq_str(d, "()V") {
        return Some(None);
    }
    None
}

/// `Reader`.
pub open spec fn reader_stub(n: Seq<char>, d: Seq<char>) -> Option<Option<Value>> {
    if n == "read"@ && d == "()I"@ {
        Some(Some(Value::Int(-1i32)))
    } else if n == "read"@ && d == "(I)I"@ {
        Some(Some(Value::Int(-1i32)))
    } else if n == "read"@ && d == "([C)I"@ {
        Some(Some(Value::Int(-1i32)))
    } else if n == "read"@ && d == "([CII)I"@ {
        Some(Some(Value::Int(-1i32)))
    } else if n == "skip"@ && d == "(J)J"@ {
        Some(Some(Value::Long(0)))
    } else if n == "ready"@ && d == "()Z"@ {
        Some(Some(Value::Int(0)))
    } else if n == "close"@ && d == "()V"@ {
        Some(None)
    } else if n == "mark"@ && d == "(I)V"@ {
        Some(None)
    } else if n == "reset"@ && d == "()V"@ {
        Some(None)
    } else if n == "markSupported"@ && d == "()Z"@ {
        Some(Some(Value::Int(0)))
    } else {
        None
    }
}

fn reader_answer(n: &[char], d: &[char]) -> (res: Option<Option<Value>>)
    ensures
        res == reader_stub(n@, d@),
{
    if eq_str(n, "read") && eq_str(d, "()I") {
        return Some(Some(Value::Int(-1i32)));
    }
    if eq_str(n, "read") && eq_str(d, "(I)I") {
        return Some(Some(Value::Int(-1i32)));
    }
    if eq_str(n, "read") && eq_str(d, "([C)I") {
        return Some(Some(Value::Int(-1i32)));
    }
    if eq_str(n, "read") && eq_str(d, "([CII)I") {
        return Some(Some(Value::Int(-1i32)));
    }
    if eq_str(n, "skip") && eq_str(d, "(J)J") {
        return Some(Some(Value::Long(0)));
    }
    if eq_str(n, "ready") && eq_str(d, "()Z") {
        return Some(Some(Value::Int(0)));
    }
    if eq_str(n, "close") && eq_str(d, "()V") {
        return Some(None);
    }
    if eq_str(n, "mark") && eq_str(d, "(I)V") {
        return Some(None);
    }
    if eq_str(n, "reset") && eq_str(d, "()V") {
        return Some(None);
    }
    if eq_str(n, "markSupported") && eq_str(d, "()Z") {
        return Some(Some(Value::Int(0)));
    }
    None
}

/// `BufferedReader`.
pub open spec fn buffered_reader_stub(n: Seq<char>, d: Seq<char>) -> Option<Option<Value>> {
    if n == "skip"@ && d == "(J)J"@ {
        Some(Some(Value::Long(0)))
    } else if n == "close"@ && d == "()V"@ {
        Some(None)
    } else {
        None
    }
}

fn buffered_reader_answer(n: &[char], d: &[char]) -> (res: Option<Option<Value>>)
    ensures
        res == buffered_reader_stub(n@, d@),
{
    if eq_str(n, "skip") && eq_str(d, "(J)J") {
        return Some(Some(Value::Long(0)));
    }
    if eq_str(n, "close") && eq_str(d, "()V") {
        return Some(None);
    }
    None
}

/// `InputStreamReader`.
pub open spec fn input_stream_reader_stub(n: Seq<char>, d: Seq<char>) -> Option<Option<Value>> {
    if n == "close"@ && d == "()V"@ {
        Some(None)
    } else {
        None
    }
}

fn input_stream_reader_answer(n: &[char], d: &[char]) -> (res: Option<Option<Value>>)
    ensures
        res == input_stream_reader_stub(n@, d@),
{
    if eq_str(n, "close") && eq_str(d, "()V") {
        return Some(None);
    }
    None
}

/// What a `java.io` native that does no work returns: `None` when the
/// call is not one of them, `Some(v)` when it returns `v`.
pub open spec fn io_stub(c: Seq<char>, n: Seq<char>, d: Seq<char>) -> Option<Option<Value>> {
    if c == "java/io/InputStream"@ {
        input_stream_stub(n, d)
    } else if c == "java/io/OutputStream"@ {
        output_stream_stub(n, d)
    } else if c == "java/io/Writer"@ {
        writer_stub(n, d)
    } else if c == "java/io/PrintWriter"@ {
        print_writer_stub(n, d)
    } else if c == "java/io/Reader"@ {
        reader_stub(n, d)
    } else if c == "java/io/BufferedReader"@ {
        buffered_reader_stub(n, d)
    } else if c == "java/io/InputStreamReader"@ {
        input_stream_reader_stub(n, d)
    } else {
        None
    }
}

/// The answer of a `java.io` native that does no work.
pub fn io_stub_answer(c: &[char], n: &[char], d: &[char]) -> (res: Option<Option<Value>>)
    ensures
        res == io_stub(c@, n@, d@),
{
    if eq_str(c, "java/io/InputStream") {
        return input_stream_answer(n, d);
    }
    if eq_str(c, "java/io/OutputStream") {
        return output_stream_answer(n, d);
    }
    if eq_str(c, "java/io/Writer") {
        return writer_answer(n, d);
    }
    if eq_str(c, "java/io/PrintWriter") {
        return print_writer_answer(n, d);
    }
    if eq_str(c, "java/io/Reader") {
        return reader_answer(n, d);
    }
    if eq_str(c, "java/io/BufferedReader") {
        return buffered_reader_answer(n, d);
    }
    if eq_str(c, "java/io/InputStreamReader") {
        return input_stream_reader_answer(n, d);
    }
    None
}

} // verus!
