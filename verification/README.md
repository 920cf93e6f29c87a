# jvm_rs

The native methods of a small JVM, written in Verus and proved against
their contracts: a model of the Java heap (objects, strings, arrays), the
built-in JDK natives the interpreter answers itself (`java.lang`,
`java.util`, `java.util.concurrent`, `java.util.regex`, `java.text`,
`java.time`, `java.nio`, `java.io`, reflection, method handles and
`jdk.internal.misc.Unsafe`), and the registration of the built-in classes.

## What is verified

Everything under `src/` is checked by Verus. Each native is a step function
from the heap and the arguments to a result and a new heap, and its
`ensures` equates that outcome with a spec function of what the native
does (`string_spec`, `time_spec`, `util_spec`, ...). Parsers (class lines,
descriptors, paths, number formats) are functions on characters with exact
contracts. Laws that span several calls are public proof functions in the
`*_laws` modules and in `classes`, `byte_stream`, `reflect_objects` and
`descriptor_laws`; for instance, what a read gives back of a write,
`toEpochMilli` undoing `ofEpochMilli`, normalising a path twice changing
nothing, and a reflection object reading back the metadata it was built
from.

## What is trusted

- `src/regex_engine.rs`: the calls into the `regex` crate (compile, match,
  find, split, replace). Their results are named by uninterpreted spec
  functions of their arguments; the code around them is verified against
  those names.
- `src/unicode.rs`: std's Unicode case mapping and character classes, named
  in the same way, and `char::from_u32`.

## What is not here

`app/` holds what Verus does not take: the clock, the environment, file and
console I/O, floating-point natives, and the loop that routes a call to the
library's natives. The interpreter itself (bytecode execution, class
loading from disk, threads) is not part of this crate.

## Layout

- `src/`: the verified library; `src/lib.rs` lists its modules.
- `tests/`: tests run against the compiled library with the real `regex`
  crate.
- `app/`: the unverified glue described above.
