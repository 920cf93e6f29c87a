//! Registering the built-in classes: each `bootstrap_*` function adds one
//! group of classes to the class table, in a fixed order, and allocates the
//! objects that their static fields refer to.

use vstd::prelude::*;
use crate::class_data::{CONSOLE_CLASS, DAY_OF_WEEK_CLASS, INTEGER_CLASS, JAVA_IO_CLASSES_1, JAVA_IO_CLASSES_2, JAVA_IO_WRITER_CLASSES, JAVA_LANG_CLASSES_1, JAVA_LANG_CLASSES_2, JAVA_LANG_REFLECT_CLASSES, JAVA_NIO_CLASSES_1, JAVA_NIO_CLASSES_2, JAVA_NIO_CLASSES_3, JAVA_TEXT_CLASSES, JAVA_TIME_CLASSES_1, JAVA_TIME_CLASSES_2, JAVA_TIME_CLASSES_3, JAVA_UTIL_CLASSES, JAVA_UTIL_CONCURRENT_CLASSES, JAVA_UTIL_REGEX_CLASSES, OPEN_OPTION_CLASS, SYSTEM_CLASS, UNSAFE_CLASS, ZONE_ID_CLASS};
use crate::class_statics::{console_heap, console_static_fields, console_statics, day_of_week_heap, day_of_week_static_fields, day_of_week_statics, integer_heap, integer_static_fields, integer_statics, open_option_heap, open_option_static_fields, open_option_statics, set_statics, system_heap, system_static_fields, system_statics, unsafe_heap, unsafe_static_fields, unsafe_statics, with_statics, zone_id_heap, zone_id_static_fields, zone_id_statics};
use crate::classes::{add_interface, parse_class, parse_class_line, parse_classes, register, register_all, ClassSpec, ClassTable};
use crate::heap::Heap;
use crate::model::Obj;

verus! {

/// The class table after registering the `java.lang` classes.
pub open spec fn java_lang_table(t: Seq<ClassSpec>, heap: Seq<Obj>) -> Seq<ClassSpec> {
    let t1 = register_all(t, parse_classes(JAVA_LANG_CLASSES_1@));
    let t2 = register(t1, with_statics(parse_class(INTEGER_CLASS@), integer_statics(heap.len() as int)));
    let t3 = register_all(t2, parse_classes(JAVA_LANG_CLASSES_2@));
    let t4 = add_interface(t3, "java/lang/Integer"@, "java/lang/Comparable"@);
    let t5 = add_interface(t4, "java/lang/Long"@, "java/lang/Comparable"@);
    let t6 = add_interface(t5, "java/lang/Boolean"@, "java/lang/Comparable"@);
    let t7 = add_interface(t6, "java/lang/String"@, "java/lang/Comparable"@);
    add_interface(t7, "java/lang/String"@, "java/lang/CharSequence"@)
}

/// The heap after allocating what the `java.lang` classes' static fields refer to.
pub open spec fn java_lang_heap(heap: Seq<Obj>) -> Seq<Obj> {
    integer_heap(heap)
}

/// Registers the `java.lang` classes.
pub fn bootstrap_java_lang(table: &mut ClassTable, heap: &mut Heap)
    ensures
        final(table)@ == java_lang_table(old(table)@, old(heap)@),
        final(heap)@ == java_lang_heap(old(heap)@),
{
    table.register_text(JAVA_LANG_CLASSES_1);
    let mut c2 = parse_class_line(&crate::chars::lit(INTEGER_CLASS));
    let s2 = integer_static_fields(heap);
    set_statics(&mut c2, s2);
    table.register_class(c2);
    table.register_text(JAVA_LANG_CLASSES_2);
    table.add_interface("java/lang/Integer", "java/lang/Comparable");
    table.add_interface("java/lang/Long", "java/lang/Comparable");
    table.add_interface("java/lang/Boolean", "java/lang/Comparable");
    table.add_interface("java/lang/String", "java/lang/Comparable");
    table.add_interface("java/lang/String", "java/lang/CharSequence");
}

/// The class table after registering the `java.io` streams and `System` classes.
pub open spec fn java_io_table(t: Seq<ClassSpec>, heap: Seq<Obj>) -> Seq<ClassSpec> {
    let t1 = register_all(t, parse_classes(JAVA_IO_CLASSES_1@));
    let t2 = register(t1, with_statics(parse_class(SYSTEM_CLASS@), system_statics(heap.len() as int)));
    register_all(t2, parse_classes(JAVA_IO_CLASSES_2@))
}

/// The heap after allocating what the `java.io` streams and `System` classes' static fields refer to.
pub open spec fn java_io_heap(heap: Seq<Obj>) -> Seq<Obj> {
    system_heap(heap)
}

/// Registers the `java.io` streams and `System` classes.
pub fn bootstrap_java_io(table: &mut ClassTable, heap: &mut Heap)
    ensures
        final(table)@ == java_io_table(old(table)@, old(heap)@),
        final(heap)@ == java_io_heap(old(heap)@),
{
    table.register_text(JAVA_IO_CLASSES_1);
    let mut c2 = parse_class_line(&crate::chars::lit(SYSTEM_CLASS));
    let s2 = system_static_fields(heap);
    set_statics(&mut c2, s2);
    table.register_class(c2);
    table.register_text(JAVA_IO_CLASSES_2);
}

/// The class table after registering the `java.io` writers and readers classes.
pub open spec fn java_io_writer_table(t: Seq<ClassSpec>) -> Seq<ClassSpec> {
    register_all(t, parse_classes(JAVA_IO_WRITER_CLASSES@))
}

/// Registers the `java.io` writers and readers classes.
pub fn bootstrap_java_io_writer(table: &mut ClassTable)
    ensures
        final(table)@ == java_io_writer_table(old(table)@),
{
    table.register_text(JAVA_IO_WRITER_CLASSES);
}

/// The class table after registering the `java.util` collections, streams and optionals classes.
pub open spec fn java_util_table(t: Seq<ClassSpec>) -> Seq<ClassSpec> {
    register_all(t, parse_classes(JAVA_UTIL_CLASSES@))
}

/// Registers the `java.util` collections, streams and optionals classes.
pub fn bootstrap_java_util(table: &mut ClassTable)
    ensures
        final(table)@ == java_util_table(old(table)@),
{
    table.register_text(JAVA_UTIL_CLASSES);
}

/// The class table after registering the `java.nio` buffers, files and paths, and the console classes.
pub open spec fn java_nio_table(t: Seq<ClassSpec>, heap: Seq<Obj>) -> Seq<ClassSpec> {
    let t1 = register_all(t, parse_classes(JAVA_NIO_CLASSES_1@));
    let t2 = register(t1, with_statics(parse_class(CONSOLE_CLASS@), console_statics(heap.len() as int)));
    let h2 = console_heap(heap);
    let t3 = register_all(t2, parse_classes(JAVA_NIO_CLASSES_2@));
    let t4 = register(t3, with_statics(parse_class(OPEN_OPTION_CLASS@), open_option_statics(h2.len() as int)));
    register_all(t4, parse_classes(JAVA_NIO_CLASSES_3@))
}

/// The heap after allocating what the `java.nio` buffers, files and paths, and the console classes' static fields refer to.
pub open spec fn java_nio_heap(heap: Seq<Obj>) -> Seq<Obj> {
    let h2 = console_heap(heap);
    open_option_heap(h2)
}

/// Registers the `java.nio` buffers, files and paths, and the console classes.
pub fn bootstrap_java_nio(table: &mut ClassTable, heap: &mut Heap)
    ensures
        final(table)@ == java_nio_table(old(table)@, old(heap)@),
        final(heap)@ == java_nio_heap(old(heap)@),
{
    table.register_text(JAVA_NIO_CLASSES_1);
    let mut c2 = parse_class_line(&crate::chars::lit(CONSOLE_CLASS));
    let s2 = console_static_fields(heap);
    set_statics(&mut c2, s2);
    table.register_class(c2);
    table.register_text(JAVA_NIO_CLASSES_2);
    let mut c4 = parse_class_line(&crate::chars::lit(OPEN_OPTION_CLASS));
    let s4 = open_option_static_fields(heap);
    set_statics(&mut c4, s4);
    table.register_class(c4);
    table.register_text(JAVA_NIO_CLASSES_3);
}

/// The class table after registering the `jdk.internal.misc.Unsafe` classes.
pub open spec fn other_table(t: Seq<ClassSpec>, heap: Seq<Obj>) -> Seq<ClassSpec> {
    register(t, with_statics(parse_class(UNSAFE_CLASS@), unsafe_statics(heap.len() as int)))
}

/// The heap after allocating what the `jdk.internal.misc.Unsafe` classes' static fields refer to.
pub open spec fn other_heap(heap: Seq<Obj>) -> Seq<Obj> {
    unsafe_heap(heap)
}

/// Registers the `jdk.internal.misc.Unsafe` classes.
pub fn bootstrap_other(table: &mut ClassTable, heap: &mut Heap)
    ensures
        final(table)@ == other_table(old(table)@, old(heap)@),
        final(heap)@ == other_heap(old(heap)@),
{
    let mut c1 = parse_class_line(&crate::chars::lit(UNSAFE_CLASS));
    let s1 = unsafe_static_fields(heap);
    set_statics(&mut c1, s1);
    table.register_class(c1);
}

/// The class table after registering the `java.util.concurrent` classes.
pub open spec fn java_util_concurrent_table(t: Seq<ClassSpec>) -> Seq<ClassSpec> {
    register_all(t, parse_classes(JAVA_UTIL_CONCURRENT_CLASSES@))
}

/// Registers the `java.util.concurrent` classes.
pub fn bootstrap_java_util_concurrent(table: &mut ClassTable)
    ensures
        final(table)@ == java_util_concurrent_table(old(table)@),
{
    table.register_text(JAVA_UTIL_CONCURRENT_CLASSES);
}

/// The class table after registering the `java.lang.reflect` classes.
pub open spec fn java_lang_reflect_table(t: Seq<ClassSpec>) -> Seq<ClassSpec> {
    register_all(t, parse_classes(JAVA_LANG_REFLECT_CLASSES@))
}

/// Registers the `java.lang.reflect` classes.
pub fn bootstrap_java_lang_reflect(table: &mut ClassTable)
    ensures
        final(table)@ == java_lang_reflect_table(old(table)@),
{
    table.register_text(JAVA_LANG_REFLECT_CLASSES);
}

/// The class table after registering the `java.util.regex` classes.
pub open spec fn java_util_regex_table(t: Seq<ClassSpec>) -> Seq<ClassSpec> {
    register_all(t, parse_classes(JAVA_UTIL_REGEX_CLASSES@))
}

/// Registers the `java.util.regex` classes.
pub fn bootstrap_java_util_regex(table: &mut ClassTable)
    ensures
        final(table)@ == java_util_regex_table(old(table)@),
{
    table.register_text(JAVA_UTIL_REGEX_CLASSES);
}

/// The class table after registering the `java.text` classes.
pub open spec fn java_text_table(t: Seq<ClassSpec>) -> Seq<ClassSpec> {
    register_all(t, parse_classes(JAVA_TEXT_CLASSES@))
}

/// Registers the `java.text` classes.
pub fn bootstrap_java_text(table: &mut ClassTable)
    ensures
        final(table)@ == java_text_table(old(table)@),
{
    table.register_text(JAVA_TEXT_CLASSES);
}

/// The class table after registering the `java.time` classes.
pub open spec fn java_time_table(t: Seq<ClassSpec>, heap: Seq<Obj>) -> Seq<ClassSpec> {
    let t1 = register_all(t, parse_classes(JAVA_TIME_CLASSES_1@));
    let t2 = register(t1, with_statics(parse_class(DAY_OF_WEEK_CLASS@), day_of_week_statics(heap.len() as int)));
    let h2 = day_of_week_heap(heap);
    let t3 = register_all(t2, parse_classes(JAVA_TIME_CLASSES_2@));
    let t4 = register(t3, with_statics(parse_class(ZONE_ID_CLASS@), zone_id_statics(h2.len() as int)));
    register_all(t4, parse_classes(JAVA_TIME_CLASSES_3@))
}

/// The heap after allocating what the `java.time` classes' static fields refer to.
pub open spec fn java_time_heap(heap: Seq<Obj>) -> Seq<Obj> {
    let h2 = day_of_week_heap(heap);
    zone_id_heap(h2)
}

/// Registers the `java.time` classes.
pub fn bootstrap_java_time(table: &mut ClassTable, heap: &mut Heap)
    ensures
        final(table)@ == java_time_table(old(table)@, old(heap)@),
        final(heap)@ == java_time_heap(old(heap)@),
{
    table.register_text(JAVA_TIME_CLASSES_1);
    let mut c2 = parse_class_line(&crate::chars::lit(DAY_OF_WEEK_CLASS));
    let s2 = day_of_week_static_fields(heap);
    set_statics(&mut c2, s2);
    table.register_class(c2);
    table.register_text(JAVA_TIME_CLASSES_2);
    let mut c4 = parse_class_line(&crate::chars::lit(ZONE_ID_CLASS));
    let s4 = zone_id_static_fields(heap);
    set_statics(&mut c4, s4);
    table.register_class(c4);
    table.register_text(JAVA_TIME_CLASSES_3);
}

} // verus!
