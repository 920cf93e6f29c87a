//! Native method support for a small JVM: a heap model of Java objects and
//! arrays, and verified implementations of the JDK methods that the
//! interpreter handles natively.

pub mod chars;
pub mod model;
pub mod heap;
pub mod numfmt;
pub mod helpers;
pub mod sorting;
pub mod collections;
pub mod unsafe_access;
pub mod descriptors;
pub mod reflection;
pub mod strings;
pub mod unicode;
pub mod native;
pub mod lang_string;
pub mod bits;
pub mod lang_number;
pub mod utf8;
pub mod lang_misc;
pub mod lang_builder;
pub mod lang;
pub mod lang_laws;
pub mod regex_engine;
pub mod regex;
pub mod io_objects;
pub mod time;
pub mod text;
pub mod lang_reflect;
pub mod util;
pub mod concurrent_stubs;
pub mod concurrent;
pub mod handles;
pub mod buffers;
pub mod runtime_laws;
pub mod print;
pub mod lang_class;
pub mod byte_stream;
pub mod io_stubs;
pub mod other;
pub mod thread;
pub mod paths;
pub mod path_laws;
pub mod nio;
pub mod io_file;
pub mod classes;
pub mod class_statics;
pub mod class_data;
pub mod bootstrap;
pub mod time_laws;
pub mod other_laws;
pub mod descriptor_laws;
pub mod reflect_objects;
pub mod io_laws;
pub mod regex_laws;
pub mod string_laws;
