//! The built-in classes, one line each in the form `classes` reads:
//! `name[,super]|interfaces|field:descriptor,...|method(descriptor),...`.

use vstd::prelude::*;

verus! {

/// Classes registered by `bootstrap_java_lang` (part 1 of 2).
pub const JAVA_LANG_CLASSES_1: &'static str = "java/lang/Object|||<init>()V,wait()V,notify()V,notifyAll()V,hashCode()I,\
    equals(Ljava/lang/Object;)Z,toString()Ljava/lang/String;,getClass()Ljava/lang/Class;\n\
    java/lang/Class,java/lang/Object||__name:Ljava/lang/String;|desiredAssertionStatus()Z,\
    getName()Ljava/lang/String;,getSimpleName()Ljava/lang/String;,isArray()Z,isInterface()Z,\
    isPrimitive()Z,toString()Ljava/lang/String;\n\
    java/lang/String,java/lang/Object|||<init>()V,length()I,charAt(I)C,\
    equals(Ljava/lang/Object;)Z,hashCode()I,isEmpty()Z,trim()Ljava/lang/String;,\
    toLowerCase()Ljava/lang/String;,toUpperCase()Ljava/lang/String;,\
    toString()Ljava/lang/String;,concat(Ljava/lang/String;)Ljava/lang/String;,\
    substring(I)Ljava/lang/String;,substring(II)Ljava/lang/String;,indexOf(I)I,\
    indexOf(Ljava/lang/String;)I,startsWith(Ljava/lang/String;)Z,\
    endsWith(Ljava/lang/String;)Z,contains(Ljava/lang/CharSequence;)Z,\
    replace(CC)Ljava/lang/String;,compareTo(Ljava/lang/String;)I,\
    compareTo(Ljava/lang/Object;)I,valueOf(I)Ljava/lang/String;,valueOf(J)Ljava/lang/String;,\
    valueOf(Z)Ljava/lang/String;,valueOf(C)Ljava/lang/String;,valueOf(D)Ljava/lang/String;,\
    valueOf(F)Ljava/lang/String;";

/// `java/lang/Integer`, whose static fields are set when it is registered.
pub const INTEGER_CLASS: &'static str = "java/lang/Integer,java/lang/Object||value:I|<init>(I)V,intValue()I,\
    valueOf(I)Ljava/lang/Integer;,parseInt(Ljava/lang/String;)I,\
    parseInt(Ljava/lang/String;I)I,compareTo(Ljava/lang/Integer;)I,\
    compareTo(Ljava/lang/Object;)I,toString(I)Ljava/lang/String;,\
    toString(II)Ljava/lang/String;,toBinaryString(I)Ljava/lang/String;,\
    toHexString(I)Ljava/lang/String;,toOctalString(I)Ljava/lang/String;,compare(II)I,\
    numberOfLeadingZeros(I)I,numberOfTrailingZeros(I)I,bitCount(I)I,reverse(I)I,\
    reverseBytes(I)I,highestOneBit(I)I,lowestOneBit(I)I,signum(I)I";

/// Classes registered by `bootstrap_java_lang` (part 2 of 2).
pub const JAVA_LANG_CLASSES_2: &'static str = "java/lang/Long,java/lang/Object||value:J|<init>(J)V,longValue()J,\
    valueOf(J)Ljava/lang/Long;,parseLong(Ljava/lang/String;)J,toString(J)Ljava/lang/String;,\
    compare(JJ)I\n\
    java/lang/Character,java/lang/Object|||isDigit(C)Z,isLetter(C)Z,isLetterOrDigit(C)Z,\
    isWhitespace(C)Z,isUpperCase(C)Z,isLowerCase(C)Z,toLowerCase(C)C,toUpperCase(C)C,\
    toString(C)Ljava/lang/String;\n\
    java/lang/Boolean,java/lang/Object||value:Z|parseBoolean(Ljava/lang/String;)Z,\
    toString(Z)Ljava/lang/String;,valueOf(Z)Ljava/lang/Boolean;,booleanValue()Z,\
    getBoolean(Ljava/lang/String;)Z\n\
    java/lang/StringBuilder,java/lang/Object|||<init>()V,<init>(Ljava/lang/String;)V,\
    append(Ljava/lang/String;)Ljava/lang/StringBuilder;,append(I)Ljava/lang/StringBuilder;,\
    append(J)Ljava/lang/StringBuilder;,append(C)Ljava/lang/StringBuilder;,\
    append(Z)Ljava/lang/StringBuilder;,append(F)Ljava/lang/StringBuilder;,\
    append(D)Ljava/lang/StringBuilder;,append(Ljava/lang/Object;)Ljava/lang/StringBuilder;,\
    toString()Ljava/lang/String;,length()I,charAt(I)C,setLength(I)V,\
    deleteCharAt(I)Ljava/lang/StringBuilder;,setCharAt(IC)V,\
    reverse()Ljava/lang/StringBuilder;,insert(ILjava/lang/String;)Ljava/lang/StringBuilder;\n\
    java/lang/Math,java/lang/Object|||max(II)I,min(II)I,abs(I)I,max(JJ)J,min(JJ)J,abs(J)J,\
    max(DD)D,min(DD)D,abs(D)D,sqrt(D)D,pow(DD)D,floor(D)D,ceil(D)D,round(D)J,round(F)I,\
    random()D,log(D)D,log10(D)D,exp(D)D,sin(D)D,cos(D)D,tan(D)D,floorDiv(II)I,floorDiv(JJ)J,\
    floorMod(II)I,floorMod(JJ)J,addExact(II)I,addExact(JJ)J,subtractExact(II)I,\
    multiplyExact(II)I,multiplyExact(JJ)J,signum(I)I\n\
    java/lang/Runnable|||\n\
    java/lang/Thread,java/lang/Object||target:Ljava/lang/Runnable;|<init>()V,\
    <init>(Ljava/lang/Runnable;)V,start()V,run()V,join()V,currentThread()Ljava/lang/Thread;,\
    getThreadGroup()Ljava/lang/ThreadGroup;,getContextClassLoader()Ljava/lang/ClassLoader;,\
    setContextClassLoader(Ljava/lang/ClassLoader;)V,getName()Ljava/lang/String;,isAlive()Z,\
    isInterrupted()Z,interrupt()V,getId()J,getPriority()I,setPriority(I)V,setDaemon(Z)V,\
    isDaemon()Z,sleep(J)V,yield()V\n\
    java/lang/Throwable,java/lang/Object||message:Ljava/lang/String;|<init>()V,\
    <init>(Ljava/lang/String;)V,<init>(Ljava/lang/String;Ljava/lang/Throwable;)V,\
    <init>(Ljava/lang/Throwable;)V,getMessage()Ljava/lang/String;\n\
    java/lang/Exception,java/lang/Throwable||message:Ljava/lang/String;|<init>()V,\
    <init>(Ljava/lang/String;)V,<init>(Ljava/lang/String;Ljava/lang/Throwable;)V,\
    <init>(Ljava/lang/Throwable;)V,getMessage()Ljava/lang/String;\n\
    java/lang/RuntimeException,java/lang/Exception||message:Ljava/lang/String;|<init>()V,\
    <init>(Ljava/lang/String;)V,<init>(Ljava/lang/String;Ljava/lang/Throwable;)V,\
    <init>(Ljava/lang/Throwable;)V,getMessage()Ljava/lang/String;\n\
    java/lang/IllegalThreadStateException,java/lang/RuntimeException||\
    message:Ljava/lang/String;|<init>()V,<init>(Ljava/lang/String;)V,\
    <init>(Ljava/lang/String;Ljava/lang/Throwable;)V,<init>(Ljava/lang/Throwable;)V,\
    getMessage()Ljava/lang/String;\n\
    java/lang/ArithmeticException,java/lang/RuntimeException||message:Ljava/lang/String;|\
    <init>()V,<init>(Ljava/lang/String;)V,<init>(Ljava/lang/String;Ljava/lang/Throwable;)V,\
    <init>(Ljava/lang/Throwable;)V,getMessage()Ljava/lang/String;\n\
    java/lang/NullPointerException,java/lang/RuntimeException||message:Ljava/lang/String;|\
    <init>()V,<init>(Ljava/lang/String;)V,<init>(Ljava/lang/String;Ljava/lang/Throwable;)V,\
    <init>(Ljava/lang/Throwable;)V,getMessage()Ljava/lang/String;\n\
    java/lang/ClassCastException,java/lang/RuntimeException||message:Ljava/lang/String;|\
    <init>()V,<init>(Ljava/lang/String;)V,<init>(Ljava/lang/String;Ljava/lang/Throwable;)V,\
    <init>(Ljava/lang/Throwable;)V,getMessage()Ljava/lang/String;\n\
    java/lang/NegativeArraySizeException,java/lang/RuntimeException||\
    message:Ljava/lang/String;|<init>()V,<init>(Ljava/lang/String;)V,\
    <init>(Ljava/lang/String;Ljava/lang/Throwable;)V,<init>(Ljava/lang/Throwable;)V,\
    getMessage()Ljava/lang/String;\n\
    java/lang/ArrayIndexOutOfBoundsException,java/lang/RuntimeException||\
    message:Ljava/lang/String;|<init>()V,<init>(Ljava/lang/String;)V,\
    <init>(Ljava/lang/String;Ljava/lang/Throwable;)V,<init>(Ljava/lang/Throwable;)V,\
    getMessage()Ljava/lang/String;\n\
    java/lang/IndexOutOfBoundsException,java/lang/RuntimeException||\
    message:Ljava/lang/String;|<init>()V,<init>(Ljava/lang/String;)V,\
    <init>(Ljava/lang/String;Ljava/lang/Throwable;)V,<init>(Ljava/lang/Throwable;)V,\
    getMessage()Ljava/lang/String;\n\
    java/lang/IllegalMonitorStateException,java/lang/RuntimeException||\
    message:Ljava/lang/String;|<init>()V,<init>(Ljava/lang/String;)V,\
    <init>(Ljava/lang/String;Ljava/lang/Throwable;)V,<init>(Ljava/lang/Throwable;)V,\
    getMessage()Ljava/lang/String;\n\
    java/lang/Comparable|||\n\
    java/lang/CharSequence|||";

/// Classes registered by `bootstrap_java_io` (part 1 of 2).
pub const JAVA_IO_CLASSES_1: &'static str = "java/io/PrintStream,java/lang/Object|||println()V,println(I)V,println(J)V,println(F)V,\
    println(D)V,println(Z)V,println(C)V,println(Ljava/lang/String;)V,\
    println(Ljava/lang/Object;)V,print()V,print(I)V,print(J)V,print(F)V,print(D)V,print(Z)V,\
    print(C)V,print(Ljava/lang/String;)V,print(Ljava/lang/Object;)V,<init>()V";

/// `java/lang/System`, whose static fields are set when it is registered.
pub const SYSTEM_CLASS: &'static str = "java/lang/System,java/lang/Object|||currentTimeMillis()J,nanoTime()J,\
    arraycopy(Ljava/lang/Object;ILjava/lang/Object;II)V,exit(I)V,\
    getProperty(Ljava/lang/String;)Ljava/lang/String;,lineSeparator()Ljava/lang/String;,\
    identityHashCode(Ljava/lang/Object;)I";

/// Classes registered by `bootstrap_java_io` (part 2 of 2).
pub const JAVA_IO_CLASSES_2: &'static str = "java/io/InputStream,java/lang/Object|||read()I,read([B)I,read([BII)I,skip(J)J,\
    available()I,close()V,reset()V,mark(I)V,markSupported()Z\n\
    java/io/OutputStream,java/lang/Object|||write(I)V,write([B)V,write([BII)V,flush()V,\
    close()V\n\
    java/io/ByteArrayOutputStream,java/io/OutputStream||buf:[B,count:I|<init>()V,write(I)V,\
    write([B)V,write([BII)V,flush()V,close()V,toString()Ljava/lang/String;,toByteArray()[B,\
    size()I,reset()V";

/// Classes registered by `bootstrap_java_io_writer`.
pub const JAVA_IO_WRITER_CLASSES: &'static str = "java/io/Writer,java/lang/Object|||write(I)V,write([C)V,write([CII)V,\
    write(Ljava/lang/String;)V,write(Ljava/lang/String;II)V,flush()V,close()V\n\
    java/io/BufferedWriter,java/io/Writer|||<init>(Ljava/io/Writer;)V,write(I)V,write([C)V,\
    write([CII)V,flush()V,close()V\n\
    java/io/PrintWriter,java/io/Writer|||println()V,println(Ljava/io/Writer;)V,\
    println(Ljava/lang/String;)V,println(Z)V,println(C)V,println(I)V,println(J)V,println(F)V,\
    println(D)V,println(Ljava/lang/Object;)V,print()V,print(Ljava/io/Writer;)V,\
    print(Ljava/lang/String;)V,print(Z)V,print(C)V,print(I)V,print(J)V,print(F)V,print(D)V,\
    print(Ljava/lang/Object;)V,<init>()V,<init>(Ljava/io/Writer;)V,\
    <init>(Ljava/io/OutputStream;)V,append(C)Ljava/io/Writer;,\
    append(Ljava/lang/CharSequence;)Ljava/io/Writer;,\
    append(Ljava/lang/CharSequence;II)Ljava/io/Writer;,flush()V,close()V\n\
    java/io/BufferedReader,java/io/Reader|||<init>(Ljava/io/Reader;)V,read()I,read(I)I,\
    read([C)I,read([CII)I,skip(J)J,ready()Z,close()V,readLine()Ljava/lang/String;\n\
    java/io/Reader,java/lang/Object|||read()I,read(I)I,read([C)I,read([CII)I,skip(J)J,\
    ready()Z,close()V,mark(I)V,reset()V,markSupported()Z\n\
    java/io/InputStreamReader,java/io/Reader|||<init>(Ljava/io/InputStream;)V,read()I,\
    read(I)I,read([C)I,read([CII)I,close()V\n\
    java/io/OutputStreamWriter,java/io/Writer|||<init>(Ljava/io/OutputStream;)V,write(I)V,\
    write([C)V,write([CII)V,write(Ljava/lang/String;)V,write(Ljava/lang/String;II)V,flush()V,\
    close()V\n\
    java/io/File,java/lang/Object||path:Ljava/lang/String;|<init>(Ljava/lang/String;)V,\
    exists()Z,isFile()Z,isDirectory()Z,isHidden()Z,length()J,getPath()Ljava/lang/String;,\
    getName()Ljava/lang/String;,getParent()Ljava/lang/String;,canRead()Z,canWrite()Z,\
    canExecute()Z,mkdir()Z,createNewFile()Z,delete()Z,list()[Ljava/lang/String;,\
    listFiles()[Ljava/io/File;";

/// Classes registered by `bootstrap_java_util`.
pub const JAVA_UTIL_CLASSES: &'static str = "java/util/stream/IntStream|||\n\
    java/util/stream/Stream|||\n\
    __jvm_rs/NativeIntStream,java/lang/Object|java/util/stream/IntStream|__array:[I|sum()I,\
    count()J,min()Ljava/util/OptionalInt;,max()Ljava/util/OptionalInt;,\
    average()Ljava/util/OptionalDouble;,toArray()[I,\
    asLongStream()Ljava/util/stream/LongStream;,\
    asDoubleStream()Ljava/util/stream/DoubleStream;,\
    collect(Ljava/util/stream/Collector;)Ljava/lang/Object;\n\
    __jvm_rs/NativeLongStream,java/lang/Object|java/util/stream/LongStream|__array:[J|sum()J,\
    count()J,min()Ljava/util/OptionalLong;,max()Ljava/util/OptionalLong;,\
    average()Ljava/util/OptionalDouble;,toArray()[J,\
    asDoubleStream()Ljava/util/stream/DoubleStream;,\
    collect(Ljava/util/stream/Collector;)Ljava/lang/Object;\n\
    __jvm_rs/NativeDoubleStream,java/lang/Object|java/util/stream/DoubleStream|__array:[D|\
    sum()D,count()J,min()Ljava/util/OptionalDouble;,max()Ljava/util/OptionalDouble;,\
    average()D,toArray()[D,collect(Ljava/util/stream/Collector;)Ljava/lang/Object;\n\
    __jvm_rs/NativeCollector,java/lang/Object||__array:[Ljava/lang/Object;,__mode:I|\
    get()Ljava/lang/Object;,size()I\n\
    java/util/stream/Collectors,java/lang/Object|||\n\
    java/util/stream/LongStream|||\n\
    java/util/stream/DoubleStream|||\n\
    java/util/OptionalInt,java/lang/Object||value:I|isPresent()Z,getAsInt()I,getAsLong()J,\
    getAsDouble()D,orElse(I)I,orElse(J)J,orElse(D)D\n\
    java/util/OptionalLong,java/lang/Object||value:J|isPresent()Z,getAsInt()I,getAsLong()J,\
    getAsDouble()D,orElse(I)I,orElse(J)J,orElse(D)D\n\
    java/util/OptionalDouble,java/lang/Object||value:D|isPresent()Z,getAsInt()I,getAsLong()J,\
    getAsDouble()D,orElse(I)I,orElse(J)J,orElse(D)D\n\
    java/util/Optional,java/lang/Object||value:Ljava/lang/Object;|\
    of(Ljava/lang/Object;)Ljava/util/Optional;,isPresent()Z,get()Ljava/lang/Object;,\
    orElse(Ljava/lang/Object;)Ljava/lang/Object;,isEmpty()Z,\
    filter(Ljava/util/function/Predicate;)Ljava/util/Optional;,\
    map(Ljava/util/function/Function;)Ljava/util/Optional;\n\
    java/util/Scanner,java/lang/Object||__input:Ljava/lang/String;|\
    <init>(Ljava/io/InputStream;)V,<init>(Ljava/lang/String;)V,hasNext()Z,\
    next()Ljava/lang/String;,nextLine()Ljava/lang/String;,hasNextInt()Z,nextInt()I,\
    hasNextLong()Z,nextLong()J,hasNextDouble()Z,nextDouble()D,close()V";

/// Classes registered by `bootstrap_java_nio` (part 1 of 3).
pub const JAVA_NIO_CLASSES_1: &'static str = "java/nio/ByteBuffer,java/nio/Buffer||__backing:[B,__offset:I|\
    allocate(I)Ljava/nio/ByteBuffer;,wrap( [B)Ljava/nio/ByteBuffer;,\
    wrap( [BII)Ljava/nio/ByteBuffer;,capacity()I,position()I,position(I)Ljava/nio/Buffer;,\
    limit()I,limit(I)Ljava/nio/Buffer;,mark()Ljava/nio/Buffer;,reset()Ljava/nio/Buffer;,\
    clear()Ljava/nio/Buffer;,flip()Ljava/nio/Buffer;,rewind()Ljava/nio/Buffer;,remaining()I,\
    hasRemaining()Z,get()B,get(I)B,put(B)Ljava/nio/ByteBuffer;,put(IB)Ljava/nio/ByteBuffer;,\
    array()[B,isDirect()Z\n\
    java/nio/Buffer,java/lang/Object||__capacity:I,__position:I,__limit:I|capacity()I,\
    position()I,position(I)Ljava/nio/Buffer;,limit()I,limit(I)Ljava/nio/Buffer;,\
    mark()Ljava/nio/Buffer;,reset()Ljava/nio/Buffer;,clear()Ljava/nio/Buffer;,\
    flip()Ljava/nio/Buffer;,rewind()Ljava/nio/Buffer;,remaining()I,hasRemaining()Z\n\
    java/nio/CharBuffer,java/nio/Buffer|java/lang/Appendable|__backing:[C,__offset:I|\
    allocate(I)Ljava/nio/CharBuffer;,wrap([C)Ljava/nio/CharBuffer;,\
    wrap([CII)Ljava/nio/CharBuffer;,capacity()I,position()I,position(I)Ljava/nio/Buffer;,\
    limit()I,limit(I)Ljava/nio/Buffer;,mark()Ljava/nio/Buffer;,reset()Ljava/nio/Buffer;,\
    clear()Ljava/nio/Buffer;,flip()Ljava/nio/Buffer;,rewind()Ljava/nio/Buffer;,remaining()I,\
    hasRemaining()Z,get()C,get(I)C,put(C)Ljava/nio/CharBuffer;,put(IC)Ljava/nio/CharBuffer;,\
    array()[C,length()I\n\
    java/nio/file/Path,java/lang/Object||__path:Ljava/lang/String;|\
    getFileName()Ljava/lang/String;,getParent()Ljava/nio/file/Path;,\
    getRoot()Ljava/nio/file/Path;,isAbsolute()Z,getNameCount()I,getName(I)Ljava/lang/String;,\
    subpath(II)Ljava/nio/file/Path;,toString()Ljava/lang/String;,toUri()Ljava/net/URI;,\
    toAbsolutePath()Ljava/nio/file/Path;,normalize()Ljava/nio/file/Path;,\
    resolve(Ljava/lang/String;)Ljava/nio/file/Path;,startsWith(Ljava/lang/String;)Z,\
    endsWith(Ljava/lang/String;)Z\n\
    java/nio/file/Paths,java/lang/Object|||\
    get(Ljava/lang/String;[Ljava/lang/String;)Ljava/nio/file/Path;\n\
    java/nio/file/Files,java/lang/Object|||\
    exists(Ljava/nio/file/Path;[Ljava/nio/file/attribute/FileAttribute;)Z,\
    isRegularFile(Ljava/nio/file/Path;)Z,isDirectory(Ljava/nio/file/Path;)Z,\
    createFile(Ljava/nio/file/Path;[Ljava/nio/file/attribute/FileAttribute;)Ljava/nio/file/Path;,\
    delete(Ljava/nio/file/Path;)V,\
    copy(Ljava/nio/file/Path;Ljava/nio/file/Path;[Ljava/nio/file/CopyOption;)Ljava/nio/file/Path;,\
    move(Ljava/nio/file/Path;Ljava/nio/file/Path;[Ljava/nio/file/CopyOption;)Ljava/nio/file/Path;,\
    readString(Ljava/nio/file/Path;)Ljava/lang/String;,\
    writeString(Ljava/nio/file/Path;Ljava/lang/CharSequence;[Ljava/nio/file/OpenOption;[Ljava/nio/file/attribute/FileAttribute;)Ljava/nio/file/Path;,\
    size(Ljava/nio/file/Path;)J,isHidden(Ljava/nio/file/Path;)Z,\
    getFileStore(Ljava/nio/file/Path;)Ljava/nio/file/FileStore;,\
    newInputStream(Ljava/nio/file/Path;[Ljava/nio/file/OpenOption;)Ljava/io/InputStream;,\
    newOutputStream(Ljava/nio/file/Path;[Ljava/nio/file/OpenOption;)Ljava/io/OutputStream;,\
    newBufferedReader(Ljava/nio/file/Path;)Ljava/io/BufferedReader;,\
    newBufferedWriter(Ljava/nio/file/Path;[Ljava/nio/file/OpenOption;)Ljava/io/BufferedWriter;\n\
    java/nio/file/FileStore,java/lang/Object|||name()Ljava/lang/String;,\
    type()Ljava/lang/String;,getTotalSpace()J,getUsableSpace()J,getUnallocatedSpace()J,\
    isReadOnly()Z\n\
    java/nio/channels/Channels,java/lang/Object|||\
    newInputStream(Ljava/nio/channels/ReadableByteChannel;)Ljava/io/InputStream;,\
    newOutputStream(Ljava/nio/channels/WritableByteChannel;)Ljava/io/OutputStream;,\
    newChannel(Ljava/io/InputStream;)Ljava/nio/channels/ReadableByteChannel;,\
    newChannel(Ljava/io/OutputStream;)Ljava/nio/channels/WritableByteChannel;";

/// `java/io/Console`, whose static fields are set when it is registered.
pub const CONSOLE_CLASS: &'static str = "java/io/Console,java/lang/Object|||readLine()Ljava/lang/String;,\
    readLine(Ljava/lang/String;;[Ljava/lang/Object;)Ljava/lang/String;,\
    printf(Ljava/lang/String;[Ljava/lang/Object;)Ljava/io/Console;,\
    format(Ljava/lang/String;[Ljava/lang/Object;)Ljava/io/Console;,flush()V";

/// Classes registered by `bootstrap_java_nio` (part 2 of 3).
pub const JAVA_NIO_CLASSES_2: &'static str = "java/nio/file/OpenOption,java/lang/Object|||";

/// `java/nio/file/StandardOpenOption`, whose static fields are set when it is registered.
pub const OPEN_OPTION_CLASS: &'static str = "java/nio/file/StandardOpenOption,java/lang/Enum|java/nio/file/OpenOption|\
    name:Ljava/lang/String;,ordinal:I|name()Ljava/lang/String;,ordinal()I";

/// Classes registered by `bootstrap_java_nio` (part 3 of 3).
pub const JAVA_NIO_CLASSES_3: &'static str = "java/nio/file/CopyOption,java/lang/Object|||";

/// `jdk/internal/misc/Unsafe`, whose static fields are set when it is registered.
pub const UNSAFE_CLASS: &'static str = "jdk/internal/misc/Unsafe,java/lang/Object|||registerNatives()V,\
    getUnsafe()Ljdk/internal/misc/Unsafe;,arrayBaseOffset(Ljava/lang/Class;)I,\
    arrayIndexScale(Ljava/lang/Class;)I,addressSize()I,pageSize()I,\
    objectFieldOffset(Ljava/lang/reflect/Field;)J,\
    staticFieldOffset(Ljava/lang/reflect/Field;)J,\
    staticFieldBase(Ljava/lang/reflect/Field;)Ljava/lang/Object;,allocateMemory(J)J,\
    freeMemory(J)V,compareAndSetInt(Ljava/lang/Object;JII)Z,\
    compareAndSetLong(Ljava/lang/Object;JJJ)Z,\
    compareAndSetReference(Ljava/lang/Object;JLjava/lang/Object;Ljava/lang/Object;)Z,\
    compareAndSetObject(Ljava/lang/Object;JLjava/lang/Object;Ljava/lang/Object;)Z,\
    getReferenceVolatile(Ljava/lang/Object;J)Ljava/lang/Object;,\
    putReferenceVolatile(Ljava/lang/Object;JLjava/lang/Object;)V,\
    getIntVolatile(Ljava/lang/Object;J)I,putIntVolatile(Ljava/lang/Object;JI)V,storeFence()V,\
    loadFence()V,fullFence()V";

/// Classes registered by `bootstrap_java_util_concurrent`.
pub const JAVA_UTIL_CONCURRENT_CLASSES: &'static str = "java/util/concurrent/atomic/AtomicInteger,java/lang/Object||__value:I|<init>(I)V,get()I,\
    set(I)V,getAndSet(I)I,compareAndSet(II)Z,incrementAndGet()I,decrementAndGet()I,\
    getAndIncrement()I,getAndDecrement()I,addAndGet(I)I,getAndAdd(I)I\n\
    java/util/concurrent/atomic/AtomicLong,java/lang/Object||__value:J|<init>(J)V,get()J,\
    set(J)V,getAndSet(J)J,compareAndSet(JJ)Z,incrementAndGet()J,decrementAndGet()J,\
    addAndGet(J)J\n\
    java/util/concurrent/atomic/AtomicReference,java/lang/Object||__value:Ljava/lang/Object;|\
    <init>(Ljava/lang/Object;)V,get()Ljava/lang/Object;,set(Ljava/lang/Object;)V,\
    getAndSet(Ljava/lang/Object;)Ljava/lang/Object;,\
    compareAndSet(Ljava/lang/Object;Ljava/lang/Object;)Z\n\
    java/util/concurrent/atomic/LongAdder,java/lang/Object||__value:J|<init>()V,add(J)V,\
    sum()J,increment()V,decrement()V,reset()V\n\
    java/util/concurrent/atomic/DoubleAdder,java/lang/Object||__value:D|<init>()V,add(D)V,\
    sum()D,sumThenReset()D\n\
    java/util/concurrent/atomic/LongAccumulator,java/lang/Object|||\
    <init>(Ljava/util/function/LongBinaryOperator;J)V,get()J,reset()V,getThenReset()J,\
    accumulate(J)V\n\
    java/util/concurrent/atomic/DoubleAccumulator,java/lang/Object|||\
    <init>(Ljava/util/function/DoubleBinaryOperator;D)V,get()D,reset()V,getThenReset()D,\
    accumulate(D)V\n\
    java/util/concurrent/locks/ReentrantLock,java/lang/Object|java/util/concurrent/locks/Lock|\
    __held:I|<init>()V,<init>(Z)V,lock()V,unlock()V,tryLock()Z,isHeldByCurrentThread()Z,\
    getHoldCount()I\n\
    java/util/concurrent/locks/ReadWriteLock,java/lang/Object|||\
    readLock()Ljava/util/concurrent/locks/Lock;,writeLock()Ljava/util/concurrent/locks/Lock;\n\
    java/util/concurrent/locks/Lock|||lock()V,unlock()V,tryLock()Z,\
    newCondition()Ljava/util/concurrent/locks/Condition;\n\
    java/util/concurrent/locks/Condition|||await()V,signal()V,signalAll()V\n\
    java/util/concurrent/locks/StampedLock,java/lang/Object|||<init>()V,readLock()J,\
    writeLock()J,tryReadLock()J,tryWriteLock()J,unlockRead(J)V,unlockWrite(J)V,unlock(J)V,\
    tryConvertToReadLock(J)J,tryConvertToWriteLock(J)J,isReadLocked()Z,isWriteLocked()Z,\
    getReadLockCount()I,validate(J)Z\n\
    java/util/concurrent/locks/AbstractOwnableSynchronizer,java/lang/Object|||\
    setExclusiveOwnerThread(Ljava/lang/Thread;)V,getExclusiveOwnerThread()Ljava/lang/Thread;\n\
    java/util/concurrent/ConcurrentHashMap,java/lang/AbstractMap|||<init>()V,<init>(I)V,\
    <init>(IF)V,<init>(Ljava/util/Map;)V,size()I,isEmpty()Z,\
    get(Ljava/lang/Object;)Ljava/lang/Object;,\
    put(Ljava/lang/Object;Ljava/lang/Object;)Ljava/lang/Object;,\
    putIfAbsent(Ljava/lang/Object;Ljava/lang/Object;)Ljava/lang/Object;,\
    remove(Ljava/lang/Object;)Ljava/lang/Object;,containsKey(Ljava/lang/Object;)Z,\
    contains(Ljava/lang/Object;)Z,clear()V,keys()Ljava/util/Enumeration;,\
    elements()Ljava/util/Enumeration;\n\
    java/util/concurrent/ConcurrentLinkedQueue,java/lang/AbstractQueue|\
    java/util/concurrent/BlockingQueue||<init>()V,<init>(Ljava/util/Collection;)V,size()I,\
    isEmpty()Z,offer(Ljava/lang/Object;)Z,poll()Ljava/lang/Object;,peek()Ljava/lang/Object;,\
    remove(Ljava/lang/Object;)Z,contains(Ljava/lang/Object;)Z\n\
    java/util/concurrent/ConcurrentLinkedDeque,java/lang/AbstractQueue|||<init>()V,\
    <init>(Ljava/util/Collection;)V,addFirst(Ljava/lang/Object;)V,\
    addLast(Ljava/lang/Object;)V,offerFirst(Ljava/lang/Object;)Z,\
    offerLast(Ljava/lang/Object;)Z,pollFirst()Ljava/lang/Object;,pollLast()Ljava/lang/Object;,\
    peekFirst()Ljava/lang/Object;,peekLast()Ljava/lang/Object;,\
    removeFirst()Ljava/lang/Object;,removeLast()Ljava/lang/Object;,size()I,isEmpty()Z\n\
    java/util/concurrent/CopyOnWriteArrayList,java/lang/AbstractList|||<init>()V,\
    <init>([Ljava/lang/Object;)V,<init>(Ljava/util/Collection;)V,size()I,isEmpty()Z,\
    get(I)Ljava/lang/Object;,set(ILjava/lang/Object;)Ljava/lang/Object;,\
    add(ILjava/lang/Object;)V,add(Ljava/lang/Object;)Z,remove(Ljava/lang/Object;)Z,\
    remove(I)Ljava/lang/Object;,contains(Ljava/lang/Object;)Z,clear()V\n\
    java/util/concurrent/Semaphore,java/lang/Object||__permits:I|<init>(I)V,<init>(IZ)V,\
    acquire()V,acquire(I)V,release()V,release(I)V,tryAcquire()Z,tryAcquire(I)Z,\
    drainPermits()I,availablePermits()I\n\
    java/util/concurrent/CountDownLatch,java/lang/Object||__count:J|<init>(J)V,await()V,\
    await(JLjava/util/concurrent/TimeUnit;)Z,countDown()V,getCount()J\n\
    java/util/concurrent/CyclicBarrier,java/lang/Object||__parties:I|<init>(I)V,\
    <init>(ILjava/lang/Runnable;)V,await()I,await(JLjava/util/concurrent/TimeUnit;)I,reset()V,\
    getNumberWaiting()I,isBroken()Z\n\
    java/util/concurrent/Exchanger,java/lang/Object|||<init>()V,\
    exchange(Ljava/lang/Object;)Ljava/lang/Object;,\
    exchange(Ljava/lang/Object;JLjava/util/concurrent/TimeUnit;)Ljava/lang/Object;\n\
    java/util/concurrent/Phaser,java/lang/Object|||<init>()V,<init>(I)V,\
    <init>(Ljava/util/concurrent/Phaser;)V,register()I,arrive()I,arriveAndAwaitAdvance()I,\
    arriveAndDeregister()I,bulkRegister(I)I,getPhase()I,getRegisteredParties()I,\
    getArrivedParties()I,getUnarrivedParties()I,forceTermination()V\n\
    java/util/concurrent/ArrayBlockingQueue,java/lang/AbstractQueue|\
    java/util/concurrent/BlockingQueue||<init>(I)V,<init>(ILZ)V,\
    <init>(ILZLjava/util/Collection;)V,offer(Ljava/lang/Object;)Z,poll()Ljava/lang/Object;,\
    peek()Ljava/lang/Object;,size()I,isEmpty()Z,remainingCapacity()I,clear()V,\
    contains(Ljava/lang/Object;)Z\n\
    java/util/concurrent/LinkedBlockingQueue,java/lang/AbstractQueue|\
    java/util/concurrent/BlockingQueue||<init>()V,<init>(I)V,<init>(Ljava/util/Collection;)V,\
    offer(Ljava/lang/Object;)Z,offer(Ljava/lang/Object;JLjava/util/concurrent/TimeUnit;)Z,\
    poll()Ljava/lang/Object;,poll(JLjava/util/concurrent/TimeUnit;)Ljava/lang/Object;,\
    take()Ljava/lang/Object;,peek()Ljava/lang/Object;,size()I,isEmpty()Z,remainingCapacity()I,\
    clear()V,contains(Ljava/lang/Object;)Z\n\
    java/util/concurrent/LinkedBlockingDeque,java/lang/AbstractDeque|\
    java/util/concurrent/BlockingDeque||<init>()V,<init>(I)V,<init>(Ljava/util/Collection;)V,\
    offerFirst(Ljava/lang/Object;)Z,offerLast(Ljava/lang/Object;)Z,offer(Ljava/lang/Object;)Z,\
    offer(Ljava/lang/Object;JLjava/util/concurrent/TimeUnit;)Z,pollFirst()Ljava/lang/Object;,\
    pollLast()Ljava/lang/Object;,poll()Ljava/lang/Object;,\
    poll(JLjava/util/concurrent/TimeUnit;)Ljava/lang/Object;,takeFirst()Ljava/lang/Object;,\
    takeLast()Ljava/lang/Object;,peekFirst()Ljava/lang/Object;,peekLast()Ljava/lang/Object;,\
    size()I,isEmpty()Z,clear()V,contains(Ljava/lang/Object;)Z\n\
    java/util/concurrent/SynchronousQueue,java/lang/AbstractQueue|\
    java/util/concurrent/BlockingQueue||<init>()V,<init>(Z)V,offer(Ljava/lang/Object;)Z,\
    offer(Ljava/lang/Object;JLjava/util/concurrent/TimeUnit;)Z,poll()Ljava/lang/Object;,\
    poll(JLjava/util/concurrent/TimeUnit;)Ljava/lang/Object;,isEmpty()Z,size()I\n\
    java/util/concurrent/PriorityBlockingQueue,java/lang/AbstractQueue|\
    java/util/concurrent/BlockingQueue||<init>()V,<init>(I)V,<init>(Ljava/util/Collection;)V,\
    <init>(ILjava/util/Comparator;)V,offer(Ljava/lang/Object;)Z,\
    offer(Ljava/lang/Object;JLjava/util/concurrent/TimeUnit;)Z,poll()Ljava/lang/Object;,\
    poll(JLjava/util/concurrent/TimeUnit;)Ljava/lang/Object;,take()Ljava/lang/Object;,\
    peek()Ljava/lang/Object;,size()I,isEmpty()Z,clear()V,contains(Ljava/lang/Object;)Z\n\
    java/util/concurrent/DelayQueue,java/lang/AbstractQueue|\
    java/util/concurrent/BlockingQueue||<init>()V,<init>(Ljava/util/Collection;)V,\
    offer(Ljava/lang/Object;)Z,offer(Ljava/lang/Object;JLjava/util/concurrent/TimeUnit;)Z,\
    poll()Ljava/lang/Object;,poll(JLjava/util/concurrent/TimeUnit;)Ljava/lang/Object;,\
    take()Ljava/lang/Object;,peek()Ljava/lang/Object;,size()I,isEmpty()Z,clear()V,\
    contains(Ljava/lang/Object;)Z\n\
    java/util/concurrent/BlockingQueue|||put(Ljava/lang/Object;)V,offer(Ljava/lang/Object;)Z,\
    offer(Ljava/lang/Object;JLjava/util/concurrent/TimeUnit;)Z,take()Ljava/lang/Object;,\
    poll(JLjava/util/concurrent/TimeUnit;)Ljava/lang/Object;\n\
    java/util/concurrent/BlockingDeque|||\n\
    java/util/concurrent/ExecutorService|java/util/concurrent/Executor||shutdown()V,\
    shutdownNow()Ljava/util/List;,isShutdown()Z,isTerminated()Z,\
    awaitTermination(JLjava/util/concurrent/TimeUnit;)Z,\
    submit(Ljava/lang/Runnable;)Ljava/util/concurrent/Future;,\
    submit(Ljava/lang/Runnable;Ljava/lang/Object;)Ljava/util/concurrent/Future;,\
    submit(Ljava/util/concurrent/Callable;)Ljava/util/concurrent/Future;\n\
    java/util/concurrent/Executor|||execute(Ljava/lang/Runnable;)V\n\
    java/util/concurrent/ThreadPoolExecutor,java/util/concurrent/AbstractExecutorService|||\
    <init>(ILjava/util/concurrent/TimeUnit;Ljava/util/concurrent/BlockingQueue;)V,\
    <init>(IIJLjava/util/concurrent/TimeUnit;Ljava/util/concurrent/BlockingQueue;)V,\
    <init>(IIJLjava/util/concurrent/TimeUnit;Ljava/util/concurrent/BlockingQueue;Ljava/lang/ThreadFactory;)V,\
    <init>(IIJLjava/util/concurrent/TimeUnit;Ljava/util/concurrent/BlockingQueue;Ljava/util/concurrent/RejectedExecutionHandler;)V,\
    <init>(IIJLjava/util/concurrent/TimeUnit;Ljava/util/concurrent/BlockingQueue;Ljava/lang/ThreadFactory;Ljava/util/concurrent/RejectedExecutionHandler;)V,\
    execute(Ljava/lang/Runnable;)V,shutdown()V,shutdownNow()Ljava/util/List;,isShutdown()Z,\
    isTerminated()Z,isTerminating()Z,awaitTermination(JLjava/util/concurrent/TimeUnit;)Z,\
    submit(Ljava/lang/Runnable;)Ljava/util/concurrent/Future;,getPoolSize()I,\
    getActiveCount()I,getTaskCount()J,getCompletedTaskCount()J,remove(Ljava/lang/Runnable;)Z,\
    purge()V\n\
    java/util/concurrent/AbstractExecutorService,java/lang/Object|\
    java/util/concurrent/ExecutorService||\
    submit(Ljava/lang/Runnable;)Ljava/util/concurrent/Future;,\
    submit(Ljava/lang/Runnable;Ljava/lang/Object;)Ljava/util/concurrent/Future;,\
    submit(Ljava/util/concurrent/Callable;)Ljava/util/concurrent/Future;,\
    invokeAll(Ljava/util/Collection;)Ljava/util/List;,\
    invokeAll(Ljava/util/Collection;JLjava/util/concurrent/TimeUnit;)Ljava/util/List;,\
    invokeAny(Ljava/util/Collection;)Ljava/lang/Object;,\
    invokeAny(Ljava/util/Collection;JLjava/util/concurrent/TimeUnit;)Ljava/lang/Object;\n\
    java/util/concurrent/Executors,java/lang/Object|||\
    newSingleThreadExecutor()Ljava/util/concurrent/ExecutorService;,\
    newFixedThreadPool(I)Ljava/util/concurrent/ExecutorService;,\
    newCachedThreadPool()Ljava/util/concurrent/ExecutorService;,\
    newSingleThreadScheduledExecutor()Ljava/util/concurrent/ScheduledExecutorService;,\
    newScheduledThreadPool(I)Ljava/util/concurrent/ScheduledExecutorService;\n\
    java/util/concurrent/ScheduledExecutorService|java/util/concurrent/ExecutorService||\
    schedule(Ljava/lang/Runnable;JLjava/util/concurrent/TimeUnit;)Ljava/util/concurrent/ScheduledFuture;,\
    schedule(Ljava/util/concurrent/Callable;JLjava/util/concurrent/TimeUnit;)Ljava/util/concurrent/ScheduledFuture;,\
    scheduleAtFixedRate(Ljava/lang/Runnable;JJLjava/util/concurrent/TimeUnit;)Ljava/util/concurrent/ScheduledFuture;,\
    scheduleWithFixedDelay(Ljava/lang/Runnable;JJLjava/util/concurrent/TimeUnit;)Ljava/util/concurrent/ScheduledFuture;\n\
    java/util/concurrent/ScheduledFuture|java/util/concurrent/Delayed||\
    getDelay(Ljava/util/concurrent/TimeUnit;)J\n\
    java/util/concurrent/Delayed|java/lang/Comparable||\
    getDelay(Ljava/util/concurrent/TimeUnit;)J\n\
    java/util/concurrent/ForkJoinPool,java/lang/Object|||<init>(I)V,\
    <init>(ILjava/util/concurrent/ForkJoinPool$Factory;)V,\
    <init>(ILjava/util/concurrent/ForkJoinPool$Factory;Ljava/util/concurrent/RejectedExecutionHandler;Z)V,\
    submit(Ljava/lang/Runnable;)Ljava/util/concurrent/Future;,\
    submit(Ljava/util/concurrent/ForkJoinTask;)Ljava/util/concurrent/ForkJoinTask;,\
    invoke(Ljava/util/concurrent/ForkJoinTask;)Ljava/lang/Object;,\
    execute(Ljava/lang/Runnable;)V,shutdown()V,shutdownNow()Ljava/util/List;,isShutdown()Z,\
    isTerminated()Z,isTerminating()Z,awaitTermination(JLjava/util/concurrent/TimeUnit;)Z,\
    getPoolSize()I,getActiveThreadCount()I,getStealCount()J,getQueuedTaskCount()J,\
    getQueuedSubmissionCount()I,hasQueuedSubmissions()Z,\
    commonPool()Ljava/util/concurrent/ForkJoinPool;\n\
    java/util/concurrent/ForkJoinTask,java/lang/Object|java/util/concurrent/Future||\
    fork()Ljava/util/concurrent/ForkJoinTask;,join()Ljava/lang/Object;,\
    invoke()Ljava/lang/Object;,cancel(Z)Z,isDone()Z,isCompletedNormally()Z,\
    isCompletedAbnormally()Z,isCancelled()Z,quietlyJoin()V,quietlyFork()V,\
    get()Ljava/lang/Object;,get(JLjava/util/concurrent/TimeUnit;)Ljava/lang/Object;\n\
    java/util/concurrent/CountedCompleter,java/util/concurrent/ForkJoinTask|||compute()V,\
    onCompletion(Ljava/util/concurrent/CountedCompleter;)V,getRawResult()Ljava/lang/Object;\n\
    java/util/concurrent/RecursiveTask,java/util/concurrent/ForkJoinTask|||\
    compute()Ljava/lang/Object;,getRawResult()Ljava/lang/Object;\n\
    java/util/concurrent/RecursiveAction,java/util/concurrent/ForkJoinTask|||compute()V,\
    getRawResult()Ljava/lang/Object;\n\
    java/util/concurrent/Future|||get()Ljava/lang/Object;,\
    get(JLjava/util/concurrent/TimeUnit;)Ljava/lang/Object;,isDone()Z,isCancelled()Z,\
    cancel(Z)Z\n\
    java/util/concurrent/CompletableFuture,java/lang/Object|java/util/concurrent/Future,\
    java/util/concurrent/CompletionStage||<init>()V,get()Ljava/lang/Object;,\
    get(JLjava/util/concurrent/TimeUnit;)Ljava/lang/Object;,isDone()Z,isCancelled()Z,\
    cancel(Z)Z,complete(Ljava/lang/Object;)Z,\
    completedFuture(Ljava/lang/Object;)Ljava/util/concurrent/CompletableFuture;,\
    runAsync(Ljava/lang/Runnable;)Ljava/util/concurrent/CompletableFuture;,\
    supplyAsync(Ljava/util/function/Supplier;)Ljava/util/concurrent/CompletableFuture;,\
    thenApply(Ljava/util/function/Function;)Ljava/util/concurrent/CompletableFuture;,\
    thenApplyAsync(Ljava/util/function/Function;)Ljava/util/concurrent/CompletableFuture;,\
    thenAccept(Ljava/util/function/Consumer;)Ljava/util/concurrent/CompletableFuture;,\
    thenRun(Ljava/lang/Runnable;)Ljava/util/concurrent/CompletableFuture;,\
    join()Ljava/lang/Object;\n\
    java/util/concurrent/CompletionStage|||\
    thenApply(Ljava/util/function/Function;)Ljava/util/concurrent/CompletionStage;,\
    thenApplyAsync(Ljava/util/function/Function;)Ljava/util/concurrent/CompletionStage;,\
    thenAccept(Ljava/util/function/Consumer;)Ljava/util/concurrent/CompletionStage;,\
    thenAcceptAsync(Ljava/util/function/Consumer;)Ljava/util/concurrent/CompletionStage;,\
    thenRun(Ljava/lang/Runnable;)Ljava/util/concurrent/CompletionStage;,\
    thenRunAsync(Ljava/lang/Runnable;)Ljava/util/concurrent/CompletionStage;,\
    thenCombine(Ljava/util/concurrent/CompletionStage;Ljava/util/function/BiFunction;)Ljava/util/concurrent/CompletionStage;,\
    thenCompose(Ljava/util/function/Function;)Ljava/util/concurrent/CompletionStage;,\
    exceptionally(Ljava/util/function/Function;)Ljava/util/concurrent/CompletionStage;,\
    whenComplete(Ljava/util/function/BiConsumer;)Ljava/util/concurrent/CompletionStage;,\
    handle(Ljava/util/function/BiFunction;)Ljava/util/concurrent/CompletionStage;\n\
    java/util/concurrent/TimeUnit,java/lang/Enum|||toNanos(J)J,toMicros(J)J,toMillis(J)J,\
    toSeconds(J)J,sleep(J)V\n\
    java/util/concurrent/ConcurrentSkipListMap,java/lang/AbstractMap|||<init>()V,\
    <init>(Ljava/util/Comparator;)V,<init>(Ljava/util/Map;)V,size()I,isEmpty()Z,\
    get(Ljava/lang/Object;)Ljava/lang/Object;,\
    put(Ljava/lang/Object;Ljava/lang/Object;)Ljava/lang/Object;,\
    remove(Ljava/lang/Object;)Ljava/lang/Object;,containsKey(Ljava/lang/Object;)Z,clear()V,\
    firstKey()Ljava/lang/Object;,lastKey()Ljava/lang/Object;\n\
    java/util/concurrent/ConcurrentSkipListSet,java/lang/AbstractSet|||<init>()V,\
    <init>(Ljava/util/Comparator;)V,<init>(Ljava/util/Collection;)V,\
    <init>(Ljava/util/SortedSet;)V,size()I,isEmpty()Z,add(Ljava/lang/Object;)Z,\
    remove(Ljava/lang/Object;)Z,contains(Ljava/lang/Object;)Z,clear()V,\
    first()Ljava/lang/Object;,last()Ljava/lang/Object;\n\
    java/util/concurrent/ConcurrentHashMap$KeySetView,java/lang/AbstractSet|||\
    <init>(Ljava/util/concurrent/ConcurrentHashMap;Ljava/lang/Object;)V,size()I,isEmpty()Z,\
    contains(Ljava/lang/Object;)Z,add(Ljava/lang/Object;)Z,remove(Ljava/lang/Object;)Z,\
    getMap()Ljava/util/concurrent/ConcurrentHashMap;\n\
    java/util/concurrent/SubmissionPublisher,java/lang/Object|\
    java/util/concurrent/Flow$Publisher||<init>()V,\
    <init>(Ljava/util/concurrent/ExecutorService;I)V,submit(Ljava/lang/Object;)I,\
    offer(Ljava/lang/Object;Ljava/util/concurrent/TimeUnit;)I,close()V,isClosed()Z,\
    hasSubscribers()Z,getSubscriberCount()I\n\
    java/util/concurrent/Flow$Subscriber|||onNext(Ljava/lang/Object;)V,\
    onError(Ljava/lang/Throwable;)V,onComplete()V,\
    onSubscribe(Ljava/util/concurrent/Flow$Subscription;)V\n\
    java/util/concurrent/Flow$Subscription|||request(J)V,cancel()V\n\
    java/util/concurrent/Flow$Processor|java/util/concurrent/Flow$Subscriber,\
    java/util/concurrent/Flow$Publisher||onNext(Ljava/lang/Object;)V,\
    onError(Ljava/lang/Throwable;)V,onComplete()V,\
    onSubscribe(Ljava/util/concurrent/Flow$Subscription;)V\n\
    java/util/concurrent/Flow$Publisher|||subscribe(Ljava/util/concurrent/Flow$Subscriber;)V\n\
    java/util/concurrent/Callable|||call()Ljava/lang/Object;\n\
    java/util/concurrent/ThreadFactory|||newThread(Ljava/lang/Runnable;)Ljava/lang/Thread;\n\
    java/util/concurrent/RejectedExecutionHandler|||\
    rejectedExecution(Ljava/lang/Runnable;Ljava/util/concurrent/ThreadPoolExecutor;)V\n\
    java/util/concurrent/atomic/VarHandle,java/lang/Object|||\
    get(Ljava/lang/Object;)Ljava/lang/Object;,set(Ljava/lang/Object;Ljava/lang/Object;)V,\
    compareAndSet(Ljava/lang/Object;Ljava/lang/Object;Ljava/lang/Object;)Z,\
    weakCompareAndSet(Ljava/lang/Object;Ljava/lang/Object;Ljava/lang/Object;)Z,\
    getAndSet(Ljava/lang/Object;Ljava/lang/Object;)Ljava/lang/Object;";

/// Classes registered by `bootstrap_java_lang_reflect`.
pub const JAVA_LANG_REFLECT_CLASSES: &'static str = "java/lang/Class,java/lang/Object||__name:Ljava/lang/String;|\
    getDeclaredMethod(Ljava/lang/String;[Ljava/lang/Class;)Ljava/lang/reflect/Method;,\
    getDeclaredMethods()[Ljava/lang/reflect/Method;,\
    getDeclaredField(Ljava/lang/String;)Ljava/lang/reflect/Field;,\
    getDeclaredFields()[Ljava/lang/reflect/Field;,\
    getDeclaredConstructor([Ljava/lang/Class;)Ljava/lang/reflect/Constructor;,\
    getDeclaredConstructors()[Ljava/lang/reflect/Constructor;,\
    getSuperclass()Ljava/lang/Class;,getInterfaces()[Ljava/lang/Class;,getModifiers()I,\
    getComponentType()Ljava/lang/Class;,desiredAssertionStatus()Z,getName()Ljava/lang/String;,\
    getSimpleName()Ljava/lang/String;,isArray()Z,isInterface()Z,isPrimitive()Z,isHidden()Z,\
    toString()Ljava/lang/String;\n\
    java/lang/reflect/Method,java/lang/Object||__declaring_class:Ljava/lang/Class;,\
    __name:Ljava/lang/String;,__descriptor:Ljava/lang/String;,\
    __parameter_types:[Ljava/lang/Class;,__return_type:Ljava/lang/Class;,__modifiers:I|\
    <init>(Ljava/lang/Class;Ljava/lang/String;Ljava/lang/String;[Ljava/lang/Class;)V,\
    getName()Ljava/lang/String;,getReturnType()Ljava/lang/Class;,\
    getParameterTypes()[Ljava/lang/Class;,getDeclaringClass()Ljava/lang/Class;,\
    getModifiers()I,invoke(Ljava/lang/Object;[Ljava/lang/Object;)Ljava/lang/Object;,\
    equals(Ljava/lang/Object;)Z,hashCode()I,toString()Ljava/lang/String;\n\
    java/lang/reflect/Field,java/lang/Object||__declaring_class:Ljava/lang/Class;,\
    __name:Ljava/lang/String;,__type:Ljava/lang/Class;,__descriptor:Ljava/lang/String;,\
    __modifiers:I,__slot:I|\
    <init>(Ljava/lang/Class;Ljava/lang/String;Ljava/lang/String;Ljava/lang/Class;I)V,\
    getName()Ljava/lang/String;,getType()Ljava/lang/Class;,\
    getDeclaringClass()Ljava/lang/Class;,getModifiers()I,\
    get(Ljava/lang/Object;)Ljava/lang/Object;,set(Ljava/lang/Object;Ljava/lang/Object;)V,\
    getInt(Ljava/lang/Object;)I,setInt(Ljava/lang/Object;I)V,getLong(Ljava/lang/Object;)J,\
    setLong(Ljava/lang/Object;J)V,getObject(Ljava/lang/Object;)Ljava/lang/Object;,\
    setObject(Ljava/lang/Object;Ljava/lang/Object;)V,equals(Ljava/lang/Object;)Z,hashCode()I,\
    toString()Ljava/lang/String;\n\
    java/lang/reflect/Constructor,java/lang/Object||__declaring_class:Ljava/lang/Class;,\
    __parameter_types:[Ljava/lang/Class;,__modifiers:I,__slot:I|<init>([Ljava/lang/Class;)V,\
    getParameterTypes()[Ljava/lang/Class;,getDeclaringClass()Ljava/lang/Class;,\
    getModifiers()I,newInstance([Ljava/lang/Object;)Ljava/lang/Object;,\
    equals(Ljava/lang/Object;)Z,hashCode()I,toString()Ljava/lang/String;\n\
    java/lang/reflect/AccessibleObject,java/lang/Object|||setAccessible(Z)V,\
    canAccess(Ljava/lang/Object;)Z\n\
    java/lang/reflect/Modifier,java/lang/Object|||isPublic(I)Z,isPrivate(I)Z,isProtected(I)Z,\
    isStatic(I)Z,isFinal(I)Z,isSynchronized(I)Z,toString(I)Ljava/lang/String;";

/// Classes registered by `bootstrap_java_util_regex`.
pub const JAVA_UTIL_REGEX_CLASSES: &'static str = "java/util/regex/Pattern,java/lang/Object||__regex:Ljava/lang/String;,__flags:I|\
    compile(Ljava/lang/String;)Ljava/util/regex/Pattern;,\
    compile(Ljava/lang/String;I)Ljava/util/regex/Pattern;,\
    matches(Ljava/lang/String;Ljava/lang/CharSequence;)Z,pattern()Ljava/lang/String;,\
    matcher(Ljava/lang/CharSequence;)Ljava/util/regex/Matcher;,\
    split(Ljava/lang/CharSequence;)[Ljava/lang/String;,\
    split(Ljava/lang/CharSequence;I)[Ljava/lang/String;\n\
    java/util/regex/Matcher,java/lang/Object||__pattern:Ljava/util/regex/Pattern;,\
    __input:Ljava/lang/CharSequence;,__match_start:I,__match_end:I,__last_match_start:I,\
    __group_count:I|<init>(Ljava/util/regex/Pattern;Ljava/lang/CharSequence;)V,matches()Z,\
    find()Z,find(I)Z,lookingAt()Z,reset()Ljava/util/regex/Matcher;,\
    reset(Ljava/lang/CharSequence;)Ljava/util/regex/Matcher;,group(I)Ljava/lang/String;,\
    group()Ljava/lang/String;,groupCount()I,start()I,start(I)I,end()I,end(I)I,\
    replaceAll(Ljava/lang/String;)Ljava/lang/String;,\
    replaceFirst(Ljava/lang/String;)Ljava/lang/String;";

/// Classes registered by `bootstrap_java_text`.
pub const JAVA_TEXT_CLASSES: &'static str = "java/text/NumberFormat,java/lang/Object|||format(I)Ljava/lang/String;,\
    format(J)Ljava/lang/String;,format(F)Ljava/lang/String;,format(D)Ljava/lang/String;,\
    format(Ljava/lang/Object;)Ljava/lang/String;\n\
    java/text/DecimalFormat,java/text/NumberFormat||__pattern:Ljava/lang/String;|\
    <init>(Ljava/lang/String;)V,applyPattern(Ljava/lang/String;)V,format(D)Ljava/lang/String;,\
    format(I)Ljava/lang/String;,format(J)Ljava/lang/String;,setMaximumFractionDigits(I)V,\
    setMinimumFractionDigits(I)V,setMaximumIntegerDigits(I)V,setMinimumIntegerDigits(I)V\n\
    java/text/MessageFormat,java/lang/Object||__pattern:Ljava/lang/String;|\
    <init>(Ljava/lang/String;)V,format(Ljava/lang/Object;)Ljava/lang/String;";

/// Classes registered by `bootstrap_java_time` (part 1 of 3).
pub const JAVA_TIME_CLASSES_1: &'static str = "java/time/Instant,java/lang/Object||__epoch_second:J,__nano:I|now()Ljava/time/Instant;,\
    ofEpochSecond(J)Ljava/time/Instant;,ofEpochSecond(JJ)Ljava/time/Instant;,\
    ofEpochMilli(J)Ljava/time/Instant;,getEpochSecond()J,getNano()I,toEpochMilli()J,\
    isAfter(Ljava/time/Instant;)Z,isBefore(Ljava/time/Instant;)Z,\
    plusSeconds(J)Ljava/time/Instant;,plusMillis(J)Ljava/time/Instant;,\
    plusNanos(J)Ljava/time/Instant;,minusSeconds(J)Ljava/time/Instant;,\
    minusMillis(J)Ljava/time/Instant;,compareTo(Ljava/time/Instant;)I,\
    equals(Ljava/lang/Object;)Z,hashCode()I,toString()Ljava/lang/String;\n\
    java/time/Duration,java/lang/Object||__seconds:J,__nano:I|\
    ofSeconds(J)Ljava/time/Duration;,ofMillis(J)Ljava/time/Duration;,\
    ofNanos(J)Ljava/time/Duration;,getSeconds()J,getNano()I,toMillis()J,toMicros()J,\
    isNegative()Z,isZero()Z,plus(Ljava/time/Duration;)Ljava/time/Duration;,\
    plusSeconds(J)Ljava/time/Duration;,minus(Ljava/time/Duration;)Ljava/time/Duration;,\
    compareTo(Ljava/time/Duration;)I,equals(Ljava/lang/Object;)Z,hashCode()I,\
    toString()Ljava/lang/String;\n\
    java/time/LocalDate,java/lang/Object||__year:I,__month:I,__day:I|\
    now()Ljava/time/LocalDate;,of(III)Ljava/time/LocalDate;,getYear()I,getMonthValue()I,\
    getDayOfMonth()I,getDayOfWeek()Ljava/time/DayOfWeek;,lengthOfMonth()I,lengthOfYear()I,\
    isLeapYear()Z,plusDays(J)Ljava/time/LocalDate;,minusDays(J)Ljava/time/LocalDate;,\
    plusYears(J)Ljava/time/LocalDate;,compareTo(Ljava/time/LocalDate;)I,\
    equals(Ljava/lang/Object;)Z,hashCode()I,toString()Ljava/lang/String;\n\
    java/time/LocalDateTime,java/lang/Object||__year:I,__month:I,__day:I,__hour:I,__minute:I,\
    __second:I,__nano:I|now()Ljava/time/LocalDateTime;,of(IIIIIII)Ljava/time/LocalDateTime;,\
    getYear()I,getMonthValue()I,getDayOfMonth()I,getHour()I,getMinute()I,getSecond()I,\
    getNano()I,toLocalDate()Ljava/time/LocalDate;,toLocalTime()Ljava/time/LocalTime;,\
    plusSeconds(J)Ljava/time/LocalDateTime;,plusMinutes(J)Ljava/time/LocalDateTime;,\
    plusHours(J)Ljava/time/LocalDateTime;,plusDays(J)Ljava/time/LocalDateTime;,\
    compareTo(Ljava/time/LocalDateTime;)I,equals(Ljava/lang/Object;)Z,hashCode()I,\
    toString()Ljava/lang/String;\n\
    java/time/LocalTime,java/lang/Object||__hour:I,__minute:I,__second:I,__nano:I|\
    now()Ljava/time/LocalTime;,of(II)Ljava/time/LocalTime;,of(III)Ljava/time/LocalTime;,\
    getHour()I,getMinute()I,getSecond()I,getNano()I,toSecondOfDay()I,\
    plusHours(J)Ljava/time/LocalTime;,plusMinutes(J)Ljava/time/LocalTime;,\
    compareTo(Ljava/time/LocalTime;)I,equals(Ljava/lang/Object;)Z,hashCode()I,\
    toString()Ljava/lang/String;";

/// `java/time/DayOfWeek`, whose static fields are set when it is registered.
pub const DAY_OF_WEEK_CLASS: &'static str = "java/time/DayOfWeek,java/lang/Object||__value:I|getValue()I,toString()Ljava/lang/String;";

/// Classes registered by `bootstrap_java_time` (part 2 of 3).
pub const JAVA_TIME_CLASSES_2: &'static str = "java/time/ZonedDateTime,java/lang/Object||__year:I,__month:I,__day:I,__hour:I,__minute:I,\
    __second:I,__nano:I,__zone_id:Ljava/lang/String;|now()Ljava/time/ZonedDateTime;,\
    now(Ljava/time/ZoneId;)Ljava/time/ZonedDateTime;,getYear()I,getMonthValue()I,\
    getDayOfMonth()I,getHour()I,getMinute()I,getSecond()I,getNano()I,\
    getZone()Ljava/time/ZoneId;,toLocalDateTime()Ljava/time/LocalDateTime;,\
    toInstant()Ljava/time/Instant;,toString()Ljava/lang/String;";

/// `java/time/ZoneId`, whose static fields are set when it is registered.
pub const ZONE_ID_CLASS: &'static str = "java/time/ZoneId,java/lang/Object||__id:Ljava/lang/String;|\
    systemDefault()Ljava/time/ZoneId;,of(Ljava/lang/String;)Ljava/time/ZoneId;,\
    getId()Ljava/lang/String;,toString()Ljava/lang/String;";

/// Classes registered by `bootstrap_java_time` (part 3 of 3).
pub const JAVA_TIME_CLASSES_3: &'static str = "java/time/Clock,java/lang/Object||__millis:J,__zone_id:Ljava/lang/String;|\
    systemUTC()Ljava/time/Clock;,systemDefaultZone()Ljava/time/Clock;,millis()J,\
    instant()Ljava/time/Instant;,getZone()Ljava/time/ZoneId;";

} // verus!
