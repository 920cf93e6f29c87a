//! The answers of the `java.util.concurrent` natives that, in a
//! single-threaded interpreter, do no work: locks are always free, waits
//! return at once, and the concurrent collections, futures and executors
//! are inert.

use vstd::prelude::*;
use crate::chars::eq_str;
use crate::model::{Reference, Value};

verus! {

/// `LongAdder`.
pub open spec fn long_adder_stub(n: Seq<char>, d: Seq<char>) -> Option<Option<Value>> {
    if n == "<init>"@ && d == "()V"@ {
        Some(None)
    } else {
        None
    }
}

fn long_adder_answer(n: &[char], d: &[char]) -> (res: Option<Option<Value>>)
    ensures
        res == long_adder_stub(n@, d@),
{
    if eq_str(n, "<init>") && eq_str(d, "()V") {
        return Some(None);
    }
    None
}

/// `ReentrantLock`.
pub open spec fn reentrant_lock_stub(n: Seq<char>, d: Seq<char>) -> Option<Option<Value>> {
    if n == "lock"@ && d == "()V"@ {
        Some(None)
    } else if n == "unlock"@ && d == "()V"@ {
        Some(None)
    } else if n == "tryLock"@ && d == "()Z"@ {
        Some(Some(Value::Int(1)))
    } else if n == "isHeldByCurrentThread"@ && d == "()Z"@ {
        Some(Some(Value::Int(0)))
    } else if n == "getHoldCount"@ && d == "()I"@ {
        Some(Some(Value::Int(0)))
    } else if n == "<init>"@ && d == "()V"@ {
        Some(None)
    } else if n == "<init>"@ && d == "(Z)V"@ {
        Some(None)
    } else {
        None
    }
}

fn reentrant_lock_answer(n: &[char], d: &[char]) -> (res: Option<Option<Value>>)
    ensures
        res == reentrant_lock_stub(n@, d@),
{
    if eq_str(n, "lock") && eq_str(d, "()V") {
        return Some(None);
    }
    if eq_str(n, "unlock") && eq_str(d, "()V") {
        return Some(None);
    }
    if eq_str(n, "tryLock") && eq_str(d, "()Z") {
        return Some(Some(Value::Int(1)));
    }
    if eq_str(n, "isHeldByCurrentThread") && eq_str(d, "()Z") {
        return Some(Some(Value::Int(0)));
    }
    if eq_str(n, "getHoldCount") && eq_str(d, "()I") {
        return Some(Some(Value::Int(0)));
    }
    if eq_str(n, "<init>") && eq_str(d, "()V") {
        return Some(None);
    }
    if eq_str(n, "<init>") && eq_str(d, "(Z)V") {
        return Some(None);
    }
    None
}

/// `ReadWriteLock`.
pub open spec fn read_write_lock_stub(n: Seq<char>, d: Seq<char>) -> Option<Option<Value>> {
    if n == "readLock"@ && d == "()Ljava/util/concurrent/locks/Lock;"@ {
        Some(Some(Value::Reference(Reference::Null)))
    } else if n == "writeLock"@ && d == "()Ljava/util/concurrent/locks/Lock;"@ {
        Some(Some(Value::Reference(Reference::Null)))
    } else {
        None
    }
}

fn read_write_lock_answer(n: &[char], d: &[char]) -> (res: Option<Option<Value>>)
    ensures
        res == read_write_lock_stub(n@, d@),
{
    if eq_str(n, "readLock") && eq_str(d, "()Ljava/util/concurrent/locks/Lock;") {
        return Some(Some(Value::Reference(Reference::Null)));
    }
    if eq_str(n, "writeLock") && eq_str(d, "()Ljava/util/concurrent/locks/Lock;") {
        return Some(Some(Value::Reference(Reference::Null)));
    }
    None
}

/// `Lock`.
pub open spec fn lock_stub(n: Seq<char>, d: Seq<char>) -> Option<Option<Value>> {
    if n == "lock"@ && d == "()V"@ {
        Some(None)
    } else if n == "unlock"@ && d == "()V"@ {
        Some(None)
    } else if n == "tryLock"@ && d == "()Z"@ {
        Some(Some(Value::Int(1)))
    } else if n == "newCondition"@ && d == "()Ljava/util/concurrent/locks/Condition;"@ {
        Some(Some(Value::Reference(Reference::Null)))
    } else {
        None
    }
}

fn lock_answer(n: &[char], d: &[char]) -> (res: Option<Option<Value>>)
    ensures
        res == lock_stub(n@, d@),
{
    if eq_str(n, "lock") && eq_str(d, "()V") {
        return Some(None);
    }
    if eq_str(n, "unlock") && eq_str(d, "()V") {
        return Some(None);
    }
    if eq_str(n, "tryLock") && eq_str(d, "()Z") {
        return Some(Some(Value::Int(1)));
    }
    if eq_str(n, "newCondition") && eq_str(d, "()Ljava/util/concurrent/locks/Condition;") {
        return Some(Some(Value::Reference(Reference::Null)));
    }
    None
}

/// `AbstractOwnableSynchronizer`.
pub open spec fn abstract_ownable_synchronizer_stub(n: Seq<char>, d: Seq<char>) -> Option<Option<Value>> {
    if n == "setExclusiveOwnerThread"@ && d == "(Ljava/lang/Thread;)V"@ {
        Some(None)
    } else if n == "getExclusiveOwnerThread"@ && d == "()Ljava/lang/Thread;"@ {
        Some(Some(Value::Reference(Reference::Null)))
    } else {
        None
    }
}

fn abstract_ownable_synchronizer_answer(n: &[char], d: &[char]) -> (res: Option<Option<Value>>)
    ensures
        res == abstract_ownable_synchronizer_stub(n@, d@),
{
    if eq_str(n, "setExclusiveOwnerThread") && eq_str(d, "(Ljava/lang/Thread;)V") {
        return Some(None);
    }
    if eq_str(n, "getExclusiveOwnerThread") && eq_str(d, "()Ljava/lang/Thread;") {
        return Some(Some(Value::Reference(Reference::Null)));
    }
    None
}

/// `Condition`.
pub open spec fn condition_stub(n: Seq<char>, d: Seq<char>) -> Option<Option<Value>> {
    if n == "await"@ && d == "()V"@ {
        Some(None)
    } else if n == "signal"@ && d == "()V"@ {
        Some(None)
    } else if n == "signalAll"@ && d == "()V"@ {
        Some(None)
    } else {
        None
    }
}

fn condition_answer(n: &[char], d: &[char]) -> (res: Option<Option<Value>>)
    ensures
        res == condition_stub(n@, d@),
{
    if eq_str(n, "await") && eq_str(d, "()V") {
        return Some(None);
    }
    if eq_str(n, "signal") && eq_str(d, "()V") {
        return Some(None);
    }
    if eq_str(n, "signalAll") && eq_str(d, "()V") {
        return Some(None);
    }
    None
}

/// `Semaphore`.
pub open spec fn semaphore_stub(n: Seq<char>, d: Seq<char>) -> Option<Option<Value>> {
    if n == "acquire"@ && d == "()V"@ {
        Some(None)
    } else if n == "acquire"@ && d == "(I)V"@ {
        Some(None)
    } else if n == "release"@ && d == "()V"@ {
        Some(None)
    } else if n == "release"@ && d == "(I)V"@ {
        Some(None)
    } else if n == "tryAcquire"@ && d == "()Z"@ {
        Some(Some(Value::Int(1)))
    } else if n == "tryAcquire"@ && d == "(I)Z"@ {
        Some(Some(Value::Int(1)))
    } else if n == "drainPermits"@ && d == "()I"@ {
        Some(Some(Value::Int(0)))
    } else if n == "availablePermits"@ && d == "()I"@ {
        Some(Some(Value::Int(0)))
    } else if n == "<init>"@ && d == "(I)V"@ {
        Some(None)
    } else if n == "<init>"@ && d == "(IZ)V"@ {
        Some(None)
    } else {
        None
    }
}

fn semaphore_answer(n: &[char], d: &[char]) -> (res: Option<Option<Value>>)
    ensures
        res == semaphore_stub(n@, d@),
{
    if eq_str(n, "acquire") && eq_str(d, "()V") {
        return Some(None);
    }
    if eq_str(n, "acquire") && eq_str(d, "(I)V") {
        return Some(None);
    }
    if eq_str(n, "release") && eq_str(d, "()V") {
        return Some(None);
    }
    if eq_str(n, "release") && eq_str(d, "(I)V") {
        return Some(None);
    }
    if eq_str(n, "tryAcquire") && eq_str(d, "()Z") {
        return Some(Some(Value::Int(1)));
    }
    if eq_str(n, "tryAcquire") && eq_str(d, "(I)Z") {
        return Some(Some(Value::Int(1)));
    }
    if eq_str(n, "drainPermits") && eq_str(d, "()I") {
        return Some(Some(Value::Int(0)));
    }
    if eq_str(n, "availablePermits") && eq_str(d, "()I") {
        return Some(Some(Value::Int(0)));
    }
    if eq_str(n, "<init>") && eq_str(d, "(I)V") {
        return Some(None);
    }
    if eq_str(n, "<init>") && eq_str(d, "(IZ)V") {
        return Some(None);
    }
    None
}

/// `CountDownLatch`.
pub open spec fn count_down_latch_stub(n: Seq<char>, d: Seq<char>) -> Option<Option<Value>> {
    if n == "await"@ && d == "()V"@ {
        Some(None)
    } else if n == "await"@ && d == "(JLjava/util/concurrent/TimeUnit;)Z"@ {
        Some(Some(Value::Int(1)))
    } else if n == "countDown"@ && d == "()V"@ {
        Some(None)
    } else if n == "getCount"@ && d == "()J"@ {
        Some(Some(Value::Long(0)))
    } else if n == "<init>"@ && d == "(J)V"@ {
        Some(None)
    } else {
        None
    }
}

fn count_down_latch_answer(n: &[char], d: &[char]) -> (res: Option<Option<Value>>)
    ensures
        res == count_down_latch_stub(n@, d@),
{
    if eq_str(n, "await") && eq_str(d, "()V") {
        return Some(None);
    }
    if eq_str(n, "await") && eq_str(d, "(JLjava/util/concurrent/TimeUnit;)Z") {
        return Some(Some(Value::Int(1)));
    }
    if eq_str(n, "countDown") && eq_str(d, "()V") {
        return Some(None);
    }
    if eq_str(n, "getCount") && eq_str(d, "()J") {
        return Some(Some(Value::Long(0)));
    }
    if eq_str(n, "<init>") && eq_str(d, "(J)V") {
        return Some(None);
    }
    None
}

/// `CyclicBarrier`.
pub open spec fn cyclic_barrier_stub(n: Seq<char>, d: Seq<char>) -> Option<Option<Value>> {
    if n == "await"@ && d == "()I"@ {
        Some(Some(Value::Int(0)))
    } else if n == "await"@ && d == "(JLjava/util/concurrent/TimeUnit;)I"@ {
        Some(Some(Value::Int(0)))
    } else if n == "reset"@ && d == "()V"@ {
        Some(None)
    } else if n == "getNumberWaiting"@ && d == "()I"@ {
        Some(Some(Value::Int(0)))
    } else if n == "isBroken"@ && d == "()Z"@ {
        Some(Some(Value::Int(0)))
    } else if n == "<init>"@ && d == "(I)V"@ {
        Some(None)
    } else if n == "<init>"@ && d == "(ILjava/lang/Runnable;)V"@ {
        Some(None)
    } else {
        None
    }
}

fn cyclic_barrier_answer(n: &[char], d: &[char]) -> (res: Option<Option<Value>>)
    ensures
        res == cyclic_barrier_stub(n@, d@),
{
    if eq_str(n, "await") && eq_str(d, "()I") {
        return Some(Some(Value::Int(0)));
    }
    if eq_str(n, "await") && eq_str(d, "(JLjava/util/concurrent/TimeUnit;)I") {
        return Some(Some(Value::Int(0)));
    }
    if eq_str(n, "reset") && eq_str(d, "()V") {
        return Some(None);
    }
    if eq_str(n, "getNumberWaiting") && eq_str(d, "()I") {
        return Some(Some(Value::Int(0)));
    }
    if eq_str(n, "isBroken") && eq_str(d, "()Z") {
        return Some(Some(Value::Int(0)));
    }
    if eq_str(n, "<init>") && eq_str(d, "(I)V") {
        return Some(None);
    }
    if eq_str(n, "<init>") && eq_str(d, "(ILjava/lang/Runnable;)V") {
        return Some(None);
    }
    None
}

/// `ConcurrentHashMap`.
pub open spec fn concurrent_hash_map_stub(n: Seq<char>, d: Seq<char>) -> Option<Option<Value>> {
    if n == "size"@ && d == "()I"@ {
        Some(Some(Value::Int(0)))
    } else if n == "isEmpty"@ && d == "()Z"@ {
        Some(Some(Value::Int(1)))
    } else if n == "get"@ && d == "(Ljava/lang/Object;)Ljava/lang/Object;"@ {
        Some(Some(Value::Reference(Reference::Null)))
    } else if n == "put"@ && d == "(Ljava/lang/Object;Ljava/lang/Object;)Ljava/lang/Object;"@ {
        Some(Some(Value::Reference(Reference::Null)))
    } else if n == "putIfAbsent"@ && d == "(Ljava/lang/Object;Ljava/lang/Object;)Ljava/lang/Object;"@ {
        Some(Some(Value::Reference(Reference::Null)))
    } else if n == "remove"@ && d == "(Ljava/lang/Object;)Ljava/lang/Object;"@ {
        Some(Some(Value::Reference(Reference::Null)))
    } else if n == "containsKey"@ && d == "(Ljava/lang/Object;)Z"@ {
        Some(Some(Value::Int(0)))
    } else if n == "contains"@ && d == "(Ljava/lang/Object;)Z"@ {
        Some(Some(Value::Int(0)))
    } else if n == "clear"@ && d == "()V"@ {
        Some(None)
    } else if n == "keys"@ && d == "()Ljava/util/Enumeration;"@ {
        Some(Some(Value::Reference(Reference::Null)))
    } else if n == "elements"@ && d == "()Ljava/util/Enumeration;"@ {
        Some(Some(Value::Reference(Reference::Null)))
    } else if n == "<init>"@ && d == "()V"@ {
        Some(None)
    } else if n == "<init>"@ && d == "(I)V"@ {
        Some(None)
    } else if n == "<init>"@ && d == "(IF)V"@ {
        Some(None)
    } else if n == "<init>"@ && d == "(Ljava/util/Map;)V"@ {
        Some(None)
    } else {
        None
    }
}

fn concurrent_hash_map_answer(n: &[char], d: &[char]) -> (res: Option<Option<Value>>)
    ensures
        res == concurrent_hash_map_stub(n@, d@),
{
    if eq_str(n, "size") && eq_str(d, "()I") {
        return Some(Some(Value::Int(0)));
    }
    if eq_str(n, "isEmpty") && eq_str(d, "()Z") {
        return Some(Some(Value::Int(1)));
    }
    if eq_str(n, "get") && eq_str(d, "(Ljava/lang/Object;)Ljava/lang/Object;") {
        return Some(Some(Value::Reference(Reference::Null)));
    }
    if eq_str(n, "put") && eq_str(d, "(Ljava/lang/Object;Ljava/lang/Object;)Ljava/lang/Object;") {
        return Some(Some(Value::Reference(Reference::Null)));
    }
    if eq_str(n, "putIfAbsent") && eq_str(d, "(Ljava/lang/Object;Ljava/lang/Object;)Ljava/lang/Object;") {
        return Some(Some(Value::Reference(Reference::Null)));
    }
    if eq_str(n, "remove") && eq_str(d, "(Ljava/lang/Object;)Ljava/lang/Object;") {
        return Some(Some(Value::Reference(Reference::Null)));
    }
    if eq_str(n, "containsKey") && eq_str(d, "(Ljava/lang/Object;)Z") {
        return Some(Some(Value::Int(0)));
    }
    if eq_str(n, "contains") && eq_str(d, "(Ljava/lang/Object;)Z") {
        return Some(Some(Value::Int(0)));
    }
    if eq_str(n, "clear") && eq_str(d, "()V") {
        return Some(None);
    }
    if eq_str(n, "keys") && eq_str(d, "()Ljava/util/Enumeration;") {
        return Some(Some(Value::Reference(Reference::Null)));
    }
    if eq_str(n, "elements") && eq_str(d, "()Ljava/util/Enumeration;") {
        return Some(Some(Value::Reference(Reference::Null)));
    }
    if eq_str(n, "<init>") && eq_str(d, "()V") {
        return Some(None);
    }
    if eq_str(n, "<init>") && eq_str(d, "(I)V") {
        return Some(None);
    }
    if eq_str(n, "<init>") && eq_str(d, "(IF)V") {
        return Some(None);
    }
    if eq_str(n, "<init>") && eq_str(d, "(Ljava/util/Map;)V") {
        return Some(None);
    }
    None
}

/// `ConcurrentLinkedQueue`.
pub open spec fn concurrent_linked_queue_stub(n: Seq<char>, d: Seq<char>) -> Option<Option<Value>> {
    if n == "size"@ && d == "()I"@ {
        Some(Some(Value::Int(0)))
    } else if n == "isEmpty"@ && d == "()Z"@ {
        Some(Some(Value::Int(1)))
    } else if n == "offer"@ && d == "(Ljava/lang/Object;)Z"@ {
        Some(Some(Value::Int(1)))
    } else if n == "poll"@ && d == "()Ljava/lang/Object;"@ {
        Some(Some(Value::Reference(Reference::Null)))
    } else if n == "peek"@ && d == "()Ljava/lang/Object;"@ {
        Some(Some(Value::Reference(Reference::Null)))
    } else if n == "remove"@ && d == "(Ljava/lang/Object;)Z"@ {
        Some(Some(Value::Int(0)))
    } else if n == "contains"@ && d == "(Ljava/lang/Object;)Z"@ {
        Some(Some(Value::Int(0)))
    } else if n == "<init>"@ && d == "()V"@ {
        Some(None)
    } else if n == "<init>"@ && d == "(Ljava/util/Collection;)V"@ {
        Some(None)
    } else {
        None
    }
}

fn concurrent_linked_queue_answer(n: &[char], d: &[char]) -> (res: Option<Option<Value>>)
    ensures
        res == concurrent_linked_queue_stub(n@, d@),
{
    if eq_str(n, "size") && eq_str(d, "()I") {
        return Some(Some(Value::Int(0)));
    }
    if eq_str(n, "isEmpty") && eq_str(d, "()Z") {
        return Some(Some(Value::Int(1)));
    }
    if eq_str(n, "offer") && eq_str(d, "(Ljava/lang/Object;)Z") {
        return Some(Some(Value::Int(1)));
    }
    if eq_str(n, "poll") && eq_str(d, "()Ljava/lang/Object;") {
        return Some(Some(Value::Reference(Reference::Null)));
    }
    if eq_str(n, "peek") && eq_str(d, "()Ljava/lang/Object;") {
        return Some(Some(Value::Reference(Reference::Null)));
    }
    if eq_str(n, "remove") && eq_str(d, "(Ljava/lang/Object;)Z") {
        return Some(Some(Value::Int(0)));
    }
    if eq_str(n, "contains") && eq_str(d, "(Ljava/lang/Object;)Z") {
        return Some(Some(Value::Int(0)));
    }
    if eq_str(n, "<init>") && eq_str(d, "()V") {
        return Some(None);
    }
    if eq_str(n, "<init>") && eq_str(d, "(Ljava/util/Collection;)V") {
        return Some(None);
    }
    None
}

/// `CopyOnWriteArrayList`.
pub open spec fn copy_on_write_array_list_stub(n: Seq<char>, d: Seq<char>) -> Option<Option<Value>> {
    if n == "size"@ && d == "()I"@ {
        Some(Some(Value::Int(0)))
    } else if n == "isEmpty"@ && d == "()Z"@ {
        Some(Some(Value::Int(1)))
    } else if n == "get"@ && d == "(I)Ljava/lang/Object;"@ {
        Some(Some(Value::Reference(Reference::Null)))
    } else if n == "set"@ && d == "(ILjava/lang/Object;)Ljava/lang/Object;"@ {
        Some(Some(Value::Reference(Reference::Null)))
    } else if n == "add"@ && d == "(ILjava/lang/Object;)V"@ {
        Some(None)
    } else if n == "add"@ && d == "(Ljava/lang/Object;)Z"@ {
        Some(Some(Value::Int(1)))
    } else if n == "remove"@ && d == "(Ljava/lang/Object;)Z"@ {
        Some(Some(Value::Int(0)))
    } else if n == "remove"@ && d == "(I)Ljava/lang/Object;"@ {
        Some(Some(Value::Reference(Reference::Null)))
    } else if n == "contains"@ && d == "(Ljava/lang/Object;)Z"@ {
        Some(Some(Value::Int(0)))
    } else if n == "clear"@ && d == "()V"@ {
        Some(None)
    } else if n == "<init>"@ && d == "()V"@ {
        Some(None)
    } else if n == "<init>"@ && d == "([Ljava/lang/Object;)V"@ {
        Some(None)
    } else if n == "<init>"@ && d == "(Ljava/util/Collection;)V"@ {
        Some(None)
    } else {
        None
    }
}

fn copy_on_write_array_list_answer(n: &[char], d: &[char]) -> (res: Option<Option<Value>>)
    ensures
        res == copy_on_write_array_list_stub(n@, d@),
{
    if eq_str(n, "size") && eq_str(d, "()I") {
        return Some(Some(Value::Int(0)));
    }
    if eq_str(n, "isEmpty") && eq_str(d, "()Z") {
        return Some(Some(Value::Int(1)));
    }
    if eq_str(n, "get") && eq_str(d, "(I)Ljava/lang/Object;") {
        return Some(Some(Value::Reference(Reference::Null)));
    }
    if eq_str(n, "set") && eq_str(d, "(ILjava/lang/Object;)Ljava/lang/Object;") {
        return Some(Some(Value::Reference(Reference::Null)));
    }
    if eq_str(n, "add") && eq_str(d, "(ILjava/lang/Object;)V") {
        return Some(None);
    }
    if eq_str(n, "add") && eq_str(d, "(Ljava/lang/Object;)Z") {
        return Some(Some(Value::Int(1)));
    }
    if eq_str(n, "remove") && eq_str(d, "(Ljava/lang/Object;)Z") {
        return Some(Some(Value::Int(0)));
    }
    if eq_str(n, "remove") && eq_str(d, "(I)Ljava/lang/Object;") {
        return Some(Some(Value::Reference(Reference::Null)));
    }
    if eq_str(n, "contains") && eq_str(d, "(Ljava/lang/Object;)Z") {
        return Some(Some(Value::Int(0)));
    }
    if eq_str(n, "clear") && eq_str(d, "()V") {
        return Some(None);
    }
    if eq_str(n, "<init>") && eq_str(d, "()V") {
        return Some(None);
    }
    if eq_str(n, "<init>") && eq_str(d, "([Ljava/lang/Object;)V") {
        return Some(None);
    }
    if eq_str(n, "<init>") && eq_str(d, "(Ljava/util/Collection;)V") {
        return Some(None);
    }
    None
}

/// `Future`.
pub open spec fn future_stub(n: Seq<char>, d: Seq<char>) -> Option<Option<Value>> {
    if n == "get"@ && d == "()Ljava/lang/Object;"@ {
        Some(Some(Value::Reference(Reference::Null)))
    } else if n == "get"@ && d == "(JLjava/util/concurrent/TimeUnit;)Ljava/lang/Object;"@ {
        Some(Some(Value::Reference(Reference::Null)))
    } else if n == "isDone"@ && d == "()Z"@ {
        Some(Some(Value::Int(1)))
    } else if n == "isCancelled"@ && d == "()Z"@ {
        Some(Some(Value::Int(0)))
    } else if n == "cancel"@ && d == "(Z)Z"@ {
        Some(Some(Value::Int(0)))
    } else {
        None
    }
}

fn future_answer(n: &[char], d: &[char]) -> (res: Option<Option<Value>>)
    ensures
        res == future_stub(n@, d@),
{
    if eq_str(n, "get") && eq_str(d, "()Ljava/lang/Object;") {
        return Some(Some(Value::Reference(Reference::Null)));
    }
    if eq_str(n, "get") && eq_str(d, "(JLjava/util/concurrent/TimeUnit;)Ljava/lang/Object;") {
        return Some(Some(Value::Reference(Reference::Null)));
    }
    if eq_str(n, "isDone") && eq_str(d, "()Z") {
        return Some(Some(Value::Int(1)));
    }
    if eq_str(n, "isCancelled") && eq_str(d, "()Z") {
        return Some(Some(Value::Int(0)));
    }
    if eq_str(n, "cancel") && eq_str(d, "(Z)Z") {
        return Some(Some(Value::Int(0)));
    }
    None
}

/// `CompletableFuture`.
pub open spec fn completable_future_stub(n: Seq<char>, d: Seq<char>) -> Option<Option<Value>> {
    if n == "get"@ && d == "()Ljava/lang/Object;"@ {
        Some(Some(Value::Reference(Reference::Null)))
    } else if n == "get"@ && d == "(JLjava/util/concurrent/TimeUnit;)Ljava/lang/Object;"@ {
        Some(Some(Value::Reference(Reference::Null)))
    } else if n == "isDone"@ && d == "()Z"@ {
        Some(Some(Value::Int(1)))
    } else if n == "isCancelled"@ && d == "()Z"@ {
        Some(Some(Value::Int(0)))
    } else if n == "cancel"@ && d == "(Z)Z"@ {
        Some(Some(Value::Int(0)))
    } else if n == "complete"@ && d == "(Ljava/lang/Object;)Z"@ {
        Some(Some(Value::Int(1)))
    } else if n == "completedFuture"@ && d == "(Ljava/lang/Object;)Ljava/util/concurrent/CompletableFuture;"@ {
        Some(Some(Value::Reference(Reference::Null)))
    } else if n == "runAsync"@ && d == "(Ljava/lang/Runnable;)Ljava/util/concurrent/CompletableFuture;"@ {
        Some(Some(Value::Reference(Reference::Null)))
    } else if n == "supplyAsync"@ && d == "(Ljava/util/function/Supplier;)Ljava/util/concurrent/CompletableFuture;"@ {
        Some(Some(Value::Reference(Reference::Null)))
    } else if n == "thenApply"@ && d == "(Ljava/util/function/Function;)Ljava/util/concurrent/CompletableFuture;"@ {
        Some(Some(Value::Reference(Reference::Null)))
    } else if n == "thenApplyAsync"@ && d == "(Ljava/util/function/Function;)Ljava/util/concurrent/CompletableFuture;"@ {
        Some(Some(Value::Reference(Reference::Null)))
    } else if n == "thenAccept"@ && d == "(Ljava/util/function/Consumer;)Ljava/util/concurrent/CompletableFuture;"@ {
        Some(Some(Value::Reference(Reference::Null)))
    } else if n == "thenRun"@ && d == "(Ljava/lang/Runnable;)Ljava/util/concurrent/CompletableFuture;"@ {
        Some(Some(Value::Reference(Reference::Null)))
    } else if n == "join"@ && d == "()Ljava/lang/Object;"@ {
        Some(Some(Value::Reference(Reference::Null)))
    } else if n == "<init>"@ && d == "()V"@ {
        Some(None)
    } else {
        None
    }
}

fn completable_future_answer(n: &[char], d: &[char]) -> (res: Option<Option<Value>>)
    ensures
        res == completable_future_stub(n@, d@),
{
    if eq_str(n, "get") && eq_str(d, "()Ljava/lang/Object;") {
        return Some(Some(Value::Reference(Reference::Null)));
    }
    if eq_str(n, "get") && eq_str(d, "(JLjava/util/concurrent/TimeUnit;)Ljava/lang/Object;") {
        return Some(Some(Value::Reference(Reference::Null)));
    }
    if eq_str(n, "isDone") && eq_str(d, "()Z") {
        return Some(Some(Value::Int(1)));
    }
    if eq_str(n, "isCancelled") && eq_str(d, "()Z") {
        return Some(Some(Value::Int(0)));
    }
    if eq_str(n, "cancel") && eq_str(d, "(Z)Z") {
        return Some(Some(Value::Int(0)));
    }
    if eq_str(n, "complete") && eq_str(d, "(Ljava/lang/Object;)Z") {
        return Some(Some(Value::Int(1)));
    }
    if eq_str(n, "completedFuture") && eq_str(d, "(Ljava/lang/Object;)Ljava/util/concurrent/CompletableFuture;") {
        return Some(Some(Value::Reference(Reference::Null)));
    }
    if eq_str(n, "runAsync") && eq_str(d, "(Ljava/lang/Runnable;)Ljava/util/concurrent/CompletableFuture;") {
        return Some(Some(Value::Reference(Reference::Null)));
    }
    if eq_str(n, "supplyAsync") && eq_str(d, "(Ljava/util/function/Supplier;)Ljava/util/concurrent/CompletableFuture;") {
        return Some(Some(Value::Reference(Reference::Null)));
    }
    if eq_str(n, "thenApply") && eq_str(d, "(Ljava/util/function/Function;)Ljava/util/concurrent/CompletableFuture;") {
        return Some(Some(Value::Reference(Reference::Null)));
    }
    if eq_str(n, "thenApplyAsync") && eq_str(d, "(Ljava/util/function/Function;)Ljava/util/concurrent/CompletableFuture;") {
        return Some(Some(Value::Reference(Reference::Null)));
    }
    if eq_str(n, "thenAccept") && eq_str(d, "(Ljava/util/function/Consumer;)Ljava/util/concurrent/CompletableFuture;") {
        return Some(Some(Value::Reference(Reference::Null)));
    }
    if eq_str(n, "thenRun") && eq_str(d, "(Ljava/lang/Runnable;)Ljava/util/concurrent/CompletableFuture;") {
        return Some(Some(Value::Reference(Reference::Null)));
    }
    if eq_str(n, "join") && eq_str(d, "()Ljava/lang/Object;") {
        return Some(Some(Value::Reference(Reference::Null)));
    }
    if eq_str(n, "<init>") && eq_str(d, "()V") {
        return Some(None);
    }
    None
}

/// `ExecutorService`.
pub open spec fn executor_service_stub(n: Seq<char>, d: Seq<char>) -> Option<Option<Value>> {
    if n == "shutdown"@ && d == "()V"@ {
        Some(None)
    } else if n == "shutdownNow"@ && d == "()Ljava/util/List;"@ {
        Some(Some(Value::Reference(Reference::Null)))
    } else if n == "isShutdown"@ && d == "()Z"@ {
        Some(Some(Value::Int(0)))
    } else if n == "isTerminated"@ && d == "()Z"@ {
        Some(Some(Value::Int(0)))
    } else if n == "awaitTermination"@ && d == "(JLjava/util/concurrent/TimeUnit;)Z"@ {
        Some(Some(Value::Int(1)))
    } else if n == "submit"@ && d == "(Ljava/lang/Runnable;)Ljava/util/concurrent/Future;"@ {
        Some(Some(Value::Reference(Reference::Null)))
    } else if n == "submit"@ && d == "(Ljava/lang/Runnable;Ljava/lang/Object;)Ljava/util/concurrent/Future;"@ {
        Some(Some(Value::Reference(Reference::Null)))
    } else if n == "submit"@ && d == "(Ljava/util/concurrent/Callable;)Ljava/util/concurrent/Future;"@ {
        Some(Some(Value::Reference(Reference::Null)))
    } else {
        None
    }
}

fn executor_service_answer(n: &[char], d: &[char]) -> (res: Option<Option<Value>>)
    ensures
        res == executor_service_stub(n@, d@),
{
    if eq_str(n, "shutdown") && eq_str(d, "()V") {
        return Some(None);
    }
    if eq_str(n, "shutdownNow") && eq_str(d, "()Ljava/util/List;") {
        return Some(Some(Value::Reference(Reference::Null)));
    }
    if eq_str(n, "isShutdown") && eq_str(d, "()Z") {
        return Some(Some(Value::Int(0)));
    }
    if eq_str(n, "isTerminated") && eq_str(d, "()Z") {
        return Some(Some(Value::Int(0)));
    }
    if eq_str(n, "awaitTermination") && eq_str(d, "(JLjava/util/concurrent/TimeUnit;)Z") {
        return Some(Some(Value::Int(1)));
    }
    if eq_str(n, "submit") && eq_str(d, "(Ljava/lang/Runnable;)Ljava/util/concurrent/Future;") {
        return Some(Some(Value::Reference(Reference::Null)));
    }
    if eq_str(n, "submit") && eq_str(d, "(Ljava/lang/Runnable;Ljava/lang/Object;)Ljava/util/concurrent/Future;") {
        return Some(Some(Value::Reference(Reference::Null)));
    }
    if eq_str(n, "submit") && eq_str(d, "(Ljava/util/concurrent/Callable;)Ljava/util/concurrent/Future;") {
        return Some(Some(Value::Reference(Reference::Null)));
    }
    None
}

/// `ThreadPoolExecutor`.
pub open spec fn thread_pool_executor_stub(n: Seq<char>, d: Seq<char>) -> Option<Option<Value>> {
    if n == "execute"@ && d == "(Ljava/lang/Runnable;)V"@ {
        Some(None)
    } else if n == "shutdown"@ && d == "()V"@ {
        Some(None)
    } else if n == "shutdownNow"@ && d == "()Ljava/util/List;"@ {
        Some(Some(Value::Reference(Reference::Null)))
    } else if n == "isShutdown"@ && d == "()Z"@ {
        Some(Some(Value::Int(0)))
    } else if n == "isTerminated"@ && d == "()Z"@ {
        Some(Some(Value::Int(0)))
    } else if n == "isTerminating"@ && d == "()Z"@ {
        Some(Some(Value::Int(0)))
    } else if n == "awaitTermination"@ && d == "(JLjava/util/concurrent/TimeUnit;)Z"@ {
        Some(Some(Value::Int(1)))
    } else if n == "submit"@ && d == "(Ljava/lang/Runnable;)Ljava/util/concurrent/Future;"@ {
        Some(Some(Value::Reference(Reference::Null)))
    } else if n == "getPoolSize"@ && d == "()I"@ {
        Some(Some(Value::Int(1)))
    } else if n == "getActiveCount"@ && d == "()I"@ {
        Some(Some(Value::Int(0)))
    } else if n == "getTaskCount"@ && d == "()J"@ {
        Some(Some(Value::Long(0)))
    } else if n == "getCompletedTaskCount"@ && d == "()J"@ {
        Some(Some(Value::Long(0)))
    } else if n == "remove"@ && d == "(Ljava/lang/Runnable;)Z"@ {
        Some(Some(Value::Int(0)))
    } else if n == "purge"@ && d == "()V"@ {
        Some(None)
    } else if n == "<init>"@ && d == "(ILjava/util/concurrent/TimeUnit;Ljava/util/concurrent/BlockingQueue;)V"@ {
        Some(None)
    } else if n == "<init>"@ && d == "(IIJLjava/util/concurrent/TimeUnit;Ljava/util/concurrent/BlockingQueue;)V"@ {
        Some(None)
    } else if n == "<init>"@ && d == "(IIJLjava/util/concurrent/TimeUnit;Ljava/util/concurrent/BlockingQueue;Ljava/lang/ThreadFactory;)V"@ {
        Some(None)
    } else if n == "<init>"@ && d == "(IIJLjava/util/concurrent/TimeUnit;Ljava/util/concurrent/BlockingQueue;Ljava/util/concurrent/RejectedExecutionHandler;)V"@ {
        Some(None)
    } else if n == "<init>"@ && d == "(IIJLjava/util/concurrent/TimeUnit;Ljava/util/concurrent/BlockingQueue;Ljava/lang/ThreadFactory;Ljava/util/concurrent/RejectedExecutionHandler;)V"@ {
        Some(None)
    } else {
        None
    }
}

fn thread_pool_executor_answer(n: &[char], d: &[char]) -> (res: Option<Option<Value>>)
    ensures
        res == thread_pool_executor_stub(n@, d@),
{
    if eq_str(n, "execute") && eq_str(d, "(Ljava/lang/Runnable;)V") {
        return Some(None);
    }
    if eq_str(n, "shutdown") && eq_str(d, "()V") {
        return Some(None);
    }
    if eq_str(n, "shutdownNow") && eq_str(d, "()Ljava/util/List;") {
        return Some(Some(Value::Reference(Reference::Null)));
    }
    if eq_str(n, "isShutdown") && eq_str(d, "()Z") {
        return Some(Some(Value::Int(0)));
    }
    if eq_str(n, "isTerminated") && eq_str(d, "()Z") {
        return Some(Some(Value::Int(0)));
    }
    if eq_str(n, "isTerminating") && eq_str(d, "()Z") {
        return Some(Some(Value::Int(0)));
    }
    if eq_str(n, "awaitTermination") && eq_str(d, "(JLjava/util/concurrent/TimeUnit;)Z") {
        return Some(Some(Value::Int(1)));
    }
    if eq_str(n, "submit") && eq_str(d, "(Ljava/lang/Runnable;)Ljava/util/concurrent/Future;") {
        return Some(Some(Value::Reference(Reference::Null)));
    }
    if eq_str(n, "getPoolSize") && eq_str(d, "()I") {
        return Some(Some(Value::Int(1)));
    }
    if eq_str(n, "getActiveCount") && eq_str(d, "()I") {
        return Some(Some(Value::Int(0)));
    }
    if eq_str(n, "getTaskCount") && eq_str(d, "()J") {
        return Some(Some(Value::Long(0)));
    }
    if eq_str(n, "getCompletedTaskCount") && eq_str(d, "()J") {
        return Some(Some(Value::Long(0)));
    }
    if eq_str(n, "remove") && eq_str(d, "(Ljava/lang/Runnable;)Z") {
        return Some(Some(Value::Int(0)));
    }
    if eq_str(n, "purge") && eq_str(d, "()V") {
        return Some(None);
    }
    if eq_str(n, "<init>") && eq_str(d, "(ILjava/util/concurrent/TimeUnit;Ljava/util/concurrent/BlockingQueue;)V") {
        return Some(None);
    }
    if eq_str(n, "<init>") && eq_str(d, "(IIJLjava/util/concurrent/TimeUnit;Ljava/util/concurrent/BlockingQueue;)V") {
        return Some(None);
    }
    if eq_str(n, "<init>") && eq_str(d, "(IIJLjava/util/concurrent/TimeUnit;Ljava/util/concurrent/BlockingQueue;Ljava/lang/ThreadFactory;)V") {
        return Some(None);
    }
    if eq_str(n, "<init>") && eq_str(d, "(IIJLjava/util/concurrent/TimeUnit;Ljava/util/concurrent/BlockingQueue;Ljava/util/concurrent/RejectedExecutionHandler;)V") {
        return Some(None);
    }
    if eq_str(n, "<init>") && eq_str(d, "(IIJLjava/util/concurrent/TimeUnit;Ljava/util/concurrent/BlockingQueue;Ljava/lang/ThreadFactory;Ljava/util/concurrent/RejectedExecutionHandler;)V") {
        return Some(None);
    }
    None
}

/// `Executors`.
pub open spec fn executors_stub(n: Seq<char>, d: Seq<char>) -> Option<Option<Value>> {
    if n == "newSingleThreadExecutor"@ && d == "()Ljava/util/concurrent/ExecutorService;"@ {
        Some(Some(Value::Reference(Reference::Null)))
    } else if n == "newFixedThreadPool"@ && d == "(I)Ljava/util/concurrent/ExecutorService;"@ {
        Some(Some(Value::Reference(Reference::Null)))
    } else if n == "newCachedThreadPool"@ && d == "()Ljava/util/concurrent/ExecutorService;"@ {
        Some(Some(Value::Reference(Reference::Null)))
    } else if n == "newSingleThreadScheduledExecutor"@ && d == "()Ljava/util/concurrent/ScheduledExecutorService;"@ {
        Some(Some(Value::Reference(Reference::Null)))
    } else if n == "newScheduledThreadPool"@ && d == "(I)Ljava/util/concurrent/ScheduledExecutorService;"@ {
        Some(Some(Value::Reference(Reference::Null)))
    } else {
        None
    }
}

fn executors_answer(n: &[char], d: &[char]) -> (res: Option<Option<Value>>)
    ensures
        res == executors_stub(n@, d@),
{
    if eq_str(n, "newSingleThreadExecutor") && eq_str(d, "()Ljava/util/concurrent/ExecutorService;") {
        return Some(Some(Value::Reference(Reference::Null)));
    }
    if eq_str(n, "newFixedThreadPool") && eq_str(d, "(I)Ljava/util/concurrent/ExecutorService;") {
        return Some(Some(Value::Reference(Reference::Null)));
    }
    if eq_str(n, "newCachedThreadPool") && eq_str(d, "()Ljava/util/concurrent/ExecutorService;") {
        return Some(Some(Value::Reference(Reference::Null)));
    }
    if eq_str(n, "newSingleThreadScheduledExecutor") && eq_str(d, "()Ljava/util/concurrent/ScheduledExecutorService;") {
        return Some(Some(Value::Reference(Reference::Null)));
    }
    if eq_str(n, "newScheduledThreadPool") && eq_str(d, "(I)Ljava/util/concurrent/ScheduledExecutorService;") {
        return Some(Some(Value::Reference(Reference::Null)));
    }
    None
}

/// `ScheduledExecutorService`.
pub open spec fn scheduled_executor_service_stub(n: Seq<char>, d: Seq<char>) -> Option<Option<Value>> {
    if n == "schedule"@ && d == "(Ljava/lang/Runnable;JLjava/util/concurrent/TimeUnit;)Ljava/util/concurrent/ScheduledFuture;"@ {
        Some(Some(Value::Reference(Reference::Null)))
    } else if n == "schedule"@ && d == "(Ljava/util/concurrent/Callable;JLjava/util/concurrent/TimeUnit;)Ljava/util/concurrent/ScheduledFuture;"@ {
        Some(Some(Value::Reference(Reference::Null)))
    } else if n == "scheduleAtFixedRate"@ && d == "(Ljava/lang/Runnable;JJLjava/util/concurrent/TimeUnit;)Ljava/util/concurrent/ScheduledFuture;"@ {
        Some(Some(Value::Reference(Reference::Null)))
    } else if n == "scheduleWithFixedDelay"@ && d == "(Ljava/lang/Runnable;JJLjava/util/concurrent/TimeUnit;)Ljava/util/concurrent/ScheduledFuture;"@ {
        Some(Some(Value::Reference(Reference::Null)))
    } else {
        None
    }
}

fn scheduled_executor_service_answer(n: &[char], d: &[char]) -> (res: Option<Option<Value>>)
    ensures
        res == scheduled_executor_service_stub(n@, d@),
{
    if eq_str(n, "schedule") && eq_str(d, "(Ljava/lang/Runnable;JLjava/util/concurrent/TimeUnit;)Ljava/util/concurrent/ScheduledFuture;") {
        return Some(Some(Value::Reference(Reference::Null)));
    }
    if eq_str(n, "schedule") && eq_str(d, "(Ljava/util/concurrent/Callable;JLjava/util/concurrent/TimeUnit;)Ljava/util/concurrent/ScheduledFuture;") {
        return Some(Some(Value::Reference(Reference::Null)));
    }
    if eq_str(n, "scheduleAtFixedRate") && eq_str(d, "(Ljava/lang/Runnable;JJLjava/util/concurrent/TimeUnit;)Ljava/util/concurrent/ScheduledFuture;") {
        return Some(Some(Value::Reference(Reference::Null)));
    }
    if eq_str(n, "scheduleWithFixedDelay") && eq_str(d, "(Ljava/lang/Runnable;JJLjava/util/concurrent/TimeUnit;)Ljava/util/concurrent/ScheduledFuture;") {
        return Some(Some(Value::Reference(Reference::Null)));
    }
    None
}

/// `ScheduledFuture`.
pub open spec fn scheduled_future_stub(n: Seq<char>, d: Seq<char>) -> Option<Option<Value>> {
    if n == "getDelay"@ && d == "(Ljava/util/concurrent/TimeUnit;)J"@ {
        Some(Some(Value::Long(0)))
    } else {
        None
    }
}

fn scheduled_future_answer(n: &[char], d: &[char]) -> (res: Option<Option<Value>>)
    ensures
        res == scheduled_future_stub(n@, d@),
{
    if eq_str(n, "getDelay") && eq_str(d, "(Ljava/util/concurrent/TimeUnit;)J") {
        return Some(Some(Value::Long(0)));
    }
    None
}

/// `Delayed`.
pub open spec fn delayed_stub(n: Seq<char>, d: Seq<char>) -> Option<Option<Value>> {
    if n == "getDelay"@ && d == "(Ljava/util/concurrent/TimeUnit;)J"@ {
        Some(Some(Value::Long(0)))
    } else {
        None
    }
}

fn delayed_answer(n: &[char], d: &[char]) -> (res: Option<Option<Value>>)
    ensures
        res == delayed_stub(n@, d@),
{
    if eq_str(n, "getDelay") && eq_str(d, "(Ljava/util/concurrent/TimeUnit;)J") {
        return Some(Some(Value::Long(0)));
    }
    None
}

/// `TimeUnit`.
pub open spec fn time_unit_stub(n: Seq<char>, d: Seq<char>) -> Option<Option<Value>> {
    if n == "sleep"@ && d == "(J)V"@ {
        Some(None)
    } else {
        None
    }
}

fn time_unit_answer(n: &[char], d: &[char]) -> (res: Option<Option<Value>>)
    ensures
        res == time_unit_stub(n@, d@),
{
    if eq_str(n, "sleep") && eq_str(d, "(J)V") {
        return Some(None);
    }
    None
}

/// `BlockingQueue`.
pub open spec fn blocking_queue_stub(n: Seq<char>, d: Seq<char>) -> Option<Option<Value>> {
    if n == "put"@ && d == "(Ljava/lang/Object;)V"@ {
        Some(None)
    } else if n == "offer"@ && d == "(Ljava/lang/Object;)Z"@ {
        Some(Some(Value::Int(1)))
    } else if n == "offer"@ && d == "(Ljava/lang/Object;JLjava/util/concurrent/TimeUnit;)Z"@ {
        Some(Some(Value::Int(1)))
    } else if n == "take"@ && d == "()Ljava/lang/Object;"@ {
        Some(Some(Value::Reference(Reference::Null)))
    } else if n == "poll"@ && d == "(JLjava/util/concurrent/TimeUnit;)Ljava/lang/Object;"@ {
        Some(Some(Value::Reference(Reference::Null)))
    } else {
        None
    }
}

fn blocking_queue_answer(n: &[char], d: &[char]) -> (res: Option<Option<Value>>)
    ensures
        res == blocking_queue_stub(n@, d@),
{
    if eq_str(n, "put") && eq_str(d, "(Ljava/lang/Object;)V") {
        return Some(None);
    }
    if eq_str(n, "offer") && eq_str(d, "(Ljava/lang/Object;)Z") {
        return Some(Some(Value::Int(1)));
    }
    if eq_str(n, "offer") && eq_str(d, "(Ljava/lang/Object;JLjava/util/concurrent/TimeUnit;)Z") {
        return Some(Some(Value::Int(1)));
    }
    if eq_str(n, "take") && eq_str(d, "()Ljava/lang/Object;") {
        return Some(Some(Value::Reference(Reference::Null)));
    }
    if eq_str(n, "poll") && eq_str(d, "(JLjava/util/concurrent/TimeUnit;)Ljava/lang/Object;") {
        return Some(Some(Value::Reference(Reference::Null)));
    }
    None
}

/// `ArrayBlockingQueue`.
pub open spec fn array_blocking_queue_stub(n: Seq<char>, d: Seq<char>) -> Option<Option<Value>> {
    if n == "offer"@ && d == "(Ljava/lang/Object;)Z"@ {
        Some(Some(Value::Int(1)))
    } else if n == "poll"@ && d == "()Ljava/lang/Object;"@ {
        Some(Some(Value::Reference(Reference::Null)))
    } else if n == "peek"@ && d == "()Ljava/lang/Object;"@ {
        Some(Some(Value::Reference(Reference::Null)))
    } else if n == "size"@ && d == "()I"@ {
        Some(Some(Value::Int(0)))
    } else if n == "isEmpty"@ && d == "()Z"@ {
        Some(Some(Value::Int(1)))
    } else if n == "remainingCapacity"@ && d == "()I"@ {
        Some(Some(Value::Int(0)))
    } else if n == "clear"@ && d == "()V"@ {
        Some(None)
    } else if n == "contains"@ && d == "(Ljava/lang/Object;)Z"@ {
        Some(Some(Value::Int(0)))
    } else if n == "<init>"@ && d == "(I)V"@ {
        Some(None)
    } else if n == "<init>"@ && d == "(ILZ)V"@ {
        Some(None)
    } else if n == "<init>"@ && d == "(ILZLjava/util/Collection;)V"@ {
        Some(None)
    } else {
        None
    }
}

fn array_blocking_queue_answer(n: &[char], d: &[char]) -> (res: Option<Option<Value>>)
    ensures
        res == array_blocking_queue_stub(n@, d@),
{
    if eq_str(n, "offer") && eq_str(d, "(Ljava/lang/Object;)Z") {
        return Some(Some(Value::Int(1)));
    }
    if eq_str(n, "poll") && eq_str(d, "()Ljava/lang/Object;") {
        return Some(Some(Value::Reference(Reference::Null)));
    }
    if eq_str(n, "peek") && eq_str(d, "()Ljava/lang/Object;") {
        return Some(Some(Value::Reference(Reference::Null)));
    }
    if eq_str(n, "size") && eq_str(d, "()I") {
        return Some(Some(Value::Int(0)));
    }
    if eq_str(n, "isEmpty") && eq_str(d, "()Z") {
        return Some(Some(Value::Int(1)));
    }
    if eq_str(n, "remainingCapacity") && eq_str(d, "()I") {
        return Some(Some(Value::Int(0)));
    }
    if eq_str(n, "clear") && eq_str(d, "()V") {
        return Some(None);
    }
    if eq_str(n, "contains") && eq_str(d, "(Ljava/lang/Object;)Z") {
        return Some(Some(Value::Int(0)));
    }
    if eq_str(n, "<init>") && eq_str(d, "(I)V") {
        return Some(None);
    }
    if eq_str(n, "<init>") && eq_str(d, "(ILZ)V") {
        return Some(None);
    }
    if eq_str(n, "<init>") && eq_str(d, "(ILZLjava/util/Collection;)V") {
        return Some(None);
    }
    None
}

/// `RejectedExecutionHandler`.
pub open spec fn rejected_execution_handler_stub(n: Seq<char>, d: Seq<char>) -> Option<Option<Value>> {
    if n == "rejectedExecution"@ && d == "(Ljava/lang/Runnable;Ljava/util/concurrent/ThreadPoolExecutor;)V"@ {
        Some(None)
    } else {
        None
    }
}

fn rejected_execution_handler_answer(n: &[char], d: &[char]) -> (res: Option<Option<Value>>)
    ensures
        res == rejected_execution_handler_stub(n@, d@),
{
    if eq_str(n, "rejectedExecution") && eq_str(d, "(Ljava/lang/Runnable;Ljava/util/concurrent/ThreadPoolExecutor;)V") {
        return Some(None);
    }
    None
}

/// `ThreadFactory`.
pub open spec fn thread_factory_stub(n: Seq<char>, d: Seq<char>) -> Option<Option<Value>> {
    if n == "newThread"@ && d == "(Ljava/lang/Runnable;)Ljava/lang/Thread;"@ {
        Some(Some(Value::Reference(Reference::Null)))
    } else {
        None
    }
}

fn thread_factory_answer(n: &[char], d: &[char]) -> (res: Option<Option<Value>>)
    ensures
        res == thread_factory_stub(n@, d@),
{
    if eq_str(n, "newThread") && eq_str(d, "(Ljava/lang/Runnable;)Ljava/lang/Thread;") {
        return Some(Some(Value::Reference(Reference::Null)));
    }
    None
}

/// `Callable`.
pub open spec fn callable_stub(n: Seq<char>, d: Seq<char>) -> Option<Option<Value>> {
    if n == "call"@ && d == "()Ljava/lang/Object;"@ {
        Some(Some(Value::Reference(Reference::Null)))
    } else {
        None
    }
}

fn callable_answer(n: &[char], d: &[char]) -> (res: Option<Option<Value>>)
    ensures
        res == callable_stub(n@, d@),
{
    if eq_str(n, "call") && eq_str(d, "()Ljava/lang/Object;") {
        return Some(Some(Value::Reference(Reference::Null)));
    }
    None
}

/// `Exchanger`.
pub open spec fn exchanger_stub(n: Seq<char>, d: Seq<char>) -> Option<Option<Value>> {
    if n == "exchange"@ && d == "(Ljava/lang/Object;)Ljava/lang/Object;"@ {
        Some(Some(Value::Reference(Reference::Null)))
    } else if n == "exchange"@ && d == "(Ljava/lang/Object;JLjava/util/concurrent/TimeUnit;)Ljava/lang/Object;"@ {
        Some(Some(Value::Reference(Reference::Null)))
    } else if n == "<init>"@ && d == "()V"@ {
        Some(None)
    } else {
        None
    }
}

fn exchanger_answer(n: &[char], d: &[char]) -> (res: Option<Option<Value>>)
    ensures
        res == exchanger_stub(n@, d@),
{
    if eq_str(n, "exchange") && eq_str(d, "(Ljava/lang/Object;)Ljava/lang/Object;") {
        return Some(Some(Value::Reference(Reference::Null)));
    }
    if eq_str(n, "exchange") && eq_str(d, "(Ljava/lang/Object;JLjava/util/concurrent/TimeUnit;)Ljava/lang/Object;") {
        return Some(Some(Value::Reference(Reference::Null)));
    }
    if eq_str(n, "<init>") && eq_str(d, "()V") {
        return Some(None);
    }
    None
}

/// `Phaser`.
pub open spec fn phaser_stub(n: Seq<char>, d: Seq<char>) -> Option<Option<Value>> {
    if n == "register"@ && d == "()I"@ {
        Some(Some(Value::Int(0)))
    } else if n == "arrive"@ && d == "()I"@ {
        Some(Some(Value::Int(0)))
    } else if n == "arriveAndAwaitAdvance"@ && d == "()I"@ {
        Some(Some(Value::Int(0)))
    } else if n == "arriveAndDeregister"@ && d == "()I"@ {
        Some(Some(Value::Int(0)))
    } else if n == "bulkRegister"@ && d == "(I)I"@ {
        Some(Some(Value::Int(0)))
    } else if n == "getPhase"@ && d == "()I"@ {
        Some(Some(Value::Int(0)))
    } else if n == "getRegisteredParties"@ && d == "()I"@ {
        Some(Some(Value::Int(0)))
    } else if n == "getArrivedParties"@ && d == "()I"@ {
        Some(Some(Value::Int(0)))
    } else if n == "getUnarrivedParties"@ && d == "()I"@ {
        Some(Some(Value::Int(0)))
    } else if n == "forceTermination"@ && d == "()V"@ {
        Some(None)
    } else if n == "<init>"@ && d == "()V"@ {
        Some(None)
    } else if n == "<init>"@ && d == "(I)V"@ {
        Some(None)
    } else if n == "<init>"@ && d == "(Ljava/util/concurrent/Phaser;)V"@ {
        Some(None)
    } else {
        None
    }
}

fn phaser_answer(n: &[char], d: &[char]) -> (res: Option<Option<Value>>)
    ensures
        res == phaser_stub(n@, d@),
{
    if eq_str(n, "register") && eq_str(d, "()I") {
        return Some(Some(Value::Int(0)));
    }
    if eq_str(n, "arrive") && eq_str(d, "()I") {
        return Some(Some(Value::Int(0)));
    }
    if eq_str(n, "arriveAndAwaitAdvance") && eq_str(d, "()I") {
        return Some(Some(Value::Int(0)));
    }
    if eq_str(n, "arriveAndDeregister") && eq_str(d, "()I") {
        return Some(Some(Value::Int(0)));
    }
    if eq_str(n, "bulkRegister") && eq_str(d, "(I)I") {
        return Some(Some(Value::Int(0)));
    }
    if eq_str(n, "getPhase") && eq_str(d, "()I") {
        return Some(Some(Value::Int(0)));
    }
    if eq_str(n, "getRegisteredParties") && eq_str(d, "()I") {
        return Some(Some(Value::Int(0)));
    }
    if eq_str(n, "getArrivedParties") && eq_str(d, "()I") {
        return Some(Some(Value::Int(0)));
    }
    if eq_str(n, "getUnarrivedParties") && eq_str(d, "()I") {
        return Some(Some(Value::Int(0)));
    }
    if eq_str(n, "forceTermination") && eq_str(d, "()V") {
        return Some(None);
    }
    if eq_str(n, "<init>") && eq_str(d, "()V") {
        return Some(None);
    }
    if eq_str(n, "<init>") && eq_str(d, "(I)V") {
        return Some(None);
    }
    if eq_str(n, "<init>") && eq_str(d, "(Ljava/util/concurrent/Phaser;)V") {
        return Some(None);
    }
    None
}

/// `ForkJoinPool`.
pub open spec fn fork_join_pool_stub(n: Seq<char>, d: Seq<char>) -> Option<Option<Value>> {
    if n == "submit"@ && d == "(Ljava/lang/Runnable;)Ljava/util/concurrent/Future;"@ {
        Some(Some(Value::Reference(Reference::Null)))
    } else if n == "submit"@ && d == "(Ljava/util/concurrent/ForkJoinTask;)Ljava/util/concurrent/ForkJoinTask;"@ {
        Some(Some(Value::Reference(Reference::Null)))
    } else if n == "invoke"@ && d == "(Ljava/util/concurrent/ForkJoinTask;)Ljava/lang/Object;"@ {
        Some(Some(Value::Reference(Reference::Null)))
    } else if n == "execute"@ && d == "(Ljava/lang/Runnable;)V"@ {
        Some(None)
    } else if n == "shutdown"@ && d == "()V"@ {
        Some(None)
    } else if n == "shutdownNow"@ && d == "()Ljava/util/List;"@ {
        Some(Some(Value::Reference(Reference::Null)))
    } else if n == "isShutdown"@ && d == "()Z"@ {
        Some(Some(Value::Int(0)))
    } else if n == "isTerminated"@ && d == "()Z"@ {
        Some(Some(Value::Int(0)))
    } else if n == "isTerminating"@ && d == "()Z"@ {
        Some(Some(Value::Int(0)))
    } else if n == "awaitTermination"@ && d == "(JLjava/util/concurrent/TimeUnit;)Z"@ {
        Some(Some(Value::Int(1)))
    } else if n == "getPoolSize"@ && d == "()I"@ {
        Some(Some(Value::Int(1)))
    } else if n == "getActiveThreadCount"@ && d == "()I"@ {
        Some(Some(Value::Int(0)))
    } else if n == "getStealCount"@ && d == "()J"@ {
        Some(Some(Value::Long(0)))
    } else if n == "getQueuedTaskCount"@ && d == "()J"@ {
        Some(Some(Value::Long(0)))
    } else if n == "getQueuedSubmissionCount"@ && d == "()I"@ {
        Some(Some(Value::Int(0)))
    } else if n == "hasQueuedSubmissions"@ && d == "()Z"@ {
        Some(Some(Value::Int(0)))
    } else if n == "commonPool"@ && d == "()Ljava/util/concurrent/ForkJoinPool;"@ {
        Some(Some(Value::Reference(Reference::Null)))
    } else if n == "<init>"@ && d == "(I)V"@ {
        Some(None)
    } else if n == "<init>"@ && d == "(ILjava/util/concurrent/ForkJoinPool$Factory;)V"@ {
        Some(None)
    } else if n == "<init>"@ && d == "(ILjava/util/concurrent/ForkJoinPool$Factory;Ljava/util/concurrent/RejectedExecutionHandler;Z)V"@ {
        Some(None)
    } else {
        None
    }
}

fn fork_join_pool_answer(n: &[char], d: &[char]) -> (res: Option<Option<Value>>)
    ensures
        res == fork_join_pool_stub(n@, d@),
{
    if eq_str(n, "submit") && eq_str(d, "(Ljava/lang/Runnable;)Ljava/util/concurrent/Future;") {
        return Some(Some(Value::Reference(Reference::Null)));
    }
    if eq_str(n, "submit") && eq_str(d, "(Ljava/util/concurrent/ForkJoinTask;)Ljava/util/concurrent/ForkJoinTask;") {
        return Some(Some(Value::Reference(Reference::Null)));
    }
    if eq_str(n, "invoke") && eq_str(d, "(Ljava/util/concurrent/ForkJoinTask;)Ljava/lang/Object;") {
        return Some(Some(Value::Reference(Reference::Null)));
    }
    if eq_str(n, "execute") && eq_str(d, "(Ljava/lang/Runnable;)V") {
        return Some(None);
    }
    if eq_str(n, "shutdown") && eq_str(d, "()V") {
        return Some(None);
    }
    if eq_str(n, "shutdownNow") && eq_str(d, "()Ljava/util/List;") {
        return Some(Some(Value::Reference(Reference::Null)));
    }
    if eq_str(n, "isShutdown") && eq_str(d, "()Z") {
        return Some(Some(Value::Int(0)));
    }
    if eq_str(n, "isTerminated") && eq_str(d, "()Z") {
        return Some(Some(Value::Int(0)));
    }
    if eq_str(n, "isTerminating") && eq_str(d, "()Z") {
        return Some(Some(Value::Int(0)));
    }
    if eq_str(n, "awaitTermination") && eq_str(d, "(JLjava/util/concurrent/TimeUnit;)Z") {
        return Some(Some(Value::Int(1)));
    }
    if eq_str(n, "getPoolSize") && eq_str(d, "()I") {
        return Some(Some(Value::Int(1)));
    }
    if eq_str(n, "getActiveThreadCount") && eq_str(d, "()I") {
        return Some(Some(Value::Int(0)));
    }
    if eq_str(n, "getStealCount") && eq_str(d, "()J") {
        return Some(Some(Value::Long(0)));
    }
    if eq_str(n, "getQueuedTaskCount") && eq_str(d, "()J") {
        return Some(Some(Value::Long(0)));
    }
    if eq_str(n, "getQueuedSubmissionCount") && eq_str(d, "()I") {
        return Some(Some(Value::Int(0)));
    }
    if eq_str(n, "hasQueuedSubmissions") && eq_str(d, "()Z") {
        return Some(Some(Value::Int(0)));
    }
    if eq_str(n, "commonPool") && eq_str(d, "()Ljava/util/concurrent/ForkJoinPool;") {
        return Some(Some(Value::Reference(Reference::Null)));
    }
    if eq_str(n, "<init>") && eq_str(d, "(I)V") {
        return Some(None);
    }
    if eq_str(n, "<init>") && eq_str(d, "(ILjava/util/concurrent/ForkJoinPool$Factory;)V") {
        return Some(None);
    }
    if eq_str(n, "<init>") && eq_str(d, "(ILjava/util/concurrent/ForkJoinPool$Factory;Ljava/util/concurrent/RejectedExecutionHandler;Z)V") {
        return Some(None);
    }
    None
}

/// `ForkJoinTask`.
pub open spec fn fork_join_task_stub(n: Seq<char>, d: Seq<char>) -> Option<Option<Value>> {
    if n == "fork"@ && d == "()Ljava/util/concurrent/ForkJoinTask;"@ {
        Some(Some(Value::Reference(Reference::Null)))
    } else if n == "join"@ && d == "()Ljava/lang/Object;"@ {
        Some(Some(Value::Reference(Reference::Null)))
    } else if n == "invoke"@ && d == "()Ljava/lang/Object;"@ {
        Some(Some(Value::Reference(Reference::Null)))
    } else if n == "cancel"@ && d == "(Z)Z"@ {
        Some(Some(Value::Int(0)))
    } else if n == "isDone"@ && d == "()Z"@ {
        Some(Some(Value::Int(1)))
    } else if n == "isCompletedNormally"@ && d == "()Z"@ {
        Some(Some(Value::Int(1)))
    } else if n == "isCompletedAbnormally"@ && d == "()Z"@ {
        Some(Some(Value::Int(0)))
    } else if n == "isCancelled"@ && d == "()Z"@ {
        Some(Some(Value::Int(0)))
    } else if n == "quietlyJoin"@ && d == "()V"@ {
        Some(None)
    } else if n == "quietlyFork"@ && d == "()V"@ {
        Some(None)
    } else if n == "get"@ && d == "()Ljava/lang/Object;"@ {
        Some(Some(Value::Reference(Reference::Null)))
    } else if n == "get"@ && d == "(JLjava/util/concurrent/TimeUnit;)Ljava/lang/Object;"@ {
        Some(Some(Value::Reference(Reference::Null)))
    } else {
        None
    }
}

fn fork_join_task_answer(n: &[char], d: &[char]) -> (res: Option<Option<Value>>)
    ensures
        res == fork_join_task_stub(n@, d@),
{
    if eq_str(n, "fork") && eq_str(d, "()Ljava/util/concurrent/ForkJoinTask;") {
        return Some(Some(Value::Reference(Reference::Null)));
    }
    if eq_str(n, "join") && eq_str(d, "()Ljava/lang/Object;") {
        return Some(Some(Value::Reference(Reference::Null)));
    }
    if eq_str(n, "invoke") && eq_str(d, "()Ljava/lang/Object;") {
        return Some(Some(Value::Reference(Reference::Null)));
    }
    if eq_str(n, "cancel") && eq_str(d, "(Z)Z") {
        return Some(Some(Value::Int(0)));
    }
    if eq_str(n, "isDone") && eq_str(d, "()Z") {
        return Some(Some(Value::Int(1)));
    }
    if eq_str(n, "isCompletedNormally") && eq_str(d, "()Z") {
        return Some(Some(Value::Int(1)));
    }
    if eq_str(n, "isCompletedAbnormally") && eq_str(d, "()Z") {
        return Some(Some(Value::Int(0)));
    }
    if eq_str(n, "isCancelled") && eq_str(d, "()Z") {
        return Some(Some(Value::Int(0)));
    }
    if eq_str(n, "quietlyJoin") && eq_str(d, "()V") {
        return Some(None);
    }
    if eq_str(n, "quietlyFork") && eq_str(d, "()V") {
        return Some(None);
    }
    if eq_str(n, "get") && eq_str(d, "()Ljava/lang/Object;") {
        return Some(Some(Value::Reference(Reference::Null)));
    }
    if eq_str(n, "get") && eq_str(d, "(JLjava/util/concurrent/TimeUnit;)Ljava/lang/Object;") {
        return Some(Some(Value::Reference(Reference::Null)));
    }
    None
}

/// `CountedCompleter`.
pub open spec fn counted_completer_stub(n: Seq<char>, d: Seq<char>) -> Option<Option<Value>> {
    if n == "compute"@ && d == "()V"@ {
        Some(None)
    } else if n == "onCompletion"@ && d == "(Ljava/util/concurrent/CountedCompleter;)V"@ {
        Some(None)
    } else if n == "getRawResult"@ && d == "()Ljava/lang/Object;"@ {
        Some(Some(Value::Reference(Reference::Null)))
    } else {
        None
    }
}

fn counted_completer_answer(n: &[char], d: &[char]) -> (res: Option<Option<Value>>)
    ensures
        res == counted_completer_stub(n@, d@),
{
    if eq_str(n, "compute") && eq_str(d, "()V") {
        return Some(None);
    }
    if eq_str(n, "onCompletion") && eq_str(d, "(Ljava/util/concurrent/CountedCompleter;)V") {
        return Some(None);
    }
    if eq_str(n, "getRawResult") && eq_str(d, "()Ljava/lang/Object;") {
        return Some(Some(Value::Reference(Reference::Null)));
    }
    None
}

/// `RecursiveTask`.
pub open spec fn recursive_task_stub(n: Seq<char>, d: Seq<char>) -> Option<Option<Value>> {
    if n == "compute"@ && d == "()Ljava/lang/Object;"@ {
        Some(Some(Value::Reference(Reference::Null)))
    } else if n == "getRawResult"@ && d == "()Ljava/lang/Object;"@ {
        Some(Some(Value::Reference(Reference::Null)))
    } else {
        None
    }
}

fn recursive_task_answer(n: &[char], d: &[char]) -> (res: Option<Option<Value>>)
    ensures
        res == recursive_task_stub(n@, d@),
{
    if eq_str(n, "compute") && eq_str(d, "()Ljava/lang/Object;") {
        return Some(Some(Value::Reference(Reference::Null)));
    }
    if eq_str(n, "getRawResult") && eq_str(d, "()Ljava/lang/Object;") {
        return Some(Some(Value::Reference(Reference::Null)));
    }
    None
}

/// `RecursiveAction`.
pub open spec fn recursive_action_stub(n: Seq<char>, d: Seq<char>) -> Option<Option<Value>> {
    if n == "compute"@ && d == "()V"@ {
        Some(None)
    } else if n == "getRawResult"@ && d == "()Ljava/lang/Object;"@ {
        Some(None)
    } else {
        None
    }
}

fn recursive_action_answer(n: &[char], d: &[char]) -> (res: Option<Option<Value>>)
    ensures
        res == recursive_action_stub(n@, d@),
{
    if eq_str(n, "compute") && eq_str(d, "()V") {
        return Some(None);
    }
    if eq_str(n, "getRawResult") && eq_str(d, "()Ljava/lang/Object;") {
        return Some(None);
    }
    None
}

/// `SubmissionPublisher`.
pub open spec fn submission_publisher_stub(n: Seq<char>, d: Seq<char>) -> Option<Option<Value>> {
    if n == "submit"@ && d == "(Ljava/lang/Object;)I"@ {
        Some(Some(Value::Int(0)))
    } else if n == "offer"@ && d == "(Ljava/lang/Object;Ljava/util/concurrent/TimeUnit;)I"@ {
        Some(Some(Value::Int(0)))
    } else if n == "close"@ && d == "()V"@ {
        Some(None)
    } else if n == "isClosed"@ && d == "()Z"@ {
        Some(Some(Value::Int(0)))
    } else if n == "hasSubscribers"@ && d == "()Z"@ {
        Some(Some(Value::Int(0)))
    } else if n == "getSubscriberCount"@ && d == "()I"@ {
        Some(Some(Value::Int(0)))
    } else if n == "<init>"@ && d == "()V"@ {
        Some(None)
    } else if n == "<init>"@ && d == "(Ljava/util/concurrent/ExecutorService;I)V"@ {
        Some(None)
    } else {
        None
    }
}

fn submission_publisher_answer(n: &[char], d: &[char]) -> (res: Option<Option<Value>>)
    ensures
        res == submission_publisher_stub(n@, d@),
{
    if eq_str(n, "submit") && eq_str(d, "(Ljava/lang/Object;)I") {
        return Some(Some(Value::Int(0)));
    }
    if eq_str(n, "offer") && eq_str(d, "(Ljava/lang/Object;Ljava/util/concurrent/TimeUnit;)I") {
        return Some(Some(Value::Int(0)));
    }
    if eq_str(n, "close") && eq_str(d, "()V") {
        return Some(None);
    }
    if eq_str(n, "isClosed") && eq_str(d, "()Z") {
        return Some(Some(Value::Int(0)));
    }
    if eq_str(n, "hasSubscribers") && eq_str(d, "()Z") {
        return Some(Some(Value::Int(0)));
    }
    if eq_str(n, "getSubscriberCount") && eq_str(d, "()I") {
        return Some(Some(Value::Int(0)));
    }
    if eq_str(n, "<init>") && eq_str(d, "()V") {
        return Some(None);
    }
    if eq_str(n, "<init>") && eq_str(d, "(Ljava/util/concurrent/ExecutorService;I)V") {
        return Some(None);
    }
    None
}

/// `Flow.Publisher`.
pub open spec fn flow_publisher_stub(n: Seq<char>, d: Seq<char>) -> Option<Option<Value>> {
    if n == "subscribe"@ && d == "(Ljava/util/concurrent/Flow$Subscriber;)V"@ {
        Some(None)
    } else {
        None
    }
}

fn flow_publisher_answer(n: &[char], d: &[char]) -> (res: Option<Option<Value>>)
    ensures
        res == flow_publisher_stub(n@, d@),
{
    if eq_str(n, "subscribe") && eq_str(d, "(Ljava/util/concurrent/Flow$Subscriber;)V") {
        return Some(None);
    }
    None
}

/// `Flow.Subscriber`.
pub open spec fn flow_subscriber_stub(n: Seq<char>, d: Seq<char>) -> Option<Option<Value>> {
    if n == "onNext"@ && d == "(Ljava/lang/Object;)V"@ {
        Some(None)
    } else if n == "onError"@ && d == "(Ljava/lang/Throwable;)V"@ {
        Some(None)
    } else if n == "onComplete"@ && d == "()V"@ {
        Some(None)
    } else if n == "onSubscribe"@ && d == "(Ljava/util/concurrent/Flow$Subscription;)V"@ {
        Some(None)
    } else {
        None
    }
}

fn flow_subscriber_answer(n: &[char], d: &[char]) -> (res: Option<Option<Value>>)
    ensures
        res == flow_subscriber_stub(n@, d@),
{
    if eq_str(n, "onNext") && eq_str(d, "(Ljava/lang/Object;)V") {
        return Some(None);
    }
    if eq_str(n, "onError") && eq_str(d, "(Ljava/lang/Throwable;)V") {
        return Some(None);
    }
    if eq_str(n, "onComplete") && eq_str(d, "()V") {
        return Some(None);
    }
    if eq_str(n, "onSubscribe") && eq_str(d, "(Ljava/util/concurrent/Flow$Subscription;)V") {
        return Some(None);
    }
    None
}

/// `Flow.Subscription`.
pub open spec fn flow_subscription_stub(n: Seq<char>, d: Seq<char>) -> Option<Option<Value>> {
    if n == "request"@ && d == "(J)V"@ {
        Some(None)
    } else if n == "cancel"@ && d == "()V"@ {
        Some(None)
    } else {
        None
    }
}

fn flow_subscription_answer(n: &[char], d: &[char]) -> (res: Option<Option<Value>>)
    ensures
        res == flow_subscription_stub(n@, d@),
{
    if eq_str(n, "request") && eq_str(d, "(J)V") {
        return Some(None);
    }
    if eq_str(n, "cancel") && eq_str(d, "()V") {
        return Some(None);
    }
    None
}

/// `Flow.Processor`.
pub open spec fn flow_processor_stub(n: Seq<char>, d: Seq<char>) -> Option<Option<Value>> {
    if n == "onNext"@ && d == "(Ljava/lang/Object;)V"@ {
        Some(None)
    } else if n == "onError"@ && d == "(Ljava/lang/Throwable;)V"@ {
        Some(None)
    } else if n == "onComplete"@ && d == "()V"@ {
        Some(None)
    } else if n == "onSubscribe"@ && d == "(Ljava/util/concurrent/Flow$Subscription;)V"@ {
        Some(None)
    } else {
        None
    }
}

fn flow_processor_answer(n: &[char], d: &[char]) -> (res: Option<Option<Value>>)
    ensures
        res == flow_processor_stub(n@, d@),
{
    if eq_str(n, "onNext") && eq_str(d, "(Ljava/lang/Object;)V") {
        return Some(None);
    }
    if eq_str(n, "onError") && eq_str(d, "(Ljava/lang/Throwable;)V") {
        return Some(None);
    }
    if eq_str(n, "onComplete") && eq_str(d, "()V") {
        return Some(None);
    }
    if eq_str(n, "onSubscribe") && eq_str(d, "(Ljava/util/concurrent/Flow$Subscription;)V") {
        return Some(None);
    }
    None
}

/// `StampedLock`.
pub open spec fn stamped_lock_stub(n: Seq<char>, d: Seq<char>) -> Option<Option<Value>> {
    if n == "readLock"@ && d == "()J"@ {
        Some(Some(Value::Long(0)))
    } else if n == "writeLock"@ && d == "()J"@ {
        Some(Some(Value::Long(0)))
    } else if n == "tryReadLock"@ && d == "()J"@ {
        Some(Some(Value::Long(0)))
    } else if n == "tryWriteLock"@ && d == "()J"@ {
        Some(Some(Value::Long(0)))
    } else if n == "unlockRead"@ && d == "(J)V"@ {
        Some(None)
    } else if n == "unlockWrite"@ && d == "(J)V"@ {
        Some(None)
    } else if n == "unlock"@ && d == "(J)V"@ {
        Some(None)
    } else if n == "tryConvertToReadLock"@ && d == "(J)J"@ {
        Some(Some(Value::Long(0)))
    } else if n == "tryConvertToWriteLock"@ && d == "(J)J"@ {
        Some(Some(Value::Long(0)))
    } else if n == "isReadLocked"@ && d == "()Z"@ {
        Some(Some(Value::Int(0)))
    } else if n == "isWriteLocked"@ && d == "()Z"@ {
        Some(Some(Value::Int(0)))
    } else if n == "getReadLockCount"@ && d == "()I"@ {
        Some(Some(Value::Int(0)))
    } else if n == "validate"@ && d == "(J)Z"@ {
        Some(Some(Value::Int(1)))
    } else if n == "<init>"@ && d == "()V"@ {
        Some(None)
    } else {
        None
    }
}

fn stamped_lock_answer(n: &[char], d: &[char]) -> (res: Option<Option<Value>>)
    ensures
        res == stamped_lock_stub(n@, d@),
{
    if eq_str(n, "readLock") && eq_str(d, "()J") {
        return Some(Some(Value::Long(0)));
    }
    if eq_str(n, "writeLock") && eq_str(d, "()J") {
        return Some(Some(Value::Long(0)));
    }
    if eq_str(n, "tryReadLock") && eq_str(d, "()J") {
        return Some(Some(Value::Long(0)));
    }
    if eq_str(n, "tryWriteLock") && eq_str(d, "()J") {
        return Some(Some(Value::Long(0)));
    }
    if eq_str(n, "unlockRead") && eq_str(d, "(J)V") {
        return Some(None);
    }
    if eq_str(n, "unlockWrite") && eq_str(d, "(J)V") {
        return Some(None);
    }
    if eq_str(n, "unlock") && eq_str(d, "(J)V") {
        return Some(None);
    }
    if eq_str(n, "tryConvertToReadLock") && eq_str(d, "(J)J") {
        return Some(Some(Value::Long(0)));
    }
    if eq_str(n, "tryConvertToWriteLock") && eq_str(d, "(J)J") {
        return Some(Some(Value::Long(0)));
    }
    if eq_str(n, "isReadLocked") && eq_str(d, "()Z") {
        return Some(Some(Value::Int(0)));
    }
    if eq_str(n, "isWriteLocked") && eq_str(d, "()Z") {
        return Some(Some(Value::Int(0)));
    }
    if eq_str(n, "getReadLockCount") && eq_str(d, "()I") {
        return Some(Some(Value::Int(0)));
    }
    if eq_str(n, "validate") && eq_str(d, "(J)Z") {
        return Some(Some(Value::Int(1)));
    }
    if eq_str(n, "<init>") && eq_str(d, "()V") {
        return Some(None);
    }
    None
}

/// `VarHandle`.
pub open spec fn var_handle_stub(n: Seq<char>, d: Seq<char>) -> Option<Option<Value>> {
    if n == "get"@ && d == "(Ljava/lang/Object;)Ljava/lang/Object;"@ {
        Some(Some(Value::Reference(Reference::Null)))
    } else if n == "set"@ && d == "(Ljava/lang/Object;Ljava/lang/Object;)V"@ {
        Some(None)
    } else if n == "compareAndSet"@ && d == "(Ljava/lang/Object;Ljava/lang/Object;Ljava/lang/Object;)Z"@ {
        Some(Some(Value::Int(0)))
    } else if n == "weakCompareAndSet"@ && d == "(Ljava/lang/Object;Ljava/lang/Object;Ljava/lang/Object;)Z"@ {
        Some(Some(Value::Int(0)))
    } else if n == "getAndSet"@ && d == "(Ljava/lang/Object;Ljava/lang/Object;)Ljava/lang/Object;"@ {
        Some(Some(Value::Reference(Reference::Null)))
    } else {
        None
    }
}

fn var_handle_answer(n: &[char], d: &[char]) -> (res: Option<Option<Value>>)
    ensures
        res == var_handle_stub(n@, d@),
{
    if eq_str(n, "get") && eq_str(d, "(Ljava/lang/Object;)Ljava/lang/Object;") {
        return Some(Some(Value::Reference(Reference::Null)));
    }
    if eq_str(n, "set") && eq_str(d, "(Ljava/lang/Object;Ljava/lang/Object;)V") {
        return Some(None);
    }
    if eq_str(n, "compareAndSet") && eq_str(d, "(Ljava/lang/Object;Ljava/lang/Object;Ljava/lang/Object;)Z") {
        return Some(Some(Value::Int(0)));
    }
    if eq_str(n, "weakCompareAndSet") && eq_str(d, "(Ljava/lang/Object;Ljava/lang/Object;Ljava/lang/Object;)Z") {
        return Some(Some(Value::Int(0)));
    }
    if eq_str(n, "getAndSet") && eq_str(d, "(Ljava/lang/Object;Ljava/lang/Object;)Ljava/lang/Object;") {
        return Some(Some(Value::Reference(Reference::Null)));
    }
    None
}

/// `ConcurrentLinkedDeque`.
pub open spec fn concurrent_linked_deque_stub(n: Seq<char>, d: Seq<char>) -> Option<Option<Value>> {
    if n == "addFirst"@ && d == "(Ljava/lang/Object;)V"@ {
        Some(None)
    } else if n == "addLast"@ && d == "(Ljava/lang/Object;)V"@ {
        Some(None)
    } else if n == "offerFirst"@ && d == "(Ljava/lang/Object;)Z"@ {
        Some(Some(Value::Int(1)))
    } else if n == "offerLast"@ && d == "(Ljava/lang/Object;)Z"@ {
        Some(Some(Value::Int(1)))
    } else if n == "pollFirst"@ && d == "()Ljava/lang/Object;"@ {
        Some(Some(Value::Reference(Reference::Null)))
    } else if n == "pollLast"@ && d == "()Ljava/lang/Object;"@ {
        Some(Some(Value::Reference(Reference::Null)))
    } else if n == "peekFirst"@ && d == "()Ljava/lang/Object;"@ {
        Some(Some(Value::Reference(Reference::Null)))
    } else if n == "peekLast"@ && d == "()Ljava/lang/Object;"@ {
        Some(Some(Value::Reference(Reference::Null)))
    } else if n == "removeFirst"@ && d == "()Ljava/lang/Object;"@ {
        Some(Some(Value::Reference(Reference::Null)))
    } else if n == "removeLast"@ && d == "()Ljava/lang/Object;"@ {
        Some(Some(Value::Reference(Reference::Null)))
    } else if n == "size"@ && d == "()I"@ {
        Some(Some(Value::Int(0)))
    } else if n == "isEmpty"@ && d == "()Z"@ {
        Some(Some(Value::Int(1)))
    } else if n == "<init>"@ && d == "()V"@ {
        Some(None)
    } else if n == "<init>"@ && d == "(Ljava/util/Collection;)V"@ {
        Some(None)
    } else {
        None
    }
}

fn concurrent_linked_deque_answer(n: &[char], d: &[char]) -> (res: Option<Option<Value>>)
    ensures
        res == concurrent_linked_deque_stub(n@, d@),
{
    if eq_str(n, "addFirst") && eq_str(d, "(Ljava/lang/Object;)V") {
        return Some(None);
    }
    if eq_str(n, "addLast") && eq_str(d, "(Ljava/lang/Object;)V") {
        return Some(None);
    }
    if eq_str(n, "offerFirst") && eq_str(d, "(Ljava/lang/Object;)Z") {
        return Some(Some(Value::Int(1)));
    }
    if eq_str(n, "offerLast") && eq_str(d, "(Ljava/lang/Object;)Z") {
        return Some(Some(Value::Int(1)));
    }
    if eq_str(n, "pollFirst") && eq_str(d, "()Ljava/lang/Object;") {
        return Some(Some(Value::Reference(Reference::Null)));
    }
    if eq_str(n, "pollLast") && eq_str(d, "()Ljava/lang/Object;") {
        return Some(Some(Value::Reference(Reference::Null)));
    }
    if eq_str(n, "peekFirst") && eq_str(d, "()Ljava/lang/Object;") {
        return Some(Some(Value::Reference(Reference::Null)));
    }
    if eq_str(n, "peekLast") && eq_str(d, "()Ljava/lang/Object;") {
        return Some(Some(Value::Reference(Reference::Null)));
    }
    if eq_str(n, "removeFirst") && eq_str(d, "()Ljava/lang/Object;") {
        return Some(Some(Value::Reference(Reference::Null)));
    }
    if eq_str(n, "removeLast") && eq_str(d, "()Ljava/lang/Object;") {
        return Some(Some(Value::Reference(Reference::Null)));
    }
    if eq_str(n, "size") && eq_str(d, "()I") {
        return Some(Some(Value::Int(0)));
    }
    if eq_str(n, "isEmpty") && eq_str(d, "()Z") {
        return Some(Some(Value::Int(1)));
    }
    if eq_str(n, "<init>") && eq_str(d, "()V") {
        return Some(None);
    }
    if eq_str(n, "<init>") && eq_str(d, "(Ljava/util/Collection;)V") {
        return Some(None);
    }
    None
}

/// `LinkedBlockingQueue`.
pub open spec fn linked_blocking_queue_stub(n: Seq<char>, d: Seq<char>) -> Option<Option<Value>> {
    if n == "offer"@ && d == "(Ljava/lang/Object;)Z"@ {
        Some(Some(Value::Int(1)))
    } else if n == "offer"@ && d == "(Ljava/lang/Object;JLjava/util/concurrent/TimeUnit;)Z"@ {
        Some(Some(Value::Int(1)))
    } else if n == "poll"@ && d == "()Ljava/lang/Object;"@ {
        Some(Some(Value::Reference(Reference::Null)))
    } else if n == "poll"@ && d == "(JLjava/util/concurrent/TimeUnit;)Ljava/lang/Object;"@ {
        Some(Some(Value::Reference(Reference::Null)))
    } else if n == "take"@ && d == "()Ljava/lang/Object;"@ {
        Some(Some(Value::Reference(Reference::Null)))
    } else if n == "peek"@ && d == "()Ljava/lang/Object;"@ {
        Some(Some(Value::Reference(Reference::Null)))
    } else if n == "size"@ && d == "()I"@ {
        Some(Some(Value::Int(0)))
    } else if n == "isEmpty"@ && d == "()Z"@ {
        Some(Some(Value::Int(1)))
    } else if n == "remainingCapacity"@ && d == "()I"@ {
        Some(Some(Value::Int(0)))
    } else if n == "clear"@ && d == "()V"@ {
        Some(None)
    } else if n == "contains"@ && d == "(Ljava/lang/Object;)Z"@ {
        Some(Some(Value::Int(0)))
    } else if n == "<init>"@ && d == "()V"@ {
        Some(None)
    } else if n == "<init>"@ && d == "(I)V"@ {
        Some(None)
    } else if n == "<init>"@ && d == "(Ljava/util/Collection;)V"@ {
        Some(None)
    } else {
        None
    }
}

fn linked_blocking_queue_answer(n: &[char], d: &[char]) -> (res: Option<Option<Value>>)
    ensures
        res == linked_blocking_queue_stub(n@, d@),
{
    if eq_str(n, "offer") && eq_str(d, "(Ljava/lang/Object;)Z") {
        return Some(Some(Value::Int(1)));
    }
    if eq_str(n, "offer") && eq_str(d, "(Ljava/lang/Object;JLjava/util/concurrent/TimeUnit;)Z") {
        return Some(Some(Value::Int(1)));
    }
    if eq_str(n, "poll") && eq_str(d, "()Ljava/lang/Object;") {
        return Some(Some(Value::Reference(Reference::Null)));
    }
    if eq_str(n, "poll") && eq_str(d, "(JLjava/util/concurrent/TimeUnit;)Ljava/lang/Object;") {
        return Some(Some(Value::Reference(Reference::Null)));
    }
    if eq_str(n, "take") && eq_str(d, "()Ljava/lang/Object;") {
        return Some(Some(Value::Reference(Reference::Null)));
    }
    if eq_str(n, "peek") && eq_str(d, "()Ljava/lang/Object;") {
        return Some(Some(Value::Reference(Reference::Null)));
    }
    if eq_str(n, "size") && eq_str(d, "()I") {
        return Some(Some(Value::Int(0)));
    }
    if eq_str(n, "isEmpty") && eq_str(d, "()Z") {
        return Some(Some(Value::Int(1)));
    }
    if eq_str(n, "remainingCapacity") && eq_str(d, "()I") {
        return Some(Some(Value::Int(0)));
    }
    if eq_str(n, "clear") && eq_str(d, "()V") {
        return Some(None);
    }
    if eq_str(n, "contains") && eq_str(d, "(Ljava/lang/Object;)Z") {
        return Some(Some(Value::Int(0)));
    }
    if eq_str(n, "<init>") && eq_str(d, "()V") {
        return Some(None);
    }
    if eq_str(n, "<init>") && eq_str(d, "(I)V") {
        return Some(None);
    }
    if eq_str(n, "<init>") && eq_str(d, "(Ljava/util/Collection;)V") {
        return Some(None);
    }
    None
}

/// `SynchronousQueue`.
pub open spec fn synchronous_queue_stub(n: Seq<char>, d: Seq<char>) -> Option<Option<Value>> {
    if n == "offer"@ && d == "(Ljava/lang/Object;)Z"@ {
        Some(Some(Value::Int(0)))
    } else if n == "offer"@ && d == "(Ljava/lang/Object;JLjava/util/concurrent/TimeUnit;)Z"@ {
        Some(Some(Value::Int(0)))
    } else if n == "poll"@ && d == "()Ljava/lang/Object;"@ {
        Some(Some(Value::Reference(Reference::Null)))
    } else if n == "poll"@ && d == "(JLjava/util/concurrent/TimeUnit;)Ljava/lang/Object;"@ {
        Some(Some(Value::Reference(Reference::Null)))
    } else if n == "isEmpty"@ && d == "()Z"@ {
        Some(Some(Value::Int(1)))
    } else if n == "size"@ && d == "()I"@ {
        Some(Some(Value::Int(0)))
    } else if n == "<init>"@ && d == "()V"@ {
        Some(None)
    } else if n == "<init>"@ && d == "(Z)V"@ {
        Some(None)
    } else {
        None
    }
}

fn synchronous_queue_answer(n: &[char], d: &[char]) -> (res: Option<Option<Value>>)
    ensures
        res == synchronous_queue_stub(n@, d@),
{
    if eq_str(n, "offer") && eq_str(d, "(Ljava/lang/Object;)Z") {
        return Some(Some(Value::Int(0)));
    }
    if eq_str(n, "offer") && eq_str(d, "(Ljava/lang/Object;JLjava/util/concurrent/TimeUnit;)Z") {
        return Some(Some(Value::Int(0)));
    }
    if eq_str(n, "poll") && eq_str(d, "()Ljava/lang/Object;") {
        return Some(Some(Value::Reference(Reference::Null)));
    }
    if eq_str(n, "poll") && eq_str(d, "(JLjava/util/concurrent/TimeUnit;)Ljava/lang/Object;") {
        return Some(Some(Value::Reference(Reference::Null)));
    }
    if eq_str(n, "isEmpty") && eq_str(d, "()Z") {
        return Some(Some(Value::Int(1)));
    }
    if eq_str(n, "size") && eq_str(d, "()I") {
        return Some(Some(Value::Int(0)));
    }
    if eq_str(n, "<init>") && eq_str(d, "()V") {
        return Some(None);
    }
    if eq_str(n, "<init>") && eq_str(d, "(Z)V") {
        return Some(None);
    }
    None
}

/// `PriorityBlockingQueue`.
pub open spec fn priority_blocking_queue_stub(n: Seq<char>, d: Seq<char>) -> Option<Option<Value>> {
    if n == "offer"@ && d == "(Ljava/lang/Object;)Z"@ {
        Some(Some(Value::Int(1)))
    } else if n == "offer"@ && d == "(Ljava/lang/Object;JLjava/util/concurrent/TimeUnit;)Z"@ {
        Some(Some(Value::Int(1)))
    } else if n == "poll"@ && d == "()Ljava/lang/Object;"@ {
        Some(Some(Value::Reference(Reference::Null)))
    } else if n == "poll"@ && d == "(JLjava/util/concurrent/TimeUnit;)Ljava/lang/Object;"@ {
        Some(Some(Value::Reference(Reference::Null)))
    } else if n == "take"@ && d == "()Ljava/lang/Object;"@ {
        Some(Some(Value::Reference(Reference::Null)))
    } else if n == "peek"@ && d == "()Ljava/lang/Object;"@ {
        Some(Some(Value::Reference(Reference::Null)))
    } else if n == "size"@ && d == "()I"@ {
        Some(Some(Value::Int(0)))
    } else if n == "isEmpty"@ && d == "()Z"@ {
        Some(Some(Value::Int(1)))
    } else if n == "clear"@ && d == "()V"@ {
        Some(None)
    } else if n == "contains"@ && d == "(Ljava/lang/Object;)Z"@ {
        Some(Some(Value::Int(0)))
    } else if n == "<init>"@ && d == "()V"@ {
        Some(None)
    } else if n == "<init>"@ && d == "(I)V"@ {
        Some(None)
    } else if n == "<init>"@ && d == "(Ljava/util/Collection;)V"@ {
        Some(None)
    } else if n == "<init>"@ && d == "(ILjava/util/Comparator;)V"@ {
        Some(None)
    } else {
        None
    }
}

fn priority_blocking_queue_answer(n: &[char], d: &[char]) -> (res: Option<Option<Value>>)
    ensures
        res == priority_blocking_queue_stub(n@, d@),
{
    if eq_str(n, "offer") && eq_str(d, "(Ljava/lang/Object;)Z") {
        return Some(Some(Value::Int(1)));
    }
    if eq_str(n, "offer") && eq_str(d, "(Ljava/lang/Object;JLjava/util/concurrent/TimeUnit;)Z") {
        return Some(Some(Value::Int(1)));
    }
    if eq_str(n, "poll") && eq_str(d, "()Ljava/lang/Object;") {
        return Some(Some(Value::Reference(Reference::Null)));
    }
    if eq_str(n, "poll") && eq_str(d, "(JLjava/util/concurrent/TimeUnit;)Ljava/lang/Object;") {
        return Some(Some(Value::Reference(Reference::Null)));
    }
    if eq_str(n, "take") && eq_str(d, "()Ljava/lang/Object;") {
        return Some(Some(Value::Reference(Reference::Null)));
    }
    if eq_str(n, "peek") && eq_str(d, "()Ljava/lang/Object;") {
        return Some(Some(Value::Reference(Reference::Null)));
    }
    if eq_str(n, "size") && eq_str(d, "()I") {
        return Some(Some(Value::Int(0)));
    }
    if eq_str(n, "isEmpty") && eq_str(d, "()Z") {
        return Some(Some(Value::Int(1)));
    }
    if eq_str(n, "clear") && eq_str(d, "()V") {
        return Some(None);
    }
    if eq_str(n, "contains") && eq_str(d, "(Ljava/lang/Object;)Z") {
        return Some(Some(Value::Int(0)));
    }
    if eq_str(n, "<init>") && eq_str(d, "()V") {
        return Some(None);
    }
    if eq_str(n, "<init>") && eq_str(d, "(I)V") {
        return Some(None);
    }
    if eq_str(n, "<init>") && eq_str(d, "(Ljava/util/Collection;)V") {
        return Some(None);
    }
    if eq_str(n, "<init>") && eq_str(d, "(ILjava/util/Comparator;)V") {
        return Some(None);
    }
    None
}

/// `DelayQueue`.
pub open spec fn delay_queue_stub(n: Seq<char>, d: Seq<char>) -> Option<Option<Value>> {
    if n == "offer"@ && d == "(Ljava/lang/Object;)Z"@ {
        Some(Some(Value::Int(1)))
    } else if n == "offer"@ && d == "(Ljava/lang/Object;JLjava/util/concurrent/TimeUnit;)Z"@ {
        Some(Some(Value::Int(1)))
    } else if n == "poll"@ && d == "()Ljava/lang/Object;"@ {
        Some(Some(Value::Reference(Reference::Null)))
    } else if n == "poll"@ && d == "(JLjava/util/concurrent/TimeUnit;)Ljava/lang/Object;"@ {
        Some(Some(Value::Reference(Reference::Null)))
    } else if n == "take"@ && d == "()Ljava/lang/Object;"@ {
        Some(Some(Value::Reference(Reference::Null)))
    } else if n == "peek"@ && d == "()Ljava/lang/Object;"@ {
        Some(Some(Value::Reference(Reference::Null)))
    } else if n == "size"@ && d == "()I"@ {
        Some(Some(Value::Int(0)))
    } else if n == "isEmpty"@ && d == "()Z"@ {
        Some(Some(Value::Int(1)))
    } else if n == "clear"@ && d == "()V"@ {
        Some(None)
    } else if n == "contains"@ && d == "(Ljava/lang/Object;)Z"@ {
        Some(Some(Value::Int(0)))
    } else if n == "<init>"@ && d == "()V"@ {
        Some(None)
    } else if n == "<init>"@ && d == "(Ljava/util/Collection;)V"@ {
        Some(None)
    } else {
        None
    }
}

fn delay_queue_answer(n: &[char], d: &[char]) -> (res: Option<Option<Value>>)
    ensures
        res == delay_queue_stub(n@, d@),
{
    if eq_str(n, "offer") && eq_str(d, "(Ljava/lang/Object;)Z") {
        return Some(Some(Value::Int(1)));
    }
    if eq_str(n, "offer") && eq_str(d, "(Ljava/lang/Object;JLjava/util/concurrent/TimeUnit;)Z") {
        return Some(Some(Value::Int(1)));
    }
    if eq_str(n, "poll") && eq_str(d, "()Ljava/lang/Object;") {
        return Some(Some(Value::Reference(Reference::Null)));
    }
    if eq_str(n, "poll") && eq_str(d, "(JLjava/util/concurrent/TimeUnit;)Ljava/lang/Object;") {
        return Some(Some(Value::Reference(Reference::Null)));
    }
    if eq_str(n, "take") && eq_str(d, "()Ljava/lang/Object;") {
        return Some(Some(Value::Reference(Reference::Null)));
    }
    if eq_str(n, "peek") && eq_str(d, "()Ljava/lang/Object;") {
        return Some(Some(Value::Reference(Reference::Null)));
    }
    if eq_str(n, "size") && eq_str(d, "()I") {
        return Some(Some(Value::Int(0)));
    }
    if eq_str(n, "isEmpty") && eq_str(d, "()Z") {
        return Some(Some(Value::Int(1)));
    }
    if eq_str(n, "clear") && eq_str(d, "()V") {
        return Some(None);
    }
    if eq_str(n, "contains") && eq_str(d, "(Ljava/lang/Object;)Z") {
        return Some(Some(Value::Int(0)));
    }
    if eq_str(n, "<init>") && eq_str(d, "()V") {
        return Some(None);
    }
    if eq_str(n, "<init>") && eq_str(d, "(Ljava/util/Collection;)V") {
        return Some(None);
    }
    None
}

/// `LinkedBlockingDeque`.
pub open spec fn linked_blocking_deque_stub(n: Seq<char>, d: Seq<char>) -> Option<Option<Value>> {
    if n == "offerFirst"@ && d == "(Ljava/lang/Object;)Z"@ {
        Some(Some(Value::Int(1)))
    } else if n == "offerLast"@ && d == "(Ljava/lang/Object;)Z"@ {
        Some(Some(Value::Int(1)))
    } else if n == "offer"@ && d == "(Ljava/lang/Object;)Z"@ {
        Some(Some(Value::Int(1)))
    } else if n == "offer"@ && d == "(Ljava/lang/Object;JLjava/util/concurrent/TimeUnit;)Z"@ {
        Some(Some(Value::Int(1)))
    } else if n == "pollFirst"@ && d == "()Ljava/lang/Object;"@ {
        Some(Some(Value::Reference(Reference::Null)))
    } else if n == "pollLast"@ && d == "()Ljava/lang/Object;"@ {
        Some(Some(Value::Reference(Reference::Null)))
    } else if n == "poll"@ && d == "()Ljava/lang/Object;"@ {
        Some(Some(Value::Reference(Reference::Null)))
    } else if n == "poll"@ && d == "(JLjava/util/concurrent/TimeUnit;)Ljava/lang/Object;"@ {
        Some(Some(Value::Reference(Reference::Null)))
    } else if n == "takeFirst"@ && d == "()Ljava/lang/Object;"@ {
        Some(Some(Value::Reference(Reference::Null)))
    } else if n == "takeLast"@ && d == "()Ljava/lang/Object;"@ {
        Some(Some(Value::Reference(Reference::Null)))
    } else if n == "peekFirst"@ && d == "()Ljava/lang/Object;"@ {
        Some(Some(Value::Reference(Reference::Null)))
    } else if n == "peekLast"@ && d == "()Ljava/lang/Object;"@ {
        Some(Some(Value::Reference(Reference::Null)))
    } else if n == "size"@ && d == "()I"@ {
        Some(Some(Value::Int(0)))
    } else if n == "isEmpty"@ && d == "()Z"@ {
        Some(Some(Value::Int(1)))
    } else if n == "clear"@ && d == "()V"@ {
        Some(None)
    } else if n == "contains"@ && d == "(Ljava/lang/Object;)Z"@ {
        Some(Some(Value::Int(0)))
    } else if n == "<init>"@ && d == "()V"@ {
        Some(None)
    } else if n == "<init>"@ && d == "(I)V"@ {
        Some(None)
    } else if n == "<init>"@ && d == "(Ljava/util/Collection;)V"@ {
        Some(None)
    } else {
        None
    }
}

fn linked_blocking_deque_answer(n: &[char], d: &[char]) -> (res: Option<Option<Value>>)
    ensures
        res == linked_blocking_deque_stub(n@, d@),
{
    if eq_str(n, "offerFirst") && eq_str(d, "(Ljava/lang/Object;)Z") {
        return Some(Some(Value::Int(1)));
    }
    if eq_str(n, "offerLast") && eq_str(d, "(Ljava/lang/Object;)Z") {
        return Some(Some(Value::Int(1)));
    }
    if eq_str(n, "offer") && eq_str(d, "(Ljava/lang/Object;)Z") {
        return Some(Some(Value::Int(1)));
    }
    if eq_str(n, "offer") && eq_str(d, "(Ljava/lang/Object;JLjava/util/concurrent/TimeUnit;)Z") {
        return Some(Some(Value::Int(1)));
    }
    if eq_str(n, "pollFirst") && eq_str(d, "()Ljava/lang/Object;") {
        return Some(Some(Value::Reference(Reference::Null)));
    }
    if eq_str(n, "pollLast") && eq_str(d, "()Ljava/lang/Object;") {
        return Some(Some(Value::Reference(Reference::Null)));
    }
    if eq_str(n, "poll") && eq_str(d, "()Ljava/lang/Object;") {
        return Some(Some(Value::Reference(Reference::Null)));
    }
    if eq_str(n, "poll") && eq_str(d, "(JLjava/util/concurrent/TimeUnit;)Ljava/lang/Object;") {
        return Some(Some(Value::Reference(Reference::Null)));
    }
    if eq_str(n, "takeFirst") && eq_str(d, "()Ljava/lang/Object;") {
        return Some(Some(Value::Reference(Reference::Null)));
    }
    if eq_str(n, "takeLast") && eq_str(d, "()Ljava/lang/Object;") {
        return Some(Some(Value::Reference(Reference::Null)));
    }
    if eq_str(n, "peekFirst") && eq_str(d, "()Ljava/lang/Object;") {
        return Some(Some(Value::Reference(Reference::Null)));
    }
    if eq_str(n, "peekLast") && eq_str(d, "()Ljava/lang/Object;") {
        return Some(Some(Value::Reference(Reference::Null)));
    }
    if eq_str(n, "size") && eq_str(d, "()I") {
        return Some(Some(Value::Int(0)));
    }
    if eq_str(n, "isEmpty") && eq_str(d, "()Z") {
        return Some(Some(Value::Int(1)));
    }
    if eq_str(n, "clear") && eq_str(d, "()V") {
        return Some(None);
    }
    if eq_str(n, "contains") && eq_str(d, "(Ljava/lang/Object;)Z") {
        return Some(Some(Value::Int(0)));
    }
    if eq_str(n, "<init>") && eq_str(d, "()V") {
        return Some(None);
    }
    if eq_str(n, "<init>") && eq_str(d, "(I)V") {
        return Some(None);
    }
    if eq_str(n, "<init>") && eq_str(d, "(Ljava/util/Collection;)V") {
        return Some(None);
    }
    None
}

/// `AbstractExecutorService`.
pub open spec fn abstract_executor_service_stub(n: Seq<char>, d: Seq<char>) -> Option<Option<Value>> {
    if n == "submit"@ && d == "(Ljava/lang/Runnable;)Ljava/util/concurrent/Future;"@ {
        Some(Some(Value::Reference(Reference::Null)))
    } else if n == "submit"@ && d == "(Ljava/lang/Runnable;Ljava/lang/Object;)Ljava/util/concurrent/Future;"@ {
        Some(Some(Value::Reference(Reference::Null)))
    } else if n == "submit"@ && d == "(Ljava/util/concurrent/Callable;)Ljava/util/concurrent/Future;"@ {
        Some(Some(Value::Reference(Reference::Null)))
    } else if n == "invokeAll"@ && d == "(Ljava/util/Collection;)Ljava/util/List;"@ {
        Some(Some(Value::Reference(Reference::Null)))
    } else if n == "invokeAll"@ && d == "(Ljava/util/Collection;JLjava/util/concurrent/TimeUnit;)Ljava/util/List;"@ {
        Some(Some(Value::Reference(Reference::Null)))
    } else if n == "invokeAny"@ && d == "(Ljava/util/Collection;)Ljava/lang/Object;"@ {
        Some(Some(Value::Reference(Reference::Null)))
    } else if n == "invokeAny"@ && d == "(Ljava/util/Collection;JLjava/util/concurrent/TimeUnit;)Ljava/lang/Object;"@ {
        Some(Some(Value::Reference(Reference::Null)))
    } else {
        None
    }
}

fn abstract_executor_service_answer(n: &[char], d: &[char]) -> (res: Option<Option<Value>>)
    ensures
        res == abstract_executor_service_stub(n@, d@),
{
    if eq_str(n, "submit") && eq_str(d, "(Ljava/lang/Runnable;)Ljava/util/concurrent/Future;") {
        return Some(Some(Value::Reference(Reference::Null)));
    }
    if eq_str(n, "submit") && eq_str(d, "(Ljava/lang/Runnable;Ljava/lang/Object;)Ljava/util/concurrent/Future;") {
        return Some(Some(Value::Reference(Reference::Null)));
    }
    if eq_str(n, "submit") && eq_str(d, "(Ljava/util/concurrent/Callable;)Ljava/util/concurrent/Future;") {
        return Some(Some(Value::Reference(Reference::Null)));
    }
    if eq_str(n, "invokeAll") && eq_str(d, "(Ljava/util/Collection;)Ljava/util/List;") {
        return Some(Some(Value::Reference(Reference::Null)));
    }
    if eq_str(n, "invokeAll") && eq_str(d, "(Ljava/util/Collection;JLjava/util/concurrent/TimeUnit;)Ljava/util/List;") {
        return Some(Some(Value::Reference(Reference::Null)));
    }
    if eq_str(n, "invokeAny") && eq_str(d, "(Ljava/util/Collection;)Ljava/lang/Object;") {
        return Some(Some(Value::Reference(Reference::Null)));
    }
    if eq_str(n, "invokeAny") && eq_str(d, "(Ljava/util/Collection;JLjava/util/concurrent/TimeUnit;)Ljava/lang/Object;") {
        return Some(Some(Value::Reference(Reference::Null)));
    }
    None
}

/// `CompletionStage`.
pub open spec fn completion_stage_stub(n: Seq<char>, d: Seq<char>) -> Option<Option<Value>> {
    if n == "thenApply"@ && d == "(Ljava/util/function/Function;)Ljava/util/concurrent/CompletionStage;"@ {
        Some(Some(Value::Reference(Reference::Null)))
    } else if n == "thenApplyAsync"@ && d == "(Ljava/util/function/Function;)Ljava/util/concurrent/CompletionStage;"@ {
        Some(Some(Value::Reference(Reference::Null)))
    } else if n == "thenAccept"@ && d == "(Ljava/util/function/Consumer;)Ljava/util/concurrent/CompletionStage;"@ {
        Some(Some(Value::Reference(Reference::Null)))
    } else if n == "thenAcceptAsync"@ && d == "(Ljava/util/function/Consumer;)Ljava/util/concurrent/CompletionStage;"@ {
        Some(Some(Value::Reference(Reference::Null)))
    } else if n == "thenRun"@ && d == "(Ljava/lang/Runnable;)Ljava/util/concurrent/CompletionStage;"@ {
        Some(Some(Value::Reference(Reference::Null)))
    } else if n == "thenRunAsync"@ && d == "(Ljava/lang/Runnable;)Ljava/util/concurrent/CompletionStage;"@ {
        Some(Some(Value::Reference(Reference::Null)))
    } else if n == "thenCombine"@ && d == "(Ljava/util/concurrent/CompletionStage;Ljava/util/function/BiFunction;)Ljava/util/concurrent/CompletionStage;"@ {
        Some(Some(Value::Reference(Reference::Null)))
    } else if n == "thenCompose"@ && d == "(Ljava/util/function/Function;)Ljava/util/concurrent/CompletionStage;"@ {
        Some(Some(Value::Reference(Reference::Null)))
    } else if n == "exceptionally"@ && d == "(Ljava/util/function/Function;)Ljava/util/concurrent/CompletionStage;"@ {
        Some(Some(Value::Reference(Reference::Null)))
    } else if n == "whenComplete"@ && d == "(Ljava/util/function/BiConsumer;)Ljava/util/concurrent/CompletionStage;"@ {
        Some(Some(Value::Reference(Reference::Null)))
    } else if n == "handle"@ && d == "(Ljava/util/function/BiFunction;)Ljava/util/concurrent/CompletionStage;"@ {
        Some(Some(Value::Reference(Reference::Null)))
    } else {
        None
    }
}

fn completion_stage_answer(n: &[char], d: &[char]) -> (res: Option<Option<Value>>)
    ensures
        res == completion_stage_stub(n@, d@),
{
    if eq_str(n, "thenApply") && eq_str(d, "(Ljava/util/function/Function;)Ljava/util/concurrent/CompletionStage;") {
        return Some(Some(Value::Reference(Reference::Null)));
    }
    if eq_str(n, "thenApplyAsync") && eq_str(d, "(Ljava/util/function/Function;)Ljava/util/concurrent/CompletionStage;") {
        return Some(Some(Value::Reference(Reference::Null)));
    }
    if eq_str(n, "thenAccept") && eq_str(d, "(Ljava/util/function/Consumer;)Ljava/util/concurrent/CompletionStage;") {
        return Some(Some(Value::Reference(Reference::Null)));
    }
    if eq_str(n, "thenAcceptAsync") && eq_str(d, "(Ljava/util/function/Consumer;)Ljava/util/concurrent/CompletionStage;") {
        return Some(Some(Value::Reference(Reference::Null)));
    }
    if eq_str(n, "thenRun") && eq_str(d, "(Ljava/lang/Runnable;)Ljava/util/concurrent/CompletionStage;") {
        return Some(Some(Value::Reference(Reference::Null)));
    }
    if eq_str(n, "thenRunAsync") && eq_str(d, "(Ljava/lang/Runnable;)Ljava/util/concurrent/CompletionStage;") {
        return Some(Some(Value::Reference(Reference::Null)));
    }
    if eq_str(n, "thenCombine") && eq_str(d, "(Ljava/util/concurrent/CompletionStage;Ljava/util/function/BiFunction;)Ljava/util/concurrent/CompletionStage;") {
        return Some(Some(Value::Reference(Reference::Null)));
    }
    if eq_str(n, "thenCompose") && eq_str(d, "(Ljava/util/function/Function;)Ljava/util/concurrent/CompletionStage;") {
        return Some(Some(Value::Reference(Reference::Null)));
    }
    if eq_str(n, "exceptionally") && eq_str(d, "(Ljava/util/function/Function;)Ljava/util/concurrent/CompletionStage;") {
        return Some(Some(Value::Reference(Reference::Null)));
    }
    if eq_str(n, "whenComplete") && eq_str(d, "(Ljava/util/function/BiConsumer;)Ljava/util/concurrent/CompletionStage;") {
        return Some(Some(Value::Reference(Reference::Null)));
    }
    if eq_str(n, "handle") && eq_str(d, "(Ljava/util/function/BiFunction;)Ljava/util/concurrent/CompletionStage;") {
        return Some(Some(Value::Reference(Reference::Null)));
    }
    None
}

/// `ConcurrentSkipListMap`.
pub open spec fn concurrent_skip_list_map_stub(n: Seq<char>, d: Seq<char>) -> Option<Option<Value>> {
    if n == "size"@ && d == "()I"@ {
        Some(Some(Value::Int(0)))
    } else if n == "isEmpty"@ && d == "()Z"@ {
        Some(Some(Value::Int(1)))
    } else if n == "get"@ && d == "(Ljava/lang/Object;)Ljava/lang/Object;"@ {
        Some(Some(Value::Reference(Reference::Null)))
    } else if n == "put"@ && d == "(Ljava/lang/Object;Ljava/lang/Object;)Ljava/lang/Object;"@ {
        Some(Some(Value::Reference(Reference::Null)))
    } else if n == "remove"@ && d == "(Ljava/lang/Object;)Ljava/lang/Object;"@ {
        Some(Some(Value::Reference(Reference::Null)))
    } else if n == "containsKey"@ && d == "(Ljava/lang/Object;)Z"@ {
        Some(Some(Value::Int(0)))
    } else if n == "clear"@ && d == "()V"@ {
        Some(None)
    } else if n == "firstKey"@ && d == "()Ljava/lang/Object;"@ {
        Some(Some(Value::Reference(Reference::Null)))
    } else if n == "lastKey"@ && d == "()Ljava/lang/Object;"@ {
        Some(Some(Value::Reference(Reference::Null)))
    } else if n == "<init>"@ && d == "()V"@ {
        Some(None)
    } else if n == "<init>"@ && d == "(Ljava/util/Comparator;)V"@ {
        Some(None)
    } else if n == "<init>"@ && d == "(Ljava/util/Map;)V"@ {
        Some(None)
    } else {
        None
    }
}

fn concurrent_skip_list_map_answer(n: &[char], d: &[char]) -> (res: Option<Option<Value>>)
    ensures
        res == concurrent_skip_list_map_stub(n@, d@),
{
    if eq_str(n, "size") && eq_str(d, "()I") {
        return Some(Some(Value::Int(0)));
    }
    if eq_str(n, "isEmpty") && eq_str(d, "()Z") {
        return Some(Some(Value::Int(1)));
    }
    if eq_str(n, "get") && eq_str(d, "(Ljava/lang/Object;)Ljava/lang/Object;") {
        return Some(Some(Value::Reference(Reference::Null)));
    }
    if eq_str(n, "put") && eq_str(d, "(Ljava/lang/Object;Ljava/lang/Object;)Ljava/lang/Object;") {
        return Some(Some(Value::Reference(Reference::Null)));
    }
    if eq_str(n, "remove") && eq_str(d, "(Ljava/lang/Object;)Ljava/lang/Object;") {
        return Some(Some(Value::Reference(Reference::Null)));
    }
    if eq_str(n, "containsKey") && eq_str(d, "(Ljava/lang/Object;)Z") {
        return Some(Some(Value::Int(0)));
    }
    if eq_str(n, "clear") && eq_str(d, "()V") {
        return Some(None);
    }
    if eq_str(n, "firstKey") && eq_str(d, "()Ljava/lang/Object;") {
        return Some(Some(Value::Reference(Reference::Null)));
    }
    if eq_str(n, "lastKey") && eq_str(d, "()Ljava/lang/Object;") {
        return Some(Some(Value::Reference(Reference::Null)));
    }
    if eq_str(n, "<init>") && eq_str(d, "()V") {
        return Some(None);
    }
    if eq_str(n, "<init>") && eq_str(d, "(Ljava/util/Comparator;)V") {
        return Some(None);
    }
    if eq_str(n, "<init>") && eq_str(d, "(Ljava/util/Map;)V") {
        return Some(None);
    }
    None
}

/// `ConcurrentSkipListSet`.
pub open spec fn concurrent_skip_list_set_stub(n: Seq<char>, d: Seq<char>) -> Option<Option<Value>> {
    if n == "size"@ && d == "()I"@ {
        Some(Some(Value::Int(0)))
    } else if n == "isEmpty"@ && d == "()Z"@ {
        Some(Some(Value::Int(1)))
    } else if n == "add"@ && d == "(Ljava/lang/Object;)Z"@ {
        Some(Some(Value::Int(1)))
    } else if n == "remove"@ && d == "(Ljava/lang/Object;)Z"@ {
        Some(Some(Value::Int(0)))
    } else if n == "contains"@ && d == "(Ljava/lang/Object;)Z"@ {
        Some(Some(Value::Int(0)))
    } else if n == "clear"@ && d == "()V"@ {
        Some(None)
    } else if n == "first"@ && d == "()Ljava/lang/Object;"@ {
        Some(Some(Value::Reference(Reference::Null)))
    } else if n == "last"@ && d == "()Ljava/lang/Object;"@ {
        Some(Some(Value::Reference(Reference::Null)))
    } else if n == "<init>"@ && d == "()V"@ {
        Some(None)
    } else if n == "<init>"@ && d == "(Ljava/util/Comparator;)V"@ {
        Some(None)
    } else if n == "<init>"@ && d == "(Ljava/util/Collection;)V"@ {
        Some(None)
    } else if n == "<init>"@ && d == "(Ljava/util/SortedSet;)V"@ {
        Some(None)
    } else {
        None
    }
}

fn concurrent_skip_list_set_answer(n: &[char], d: &[char]) -> (res: Option<Option<Value>>)
    ensures
        res == concurrent_skip_list_set_stub(n@, d@),
{
    if eq_str(n, "size") && eq_str(d, "()I") {
        return Some(Some(Value::Int(0)));
    }
    if eq_str(n, "isEmpty") && eq_str(d, "()Z") {
        return Some(Some(Value::Int(1)));
    }
    if eq_str(n, "add") && eq_str(d, "(Ljava/lang/Object;)Z") {
        return Some(Some(Value::Int(1)));
    }
    if eq_str(n, "remove") && eq_str(d, "(Ljava/lang/Object;)Z") {
        return Some(Some(Value::Int(0)));
    }
    if eq_str(n, "contains") && eq_str(d, "(Ljava/lang/Object;)Z") {
        return Some(Some(Value::Int(0)));
    }
    if eq_str(n, "clear") && eq_str(d, "()V") {
        return Some(None);
    }
    if eq_str(n, "first") && eq_str(d, "()Ljava/lang/Object;") {
        return Some(Some(Value::Reference(Reference::Null)));
    }
    if eq_str(n, "last") && eq_str(d, "()Ljava/lang/Object;") {
        return Some(Some(Value::Reference(Reference::Null)));
    }
    if eq_str(n, "<init>") && eq_str(d, "()V") {
        return Some(None);
    }
    if eq_str(n, "<init>") && eq_str(d, "(Ljava/util/Comparator;)V") {
        return Some(None);
    }
    if eq_str(n, "<init>") && eq_str(d, "(Ljava/util/Collection;)V") {
        return Some(None);
    }
    if eq_str(n, "<init>") && eq_str(d, "(Ljava/util/SortedSet;)V") {
        return Some(None);
    }
    None
}

/// `ConcurrentHashMap.KeySetView`.
pub open spec fn concurrent_hash_map_key_set_view_stub(n: Seq<char>, d: Seq<char>) -> Option<Option<Value>> {
    if n == "size"@ && d == "()I"@ {
        Some(Some(Value::Int(0)))
    } else if n == "isEmpty"@ && d == "()Z"@ {
        Some(Some(Value::Int(1)))
    } else if n == "contains"@ && d == "(Ljava/lang/Object;)Z"@ {
        Some(Some(Value::Int(0)))
    } else if n == "add"@ && d == "(Ljava/lang/Object;)Z"@ {
        Some(Some(Value::Int(0)))
    } else if n == "remove"@ && d == "(Ljava/lang/Object;)Z"@ {
        Some(Some(Value::Int(0)))
    } else if n == "getMap"@ && d == "()Ljava/util/concurrent/ConcurrentHashMap;"@ {
        Some(Some(Value::Reference(Reference::Null)))
    } else if n == "<init>"@ && d == "(Ljava/util/concurrent/ConcurrentHashMap;Ljava/lang/Object;)V"@ {
        Some(None)
    } else {
        None
    }
}

fn concurrent_hash_map_key_set_view_answer(n: &[char], d: &[char]) -> (res: Option<Option<Value>>)
    ensures
        res == concurrent_hash_map_key_set_view_stub(n@, d@),
{
    if eq_str(n, "size") && eq_str(d, "()I") {
        return Some(Some(Value::Int(0)));
    }
    if eq_str(n, "isEmpty") && eq_str(d, "()Z") {
        return Some(Some(Value::Int(1)));
    }
    if eq_str(n, "contains") && eq_str(d, "(Ljava/lang/Object;)Z") {
        return Some(Some(Value::Int(0)));
    }
    if eq_str(n, "add") && eq_str(d, "(Ljava/lang/Object;)Z") {
        return Some(Some(Value::Int(0)));
    }
    if eq_str(n, "remove") && eq_str(d, "(Ljava/lang/Object;)Z") {
        return Some(Some(Value::Int(0)));
    }
    if eq_str(n, "getMap") && eq_str(d, "()Ljava/util/concurrent/ConcurrentHashMap;") {
        return Some(Some(Value::Reference(Reference::Null)));
    }
    if eq_str(n, "<init>") && eq_str(d, "(Ljava/util/concurrent/ConcurrentHashMap;Ljava/lang/Object;)V") {
        return Some(None);
    }
    None
}

/// `LongAccumulator`.
pub open spec fn long_accumulator_stub(n: Seq<char>, d: Seq<char>) -> Option<Option<Value>> {
    if n == "<init>"@ && d == "(Ljava/util/function/LongBinaryOperator;J)V"@ {
        Some(None)
    } else if n == "get"@ && d == "()J"@ {
        Some(Some(Value::Long(0)))
    } else if n == "reset"@ && d == "()V"@ {
        Some(None)
    } else if n == "getThenReset"@ && d == "()J"@ {
        Some(Some(Value::Long(0)))
    } else if n == "accumulate"@ && d == "(J)V"@ {
        Some(None)
    } else {
        None
    }
}

fn long_accumulator_answer(n: &[char], d: &[char]) -> (res: Option<Option<Value>>)
    ensures
        res == long_accumulator_stub(n@, d@),
{
    if eq_str(n, "<init>") && eq_str(d, "(Ljava/util/function/LongBinaryOperator;J)V") {
        return Some(None);
    }
    if eq_str(n, "get") && eq_str(d, "()J") {
        return Some(Some(Value::Long(0)));
    }
    if eq_str(n, "reset") && eq_str(d, "()V") {
        return Some(None);
    }
    if eq_str(n, "getThenReset") && eq_str(d, "()J") {
        return Some(Some(Value::Long(0)));
    }
    if eq_str(n, "accumulate") && eq_str(d, "(J)V") {
        return Some(None);
    }
    None
}

/// `DoubleAccumulator`.
pub open spec fn double_accumulator_stub(n: Seq<char>, d: Seq<char>) -> Option<Option<Value>> {
    if n == "<init>"@ && d == "(Ljava/util/function/DoubleBinaryOperator;D)V"@ {
        Some(None)
    } else if n == "get"@ && d == "()D"@ {
        Some(Some(Value::Double(0u64)))
    } else if n == "reset"@ && d == "()V"@ {
        Some(None)
    } else if n == "getThenReset"@ && d == "()D"@ {
        Some(Some(Value::Double(0u64)))
    } else if n == "accumulate"@ && d == "(D)V"@ {
        Some(None)
    } else {
        None
    }
}

fn double_accumulator_answer(n: &[char], d: &[char]) -> (res: Option<Option<Value>>)
    ensures
        res == double_accumulator_stub(n@, d@),
{
    if eq_str(n, "<init>") && eq_str(d, "(Ljava/util/function/DoubleBinaryOperator;D)V") {
        return Some(None);
    }
    if eq_str(n, "get") && eq_str(d, "()D") {
        return Some(Some(Value::Double(0u64)));
    }
    if eq_str(n, "reset") && eq_str(d, "()V") {
        return Some(None);
    }
    if eq_str(n, "getThenReset") && eq_str(d, "()D") {
        return Some(Some(Value::Double(0u64)));
    }
    if eq_str(n, "accumulate") && eq_str(d, "(D)V") {
        return Some(None);
    }
    None
}

/// `DoubleAdder`.
pub open spec fn double_adder_stub(n: Seq<char>, d: Seq<char>) -> Option<Option<Value>> {
    if n == "add"@ && d == "(D)V"@ {
        Some(None)
    } else if n == "sum"@ && d == "()D"@ {
        Some(Some(Value::Double(0u64)))
    } else if n == "sumThenReset"@ && d == "()D"@ {
        Some(Some(Value::Double(0u64)))
    } else if n == "<init>"@ && d == "()V"@ {
        Some(None)
    } else {
        None
    }
}

fn double_adder_answer(n: &[char], d: &[char]) -> (res: Option<Option<Value>>)
    ensures
        res == double_adder_stub(n@, d@),
{
    if eq_str(n, "add") && eq_str(d, "(D)V") {
        return Some(None);
    }
    if eq_str(n, "sum") && eq_str(d, "()D") {
        return Some(Some(Value::Double(0u64)));
    }
    if eq_str(n, "sumThenReset") && eq_str(d, "()D") {
        return Some(Some(Value::Double(0u64)));
    }
    if eq_str(n, "<init>") && eq_str(d, "()V") {
        return Some(None);
    }
    None
}

/// What a concurrency native that does no work returns: `None` when the
/// call is not one of them, `Some(v)` when it returns `v`.
pub open spec fn concurrent_stub(c: Seq<char>, n: Seq<char>, d: Seq<char>) -> Option<Option<Value>> {
    if c == "java/util/concurrent/atomic/LongAdder"@ {
        long_adder_stub(n, d)
    } else if c == "java/util/concurrent/locks/ReentrantLock"@ {
        reentrant_lock_stub(n, d)
    } else if c == "java/util/concurrent/locks/ReadWriteLock"@ {
        read_write_lock_stub(n, d)
    } else if c == "java/util/concurrent/locks/Lock"@ {
        lock_stub(n, d)
    } else if c == "java/util/concurrent/locks/AbstractOwnableSynchronizer"@ {
        abstract_ownable_synchronizer_stub(n, d)
    } else if c == "java/util/concurrent/locks/Condition"@ {
        condition_stub(n, d)
    } else if c == "java/util/concurrent/Semaphore"@ {
        semaphore_stub(n, d)
    } else if c == "java/util/concurrent/CountDownLatch"@ {
        count_down_latch_stub(n, d)
    } else if c == "java/util/concurrent/CyclicBarrier"@ {
        cyclic_barrier_stub(n, d)
    } else if c == "java/util/concurrent/ConcurrentHashMap"@ {
        concurrent_hash_map_stub(n, d)
    } else if c == "java/util/concurrent/ConcurrentLinkedQueue"@ {
        concurrent_linked_queue_stub(n, d)
    } else if c == "java/util/concurrent/CopyOnWriteArrayList"@ {
        copy_on_write_array_list_stub(n, d)
    } else if c == "java/util/concurrent/Future"@ {
        future_stub(n, d)
    } else if c == "java/util/concurrent/CompletableFuture"@ {
        completable_future_stub(n, d)
    } else if c == "java/util/concurrent/ExecutorService"@ {
        executor_service_stub(n, d)
    } else if c == "java/util/concurrent/ThreadPoolExecutor"@ {
        thread_pool_executor_stub(n, d)
    } else if c == "java/util/concurrent/Executors"@ {
        executors_stub(n, d)
    } else if c == "java/util/concurrent/ScheduledExecutorService"@ {
        scheduled_executor_service_stub(n, d)
    } else if c == "java/util/concurrent/ScheduledFuture"@ {
        scheduled_future_stub(n, d)
    } else if c == "java/util/concurrent/Delayed"@ {
        delayed_stub(n, d)
    } else if c == "java/util/concurrent/TimeUnit"@ {
        time_unit_stub(n, d)
    } else if c == "java/util/concurrent/BlockingQueue"@ {
        blocking_queue_stub(n, d)
    } else if c == "java/util/concurrent/ArrayBlockingQueue"@ {
        array_blocking_queue_stub(n, d)
    } else if c == "java/util/concurrent/RejectedExecutionHandler"@ {
        rejected_execution_handler_stub(n, d)
    } else if c == "java/util/concurrent/ThreadFactory"@ {
        thread_factory_stub(n, d)
    } else if c == "java/util/concurrent/Callable"@ {
        callable_stub(n, d)
    } else if c == "java/util/concurrent/Exchanger"@ {
        exchanger_stub(n, d)
    } else if c == "java/util/concurrent/Phaser"@ {
        phaser_stub(n, d)
    } else if c == "java/util/concurrent/ForkJoinPool"@ {
        fork_join_pool_stub(n, d)
    } else if c == "java/util/concurrent/ForkJoinTask"@ {
        fork_join_task_stub(n, d)
    } else if c == "java/util/concurrent/CountedCompleter"@ {
        counted_completer_stub(n, d)
    } else if c == "java/util/concurrent/RecursiveTask"@ {
        recursive_task_stub(n, d)
    } else if c == "java/util/concurrent/RecursiveAction"@ {
        recursive_action_stub(n, d)
    } else if c == "java/util/concurrent/SubmissionPublisher"@ {
        submission_publisher_stub(n, d)
    } else if c == "java/util/concurrent/Flow$Publisher"@ {
        flow_publisher_stub(n, d)
    } else if c == "java/util/concurrent/Flow$Subscriber"@ {
        flow_subscriber_stub(n, d)
    } else if c == "java/util/concurrent/Flow$Subscription"@ {
        flow_subscription_stub(n, d)
    } else if c == "java/util/concurrent/Flow$Processor"@ {
        flow_processor_stub(n, d)
    } else if c == "java/util/concurrent/locks/StampedLock"@ {
        stamped_lock_stub(n, d)
    } else if c == "java/util/concurrent/atomic/VarHandle"@ {
        var_handle_stub(n, d)
    } else if c == "java/util/concurrent/ConcurrentLinkedDeque"@ {
        concurrent_linked_deque_stub(n, d)
    } else if c == "java/util/concurrent/LinkedBlockingQueue"@ {
        linked_blocking_queue_stub(n, d)
    } else if c == "java/util/concurrent/SynchronousQueue"@ {
        synchronous_queue_stub(n, d)
    } else if c == "java/util/concurrent/PriorityBlockingQueue"@ {
        priority_blocking_queue_stub(n, d)
    } else if c == "java/util/concurrent/DelayQueue"@ {
        delay_queue_stub(n, d)
    } else if c == "java/util/concurrent/LinkedBlockingDeque"@ {
        linked_blocking_deque_stub(n, d)
    } else if c == "java/util/concurrent/AbstractExecutorService"@ {
        abstract_executor_service_stub(n, d)
    } else if c == "java/util/concurrent/CompletionStage"@ {
        completion_stage_stub(n, d)
    } else if c == "java/util/concurrent/ConcurrentSkipListMap"@ {
        concurrent_skip_list_map_stub(n, d)
    } else if c == "java/util/concurrent/ConcurrentSkipListSet"@ {
        concurrent_skip_list_set_stub(n, d)
    } else if c == "java/util/concurrent/ConcurrentHashMap$KeySetView"@ {
        concurrent_hash_map_key_set_view_stub(n, d)
    } else if c == "java/util/concurrent/atomic/LongAccumulator"@ {
        long_accumulator_stub(n, d)
    } else if c == "java/util/concurrent/atomic/DoubleAccumulator"@ {
        double_accumulator_stub(n, d)
    } else if c == "java/util/concurrent/atomic/DoubleAdder"@ {
        double_adder_stub(n, d)
    } else {
        None
    }
}

/// The answer of a concurrency native that does no work.
pub fn stub_answer(c: &[char], n: &[char], d: &[char]) -> (res: Option<Option<Value>>)
    ensures
        res == concurrent_stub(c@, n@, d@),
{
    if eq_str(c, "java/util/concurrent/atomic/LongAdder") {
        return long_adder_answer(n, d);
    }
    if eq_str(c, "java/util/concurrent/locks/ReentrantLock") {
        return reentrant_lock_answer(n, d);
    }
    if eq_str(c, "java/util/concurrent/locks/ReadWriteLock") {
        return read_write_lock_answer(n, d);
    }
    if eq_str(c, "java/util/concurrent/locks/Lock") {
        return lock_answer(n, d);
    }
    if eq_str(c, "java/util/concurrent/locks/AbstractOwnableSynchronizer") {
        return abstract_ownable_synchronizer_answer(n, d);
    }
    if eq_str(c, "java/util/concurrent/locks/Condition") {
        return condition_answer(n, d);
    }
    if eq_str(c, "java/util/concurrent/Semaphore") {
        return semaphore_answer(n, d);
    }
    if eq_str(c, "java/util/concurrent/CountDownLatch") {
        return count_down_latch_answer(n, d);
    }
    if eq_str(c, "java/util/concurrent/CyclicBarrier") {
        return cyclic_barrier_answer(n, d);
    }
    if eq_str(c, "java/util/concurrent/ConcurrentHashMap") {
        return concurrent_hash_map_answer(n, d);
    }
    if eq_str(c, "java/util/concurrent/ConcurrentLinkedQueue") {
        return concurrent_linked_queue_answer(n, d);
    }
    if eq_str(c, "java/util/concurrent/CopyOnWriteArrayList") {
        return copy_on_write_array_list_answer(n, d);
    }
    if eq_str(c, "java/util/concurrent/Future") {
        return future_answer(n, d);
    }
    if eq_str(c, "java/util/concurrent/CompletableFuture") {
        return completable_future_answer(n, d);
    }
    if eq_str(c, "java/util/concurrent/ExecutorService") {
        return executor_service_answer(n, d);
    }
    if eq_str(c, "java/util/concurrent/ThreadPoolExecutor") {
        return thread_pool_executor_answer(n, d);
    }
    if eq_str(c, "java/util/concurrent/Executors") {
        return executors_answer(n, d);
    }
    if eq_str(c, "java/util/concurrent/ScheduledExecutorService") {
        return scheduled_executor_service_answer(n, d);
    }
    if eq_str(c, "java/util/concurrent/ScheduledFuture") {
        return scheduled_future_answer(n, d);
    }
    if eq_str(c, "java/util/concurrent/Delayed") {
        return delayed_answer(n, d);
    }
    if eq_str(c, "java/util/concurrent/TimeUnit") {
        return time_unit_answer(n, d);
    }
    if eq_str(c, "java/util/concurrent/BlockingQueue") {
        return blocking_queue_answer(n, d);
    }
    if eq_str(c, "java/util/concurrent/ArrayBlockingQueue") {
        return array_blocking_queue_answer(n, d);
    }
    if eq_str(c, "java/util/concurrent/RejectedExecutionHandler") {
        return rejected_execution_handler_answer(n, d);
    }
    if eq_str(c, "java/util/concurrent/ThreadFactory") {
        return thread_factory_answer(n, d);
    }
    if eq_str(c, "java/util/concurrent/Callable") {
        return callable_answer(n, d);
    }
    if eq_str(c, "java/util/concurrent/Exchanger") {
        return exchanger_answer(n, d);
    }
    if eq_str(c, "java/util/concurrent/Phaser") {
        return phaser_answer(n, d);
    }
    if eq_str(c, "java/util/concurrent/ForkJoinPool") {
        return fork_join_pool_answer(n, d);
    }
    if eq_str(c, "java/util/concurrent/ForkJoinTask") {
        return fork_join_task_answer(n, d);
    }
    if eq_str(c, "java/util/concurrent/CountedCompleter") {
        return counted_completer_answer(n, d);
    }
    if eq_str(c, "java/util/concurrent/RecursiveTask") {
        return recursive_task_answer(n, d);
    }
    if eq_str(c, "java/util/concurrent/RecursiveAction") {
        return recursive_action_answer(n, d);
    }
    if eq_str(c, "java/util/concurrent/SubmissionPublisher") {
        return submission_publisher_answer(n, d);
    }
    if eq_str(c, "java/util/concurrent/Flow$Publisher") {
        return flow_publisher_answer(n, d);
    }
    if eq_str(c, "java/util/concurrent/Flow$Subscriber") {
        return flow_subscriber_answer(n, d);
    }
    if eq_str(c, "java/util/concurrent/Flow$Subscription") {
        return flow_subscription_answer(n, d);
    }
    if eq_str(c, "java/util/concurrent/Flow$Processor") {
        return flow_processor_answer(n, d);
    }
    if eq_str(c, "java/util/concurrent/locks/StampedLock") {
        return stamped_lock_answer(n, d);
    }
    if eq_str(c, "java/util/concurrent/atomic/VarHandle") {
        return var_handle_answer(n, d);
    }
    if eq_str(c, "java/util/concurrent/ConcurrentLinkedDeque") {
        return concurrent_linked_deque_answer(n, d);
    }
    if eq_str(c, "java/util/concurrent/LinkedBlockingQueue") {
        return linked_blocking_queue_answer(n, d);
    }
    if eq_str(c, "java/util/concurrent/SynchronousQueue") {
        return synchronous_queue_answer(n, d);
    }
    if eq_str(c, "java/util/concurrent/PriorityBlockingQueue") {
        return priority_blocking_queue_answer(n, d);
    }
    if eq_str(c, "java/util/concurrent/DelayQueue") {
        return delay_queue_answer(n, d);
    }
    if eq_str(c, "java/util/concurrent/LinkedBlockingDeque") {
        return linked_blocking_deque_answer(n, d);
    }
    if eq_str(c, "java/util/concurrent/AbstractExecutorService") {
        return abstract_executor_service_answer(n, d);
    }
    if eq_str(c, "java/util/concurrent/CompletionStage") {
        return completion_stage_answer(n, d);
    }
    if eq_str(c, "java/util/concurrent/ConcurrentSkipListMap") {
        return concurrent_skip_list_map_answer(n, d);
    }
    if eq_str(c, "java/util/concurrent/ConcurrentSkipListSet") {
        return concurrent_skip_list_set_answer(n, d);
    }
    if eq_str(c, "java/util/concurrent/ConcurrentHashMap$KeySetView") {
        return concurrent_hash_map_key_set_view_answer(n, d);
    }
    if eq_str(c, "java/util/concurrent/atomic/LongAccumulator") {
        return long_accumulator_answer(n, d);
    }
    if eq_str(c, "java/util/concurrent/atomic/DoubleAccumulator") {
        return double_accumulator_answer(n, d);
    }
    if eq_str(c, "java/util/concurrent/atomic/DoubleAdder") {
        return double_adder_answer(n, d);
    }
    None
}

} // verus!
