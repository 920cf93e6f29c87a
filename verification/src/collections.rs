//! `Collections.sort` and `Collections.reverse` on a `java.util.List`.
//!
//! The list is only reachable through its own Java methods, so the work is a
//! machine: it asks the interpreter for `size()`, for each `get(i)`, for the
//! comparisons of an insertion sort, and finally for each `set(i, v)`, and
//! is fed each call's result in turn.

use vstd::prelude::*;
use crate::heap::{deref, deref_error, Heap};
use crate::model::{HeapValue, Obj, Reference, Value, ValueKind, VmError};
use crate::sorting::{
    consistent, lemma_sort_done, lemma_sort_feed, lemma_sort_start, sort_done, sort_feed, sort_inv,
    sort_pair, sort_start, sort_wf, sorted_by, InsertionSort, SortView,
};

verus! {

broadcast use vstd::seq_lib::group_seq_properties;

/// A Java method call the interpreter must make for the job.
#[derive(PartialEq, Eq, Structural, Debug)]
pub enum ListCall {
    /// `list.size()`
    Size { list: Reference },
    /// `list.get(index)`
    Get { list: Reference, index: i32 },
    /// `a.compareTo(b)`
    CompareTo { a: Reference, b: Reference },
    /// `comparator.compare(a, b)`
    Compare { comparator: Reference, a: Reference, b: Reference },
    /// `list.set(index, value)`
    Store { list: Reference, index: i32, value: Reference },
}

/// What the job does with the list's elements.
#[derive(PartialEq, Eq, Structural, Debug)]
pub enum ListTask {
    Sort { comparator: Option<Reference> },
    Reverse,
}

/// Where the job stands.
#[derive(PartialEq, Eq, Structural, Debug)]
pub enum ListPhase {
    /// Waiting for `size()`.
    Sizing,
    /// Reading elements, `size` in all.
    Reading { size: i32 },
    /// Waiting for a comparison.
    Sorting,
    /// Writing elements back; `next` is the index after the last write asked for.
    Writing { next: usize },
    Finished,
}

/// A sort or reverse of one list.
pub struct ListJob {
    pub list: Reference,
    pub task: ListTask,
    pub phase: ListPhase,
    /// The elements read so far, then being sorted, then written back.
    pub sorter: InsertionSort,
    /// The list's elements as read.
    pub snapshot: Ghost<Seq<Reference>>,
}

/// The abstract state of a job.
pub struct JobView {
    pub list: Reference,
    pub task: ListTask,
    pub phase: ListPhase,
    pub sort: SortView,
    pub snapshot: Seq<Reference>,
}

impl View for ListJob {
    type V = JobView;

    open spec fn view(&self) -> JobView {
        JobView {
            list: self.list,
            task: self.task,
            phase: self.phase,
            sort: self.sorter@,
            snapshot: self.snapshot@,
        }
    }
}

/// The comparison call for a pair.
pub open spec fn compare_call(task: ListTask, p: (Reference, Reference)) -> ListCall {
    match task {
        ListTask::Sort { comparator: Some(c) } => ListCall::Compare { comparator: c, a: p.0, b: p.1 },
        _ => ListCall::CompareTo { a: p.0, b: p.1 },
    }
}

/// Starts writing `values` back: the first `set`, or nothing to do.
pub open spec fn begin_write(v: JobView, values: Seq<Reference>) -> (JobView, Option<ListCall>) {
    let s = SortView { values, i: values.len(), j: 0 };
    if values.len() > 0 {
        (
            JobView { phase: ListPhase::Writing { next: 1 }, sort: s, ..v },
            Some(ListCall::Store { list: v.list, index: 0, value: values[0] }),
        )
    } else {
        (JobView { phase: ListPhase::Finished, sort: s, ..v }, None)
    }
}

/// Every element has been read: sort or reverse them.
pub open spec fn after_snapshot(v: JobView, values: Seq<Reference>) -> (JobView, Option<ListCall>) {
    let v = JobView { snapshot: values, ..v };
    match v.task {
        ListTask::Sort { .. } => {
            let s = sort_start(values);
            if !sort_done(s) {
                (
                    JobView { phase: ListPhase::Sorting, sort: s, ..v },
                    Some(compare_call(v.task, sort_pair(s))),
                )
            } else {
                begin_write(v, values)
            }
        },
        ListTask::Reverse => begin_write(v, values.reverse()),
    }
}

/// The error for a call that did not return the expected kind of value.
pub open spec fn bad_result(expected: ValueKind) -> VmError {
    VmError::BadCallResult { expected }
}

/// One step of the job: the state after the last call returned `result`,
/// and the next call to make (`None` once the list is written back).
pub open spec fn job_next(v: JobView, result: Option<Value>) -> (JobView, Result<Option<ListCall>, VmError>) {
    match v.phase {
        ListPhase::Sizing => match result {
            Some(Value::Int(n)) => if n > 0 {
                (
                    JobView { phase: ListPhase::Reading { size: n }, ..v },
                    Ok(Some(ListCall::Get { list: v.list, index: 0 })),
                )
            } else {
                let (w, c) = after_snapshot(v, Seq::empty());
                (w, Ok(c))
            },
            _ => (v, Err(bad_result(ValueKind::Int))),
        },
        ListPhase::Reading { size } => match result {
            Some(Value::Reference(r)) => {
                let values = v.sort.values.push(r);
                if values.len() < size {
                    (
                        JobView { sort: SortView { values, ..v.sort }, ..v },
                        Ok(Some(ListCall::Get { list: v.list, index: values.len() as i32 })),
                    )
                } else {
                    let (w, c) = after_snapshot(v, values);
                    (w, Ok(c))
                }
            },
            _ => (v, Err(bad_result(ValueKind::Reference))),
        },
        ListPhase::Sorting => match result {
            Some(Value::Int(c)) => {
                let s = sort_feed(v.sort, c);
                if !sort_done(s) {
                    (
                        JobView { sort: s, ..v },
                        Ok(Some(compare_call(v.task, sort_pair(s)))),
                    )
                } else {
                    let (w, call) = begin_write(v, s.values);
                    (w, Ok(call))
                }
            },
            _ => (v, Err(bad_result(ValueKind::Int))),
        },
        ListPhase::Writing { next } => if next < v.sort.values.len() {
            (
                JobView { phase: ListPhase::Writing { next: (next + 1) as usize }, ..v },
                Ok(
                    Some(
                        ListCall::Store {
                            list: v.list,
                            index: next as i32,
                            value: v.sort.values[next as int],
                        },
                    ),
                ),
            )
        } else {
            (JobView { phase: ListPhase::Finished, ..v }, Ok(None))
        },
        ListPhase::Finished => (v, Ok(None)),
    }
}

/// What every reachable job satisfies: reads stay below the reported size,
/// sorting keeps the elements read, reversing writes them in reverse order,
/// and writes go through the elements in order.
pub open spec fn job_inv(v: JobView) -> bool {
    &&& v.sort.values.len() <= i32::MAX
    &&& match v.phase {
        ListPhase::Sizing => v.sort.values.len() == 0,
        ListPhase::Reading { size } => 0 < size && v.sort.values.len() < size,
        ListPhase::Sorting => {
            &&& v.task is Sort
            &&& sort_wf(v.sort)
            &&& !sort_done(v.sort)
            &&& v.sort.values.to_multiset() == v.snapshot.to_multiset()
        },
        ListPhase::Writing { next } => {
            &&& 1 <= next <= v.sort.values.len()
            &&& written_from_snapshot(v)
        },
        ListPhase::Finished => written_from_snapshot(v),
    }
}

/// The values written back: the snapshot sorted (same elements) or reversed.
pub open spec fn written_from_snapshot(v: JobView) -> bool {
    match v.task {
        ListTask::Sort { .. } => v.sort.values.to_multiset() == v.snapshot.to_multiset(),
        ListTask::Reverse => v.sort.values == v.snapshot.reverse(),
    }
}

impl ListJob {
    fn begin(list: Reference, task: ListTask) -> (res: (ListJob, ListCall))
        ensures
            res.0@ == (JobView {
                list,
                task,
                phase: ListPhase::Sizing,
                sort: sort_start(Seq::empty()),
                snapshot: Seq::empty(),
            }),
            res.1 == (ListCall::Size { list }),
            job_inv(res.0@),
    {
        (
            ListJob {
                list,
                task,
                phase: ListPhase::Sizing,
                sorter: InsertionSort::new(Vec::new()),
                snapshot: Ghost(Seq::empty()),
            },
            ListCall::Size { list },
        )
    }

    /// `Collections.sort(list)` / `Collections.sort(list, comparator)`:
    /// fails on a `null` list, otherwise first asks for the list's size.
    pub fn native_collections_sort(list: Reference, comparator: Option<Reference>) -> (res: Result<
        (ListJob, ListCall),
        VmError,
    >)
        ensures
            match res {
                Err(e) => list is Null && e == VmError::NullReference,
                Ok((job, call)) => !(list is Null) && job@ == (JobView {
                    list,
                    task: ListTask::Sort { comparator },
                    phase: ListPhase::Sizing,
                    sort: sort_start(Seq::empty()),
                    snapshot: Seq::empty(),
                }) && call == (ListCall::Size { list }) && job_inv(job@),
            },
    {
        if list == Reference::Null {
            return Err(VmError::NullReference);
        }
        Ok(Self::begin(list, ListTask::Sort { comparator }))
    }

    /// `Collections.reverse(list)`: fails on a `null` list, otherwise first
    /// asks for the list's size.
    pub fn native_collections_reverse(list: Reference) -> (res: Result<(ListJob, ListCall), VmError>)
        ensures
            match res {
                Err(e) => list is Null && e == VmError::NullReference,
                Ok((job, call)) => !(list is Null) && job@ == (JobView {
                    list,
                    task: ListTask::Reverse,
                    phase: ListPhase::Sizing,
                    sort: sort_start(Seq::empty()),
                    snapshot: Seq::empty(),
                }) && call == (ListCall::Size { list }) && job_inv(job@),
            },
    {
        if list == Reference::Null {
            return Err(VmError::NullReference);
        }
        Ok(Self::begin(list, ListTask::Reverse))
    }

    fn compare_call(&self, p: (Reference, Reference)) -> (c: ListCall)
        ensures
            c == compare_call(self.task, p),
    {
        match self.task {
            ListTask::Sort { comparator: Some(c) } => compare_with(c, p.0, p.1),
            _ => compare_natural(p.0, p.1),
        }
    }

    fn begin_write(&mut self, values: Vec<Reference>) -> (call: Option<ListCall>)
        ensures
            (final(self)@, call) == begin_write(old(self)@, values@),
    {
        let n = values.len();
        let first = if n > 0 { Some(values[0]) } else { None };
        self.sorter = InsertionSort { values, i: n, j: 0 };
        match first {
            Some(x) => {
                self.phase = ListPhase::Writing { next: 1 };
                Some(ListCall::Store { list: self.list, index: 0, value: x })
            },
            None => {
                self.phase = ListPhase::Finished;
                None
            },
        }
    }

    fn after_snapshot(&mut self, values: Vec<Reference>) -> (call: Option<ListCall>)
        ensures
            (final(self)@, call) == after_snapshot(old(self)@, values@),
    {
        self.snapshot = Ghost(values@);
        match self.task {
            ListTask::Sort { .. } => {
                self.sorter = InsertionSort::new(values);
                match self.sorter.pending() {
                    Some(p) => {
                        self.phase = ListPhase::Sorting;
                        Some(self.compare_call(p))
                    },
                    None => {
                        let mut vals = Vec::new();
                        std::mem::swap(&mut vals, &mut self.sorter.values);
                        self.begin_write(vals)
                    },
                }
            },
            ListTask::Reverse => {
                let rev = reversed(&values);
                self.begin_write(rev)
            },
        }
    }

    /// The reading phase: takes the list's size, then each element in
    /// turn, asking for the next `get(i)` until all are read.
    pub fn list_snapshot(&mut self, result: Option<Value>) -> (res: Result<Option<ListCall>, VmError>)
        requires
            job_inv(old(self)@),
            old(self).phase is Sizing || old(self).phase is Reading,
        ensures
            (final(self)@, res) == job_next(old(self)@, result),
            job_inv(final(self)@),
    {
        match self.phase {
            ListPhase::Sizing => match result {
                Some(Value::Int(n)) => {
                    if n > 0 {
                        self.phase = ListPhase::Reading { size: n };
                        Ok(Some(ListCall::Get { list: self.list, index: 0 }))
                    } else {
                        let c = self.after_snapshot(Vec::new());
                        proof {
                            assert(Seq::<Reference>::empty().reverse() =~= Seq::<Reference>::empty());
                        }
                        Ok(c)
                    }
                },
                _ => Err(VmError::BadCallResult { expected: ValueKind::Int }),
            },
            ListPhase::Reading { size } => match result {
                Some(Value::Reference(r)) => {
                    self.sorter.values.push(r);
                    let len = self.sorter.values.len();
                    if len < size as usize {
                        Ok(Some(ListCall::Get { list: self.list, index: len as i32 }))
                    } else {
                        let mut vals = Vec::new();
                        std::mem::swap(&mut vals, &mut self.sorter.values);
                        let c = self.after_snapshot(vals);
                        Ok(c)
                    }
                },
                _ => Err(VmError::BadCallResult { expected: ValueKind::Reference }),
            },
            _ => Ok(None),
        }
    }

    /// The writing phase: asks for the next `set(i, v)` until every
    /// element has been written back.
    pub fn list_overwrite(&mut self) -> (res: Option<ListCall>)
        requires
            job_inv(old(self)@),
            old(self).phase is Writing,
        ensures
            (final(self)@, Ok::<Option<ListCall>, VmError>(res)) == job_next(old(self)@, None),
            forall|r: Option<Value>| #[trigger] job_next(old(self)@, r) == job_next(old(self)@, None),
            job_inv(final(self)@),
    {
        match self.phase {
            ListPhase::Writing { next } => {
                if next < self.sorter.values.len() {
                    self.phase = ListPhase::Writing { next: next + 1 };
                    Some(
                        ListCall::Store {
                            list: self.list,
                            index: next as i32,
                            value: self.sorter.values[next],
                        },
                    )
                } else {
                    self.phase = ListPhase::Finished;
                    None
                }
            },
            _ => None,
        }
    }

    /// Takes the result of the last call and returns the next call to
    /// make, or `None` when the list has been written back.
    pub fn resume(&mut self, result: Option<Value>) -> (res: Result<Option<ListCall>, VmError>)
        requires
            job_inv(old(self)@),
        ensures
            (final(self)@, res) == job_next(old(self)@, result),
            job_inv(final(self)@),
    {
        match self.phase {
            ListPhase::Sizing | ListPhase::Reading { .. } => self.list_snapshot(result),
            ListPhase::Sorting => match result {
                Some(Value::Int(c)) => {
                    self.sorter.feed(c);
                    match self.sorter.pending() {
                        Some(p) => Ok(Some(self.compare_call(p))),
                        None => {
                            let mut vals = Vec::new();
                            std::mem::swap(&mut vals, &mut self.sorter.values);
                            Ok(self.begin_write(vals))
                        },
                    }
                },
                _ => Err(VmError::BadCallResult { expected: ValueKind::Int }),
            },
            ListPhase::Writing { .. } => Ok(self.list_overwrite()),
            ListPhase::Finished => Ok(None),
        }
    }
}

/// The call `a.compareTo(b)` that orders two elements by their natural order.
pub fn compare_natural(a: Reference, b: Reference) -> (call: ListCall)
    ensures
        call == (ListCall::CompareTo { a, b }),
{
    ListCall::CompareTo { a, b }
}

/// The call `comparator.compare(a, b)` that orders two elements by a comparator.
pub fn compare_with(comparator: Reference, a: Reference, b: Reference) -> (call: ListCall)
    ensures
        call == (ListCall::Compare { comparator, a, b }),
{
    ListCall::Compare { comparator, a, b }
}

/// The elements in reverse order.
pub fn reversed(v: &Vec<Reference>) -> (res: Vec<Reference>)
    ensures
        res@ == v@.reverse(),
{
    let mut res = Vec::new();
    let mut k: usize = v.len();
    while k > 0
        invariant
            k <= v@.len(),
            res@ == v@.subrange(k as int, v@.len() as int).reverse(),
        decreases k,
    {
        k = k - 1;
        res.push(v[k]);
        assert(res@ =~= v@.subrange(k as int, v@.len() as int).reverse());
    }
    assert(v@.subrange(0, v@.len() as int) =~= v@);
    res
}

/// The invariant of a sort job whose comparisons are answered by `order`:
/// while sorting, the insertion-sort invariant; once writing, the values are in order.
pub open spec fn job_ordered(v: JobView, order: spec_fn(Reference, Reference) -> i32) -> bool {
    &&& job_inv(v)
    &&& v.phase is Sorting ==> sort_inv(v.sort, order)
    &&& (v.task is Sort && (v.phase is Writing || v.phase is Finished)) ==> sorted_by(
        v.sort.values,
        order,
    )
}

/// The answer a consistent comparator gives to the comparison the job asked for.
pub open spec fn answer(v: JobView, order: spec_fn(Reference, Reference) -> i32) -> Option<Value> {
    Some(Value::Int(order(sort_pair(v.sort).0, sort_pair(v.sort).1)))
}

/// A sort fed by a consistent comparator writes its elements back in
/// order: every step whose comparisons are answered by that comparator
/// keeps `job_ordered`.
pub proof fn lemma_sort_job_ordered(
    v: JobView,
    result: Option<Value>,
    order: spec_fn(Reference, Reference) -> i32,
)
    requires
        consistent(order),
        job_ordered(v, order),
        v.phase is Sorting ==> result == answer(v, order),
        job_inv(job_next(v, result).0),
    ensures
        job_ordered(job_next(v, result).0, order),
{
    match v.phase {
        ListPhase::Sizing => {
            if let Some(Value::Int(n)) = result {
                if n <= 0 {
                    lemma_sort_start(Seq::empty(), order);
                }
            }
        },
        ListPhase::Reading { size } => {
            if let Some(Value::Reference(r)) = result {
                let values = v.sort.values.push(r);
                lemma_sort_start(values, order);
                if values.len() >= size && sort_done(sort_start(values)) {
                    lemma_sort_done(sort_start(values), order);
                }
            }
        },
        ListPhase::Sorting => {
            lemma_sort_feed(v.sort, order);
            let s = sort_feed(v.sort, order(sort_pair(v.sort).0, sort_pair(v.sort).1));
            if sort_done(s) {
                lemma_sort_done(s, order);
            }
        },
        _ => {},
    }
}


/// What comparing two reference arrays needs next.
#[derive(PartialEq, Eq, Structural, Debug)]
pub enum EqStep {
    /// The arrays are (or are not) equal.
    Done(bool),
    /// Call `a.equals(b)` and pass the result to `resume`.
    CallEquals { a: Reference, b: Reference },
}

/// Element pairs that are equal without asking Java: the same reference.
pub open spec fn first_open_pair(xs: Seq<Reference>, ys: Seq<Reference>, k: int) -> int
    decreases xs.len() - k,
{
    if k >= xs.len() {
        xs.len() as int
    } else if xs[k] != ys[k] {
        k
    } else {
        first_open_pair(xs, ys, k + 1)
    }
}

/// The step for the first pair from `k` on that is not the same reference:
/// none left means equal, a `null` on either side means unequal, otherwise
/// ask `equals`.
pub open spec fn scan_step(xs: Seq<Reference>, ys: Seq<Reference>, k: int) -> EqStep {
    let p = first_open_pair(xs, ys, k);
    if p >= xs.len() {
        EqStep::Done(true)
    } else if xs[p] is Null || ys[p] is Null {
        EqStep::Done(false)
    } else {
        EqStep::CallEquals { a: xs[p], b: ys[p] }
    }
}

/// `Arrays.equals(Object[], Object[])` in progress.
pub struct RefArraysEqual {
    pub xs: Vec<Reference>,
    pub ys: Vec<Reference>,
    /// The position of the pair whose `equals` call is pending.
    pub pos: usize,
}

/// The first step of `Arrays.equals(Object[], Object[])`.
pub open spec fn ref_arrays_start(heap: Seq<Obj>, a: Reference, b: Reference) -> Result<EqStep, VmError> {
    if a == b {
        Ok(EqStep::Done(true))
    } else if a is Null || b is Null {
        Ok(EqStep::Done(false))
    } else {
        match (deref(heap, a), deref(heap, b)) {
            (None, _) => Err(deref_error(a)),
            (_, None) => Err(deref_error(b)),
            (Some(Obj::RefArray { values: x, .. }), Some(Obj::RefArray { values: y, .. })) => if x.len()
                != y.len() {
                Ok(EqStep::Done(false))
            } else {
                Ok(scan_step(x, y, 0))
            },
            _ => Ok(EqStep::Done(false)),
        }
    }
}

impl RefArraysEqual {
    fn scan(&mut self, from: usize) -> (step: EqStep)
        requires
            old(self).xs@.len() == old(self).ys@.len(),
            from <= old(self).xs@.len(),
        ensures
            step == scan_step(old(self).xs@, old(self).ys@, from as int),
            final(self).xs@ == old(self).xs@,
            final(self).ys@ == old(self).ys@,
            step is CallEquals ==> final(self).pos < final(self).xs@.len() && final(self).pos as int
                == first_open_pair(final(self).xs@, final(self).ys@, from as int),
    {
        let mut k = from;
        while k < self.xs.len()
            invariant
                self.xs@.len() == self.ys@.len(),
                from <= k <= self.xs@.len(),
                first_open_pair(self.xs@, self.ys@, from as int) == first_open_pair(
                    self.xs@,
                    self.ys@,
                    k as int,
                ),
                self.xs@ == old(self).xs@,
                self.ys@ == old(self).ys@,
            decreases self.xs@.len() - k,
        {
            let x = self.xs[k];
            let y = self.ys[k];
            if x != y {
                self.pos = k;
                if x == Reference::Null || y == Reference::Null {
                    return EqStep::Done(false);
                }
                return EqStep::CallEquals { a: x, b: y };
            }
            k = k + 1;
        }
        EqStep::Done(true)
    }

    /// `Arrays.equals(a, b)` for reference arrays: the answer, or the first
    /// `equals` call to make, with the comparison state.
    pub fn native_arrays_equals_ref(heap: &Heap, a: Reference, b: Reference) -> (res: Result<
        (RefArraysEqual, EqStep),
        VmError,
    >)
        ensures
            match res {
                Ok((st, step)) => ref_arrays_start(heap@, a, b) == Ok::<EqStep, VmError>(step)
                    && st.xs@.len() == st.ys@.len() && (step is CallEquals ==> st.pos
                    < st.xs@.len() && step == (EqStep::CallEquals {
                    a: st.xs@[st.pos as int],
                    b: st.ys@[st.pos as int],
                }) && scan_step(st.xs@, st.ys@, st.pos as int) == step),
                Err(e) => ref_arrays_start(heap@, a, b) == Err::<EqStep, VmError>(e),
            },
    {
        let mut st = RefArraysEqual { xs: Vec::new(), ys: Vec::new(), pos: 0 };
        if a == b {
            return Ok((st, EqStep::Done(true)));
        }
        if a == Reference::Null || b == Reference::Null {
            return Ok((st, EqStep::Done(false)));
        }
        match (heap.get(a)?, heap.get(b)?) {
            (
                HeapValue::ReferenceArray { values: x, .. },
                HeapValue::ReferenceArray { values: y, .. },
            ) => {
                if x.len() != y.len() {
                    return Ok((st, EqStep::Done(false)));
                }
                st.xs = x.clone();
                st.ys = y.clone();
                assert(st.xs@ =~= x@);
                assert(st.ys@ =~= y@);
                let step = st.scan(0);
                proof {
                    lemma_first_open_pair(st.xs@, st.ys@, 0);
                }
                Ok((st, step))
            },
            _ => Ok((st, EqStep::Done(false))),
        }
    }

    /// Takes the result of the pending `equals` call: `false` (or no `int`)
    /// settles the answer, anything else moves on to the next pair.
    pub fn resume(&mut self, result: Option<Value>) -> (step: EqStep)
        requires
            old(self).xs@.len() == old(self).ys@.len(),
            old(self).pos < old(self).xs@.len(),
        ensures
            match result {
                Some(Value::Int(v)) if v != 0 => step == scan_step(
                    old(self).xs@,
                    old(self).ys@,
                    old(self).pos + 1,
                ),
                _ => step == EqStep::Done(false),
            },
            final(self).xs@ == old(self).xs@,
            final(self).ys@ == old(self).ys@,
            step is CallEquals ==> final(self).pos < final(self).xs@.len() && step == (EqStep::CallEquals {
                a: final(self).xs@[final(self).pos as int],
                b: final(self).ys@[final(self).pos as int],
            }) && scan_step(final(self).xs@, final(self).ys@, final(self).pos as int) == step,
    {
        match result {
            Some(Value::Int(v)) => {
                if v == 0 {
                    EqStep::Done(false)
                } else {
                    let n = self.xs.len();
                    assert(self.pos < n);
                    let from = self.pos + 1;
                    let step = self.scan(from);
                    proof {
                        lemma_first_open_pair(self.xs@, self.ys@, from as int);
                    }
                    step
                }
            },
            _ => EqStep::Done(false),
        }
    }
}

/// The first open pair from `k` is at or after `k`, differs, and every pair
/// before it is the same reference.
pub proof fn lemma_first_open_pair(xs: Seq<Reference>, ys: Seq<Reference>, k: int)
    requires
        0 <= k <= xs.len(),
        xs.len() == ys.len(),
    ensures
        k <= first_open_pair(xs, ys, k) <= xs.len(),
        first_open_pair(xs, ys, k) < xs.len() ==> xs[first_open_pair(xs, ys, k)] != ys[first_open_pair(xs, ys, k)],
        forall|i: int| k <= i < first_open_pair(xs, ys, k) ==> xs[i] == ys[i],
        first_open_pair(xs, ys, k) < xs.len() ==> first_open_pair(xs, ys, first_open_pair(xs, ys, k)) == first_open_pair(xs, ys, k),
    decreases xs.len() - k,
{
    if k < xs.len() && xs[k] == ys[k] {
        lemma_first_open_pair(xs, ys, k + 1);
    }
}

} // verus!
