//! What holds of an allocation whatever order the steps of its handles come in.

use crate::basic_arc::model;
use crate::basic_arc::model::Block;
use vstd::prelude::*;

verus! {

/// One atomic step that some thread takes on an allocation. Handles are given by their tickets.
pub enum Step<T> {
    /// The handle `of` is cloned.
    Clone { of: nat },
    /// A handle gives up its share of the reference count.
    Release { handle: nat },
    /// The value is changed through `get_mut`.
    Write { by: nat, data: T },
}

impl<T> Step<T> {
    /// Whether some thread can take the step now.
    pub open spec fn enabled(self, b: Block<T>) -> bool {
        match self {
            Step::Clone { of } => b.handles.contains(of),
            Step::Release { handle } => b.handles.contains(handle),
            Step::Write { by, data } => b.handles.contains(by) && b.ref_count == 1,
        }
    }

    /// The allocation after the step.
    pub open spec fn apply(self, b: Block<T>) -> Block<T> {
        match self {
            Step::Clone { of } => b.handle_added(),
            Step::Release { handle } => b.handle_released(handle),
            Step::Write { by, data } => b.data_written(data),
        }
    }
}

/// `run` is a history of an allocation that was made for `data`: threads have taken `steps` on
/// it, one after the other.
pub open spec fn is_run<T>(data: T, run: Seq<Block<T>>, steps: Seq<Step<T>>) -> bool {
    &&& run.len() == steps.len() + 1
    &&& run[0] == Block::fresh(data)
    &&& forall|i: int|
        0 <= i < steps.len() ==> (#[trigger] steps[i]).enabled(run[i]) && run[i + 1]
            == steps[i].apply(run[i])
}

/// Every step of every thread keeps the reference count equal to the number of live handles.
pub proof fn step_keeps_wf<T>(b: Block<T>, step: Step<T>)
    requires
        b.wf(),
        step.enabled(b),
    ensures
        step.apply(b).wf(),
{
    match step {
        Step::Clone { of } => model::lemma_handle_added_wf(b),
        Step::Release { handle } => model::lemma_handle_released_wf(b, handle),
        Step::Write { by, data } => {},
    }
}

/// In whatever order threads take their steps, the reference count is the number of live handles
/// throughout.
pub proof fn every_run_is_wf<T>(data: T, run: Seq<Block<T>>, steps: Seq<Step<T>>, i: int)
    requires
        is_run(data, run, steps),
        0 <= i < run.len(),
    ensures
        run[i].wf(),
    decreases i,
{
    if i == 0 {
        model::lemma_fresh_wf(data);
    } else {
        every_run_is_wf(data, run, steps, i - 1);
        step_keeps_wf(run[i - 1], steps[i - 1]);
    }
}

/// A reference count of one is exclusive access: the handle that asks is the only one.
pub proof fn sole_handle_is_exclusive<T>(b: Block<T>, handle: nat)
    requires
        b.wf(),
        b.handles.contains(handle),
    ensures
        b.ref_count == 1 <==> b.handles == set![handle],
{
    let rest = b.handles.remove(handle);
    assert(rest.insert(handle) =~= b.handles);
    assert(rest.len() == b.handles.len() - 1);
    if b.ref_count == 1 {
        rest.lemma_len0_is_empty();
        assert(b.handles =~= set![handle]);
    }
    assert(set![handle].len() == 1);
}

/// The value that a handle reads is changed by no step of anybody else: only `get_mut` on the
/// handle itself does.
pub proof fn data_is_stable_under_handle<T>(b: Block<T>, step: Step<T>, handle: nat)
    requires
        b.wf(),
        step.enabled(b),
        b.handles.contains(handle),
    ensures
        step.apply(b).data == b.data || (step matches Step::Write { by, .. } && by == handle),
        step.apply(b).handles.contains(handle) || step == (Step::<T>::Release { handle }),
{
    if let Step::Write { by, .. } = step {
        sole_handle_is_exclusive(b, handle);
        assert(set![handle].contains(by));
    }
}

/// An allocation is freed once, after everything else: with a reference count of zero no thread
/// has a step left to take. As long as there is a handle, the count is not zero.
pub proof fn vacant_allocation_is_final<T>(b: Block<T>, step: Step<T>)
    requires
        b.wf(),
    ensures
        b.ref_count == 0 ==> !step.enabled(b),
        b.ref_count == 0 <==> b.handles == Set::<nat>::empty(),
{
    if b.ref_count == 0 {
        b.handles.lemma_len0_is_empty();
    }
}

/// In whatever order threads take their steps, the step that takes the reference count to zero, and
/// so frees the value, is the last one of the run.
pub proof fn every_run_ends_with_free<T>(
    data: T,
    run: Seq<Block<T>>,
    steps: Seq<Step<T>>,
    i: int,
)
    requires
        is_run(data, run, steps),
        0 <= i < run.len(),
        run[i].ref_count == 0,
    ensures
        i == steps.len(),
{
    every_run_is_wf(data, run, steps, i);
    if i < steps.len() {
        vacant_allocation_is_final(run[i], steps[i]);
    }
}

/// The value goes with the last handle and not before: dropping a handle frees the allocation
/// exactly if there is no other, and leaves the value as it is otherwise.
pub proof fn value_lives_with_handles<T>(b: Block<T>, handle: nat)
    requires
        b.wf(),
        b.handles.contains(handle),
    ensures
        b.after_drop(handle) is None <==> b.handles == set![handle],
        b.after_drop(handle) matches Some(left) ==> {
            &&& left.wf()
            &&& left.data == b.data
            &&& left.handles == b.handles.remove(handle)
            &&& left.ref_count == b.ref_count - 1
        },
{
    sole_handle_is_exclusive(b, handle);
    model::lemma_handle_released_wf(b, handle);
}

/// Dropping a clone undoes the clone, in all but the next ticket.
pub proof fn drop_undoes_clone<T>(b: Block<T>)
    requires
        b.wf(),
        b.ref_count > 0,
    ensures
        b.handle_added().after_drop(b.next_ticket) matches Some(left) && {
            &&& left.ref_count == b.ref_count
            &&& left.data == b.data
            &&& left.handles == b.handles
        },
{
    assert(!b.handles.contains(b.next_ticket));
    assert(b.handle_added().handle_released(b.next_ticket).handles =~= b.handles);
}

/// A new allocation has one handle, whatever the value is: it is counted once, it may change the
/// value in place, and the value goes when it is dropped.
pub proof fn new_allocation_has_one_handle<T>(data: T, other: T, t: nat)
    ensures
        Block::fresh(data).wf(),
        Block::fresh(data).data == data,
        Block::fresh(data).ref_count == 1,
        Block::fresh(data).handles.contains(t) <==> t == 0,
        (Step::Write { by: 0, data: other }).enabled(Block::fresh(data)),
        Block::fresh(data).after_drop(0) is None,
{
    model::lemma_fresh_wf(data);
}

/// A clone is a handle of its own, counted once more. The others stay, the value stays, and none of
/// them may change the value any more.
pub proof fn clone_is_one_more_handle<T>(b: Block<T>, of: nat, t: nat, data: T)
    requires
        b.wf(),
        b.handles.contains(of),
    ensures
        !b.handles.contains(b.next_ticket),
        b.handle_added().ref_count == b.ref_count + 1,
        b.handle_added().handles.contains(t) <==> b.handles.contains(t) || t == b.next_ticket,
        b.handle_added().data == b.data,
        b.handle_added().next_ticket == b.next_ticket + 1,
        !(Step::Write { by: t, data }).enabled(b.handle_added()),
{
    model::lemma_handle_added_wf(b);
    assert(b.handles.len() >= 1);
}

/// A handle that is given up is counted no more. The others stay, and the value stays for them.
pub proof fn release_is_one_handle_less<T>(b: Block<T>, handle: nat, t: nat)
    requires
        b.wf(),
        b.handles.contains(handle),
    ensures
        b.handle_released(handle).ref_count == b.ref_count - 1,
        b.handle_released(handle).handles.contains(t) <==> b.handles.contains(t) && t != handle,
        b.handle_released(handle).data == b.data,
        b.handle_released(handle).next_ticket == b.next_ticket,
{
    model::lemma_handle_released_wf(b, handle);
}

/// A change in place is seen through the handle, and takes nothing else along.
pub proof fn write_changes_the_value_alone<T>(b: Block<T>, data: T)
    ensures
        b.data_written(data).data == data,
        b.data_written(data).ref_count == b.ref_count,
        b.data_written(data).handles == b.handles,
        b.data_written(data).next_ticket == b.next_ticket,
{
}

/// How many of the first `n` steps are of a kind.
pub open spec fn taken<T>(steps: Seq<Step<T>>, n: int, kind: spec_fn(Step<T>) -> bool) -> int
    decreases n,
{
    if n <= 0 {
        0
    } else {
        taken(steps, n - 1, kind) + if kind(steps[n - 1]) {
            1int
        } else {
            0
        }
    }
}

/// The reference count is the first handle, one more for each clone and one less for each handle
/// given up.
pub proof fn count_is_clones_less_releases<T>(
    data: T,
    run: Seq<Block<T>>,
    steps: Seq<Step<T>>,
    i: int,
)
    requires
        is_run(data, run, steps),
        0 <= i < run.len(),
    ensures
        run[i].ref_count == 1 + taken(steps, i, |s: Step<T>| s is Clone) - taken(
            steps,
            i,
            |s: Step<T>| s is Release,
        ),
    decreases i,
{
    if i > 0 {
        count_is_clones_less_releases(data, run, steps, i - 1);
        every_run_is_wf(data, run, steps, i - 1);
        let b = run[i - 1];
        assert(steps[i - 1].enabled(b));
        match steps[i - 1] {
            Step::Clone { of } => clone_is_one_more_handle(b, of, of, data),
            Step::Release { handle } => release_is_one_handle_less(b, handle, handle),
            Step::Write { by, data } => write_changes_the_value_alone(b, data),
        }
    } else {
        new_allocation_has_one_handle(data, data, 0);
    }
}

/// The ticket `t` has been handed out within the first `n` steps: to the first handle, or to a
/// clone.
pub open spec fn handed_out<T>(run: Seq<Block<T>>, steps: Seq<Step<T>>, n: int, t: nat) -> bool
    decreases n,
{
    if n <= 0 {
        t == 0
    } else {
        handed_out(run, steps, n - 1, t) || (steps[n - 1] is Clone && run[n - 1].next_ticket == t)
    }
}

/// The handle `t` has been given up within the first `n` steps.
pub open spec fn given_up<T>(steps: Seq<Step<T>>, n: int, t: nat) -> bool
    decreases n,
{
    n > 0 && (given_up(steps, n - 1, t) || steps[n - 1] == (Step::<T>::Release { handle: t }))
}

/// The handles that are counted are those that have been handed out and not given up: there is no
/// share of the count that belongs to nobody.
pub proof fn counted_handles_are_those_handed_out<T>(
    data: T,
    run: Seq<Block<T>>,
    steps: Seq<Step<T>>,
    i: int,
    t: nat,
)
    requires
        is_run(data, run, steps),
        0 <= i < run.len(),
    ensures
        run[i].handles.contains(t) <==> handed_out(run, steps, i, t) && !given_up(steps, i, t),
        handed_out(run, steps, i, t) ==> t < run[i].next_ticket,
        given_up(steps, i, t) ==> handed_out(run, steps, i, t),
    decreases i,
{
    if i > 0 {
        counted_handles_are_those_handed_out(data, run, steps, i - 1, t);
        every_run_is_wf(data, run, steps, i - 1);
        let b = run[i - 1];
        assert(steps[i - 1].enabled(b));
        match steps[i - 1] {
            Step::Clone { of } => clone_is_one_more_handle(b, of, t, data),
            Step::Release { handle } => release_is_one_handle_less(b, handle, t),
            Step::Write { by, data } => write_changes_the_value_alone(b, data),
        }
    } else {
        new_allocation_has_one_handle(data, data, t);
    }
}

/// The value after `n` steps: the one that was written last, or else the first one.
pub open spec fn written_last<T>(data: T, steps: Seq<Step<T>>, n: int) -> T
    decreases n,
{
    if n <= 0 {
        data
    } else {
        match steps[n - 1] {
            Step::Write { by, data: written } => written,
            _ => written_last(data, steps, n - 1),
        }
    }
}

/// Every handle reads the value that the allocation was made for, or else the one that was written
/// last.
pub proof fn value_is_the_one_written_last<T>(
    data: T,
    run: Seq<Block<T>>,
    steps: Seq<Step<T>>,
    i: int,
)
    requires
        is_run(data, run, steps),
        0 <= i < run.len(),
    ensures
        run[i].data == written_last(data, steps, i),
    decreases i,
{
    if i > 0 {
        value_is_the_one_written_last(data, run, steps, i - 1);
        assert(steps[i - 1].enabled(run[i - 1]));
    }
}

} // verus!
