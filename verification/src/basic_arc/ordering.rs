//! Why the counter is lowered with release ordering, and why whoever frees the value or changes it
//! in place fences with acquire ordering first: every access through any handle happens before. The
//! counter is raised with relaxed ordering: a clone comes from another handle, and every change of
//! the value happens before what is done through either.

use crate::basic_arc::laws;
use crate::basic_arc::model;
use crate::basic_arc::model::Block;
use vstd::prelude::*;

verus! {

/// An allocation, with the accesses that have been made to its value.
///
/// The accesses are numbered from zero. One of them happens before what a thread does next if the
/// thread has made it, or has come to know of it through a handle or through the counter.
#[verifier::ext_equal]
pub struct History<T> {
    pub block: Block<T>,
    /// The number of accesses so far.
    pub accesses: nat,
    /// The accesses that have changed the value.
    pub writes: Set<nat>,
    /// The accesses that happen before what is done next through each handle.
    pub known: Map<nat, Set<nat>>,
    /// The accesses that the decrements of the counter have released: those that a thread comes
    /// to know of which reads the counter and then fences with acquire ordering.
    pub released: Set<nat>,
}

/// One atomic step of some thread.
pub enum Step<T> {
    /// The value is read through a handle.
    Access { handle: nat },
    /// A step on the counter or on the value: a clone raises the counter with relaxed ordering, a
    /// release lowers it with release ordering, and a write through `get_mut` comes after a fence
    /// with acquire ordering.
    OnBlock(laws::Step<T>),
}

impl<T> History<T> {
    /// A new allocation.
    pub open spec fn fresh(data: T) -> History<T> {
        History {
            block: Block::fresh(data),
            accesses: 0,
            writes: Set::empty(),
            known: map![0nat => Set::empty()],
            released: Set::empty(),
        }
    }

    /// The access `a` is known through a live handle.
    pub open spec fn known_through_handle(self, a: nat) -> bool {
        exists|h: nat| #[trigger] self.block.handles.contains(h) && self.known[h].contains(a)
    }

    /// Every access is known through a live handle or has been released. Every write is known
    /// through all live handles.
    pub open spec fn wf(self) -> bool {
        &&& self.block.wf()
        &&& forall|a: nat|
            a < self.accesses ==> #[trigger] self.released.contains(a) || self.known_through_handle(
                a,
            )
        &&& forall|t: nat, w: nat|
            #![trigger self.known[t].contains(w)]
            self.block.handles.contains(t) && self.writes.contains(w) ==> self.known[t].contains(w)
        &&& forall|w: nat| #[trigger] self.writes.contains(w) ==> w < self.accesses
    }
}

impl<T> Step<T> {
    /// Whether some thread can take the step now.
    pub open spec fn enabled(self, h: History<T>) -> bool {
        match self {
            Step::Access { handle } => h.block.handles.contains(handle),
            Step::OnBlock(step) => step.enabled(h.block),
        }
    }

    /// The state after the step.
    pub open spec fn apply(self, h: History<T>) -> History<T> {
        match self {
            Step::Access { handle } => History {
                accesses: h.accesses + 1,
                known: h.known.insert(handle, h.known[handle].insert(h.accesses)),
                ..h
            },
            Step::OnBlock(step) => {
                let after = History { block: step.apply(h.block), ..h };
                match step {
                    laws::Step::Clone { of } => History {
                        known: h.known.insert(h.block.next_ticket, h.known[of]),
                        ..after
                    },
                    laws::Step::Release { handle } => History {
                        released: h.released.union(h.known[handle]),
                        ..after
                    },
                    laws::Step::Write { by, data } => History {
                        accesses: h.accesses + 1,
                        writes: h.writes.insert(h.accesses),
                        known: h.known.insert(
                            by,
                            h.known[by].union(h.released).insert(h.accesses),
                        ),
                        ..after
                    },
                }
            },
        }
    }
}

/// `run` is a history of an allocation that was made for `data`: threads have taken `steps` on
/// it, one after the other.
pub open spec fn is_run<T>(data: T, run: Seq<History<T>>, steps: Seq<Step<T>>) -> bool {
    &&& run.len() == steps.len() + 1
    &&& run[0] == History::fresh(data)
    &&& forall|i: int|
        0 <= i < steps.len() ==> (#[trigger] steps[i]).enabled(run[i]) && run[i + 1]
            == steps[i].apply(run[i])
}

/// A step keeps every write known through all live handles.
proof fn lemma_writes_kept<T>(h: History<T>, step: Step<T>, t: nat, w: nat)
    requires
        h.wf(),
        step.enabled(h),
        step.apply(h).block.handles.contains(t),
        step.apply(h).writes.contains(w),
    ensures
        step.apply(h).known[t].contains(w),
{
    if let Step::OnBlock(laws::Step::Write { by, .. }) = step {
        laws::sole_handle_is_exclusive(h.block, by);
        assert(set![by].contains(t));
        assert(h.writes.contains(w) ==> h.known[by].contains(w));
    } else {
        let from = match step {
            Step::OnBlock(laws::Step::Clone { of }) if t == h.block.next_ticket => of,
            _ => t,
        };
        assert(h.block.handles.contains(from));
        assert(h.known[from].contains(w));
    }
}

/// Every step keeps every access known.
pub proof fn step_keeps_wf<T>(h: History<T>, step: Step<T>)
    requires
        h.wf(),
        step.enabled(h),
    ensures
        step.apply(h).wf(),
{
    let after = step.apply(h);
    if let Step::OnBlock(inner) = step {
        laws::step_keeps_wf(h.block, inner);
    }
    assert forall|a: nat| a < after.accesses implies #[trigger] after.released.contains(a)
        || after.known_through_handle(a) by {
        if a == h.accesses {
            let t = match step {
                Step::Access { handle } => handle,
                Step::OnBlock(laws::Step::Write { by, .. }) => by,
                _ => arbitrary(),
            };
            assert(after.block.handles.contains(t) && after.known[t].contains(a));
        } else if !h.released.contains(a) {
            let t = choose|t: nat| #[trigger]
                h.block.handles.contains(t) && h.known[t].contains(a);
            assert(t < h.block.next_ticket);
            if after.block.handles.contains(t) {
                assert(after.known[t].contains(a));
            }
        }
    }
    assert forall|t: nat, w: nat|
        #![trigger after.known[t].contains(w)]
        after.block.handles.contains(t) && after.writes.contains(
            w,
        ) implies after.known[t].contains(w) by {
        lemma_writes_kept(h, step, t, w);
    }
}

/// In whatever order threads take their steps, every access is known throughout.
pub proof fn every_run_is_wf<T>(data: T, run: Seq<History<T>>, steps: Seq<Step<T>>, i: int)
    requires
        is_run(data, run, steps),
        0 <= i < run.len(),
    ensures
        run[i].wf(),
    decreases i,
{
    if i == 0 {
        model::lemma_fresh_wf(data);
    } else {
        every_run_is_wf(data, run, steps, i - 1);
        step_keeps_wf(run[i - 1], steps[i - 1]);
    }
}

/// Whoever takes the counter to zero, and fences, knows of every access that was ever made: nobody
/// is at the value any more when it is dropped.
pub proof fn free_comes_after_every_access<T>(
    data: T,
    run: Seq<History<T>>,
    steps: Seq<Step<T>>,
    i: int,
    handle: nat,
    a: nat,
)
    requires
        is_run(data, run, steps),
        0 <= i < steps.len(),
        steps[i] == Step::<T>::OnBlock(laws::Step::Release { handle }),
        run[i].block.ref_count == 1,
        a < run[i].accesses,
    ensures
        run[i + 1].block.ref_count == 0,
        run[i + 1].released.contains(a),
{
    every_run_is_wf(data, run, steps, i);
    lemma_sole_handle_knows(run[i], handle, a);
}

/// Whoever finds the counter at one, and fences, knows of every access that was ever made: the
/// value may be changed in place.
pub proof fn get_mut_comes_after_every_access<T>(
    data: T,
    run: Seq<History<T>>,
    steps: Seq<Step<T>>,
    i: int,
    handle: nat,
    a: nat,
)
    requires
        is_run(data, run, steps),
        0 <= i < steps.len(),
        steps[i] matches Step::OnBlock(laws::Step::Write { by, .. }) && by == handle,
        a < run[i].accesses,
    ensures
        run[i + 1].known[handle].contains(a),
{
    every_run_is_wf(data, run, steps, i);
    lemma_sole_handle_knows(run[i], handle, a);
}

/// Whatever has been written is known wherever the value is read: at each access, through whichever
/// handle, every write that was made happens before.
pub proof fn access_comes_after_every_write<T>(
    data: T,
    run: Seq<History<T>>,
    steps: Seq<Step<T>>,
    i: int,
    handle: nat,
    w: nat,
)
    requires
        is_run(data, run, steps),
        0 <= i < steps.len(),
        steps[i] == (Step::<T>::Access { handle }),
        run[i].writes.contains(w),
    ensures
        run[i].known[handle].contains(w),
        run[i + 1].known[handle].contains(w),
{
    every_run_is_wf(data, run, steps, i);
    assert(run[i].block.handles.contains(handle));
}

proof fn lemma_sole_handle_knows<T>(h: History<T>, handle: nat, a: nat)
    requires
        h.wf(),
        h.block.handles.contains(handle),
        h.block.ref_count == 1,
        a < h.accesses,
    ensures
        h.released.contains(a) || h.known[handle].contains(a),
{
    laws::sole_handle_is_exclusive(h.block, handle);
    assert(h.released.contains(a) || h.known_through_handle(a));
    if !h.released.contains(a) {
        let t = choose|t: nat| #[trigger] h.block.handles.contains(t) && h.known[t].contains(a);
        assert(set![handle].contains(t));
    }
}

} // verus!
