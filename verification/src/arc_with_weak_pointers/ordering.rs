//! Why both counters are lowered with release ordering, and why whoever drops the value, frees the
//! container or changes the value in place fences with acquire ordering: every access through any
//! handle happens before. The counters are raised with relaxed ordering: a new handle comes from
//! another, and every change of the value happens before what is done through either.

use crate::arc_with_weak_pointers::laws;
use crate::arc_with_weak_pointers::model;
use crate::arc_with_weak_pointers::model::Block;
use vstd::prelude::*;

verus! {

/// An allocation, with the accesses that have been made to its value.
///
/// The accesses are numbered from zero. One of them happens before what a thread does next if the
/// thread has made it, or has come to know of it through a handle or through a counter.
#[verifier::ext_equal]
pub struct History<T> {
    pub block: Block<T>,
    /// The number of accesses so far.
    pub accesses: nat,
    /// The accesses that have changed the value.
    pub writes: Set<nat>,
    /// The accesses that happen before what is done next through each handle, and through each
    /// upgrade that is half done.
    pub known: Map<nat, Set<nat>>,
    /// The accesses that the decrements of the strong count have released: those that a thread
    /// comes to know of which reads the count and then fences with acquire ordering.
    pub data_released: Set<nat>,
    /// The same for the allocation count.
    pub alloc_released: Set<nat>,
}

/// One atomic step of some thread.
pub enum Step<T> {
    /// The value is read through a strong handle.
    Access { strong: nat },
    /// A step on the counters or on the data.
    OnBlock(laws::Step<T>),
}

impl<T> History<T> {
    /// A new allocation.
    pub open spec fn fresh(data: T) -> History<T> {
        History {
            block: Block::fresh(data),
            accesses: 0,
            writes: Set::empty(),
            known: map![0nat => Set::empty()],
            data_released: Set::empty(),
            alloc_released: Set::empty(),
        }
    }

    /// The access `a` is known through a live strong handle.
    pub open spec fn known_through_strong(self, a: nat) -> bool {
        exists|t: nat| #[trigger] self.block.ledger.strong.contains(t) && self.known[t].contains(a)
    }

    /// The access `a` is known through a live handle of either sort.
    pub open spec fn known_through_handle(self, a: nat) -> bool {
        ||| self.known_through_strong(a)
        ||| exists|t: nat| #[trigger]
            self.block.ledger.weak.contains(t) && self.known[t].contains(a)
    }

    /// `t` is a live handle of either sort, or an upgrade that is half done.
    pub open spec fn lives(self, t: nat) -> bool {
        ||| self.block.ledger.strong.contains(t)
        ||| self.block.ledger.weak.contains(t)
        ||| self.block.ledger.upgrading.contains_key(t)
    }

    /// Every access is known through a live strong handle or released by the strong count, and
    /// known through a live handle or released by the allocation count. Every write is known
    /// through all that lives.
    pub open spec fn wf(self) -> bool {
        &&& self.block.wf()
        &&& forall|a: nat|
            a < self.accesses ==> #[trigger] self.data_released.contains(a)
                || self.known_through_strong(a)
        &&& forall|a: nat|
            a < self.accesses ==> #[trigger] self.alloc_released.contains(a)
                || self.known_through_handle(a)
        &&& forall|t: nat, w: nat|
            #![trigger self.known[t].contains(w)]
            self.lives(t) && self.writes.contains(w) ==> self.known[t].contains(w)
        &&& forall|w: nat| #[trigger] self.writes.contains(w) ==> w < self.accesses
    }
}

impl<T> Step<T> {
    /// Whether some thread can take the step now.
    pub open spec fn enabled(self, h: History<T>) -> bool {
        match self {
            Step::Access { strong } => h.block.ledger.strong.contains(strong),
            Step::OnBlock(step) => step.enabled(h.block),
        }
    }

    /// The state after the step. A new handle starts with what is known through the one that it
    /// comes from, and an upgrade with what is known through the weak handle.
    pub open spec fn apply(self, h: History<T>) -> History<T> {
        match self {
            Step::Access { strong } => History {
                accesses: h.accesses + 1,
                known: h.known.insert(strong, h.known[strong].insert(h.accesses)),
                ..h
            },
            Step::OnBlock(step) => {
                let next = h.block.ledger.next_ticket;
                let after = History { block: step.apply(h.block), ..h };
                match step {
                    laws::Step::CloneWeak { of } => History {
                        known: h.known.insert(next, h.known[of]),
                        ..after
                    },
                    laws::Step::ClaimUpgrade { weak } => History {
                        known: h.known.insert(next, h.known[weak]),
                        ..after
                    },
                    laws::Step::ReleaseStrong { strong } => History {
                        data_released: h.data_released.union(h.known[strong]),
                        ..after
                    },
                    laws::Step::Clear { weak } => History {
                        known: h.known.insert(weak, h.known[weak].union(h.data_released)),
                        ..after
                    },
                    laws::Step::ReleaseWeak { weak } => History {
                        alloc_released: h.alloc_released.union(h.known[weak]),
                        ..after
                    },
                    laws::Step::Write { strong, data } => History {
                        accesses: h.accesses + 1,
                        writes: h.writes.insert(h.accesses),
                        known: h.known.insert(
                            strong,
                            h.known[strong].union(h.alloc_released).insert(h.accesses),
                        ),
                        ..after
                    },
                    _ => after,
                }
            },
        }
    }
}

/// `run` is a history of an allocation that was made for `data`: threads have taken `steps` on
/// it, one after the other.
pub open spec fn is_run<T>(data: T, run: Seq<History<T>>, steps: Seq<Step<T>>) -> bool {
    &&& run.len() == steps.len() + 1
    &&& run[0] == History::fresh(data)
    &&& forall|i: int|
        0 <= i < steps.len() ==> (#[trigger] steps[i]).enabled(run[i]) && run[i + 1]
            == steps[i].apply(run[i])
}

/// A step that keeps the live handles of an access alive, with what they know, keeps it known.
proof fn lemma_strong_knowledge_kept<T>(h: History<T>, step: Step<T>, a: nat, t: nat)
    requires
        h.wf(),
        step.enabled(h),
        h.block.ledger.strong.contains(t),
        h.known[t].contains(a),
    ensures
        step.apply(h).known[t].contains(a),
        step.apply(h).known_through_strong(a) || step == Step::<T>::OnBlock(
            laws::Step::ReleaseStrong { strong: t },
        ),
        step.apply(h).known_through_handle(a),
{
    let after = step.apply(h);
    assert(t < h.block.ledger.next_ticket);
    if after.block.ledger.strong.contains(t) {
        assert(after.known_through_strong(a));
    } else {
        assert(after.block.ledger.weak.contains(t));
    }
}

proof fn lemma_weak_knowledge_kept<T>(h: History<T>, step: Step<T>, a: nat, t: nat)
    requires
        h.wf(),
        step.enabled(h),
        h.block.ledger.weak.contains(t),
        h.known[t].contains(a),
    ensures
        step.apply(h).known[t].contains(a),
        step.apply(h).known_through_handle(a) || step == Step::<T>::OnBlock(
            laws::Step::ReleaseWeak { weak: t },
        ),
{
    let after = step.apply(h);
    assert(t < h.block.ledger.next_ticket);
    if after.block.ledger.weak.contains(t) {
    } else if after.block.ledger.strong.contains(t) {
        assert(after.known_through_strong(a));
    }
}

/// A step keeps every write known through all that lives.
proof fn lemma_writes_kept<T>(h: History<T>, step: Step<T>, t: nat, w: nat)
    requires
        h.wf(),
        step.enabled(h),
        step.apply(h).lives(t),
        step.apply(h).writes.contains(w),
    ensures
        step.apply(h).known[t].contains(w),
{
    if let Step::OnBlock(laws::Step::Write { strong, .. }) = step {
        laws::sole_handle_is_exclusive(h.block, strong);
        if h.block.ledger.upgrading.contains_key(t) {
            assert(h.block.ledger.upgrading.dom().contains(t));
        }
        assert(set![strong].contains(t));
        assert(h.writes.contains(w) ==> h.known[strong].contains(w));
    } else {
        let next = h.block.ledger.next_ticket;
        let from = match step {
            Step::OnBlock(laws::Step::CloneWeak { of }) if t == next => of,
            Step::OnBlock(laws::Step::ClaimUpgrade { weak }) if t == next => weak,
            _ => t,
        };
        assert(h.lives(from));
        assert(h.known[from].contains(w));
    }
}

/// Every step keeps every access known.
pub proof fn step_keeps_wf<T>(h: History<T>, step: Step<T>)
    requires
        h.wf(),
        step.enabled(h),
    ensures
        step.apply(h).wf(),
{
    let after = step.apply(h);
    if let Step::OnBlock(inner) = step {
        laws::step_keeps_wf(h.block, inner);
    }
    assert forall|a: nat| a < after.accesses implies #[trigger] after.data_released.contains(a)
        || after.known_through_strong(a) by {
        if a == h.accesses {
            let t = match step {
                Step::Access { strong } => strong,
                Step::OnBlock(laws::Step::Write { strong, .. }) => strong,
                _ => arbitrary(),
            };
            assert(after.block.ledger.strong.contains(t) && after.known[t].contains(a));
        } else if !h.data_released.contains(a) {
            let t = choose|t: nat| #[trigger]
                h.block.ledger.strong.contains(t) && h.known[t].contains(a);
            lemma_strong_knowledge_kept(h, step, a, t);
        }
    }
    assert forall|a: nat| a < after.accesses implies #[trigger] after.alloc_released.contains(a)
        || after.known_through_handle(a) by {
        if a == h.accesses {
            assert(after.data_released.contains(a) || after.known_through_strong(a));
            let t = match step {
                Step::Access { strong } => strong,
                Step::OnBlock(laws::Step::Write { strong, .. }) => strong,
                _ => arbitrary(),
            };
            assert(after.block.ledger.strong.contains(t) && after.known[t].contains(a));
        } else if !h.alloc_released.contains(a) {
            if h.known_through_strong(a) {
                let t = choose|t: nat| #[trigger]
                    h.block.ledger.strong.contains(t) && h.known[t].contains(a);
                lemma_strong_knowledge_kept(h, step, a, t);
            } else {
                let t = choose|t: nat| #[trigger]
                    h.block.ledger.weak.contains(t) && h.known[t].contains(a);
                lemma_weak_knowledge_kept(h, step, a, t);
            }
        }
    }
    assert forall|t: nat, w: nat|
        #![trigger after.known[t].contains(w)]
        after.lives(t) && after.writes.contains(w) implies after.known[t].contains(w) by {
        lemma_writes_kept(h, step, t, w);
    }
}

/// In whatever order threads take their steps, every access is known throughout.
pub proof fn every_run_is_wf<T>(data: T, run: Seq<History<T>>, steps: Seq<Step<T>>, i: int)
    requires
        is_run(data, run, steps),
        0 <= i < run.len(),
    ensures
        run[i].wf(),
    decreases i,
{
    if i == 0 {
        model::lemma_fresh_wf(data);
    } else {
        every_run_is_wf(data, run, steps, i - 1);
        step_keeps_wf(run[i - 1], steps[i - 1]);
    }
}

/// The handle that drops the value, after its fence, knows of every access that was ever made.
pub proof fn clear_comes_after_every_access<T>(
    data: T,
    run: Seq<History<T>>,
    steps: Seq<Step<T>>,
    i: int,
    weak: nat,
    a: nat,
)
    requires
        is_run(data, run, steps),
        0 <= i < steps.len(),
        steps[i] == Step::<T>::OnBlock(laws::Step::Clear { weak }),
        a < run[i].accesses,
    ensures
        run[i].data_released.contains(a),
        run[i + 1].known[weak].contains(a),
        run[i + 1].block.data is None,
{
    let h = run[i];
    every_run_is_wf(data, run, steps, i);
    laws::data_is_cleared_once(h.block, weak, weak);
    assert(h.data_released.contains(a) || h.known_through_strong(a));
}

/// Whoever takes the allocation count to zero, and fences, knows of every access that was ever
/// made when the container is freed.
pub proof fn free_comes_after_every_access<T>(
    data: T,
    run: Seq<History<T>>,
    steps: Seq<Step<T>>,
    i: int,
    weak: nat,
    a: nat,
)
    requires
        is_run(data, run, steps),
        0 <= i < steps.len(),
        steps[i] == Step::<T>::OnBlock(laws::Step::ReleaseWeak { weak }),
        run[i].block.alloc_count == 1,
        a < run[i].accesses,
    ensures
        run[i + 1].block.alloc_count == 0,
        run[i + 1].alloc_released.contains(a),
{
    every_run_is_wf(data, run, steps, i);
    every_run_is_wf(data, run, steps, i + 1);
    let after = run[i + 1];
    after.block.ledger.strong.lemma_len0_is_empty();
    after.block.ledger.weak.lemma_len0_is_empty();
    assert(after.alloc_released.contains(a) || after.known_through_handle(a));
}

/// A strong handle that finds the allocation count at one, and fences, knows of every access that
/// was ever made: the value may be changed in place.
pub proof fn get_mut_comes_after_every_access<T>(
    data: T,
    run: Seq<History<T>>,
    steps: Seq<Step<T>>,
    i: int,
    strong: nat,
    a: nat,
)
    requires
        is_run(data, run, steps),
        0 <= i < steps.len(),
        steps[i] matches Step::OnBlock(laws::Step::Write { strong: by, .. }) && by == strong,
        a < run[i].accesses,
    ensures
        run[i + 1].known[strong].contains(a),
{
    let h = run[i];
    every_run_is_wf(data, run, steps, i);
    laws::sole_handle_is_exclusive(h.block, strong);
    assert(h.alloc_released.contains(a) || h.known_through_handle(a));
    if !h.alloc_released.contains(a) {
        let t = choose|t: nat| #[trigger]
            h.block.ledger.strong.contains(t) && h.known[t].contains(a);
        assert(set![strong].contains(t));
    }
}

/// Whatever has been written is known wherever the value is read: at each access, through whichever
/// strong handle, every write that was made happens before.
pub proof fn access_comes_after_every_write<T>(
    data: T,
    run: Seq<History<T>>,
    steps: Seq<Step<T>>,
    i: int,
    strong: nat,
    w: nat,
)
    requires
        is_run(data, run, steps),
        0 <= i < steps.len(),
        steps[i] == (Step::<T>::Access { strong }),
        run[i].writes.contains(w),
    ensures
        run[i].known[strong].contains(w),
        run[i + 1].known[strong].contains(w),
{
    every_run_is_wf(data, run, steps, i);
    assert(run[i].lives(strong));
}

} // verus!
