//! What holds of an allocation whatever order the steps of its handles come in.

use crate::arc_with_weak_pointers::model;
use crate::arc_with_weak_pointers::model::Block;
use vstd::prelude::*;

verus! {

/// One atomic step that some thread takes on an allocation. Handles are given by their tickets.
pub enum Step<T> {
    /// The handle `of`, of either sort, is cloned or downgraded into a weak one.
    CloneWeak { of: nat },
    /// A clone of the strong handle `of` turns its weak half into a strong handle.
    MakeStrong { of: nat, weak: nat },
    /// A strong handle gives up its share of the strong count.
    ReleaseStrong { strong: nat },
    /// The handle that took the strong count to zero drops the data.
    Clear { weak: nat },
    /// A weak handle gives up its share of the allocation count.
    ReleaseWeak { weak: nat },
    /// An upgrade of a weak handle raises the strong count.
    ClaimUpgrade { weak: nat },
    /// An upgrade raises the allocation count.
    FinishUpgrade { upgrade: nat },
    /// The value is changed through `get_mut`.
    Write { strong: nat, data: T },
}

impl<T> Step<T> {
    /// Whether some thread can take the step now.
    pub open spec fn enabled(self, b: Block<T>) -> bool {
        match self {
            Step::CloneWeak { of } => b.ledger.strong.contains(of) || b.ledger.weak.contains(of),
            Step::MakeStrong { of, weak } => {
                &&& b.ledger.strong.contains(of)
                &&& b.ledger.weak.contains(weak)
                &&& b.weak_is_idle(weak)
            },
            Step::ReleaseStrong { strong } => b.ledger.strong.contains(strong),
            Step::Clear { weak } => {
                &&& b.ledger.weak.contains(weak)
                &&& b.ledger.clearing == Some(weak)
            },
            Step::ReleaseWeak { weak } => b.ledger.weak.contains(weak) && b.weak_is_idle(weak),
            Step::ClaimUpgrade { weak } => b.ledger.weak.contains(weak) && b.data_ref_count != 0,
            Step::FinishUpgrade { upgrade } => b.ledger.upgrading.contains_key(upgrade),
            Step::Write { strong, data } => {
                &&& b.ledger.strong.contains(strong)
                &&& b.alloc_count == 1
            },
        }
    }

    /// The allocation after the step.
    pub open spec fn apply(self, b: Block<T>) -> Block<T> {
        match self {
            Step::CloneWeak { of } => b.weak_added(),
            Step::MakeStrong { of, weak } => b.weak_made_strong(weak),
            Step::ReleaseStrong { strong } => b.strong_released(strong),
            Step::Clear { weak } => b.data_cleared(),
            Step::ReleaseWeak { weak } => b.weak_released(weak),
            Step::ClaimUpgrade { weak } => b.upgrade_claimed(weak),
            Step::FinishUpgrade { upgrade } => b.upgrade_finished(upgrade),
            Step::Write { strong, data } => b.data_written(data),
        }
    }
}

/// `run` is a history of an allocation that was made for `data`: threads have taken `steps` on
/// it, one after the other.
pub open spec fn is_run<T>(data: T, run: Seq<Block<T>>, steps: Seq<Step<T>>) -> bool {
    &&& run.len() == steps.len() + 1
    &&& run[0] == Block::fresh(data)
    &&& forall|i: int|
        0 <= i < steps.len() ==> (#[trigger] steps[i]).enabled(run[i]) && run[i + 1]
            == steps[i].apply(run[i])
}

/// Every step of every thread keeps the counters equal to the handles that exist, and the data
/// there as long as it is owed.
pub proof fn step_keeps_wf<T>(b: Block<T>, step: Step<T>)
    requires
        b.wf(),
        step.enabled(b),
    ensures
        step.apply(b).wf(),
{
    match step {
        Step::CloneWeak { of } => model::lemma_weak_added_wf(b),
        Step::MakeStrong { of, weak } => {
            assert(b.ledger.strong.len() >= 1);
            model::lemma_weak_made_strong_wf(b, weak);
        },
        Step::ReleaseStrong { strong } => model::lemma_strong_released_wf(b, strong),
        Step::Clear { weak } => model::lemma_data_cleared_wf(b),
        Step::ReleaseWeak { weak } => model::lemma_weak_released_wf(b, weak),
        Step::ClaimUpgrade { weak } => model::lemma_upgrade_claimed_wf(b, weak),
        Step::FinishUpgrade { upgrade } => model::lemma_upgrade_finished_wf(b, upgrade),
        Step::Write { strong, data } => {
            assert(b.ledger.strong.len() >= 1);
        },
    }
}

/// In whatever order threads take their steps, the allocation agrees with its handles throughout.
pub proof fn every_run_is_wf<T>(data: T, run: Seq<Block<T>>, steps: Seq<Step<T>>, i: int)
    requires
        is_run(data, run, steps),
        0 <= i < run.len(),
    ensures
        run[i].wf(),
    decreases i,
{
    if i == 0 {
        model::lemma_fresh_wf(data);
    } else {
        every_run_is_wf(data, run, steps, i - 1);
        step_keeps_wf(run[i - 1], steps[i - 1]);
    }
}

/// A live strong handle always finds the value, and both counters count it.
pub proof fn strong_handle_finds_data<T>(b: Block<T>, strong: nat)
    requires
        b.wf(),
        b.ledger.strong.contains(strong),
    ensures
        b.data is Some,
        b.data_ref_count >= 1,
        b.alloc_count >= b.ledger.strong.len() >= 1,
{
    assert(b.ledger.strong.len() >= 1);
}

/// `get_mut` is exclusive: with an allocation count of one, the strong handle that asks is the
/// only handle, and no upgrade is under way.
pub proof fn sole_handle_is_exclusive<T>(b: Block<T>, strong: nat)
    requires
        b.wf(),
        b.ledger.strong.contains(strong),
    ensures
        b.alloc_count == 1 <==> {
            &&& b.ledger.strong == set![strong]
            &&& b.ledger.weak == Set::<nat>::empty()
        },
        b.alloc_count == 1 ==> b.at_rest() && b.data_ref_count == 1,
{
    let s = b.ledger.strong;
    let w = b.ledger.weak;
    assert(s.remove(strong).insert(strong) =~= s);
    assert(s.remove(strong).len() == s.len() - 1);
    if b.alloc_count == 1 {
        s.remove(strong).lemma_len0_is_empty();
        w.lemma_len0_is_empty();
        assert(s =~= set![strong]);
        assert(w =~= Set::<nat>::empty());
        assert(b.ledger.upgrading.dom() =~= Set::<nat>::empty()) by {
            assert forall|u: nat| !b.ledger.upgrading.dom().contains(u) by {
                if b.ledger.upgrading.contains_key(u) {
                    assert(w.contains(b.ledger.upgrading[u]));
                }
            }
        }
    }
    if s == set![strong] && w == Set::<nat>::empty() {
        assert(set![strong].len() == 1);
    }
}

/// The value that a strong handle reads is changed by no step of anybody else: only `get_mut` on
/// the handle itself does.
pub proof fn data_is_stable_under_strong_handle<T>(b: Block<T>, step: Step<T>, strong: nat)
    requires
        b.wf(),
        step.enabled(b),
        b.ledger.strong.contains(strong),
    ensures
        step.apply(b).data == b.data || (step matches Step::Write { strong: by, .. } && by
            == strong),
        step.apply(b).ledger.strong.contains(strong) || step == (Step::<T>::ReleaseStrong {
            strong,
        }),
{
    assert(b.ledger.strong.len() >= 1);
    if let Step::Write { strong: by, .. } = step {
        sole_handle_is_exclusive(b, strong);
        assert(set![strong].contains(by));
    }
}

/// Once the strong count is zero it stays zero, so that no upgrade is available any more, and
/// data that has been dropped does not come back.
pub proof fn dead_value_stays_dead<T>(b: Block<T>, step: Step<T>)
    requires
        b.wf(),
        step.enabled(b),
        b.data_ref_count == 0,
    ensures
        step.apply(b).data_ref_count == 0,
        b.data is None ==> step.apply(b).data is None,
        !(step is ClaimUpgrade),
{
    let l = b.ledger;
    l.strong.lemma_len0_is_empty();
    l.upgrading.dom().lemma_len0_is_empty();
}

/// The data is dropped by one handle only, when no strong handle and no upgrade is left.
pub proof fn data_is_cleared_once<T>(b: Block<T>, first: nat, second: nat)
    requires
        b.wf(),
        (Step::<T>::Clear { weak: first }).enabled(b),
    ensures
        b.ledger.strong == Set::<nat>::empty(),
        b.ledger.upgrading.dom() == Set::<nat>::empty(),
        b.data is Some,
        b.data_cleared().data is None,
        (Step::<T>::Clear { weak: second }).enabled(b) ==> first == second,
        !(Step::<T>::Clear { weak: second }).enabled(b.data_cleared()),
{
    b.ledger.strong.lemma_len0_is_empty();
    b.ledger.upgrading.dom().lemma_len0_is_empty();
}

/// Once the strong count is zero and the data gone, this stays so to the end of the run.
proof fn lemma_dead_to_the_end<T>(
    data: T,
    run: Seq<Block<T>>,
    steps: Seq<Step<T>>,
    i: int,
    j: int,
)
    requires
        is_run(data, run, steps),
        0 <= i <= j < run.len(),
        run[i].data_ref_count == 0,
        run[i].data is None,
    ensures
        run[j].data_ref_count == 0,
        run[j].data is None,
    decreases j,
{
    if i < j {
        lemma_dead_to_the_end(data, run, steps, i, j - 1);
        every_run_is_wf(data, run, steps, j - 1);
        dead_value_stays_dead(run[j - 1], steps[j - 1]);
    }
}

/// In whatever order threads take their steps, the data is dropped at most once. From then on it
/// is gone, no upgrade starts and nothing is written.
pub proof fn every_run_clears_data_once<T>(
    data: T,
    run: Seq<Block<T>>,
    steps: Seq<Step<T>>,
    i: int,
    j: int,
)
    requires
        is_run(data, run, steps),
        0 <= i < j < steps.len(),
        steps[i] is Clear,
    ensures
        run[j].data is None,
        !(steps[j] is Clear),
        !(steps[j] is ClaimUpgrade),
        !(steps[j] is Write),
{
    every_run_is_wf(data, run, steps, i);
    every_run_is_wf(data, run, steps, j);
    data_is_cleared_once(run[i], steps[i]->Clear_weak, steps[i]->Clear_weak);
    lemma_dead_to_the_end(data, run, steps, i + 1, j);
    run[j].ledger.strong.lemma_len0_is_empty();
}

/// Data that is gone has been dropped by a step of the run: it does not get lost.
pub proof fn missing_data_was_cleared<T>(
    data: T,
    run: Seq<Block<T>>,
    steps: Seq<Step<T>>,
    i: int,
)
    requires
        is_run(data, run, steps),
        0 <= i < run.len(),
        run[i].data is None,
    ensures
        exists|k: int| 0 <= k < i && (#[trigger] steps[k]) is Clear,
    decreases i,
{
    assert(i > 0);
    assert(steps[i - 1].enabled(run[i - 1]));
    if run[i - 1].data is None {
        missing_data_was_cleared(data, run, steps, i - 1);
        let k = choose|k: int| 0 <= k < i - 1 && (#[trigger] steps[k]) is Clear;
        assert(steps[k] is Clear);
    } else {
        assert(steps[i - 1] is Clear);
    }
}

/// An allocation is freed once, after everything else: with an allocation count of zero the value
/// is gone and no thread has a step left to take.
pub proof fn vacant_allocation_is_final<T>(b: Block<T>, step: Step<T>)
    requires
        b.wf(),
        b.alloc_count == 0,
    ensures
        b.data is None,
        !step.enabled(b),
{
    let l = b.ledger;
    l.strong.lemma_len0_is_empty();
    l.weak.lemma_len0_is_empty();
    assert forall|u: nat| !l.upgrading.contains_key(u) by {
        if l.upgrading.contains_key(u) {
            assert(l.weak.contains(l.upgrading[u]));
        }
    }
    assert(l.upgrading.dom() =~= Set::<nat>::empty());
}

/// In whatever order threads take their steps, the step that takes the allocation count to zero is
/// the last one of the run.
pub proof fn every_run_ends_with_free<T>(
    data: T,
    run: Seq<Block<T>>,
    steps: Seq<Step<T>>,
    i: int,
)
    requires
        is_run(data, run, steps),
        0 <= i < run.len(),
        run[i].alloc_count == 0,
    ensures
        i == steps.len(),
        run[i].data is None,
{
    every_run_is_wf(data, run, steps, i);
    if i < steps.len() {
        vacant_allocation_is_final(run[i], steps[i]);
    } else {
        vacant_allocation_is_final(run[i], arbitrary());
    }
}

/// With nothing half done, the value is there exactly if there is a strong handle, which is
/// exactly if an upgrade succeeds.
pub proof fn value_lives_with_strong_handles<T>(b: Block<T>)
    requires
        b.wf(),
        b.at_rest(),
    ensures
        b.data is Some <==> b.data_ref_count > 0,
        b.data_ref_count == b.ledger.strong.len(),
        b.data_ref_count > 0 <==> b.ledger.strong != Set::<nat>::empty(),
{
    assert(b.ledger.upgrading.dom().len() == 0);
    if b.ledger.strong.len() == 0 {
        b.ledger.strong.lemma_len0_is_empty();
    }
}

/// Dropping the last strong handle drops the value. The container stays, without any upgrade to
/// be had, exactly if there are weak handles.
pub proof fn last_strong_drop_drops_value<T>(b: Block<T>, strong: nat)
    requires
        b.wf(),
        b.ledger.strong.contains(strong),
        b.data_ref_count == 1,
    ensures
        b.after_strong_drop(strong) is None <==> b.ledger.weak == Set::<nat>::empty(),
        b.after_strong_drop(strong) matches Some(left) ==> {
            &&& left.wf()
            &&& left.data is None
            &&& left.data_ref_count == 0
            &&& left.ledger.weak == b.ledger.weak
        },
{
    assert(b.ledger.strong.len() >= 1);
    assert(!b.ledger.weak.contains(strong));
    if b.ledger.weak.len() == 0 {
        b.ledger.weak.lemma_len0_is_empty();
    }
    model::lemma_strong_released_wf(b, strong);
    let released = b.strong_released(strong);
    model::lemma_data_cleared_wf(released);
    assert(b.ledger.upgrading.dom().len() == 0);
    b.ledger.upgrading.dom().lemma_len0_is_empty();
    model::lemma_weak_released_wf(released.data_cleared(), strong);
    assert(released.data_cleared().weak_released(strong).ledger.weak =~= b.ledger.weak);
}

/// Dropping a strong handle that is not the last leaves the value as it is.
pub proof fn other_strong_drop_keeps_value<T>(b: Block<T>, strong: nat)
    requires
        b.wf(),
        b.ledger.strong.contains(strong),
        b.data_ref_count != 1,
    ensures
        b.after_strong_drop(strong) matches Some(left) && {
            &&& left.wf()
            &&& left.data == b.data
            &&& left.data is Some
            &&& left.data_ref_count == b.data_ref_count - 1
            &&& left.alloc_count == b.alloc_count - 1
            &&& left.ledger.strong == b.ledger.strong.remove(strong)
            &&& left.ledger.weak == b.ledger.weak
        },
{
    assert(b.ledger.strong.len() >= 1);
    assert(!b.ledger.weak.contains(strong));
    sole_handle_is_exclusive(b, strong);
    model::lemma_strong_released_wf(b, strong);
    let released = b.strong_released(strong);
    model::lemma_weak_released_wf(released, strong);
    assert(released.weak_released(strong).ledger.weak =~= b.ledger.weak);
}

/// The two allocations agree in the counters, the data and the handles: in all but the next
/// ticket.
pub open spec fn same_but_ticket<T>(a: Block<T>, b: Block<T>) -> bool {
    &&& a.data_ref_count == b.data_ref_count
    &&& a.alloc_count == b.alloc_count
    &&& a.data == b.data
    &&& a.ledger.strong == b.ledger.strong
    &&& a.ledger.weak == b.ledger.weak
    &&& a.ledger.upgrading == b.ledger.upgrading
    &&& a.ledger.clearing == b.ledger.clearing
}

/// Dropping a new handle undoes what made it: the clone of a strong handle, the upgrade of a weak
/// one, and the downgrade or clone into a weak one.
pub proof fn drop_undoes_new_handle<T>(b: Block<T>, strong: nat, weak: nat)
    requires
        b.wf(),
    ensures
        b.ledger.strong.contains(strong) ==> {
            let left = b.after_strong_clone().after_strong_drop(b.ledger.next_ticket);
            left is Some && same_but_ticket(left->0, b)
        },
        b.ledger.weak.contains(weak) && b.data_ref_count > 0 ==> {
            let left = b.after_upgrade(weak).after_strong_drop(b.ledger.next_ticket);
            left is Some && same_but_ticket(left->0, b)
        },
        b.alloc_count > 0 ==> {
            let left = b.weak_added().after_weak_drop(b.ledger.next_ticket);
            left is Some && same_but_ticket(left->0, b)
        },
{
    let t = b.ledger.next_ticket;
    assert(!b.ledger.strong.contains(t) && !b.ledger.weak.contains(t)
        && !b.ledger.upgrading.contains_key(t));
    if b.ledger.strong.contains(strong) {
        assert(b.ledger.strong.len() >= 1);
        let left = b.after_strong_clone().after_strong_drop(t)->0;
        assert(left.ledger.strong =~= b.ledger.strong);
        assert(left.ledger.weak =~= b.ledger.weak);
    }
    if b.ledger.weak.contains(weak) && b.data_ref_count > 0 {
        assert(b.ledger.weak.len() >= 1);
        let left = b.after_upgrade(weak).after_strong_drop(t)->0;
        assert(left.ledger.strong =~= b.ledger.strong);
        assert(left.ledger.weak =~= b.ledger.weak);
        assert(left.ledger.upgrading =~= b.ledger.upgrading);
    }
    if b.alloc_count > 0 {
        let left = b.weak_added().after_weak_drop(t)->0;
        assert(left.ledger.weak =~= b.ledger.weak);
    }
}

/// A new allocation has one handle, whatever the value is: a strong one, which both counters count
/// once, and no weak one. It may change the value in place, and the value goes when it is dropped.
pub proof fn new_allocation_has_one_handle<T>(data: T, other: T, t: nat)
    ensures
        Block::fresh(data).wf(),
        Block::fresh(data).at_rest(),
        Block::fresh(data).data == Some(data),
        Block::fresh(data).data_ref_count == 1,
        Block::fresh(data).alloc_count == 1,
        Block::fresh(data).ledger.strong.contains(t) <==> t == 0,
        !Block::fresh(data).ledger.weak.contains(t),
        !Block::fresh(data).ledger.upgrading.contains_key(t),
        (Step::Write { strong: 0, data: other }).enabled(Block::fresh(data)),
        Block::fresh(data).after_strong_drop(0) is None,
{
    model::lemma_fresh_wf(data);
}

/// The value of a new allocation does not outlive its strong handle: once that is dropped, a weak
/// handle made before finds no value and no upgrade, and is the last handle.
pub proof fn weak_handle_does_not_keep_the_value<T>(data: T)
    ensures
        ({
            let weak = Block::fresh(data).ledger.next_ticket;
            let shared = Block::fresh(data).weak_added();
            &&& shared.data == Some(data)
            &&& shared.data_ref_count == 1
            &&& shared.alloc_count == 2
            &&& shared.after_strong_drop(0) matches Some(left) && {
                &&& left.data is None
                &&& left.data_ref_count == 0
                &&& left.alloc_count == 1
                &&& left.ledger.weak.contains(weak)
                &&& !(Step::<T>::ClaimUpgrade { weak }).enabled(left)
                &&& left.after_weak_drop(weak) is None
            }
        }),
{
    model::lemma_fresh_wf(data);
}

/// A new weak handle has a ticket of its own and is counted by the allocation count alone.
pub proof fn weak_clone_is_one_more_handle<T>(b: Block<T>, t: nat)
    requires
        b.wf(),
    ensures
        ({
            let after = b.weak_added();
            let new = b.ledger.next_ticket;
            &&& !b.ledger.strong.contains(new)
            &&& !b.ledger.weak.contains(new)
            &&& !b.ledger.upgrading.contains_key(new)
            &&& after.ledger.weak.contains(t) <==> b.ledger.weak.contains(t) || t == new
            &&& after.ledger.strong.contains(t) <==> b.ledger.strong.contains(t)
            &&& after.ledger.upgrading == b.ledger.upgrading
            &&& after.ledger.clearing == b.ledger.clearing
            &&& after.ledger.next_ticket == new + 1
            &&& after.alloc_count == b.alloc_count + 1
            &&& after.data_ref_count == b.data_ref_count
            &&& after.data == b.data
        }),
{
}

/// A weak handle that is made strong is counted by the strong count too.
pub proof fn made_strong_is_one_more_strong_handle<T>(b: Block<T>, weak: nat, t: nat)
    requires
        b.wf(),
        b.ledger.weak.contains(weak),
    ensures
        ({
            let after = b.weak_made_strong(weak);
            &&& after.ledger.strong.contains(t) <==> b.ledger.strong.contains(t) || t == weak
            &&& after.ledger.weak.contains(t) <==> b.ledger.weak.contains(t) && t != weak
            &&& after.ledger.upgrading == b.ledger.upgrading
            &&& after.ledger.clearing == b.ledger.clearing
            &&& after.ledger.next_ticket == b.ledger.next_ticket
            &&& after.alloc_count == b.alloc_count
            &&& after.data_ref_count == b.data_ref_count + 1
            &&& after.data == b.data
        }),
{
}

/// A strong handle that is given up is counted by the strong count no more, and is the one to clear
/// the data exactly if it was the last. The data stays till then.
pub proof fn strong_release_is_one_strong_handle_less<T>(b: Block<T>, strong: nat, t: nat)
    requires
        b.wf(),
        b.ledger.strong.contains(strong),
    ensures
        ({
            let after = b.strong_released(strong);
            &&& after.ledger.strong.contains(t) <==> b.ledger.strong.contains(t) && t != strong
            &&& after.ledger.weak.contains(t) <==> b.ledger.weak.contains(t) || t == strong
            &&& after.ledger.upgrading == b.ledger.upgrading
            &&& after.ledger.clearing == Some(strong) <==> b.data_ref_count == 1
            &&& after.ledger.next_ticket == b.ledger.next_ticket
            &&& after.alloc_count == b.alloc_count
            &&& after.data_ref_count == b.data_ref_count - 1
            &&& after.data == b.data
        }),
{
    model::lemma_strong_released_wf(b, strong);
}

/// Clearing takes the data and leaves the handles.
pub proof fn clearing_takes_the_data_alone<T>(b: Block<T>)
    ensures
        b.data_cleared().data is None,
        b.data_cleared().ledger.clearing is None,
        b.data_cleared().ledger.strong == b.ledger.strong,
        b.data_cleared().ledger.weak == b.ledger.weak,
        b.data_cleared().ledger.upgrading == b.ledger.upgrading,
        b.data_cleared().ledger.next_ticket == b.ledger.next_ticket,
        b.data_cleared().alloc_count == b.alloc_count,
        b.data_cleared().data_ref_count == b.data_ref_count,
{
}

/// A weak handle that is given up is counted by the allocation count no more.
pub proof fn weak_release_is_one_handle_less<T>(b: Block<T>, weak: nat, t: nat)
    requires
        b.wf(),
        b.ledger.weak.contains(weak),
    ensures
        ({
            let after = b.weak_released(weak);
            &&& after.ledger.weak.contains(t) <==> b.ledger.weak.contains(t) && t != weak
            &&& after.ledger.strong == b.ledger.strong
            &&& after.ledger.upgrading == b.ledger.upgrading
            &&& after.ledger.clearing == b.ledger.clearing
            &&& after.ledger.next_ticket == b.ledger.next_ticket
            &&& after.alloc_count == b.alloc_count - 1
            &&& after.data_ref_count == b.data_ref_count
            &&& after.data == b.data
        }),
{
    assert(b.ledger.weak.len() >= 1);
}

/// An upgrade is counted by the strong count first, under a ticket of its own, and by the
/// allocation count when it is a strong handle.
pub proof fn upgrade_is_one_more_strong_handle<T>(b: Block<T>, weak: nat, upgrade: nat, t: nat)
    requires
        b.wf(),
    ensures
        ({
            let after = b.upgrade_claimed(weak);
            let new = b.ledger.next_ticket;
            &&& !b.ledger.strong.contains(new)
            &&& !b.ledger.weak.contains(new)
            &&& !b.ledger.upgrading.contains_key(new)
            &&& after.ledger.upgrading == b.ledger.upgrading.insert(new, weak)
            &&& after.ledger.strong == b.ledger.strong
            &&& after.ledger.weak == b.ledger.weak
            &&& after.ledger.clearing == b.ledger.clearing
            &&& after.ledger.next_ticket == new + 1
            &&& after.alloc_count == b.alloc_count
            &&& after.data_ref_count == b.data_ref_count + 1
            &&& after.data == b.data
        }),
        b.ledger.upgrading.contains_key(upgrade) ==> {
            let after = b.upgrade_finished(upgrade);
            &&& after.ledger.strong.contains(t) <==> b.ledger.strong.contains(t) || t == upgrade
            &&& after.ledger.upgrading.contains_key(t) <==> b.ledger.upgrading.contains_key(t) && t
                != upgrade
            &&& after.ledger.upgrading.contains_key(t) ==> after.ledger.upgrading[t]
                == b.ledger.upgrading[t]
            &&& after.ledger.weak == b.ledger.weak
            &&& after.ledger.clearing == b.ledger.clearing
            &&& after.ledger.next_ticket == b.ledger.next_ticket
            &&& after.alloc_count == b.alloc_count + 1
            &&& after.data_ref_count == b.data_ref_count
            &&& after.data == b.data
        },
{
}

/// A change in place takes nothing else along.
pub proof fn write_changes_the_value_alone<T>(b: Block<T>, data: T)
    ensures
        b.data_written(data).data == Some(data),
        b.data_written(data).data_ref_count == b.data_ref_count,
        b.data_written(data).alloc_count == b.alloc_count,
        b.data_written(data).ledger == b.ledger,
{
}

/// How many of the first `n` steps are of a kind.
pub open spec fn taken<T>(steps: Seq<Step<T>>, n: int, kind: spec_fn(Step<T>) -> bool) -> int
    decreases n,
{
    if n <= 0 {
        0
    } else {
        taken(steps, n - 1, kind) + if kind(steps[n - 1]) {
            1int
        } else {
            0
        }
    }
}

/// Each counter is the first handle, one more for each step that raises it and one less for each
/// step that lowers it.
pub proof fn counters_count_the_steps<T>(data: T, run: Seq<Block<T>>, steps: Seq<Step<T>>, i: int)
    requires
        is_run(data, run, steps),
        0 <= i < run.len(),
    ensures
        run[i].data_ref_count == 1 + taken(
            steps,
            i,
            |s: Step<T>| s is MakeStrong || s is ClaimUpgrade,
        ) - taken(steps, i, |s: Step<T>| s is ReleaseStrong),
        run[i].alloc_count == 1 + taken(
            steps,
            i,
            |s: Step<T>| s is CloneWeak || s is FinishUpgrade,
        ) - taken(steps, i, |s: Step<T>| s is ReleaseWeak),
    decreases i,
{
    if i > 0 {
        counters_count_the_steps(data, run, steps, i - 1);
        lemma_step_effect(data, run, steps, i, 0);
    } else {
        new_allocation_has_one_handle(data, data, 0);
    }
}

/// What a ticket stands for.
pub enum Role {
    /// It has not been handed out, or its handle has been given up.
    Nobody,
    Strong,
    Weak,
    Upgrading,
}

/// What the ticket `t` stands for after the first `n` steps.
pub open spec fn role<T>(run: Seq<Block<T>>, steps: Seq<Step<T>>, n: int, t: nat) -> Role
    decreases n,
{
    if n <= 0 {
        if t == 0 {
            Role::Strong
        } else {
            Role::Nobody
        }
    } else {
        let before = role(run, steps, n - 1, t);
        let new = run[n - 1].ledger.next_ticket;
        match steps[n - 1] {
            Step::CloneWeak { of } => if t == new {
                Role::Weak
            } else {
                before
            },
            Step::MakeStrong { of, weak } => if t == weak {
                Role::Strong
            } else {
                before
            },
            Step::ReleaseStrong { strong } => if t == strong {
                Role::Weak
            } else {
                before
            },
            Step::ReleaseWeak { weak } => if t == weak {
                Role::Nobody
            } else {
                before
            },
            Step::ClaimUpgrade { weak } => if t == new {
                Role::Upgrading
            } else {
                before
            },
            Step::FinishUpgrade { upgrade } => if t == upgrade {
                Role::Strong
            } else {
                before
            },
            _ => before,
        }
    }
}

proof fn lemma_step_effect<T>(data: T, run: Seq<Block<T>>, steps: Seq<Step<T>>, i: int, t: nat)
    requires
        is_run(data, run, steps),
        0 < i < run.len(),
    ensures
        ({
            let b = run[i - 1];
            let after = run[i];
            let new = b.ledger.next_ticket;
            let strong = b.ledger.strong.contains(t);
            let weak = b.ledger.weak.contains(t);
            let upgrading = b.ledger.upgrading.contains_key(t);
            match steps[i - 1] {
                Step::CloneWeak { of } => {
                    &&& after.alloc_count == b.alloc_count + 1
                    &&& after.data_ref_count == b.data_ref_count
                    &&& after.data == b.data
                    &&& after.ledger.strong.contains(t) == strong
                    &&& after.ledger.weak.contains(t) == (weak || t == new)
                    &&& after.ledger.upgrading.contains_key(t) == upgrading
                    &&& t == new ==> !strong && !upgrading
                },
                Step::MakeStrong { of, weak: made } => {
                    &&& after.alloc_count == b.alloc_count
                    &&& after.data_ref_count == b.data_ref_count + 1
                    &&& after.data == b.data
                    &&& after.ledger.strong.contains(t) == (strong || t == made)
                    &&& after.ledger.weak.contains(t) == (weak && t != made)
                    &&& after.ledger.upgrading.contains_key(t) == upgrading
                    &&& t == made ==> !upgrading
                },
                Step::ReleaseStrong { strong: gone } => {
                    &&& after.alloc_count == b.alloc_count
                    &&& after.data_ref_count == b.data_ref_count - 1
                    &&& after.data == b.data
                    &&& after.ledger.strong.contains(t) == (strong && t != gone)
                    &&& after.ledger.weak.contains(t) == (weak || t == gone)
                    &&& after.ledger.upgrading.contains_key(t) == upgrading
                    &&& t == gone ==> !upgrading
                },
                Step::ReleaseWeak { weak: gone } => {
                    &&& after.alloc_count == b.alloc_count - 1
                    &&& after.data_ref_count == b.data_ref_count
                    &&& after.data == b.data
                    &&& after.ledger.strong.contains(t) == strong
                    &&& after.ledger.weak.contains(t) == (weak && t != gone)
                    &&& after.ledger.upgrading.contains_key(t) == upgrading
                    &&& t == gone ==> !strong && !upgrading
                },
                Step::ClaimUpgrade { weak: of } => {
                    &&& after.alloc_count == b.alloc_count
                    &&& after.data_ref_count == b.data_ref_count + 1
                    &&& after.data == b.data
                    &&& after.ledger.strong.contains(t) == strong
                    &&& after.ledger.weak.contains(t) == weak
                    &&& after.ledger.upgrading.contains_key(t) == (upgrading || t == new)
                    &&& t == new ==> !strong && !weak
                },
                Step::FinishUpgrade { upgrade } => {
                    &&& after.alloc_count == b.alloc_count + 1
                    &&& after.data_ref_count == b.data_ref_count
                    &&& after.data == b.data
                    &&& after.ledger.strong.contains(t) == (strong || t == upgrade)
                    &&& after.ledger.weak.contains(t) == weak
                    &&& after.ledger.upgrading.contains_key(t) == (upgrading && t != upgrade)
                    &&& t == upgrade ==> !weak
                },
                Step::Clear { weak: by } => {
                    &&& after.alloc_count == b.alloc_count
                    &&& after.data_ref_count == b.data_ref_count
                    &&& after.data is None
                    &&& after.ledger.strong.contains(t) == strong
                    &&& after.ledger.weak.contains(t) == weak
                    &&& after.ledger.upgrading.contains_key(t) == upgrading
                },
                Step::Write { strong: by, data: written } => {
                    &&& after.alloc_count == b.alloc_count
                    &&& after.data_ref_count == b.data_ref_count
                    &&& after.data == Some(written)
                    &&& after.ledger.strong.contains(t) == strong
                    &&& after.ledger.weak.contains(t) == weak
                    &&& after.ledger.upgrading.contains_key(t) == upgrading
                },
            }
        }),
{
    every_run_is_wf(data, run, steps, i - 1);
    let b = run[i - 1];
    assert(steps[i - 1].enabled(b));
    match steps[i - 1] {
        Step::CloneWeak { of } => weak_clone_is_one_more_handle(b, t),
        Step::MakeStrong { of, weak } => made_strong_is_one_more_strong_handle(b, weak, t),
        Step::ReleaseStrong { strong } => strong_release_is_one_strong_handle_less(b, strong, t),
        Step::Clear { weak } => clearing_takes_the_data_alone(b),
        Step::ReleaseWeak { weak } => weak_release_is_one_handle_less(b, weak, t),
        Step::ClaimUpgrade { weak } => upgrade_is_one_more_strong_handle(b, weak, t, t),
        Step::FinishUpgrade { upgrade } => upgrade_is_one_more_strong_handle(b, t, upgrade, t),
        Step::Write { strong, data } => write_changes_the_value_alone(b, data),
    }
}

/// The handles that are counted are those that have been handed out and not given up, each as what
/// it is: there is no share of a count that belongs to nobody.
pub proof fn counted_handles_are_those_handed_out<T>(
    data: T,
    run: Seq<Block<T>>,
    steps: Seq<Step<T>>,
    i: int,
    t: nat,
)
    requires
        is_run(data, run, steps),
        0 <= i < run.len(),
    ensures
        run[i].ledger.strong.contains(t) <==> role(run, steps, i, t) is Strong,
        run[i].ledger.weak.contains(t) <==> role(run, steps, i, t) is Weak,
        run[i].ledger.upgrading.contains_key(t) <==> role(run, steps, i, t) is Upgrading,
    decreases i,
{
    if i > 0 {
        counted_handles_are_those_handed_out(data, run, steps, i - 1, t);
        every_run_is_wf(data, run, steps, i - 1);
        lemma_step_effect(data, run, steps, i, t);
    } else {
        new_allocation_has_one_handle(data, data, t);
    }
}

/// The value after `n` steps: the one that was written last, or else the first one, until it is
/// cleared.
pub open spec fn written_last<T>(data: T, steps: Seq<Step<T>>, n: int) -> Option<T>
    decreases n,
{
    if n <= 0 {
        Some(data)
    } else {
        match steps[n - 1] {
            Step::Write { strong, data: written } => Some(written),
            Step::Clear { weak } => None,
            _ => written_last(data, steps, n - 1),
        }
    }
}

/// Every strong handle reads the value that the allocation was made for, or else the one that was
/// written last. That one comes out when it is cleared.
pub proof fn value_is_the_one_written_last<T>(
    data: T,
    run: Seq<Block<T>>,
    steps: Seq<Step<T>>,
    i: int,
)
    requires
        is_run(data, run, steps),
        0 <= i < run.len(),
    ensures
        run[i].data == written_last(data, steps, i),
    decreases i,
{
    if i > 0 {
        value_is_the_one_written_last(data, run, steps, i - 1);
        lemma_step_effect(data, run, steps, i, 0);
    }
}

/// Dropping a weak handle frees the container exactly if it is the last handle of either sort, and
/// takes nothing else along.
pub proof fn weak_drop_frees_after_the_last_handle<T>(b: Block<T>, weak: nat, t: nat)
    requires
        b.wf(),
        b.ledger.weak.contains(weak),
        b.weak_is_idle(weak),
    ensures
        b.after_weak_drop(weak) is None <==> b.ledger.strong == Set::<nat>::empty()
            && b.ledger.weak == set![weak],
        b.after_weak_drop(weak) is None ==> b.data is None,
        b.after_weak_drop(weak) matches Some(left) ==> {
            &&& left.wf()
            &&& left.alloc_count == b.alloc_count - 1
            &&& left.data_ref_count == b.data_ref_count
            &&& left.data == b.data
            &&& left.ledger.weak.contains(t) <==> b.ledger.weak.contains(t) && t != weak
            &&& left.ledger.strong == b.ledger.strong
            &&& left.ledger.upgrading == b.ledger.upgrading
            &&& left.ledger.clearing == b.ledger.clearing
            &&& left.ledger.next_ticket == b.ledger.next_ticket
        },
{
    model::lemma_weak_released_wf(b, weak);
    let rest = b.ledger.weak.remove(weak);
    assert(rest.insert(weak) =~= b.ledger.weak);
    if b.alloc_count == 1 {
        assert(b.ledger.weak.len() >= 1);
        b.ledger.strong.lemma_len0_is_empty();
        assert(rest.len() == 0);
        rest.lemma_len0_is_empty();
        assert(b.ledger.weak =~= set![weak]);
        vacant_allocation_is_final(b.weak_released(weak), Step::<T>::CloneWeak { of: 0 });
    }
    if b.ledger.strong == Set::<nat>::empty() && b.ledger.weak == set![weak] {
        assert(set![weak].len() == 1);
    }
}

/// Dropping a strong handle takes that handle alone: what is left has all the others.
pub proof fn strong_drop_takes_one_handle<T>(b: Block<T>, strong: nat, t: nat)
    requires
        b.wf(),
        b.ledger.strong.contains(strong),
    ensures
        b.after_strong_drop(strong) is None <==> b.ledger.strong == set![strong] && b.ledger.weak
            == Set::<nat>::empty(),
        b.after_strong_drop(strong) matches Some(left) ==> {
            &&& left.alloc_count == b.alloc_count - 1
            &&& left.data_ref_count == b.data_ref_count - 1
            &&& left.data == (if b.data_ref_count == 1 {
                None
            } else {
                b.data
            })
            &&& left.ledger.strong.contains(t) <==> b.ledger.strong.contains(t) && t != strong
            &&& left.ledger.weak.contains(t) <==> b.ledger.weak.contains(t)
            &&& left.ledger.upgrading == b.ledger.upgrading
            &&& left.ledger.clearing is None
            &&& left.ledger.next_ticket == b.ledger.next_ticket
        },
{
    sole_handle_is_exclusive(b, strong);
    assert(b.ledger.strong.len() >= 1);
    assert(!b.ledger.weak.contains(strong));
}

/// A clone and an upgrade make one strong handle more, with a ticket of its own. Everything else
/// stays.
pub proof fn clone_and_upgrade_add_one_strong_handle<T>(b: Block<T>, weak: nat, t: nat)
    requires
        b.wf(),
    ensures
        !b.ledger.strong.contains(b.ledger.next_ticket),
        forall|after: Block<T>|
            after == b.after_strong_clone() || after == b.after_upgrade(weak) ==> {
                &&& (#[trigger] after.ledger).strong.contains(t) <==> b.ledger.strong.contains(t)
                    || t == b.ledger.next_ticket
                &&& after.ledger.weak.contains(t) <==> b.ledger.weak.contains(t)
                &&& after.ledger.upgrading.contains_key(t) <==> b.ledger.upgrading.contains_key(t)
                &&& after.ledger.clearing == b.ledger.clearing
                &&& after.ledger.next_ticket == b.ledger.next_ticket + 1
                &&& after.alloc_count == b.alloc_count + 1
                &&& after.data_ref_count == b.data_ref_count + 1
                &&& after.data == b.data
            },
{
    assert(!b.ledger.weak.contains(b.ledger.next_ticket));
    assert(!b.ledger.upgrading.contains_key(b.ledger.next_ticket));
}

} // verus!
