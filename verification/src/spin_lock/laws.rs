//! What holds of a spin lock and of any number of threads at it, whatever order their steps come
//! in.

use crate::spin_lock::LockState;
use vstd::prelude::*;

verus! {

/// A guard is the only one: two live guards of a lock are the same, and while there is one no
/// turn of any other thread takes the lock, changes the value or ends the guard.
pub proof fn guards_exclude_each_other<T>(s: LockState<T>, first: nat, second: nat)
    requires
        s.wf(),
        s.holder == Some(first),
    ensures
        s.holder == Some(second) ==> first == second,
        s.after_turn() == s,
{
}

/// What one holder leaves is what the next one finds, behind a new guard.
pub proof fn next_holder_finds_the_value<T>(s: LockState<T>, data: T)
    requires
        s.wf(),
        s.locked,
    ensures
        ({
            let next = s.data_written(data).unlocked().after_turn();
            &&& next.wf()
            &&& next.locked
            &&& next.data == data
            &&& next.holder == Some(s.next_ticket)
            &&& next.holder != s.holder
        }),
{
}

/// Taking a free lock and freeing it again changes nothing but the next ticket.
pub proof fn unlock_undoes_lock<T>(s: LockState<T>)
    requires
        s.wf(),
        !s.locked,
    ensures
        s.after_turn().locked,
        s.after_turn().unlocked() == (LockState { next_ticket: s.next_ticket + 1, ..s }),
{
}

/// Where a thread stands.
pub enum At {
    /// Outside of the code that the lock guards.
    Outside,
    /// In the spin loop.
    Spinning,
    /// In the code that the lock guards, with the guard of that ticket.
    Inside { ticket: nat },
}

/// A lock, the threads at it, and what they have done so far.
///
/// With a `MinimalSpinLock`, which has the flag alone, the value stands for what the guarded code
/// touches, and the threads are taken to unlock only what they have locked. Its flag takes the
/// same steps (`minimal_lock_takes_the_same_steps`).
#[verifier::ext_equal]
pub struct Crowd<T> {
    pub lock: LockState<T>,
    pub at: Seq<At>,
    /// The number of writes to the value so far.
    pub writes: nat,
    /// How many of the writes the last store of `false` has released: those that a thread sees
    /// which reads it with acquire ordering.
    pub released: nat,
    /// How many of the writes each thread is sure to see.
    pub seen: Seq<nat>,
}

/// One atomic step of a thread.
pub enum Step<T> {
    /// The thread calls for the lock.
    Enter { thread: int },
    /// One turn of the spin loop: `true` is swapped into the flag, with acquire ordering.
    Turn { thread: int },
    /// The thread changes the value.
    Write { thread: int, data: T },
    /// The thread stores `false` into the flag, with release ordering.
    Unlock { thread: int },
}

impl<T> Crowd<T> {
    /// A free lock, with `threads` threads outside.
    pub open spec fn fresh(threads: nat, data: T) -> Crowd<T> {
        Crowd {
            lock: LockState::fresh(data),
            at: Seq::new(threads, |i: int| At::Outside),
            writes: 0,
            released: 0,
            seen: Seq::new(threads, |i: int| 0nat),
        }
    }

    /// The flag is up exactly if a thread is inside, it is the only one there, and it sees every
    /// write.
    pub open spec fn wf(self) -> bool {
        &&& self.lock.wf()
        &&& self.seen.len() == self.at.len()
        &&& forall|i: int|
            0 <= i < self.at.len() ==> ((#[trigger] self.at[i]) matches At::Inside { ticket }
                ==> self.lock.holder == Some(ticket) && self.seen[i] == self.writes)
        &&& forall|i: int, j: int|
            0 <= i < self.at.len() && 0 <= j < self.at.len() && (#[trigger] self.at[i]) is Inside
                && (#[trigger] self.at[j]) is Inside ==> i == j
        &&& self.lock.locked ==> exists|i: int|
            0 <= i < self.at.len() && (#[trigger] self.at[i]) is Inside
        &&& !self.lock.locked ==> self.released == self.writes
        &&& forall|i: int| 0 <= i < self.seen.len() ==> (#[trigger] self.seen[i]) <= self.writes
    }
}

impl<T> Step<T> {
    /// The thread that takes the step.
    pub open spec fn thread(self) -> int {
        match self {
            Step::Enter { thread } => thread,
            Step::Turn { thread } => thread,
            Step::Write { thread, data } => thread,
            Step::Unlock { thread } => thread,
        }
    }

    /// Whether the thread can take the step now.
    pub open spec fn enabled(self, c: Crowd<T>) -> bool {
        &&& 0 <= self.thread() < c.at.len()
        &&& match self {
            Step::Enter { thread } => c.at[thread] is Outside,
            Step::Turn { thread } => c.at[thread] is Spinning,
            Step::Write { thread, data } => c.at[thread] is Inside,
            Step::Unlock { thread } => c.at[thread] is Inside,
        }
    }

    /// The step is a turn that takes the lock.
    pub open spec fn acquires(self, c: Crowd<T>) -> bool {
        self is Turn && !c.lock.locked
    }

    /// The state after the step.
    pub open spec fn apply(self, c: Crowd<T>) -> Crowd<T> {
        match self {
            Step::Enter { thread } => Crowd { at: c.at.update(thread, At::Spinning), ..c },
            Step::Turn { thread } => if c.lock.locked {
                Crowd { lock: c.lock.after_turn(), ..c }
            } else {
                Crowd {
                    lock: c.lock.after_turn(),
                    at: c.at.update(thread, At::Inside { ticket: c.lock.next_ticket }),
                    seen: c.seen.update(
                        thread,
                        if c.seen[thread] < c.released {
                            c.released
                        } else {
                            c.seen[thread]
                        },
                    ),
                    ..c
                }
            },
            Step::Write { thread, data } => Crowd {
                lock: c.lock.data_written(data),
                writes: c.writes + 1,
                seen: c.seen.update(thread, c.writes + 1),
                ..c
            },
            Step::Unlock { thread } => Crowd {
                lock: c.lock.unlocked(),
                at: c.at.update(thread, At::Outside),
                released: c.seen[thread],
                ..c
            },
        }
    }
}

/// `run` is a history of a lock: `threads` threads have taken `steps`, one after the other.
pub open spec fn is_run<T>(threads: nat, data: T, run: Seq<Crowd<T>>, steps: Seq<Step<T>>) -> bool {
    &&& run.len() == steps.len() + 1
    &&& run[0] == Crowd::fresh(threads, data)
    &&& forall|i: int|
        0 <= i < steps.len() ==> (#[trigger] steps[i]).enabled(run[i]) && run[i + 1]
            == steps[i].apply(run[i])
}

/// Every step of every thread keeps what the threads rely on.
pub proof fn step_keeps_wf<T>(c: Crowd<T>, step: Step<T>)
    requires
        c.wf(),
        step.enabled(c),
    ensures
        step.apply(c).wf(),
{
    let after = step.apply(c);
    let thread = step.thread();
    if after.lock.locked {
        if c.lock.locked {
            let i = choose|i: int| 0 <= i < c.at.len() && (#[trigger] c.at[i]) is Inside;
            assert(after.at[i] is Inside);
        } else {
            assert(after.at[thread] is Inside);
        }
    }
    assert forall|i: int| 0 <= i < after.at.len() && (#[trigger] after.at[i]) is Inside implies {
        i == thread || c.at[i] is Inside
    } by {}
}

/// In whatever order threads take their steps, what they rely on holds throughout.
pub proof fn every_run_is_wf<T>(
    threads: nat,
    data: T,
    run: Seq<Crowd<T>>,
    steps: Seq<Step<T>>,
    i: int,
)
    requires
        is_run(threads, data, run, steps),
        0 <= i < run.len(),
    ensures
        run[i].wf(),
    decreases i,
{
    if i > 0 {
        every_run_is_wf(threads, data, run, steps, i - 1);
        step_keeps_wf(run[i - 1], steps[i - 1]);
    }
}

/// Mutual exclusion: at no time are two threads inside.
pub proof fn mutual_exclusion<T>(
    threads: nat,
    data: T,
    run: Seq<Crowd<T>>,
    steps: Seq<Step<T>>,
    i: int,
    first: int,
    second: int,
)
    requires
        is_run(threads, data, run, steps),
        0 <= i < run.len(),
        0 <= first < run[i].at.len(),
        0 <= second < run[i].at.len(),
        run[i].at[first] is Inside,
        run[i].at[second] is Inside,
    ensures
        first == second,
{
    every_run_is_wf(threads, data, run, steps, i);
}

/// A thread that is inside sees every write that was made before, by whomever: the acquire swap
/// that let it in read what the release store of the last holder wrote.
pub proof fn holder_sees_every_write<T>(
    threads: nat,
    data: T,
    run: Seq<Crowd<T>>,
    steps: Seq<Step<T>>,
    i: int,
    thread: int,
)
    requires
        is_run(threads, data, run, steps),
        0 <= i < run.len(),
        0 <= thread < run[i].at.len(),
        run[i].at[thread] is Inside,
    ensures
        run[i].seen[thread] == run[i].writes,
{
    every_run_is_wf(threads, data, run, steps, i);
}

/// Between two acquisitions there is an unlock by the thread of the first one: a turn gets the lock
/// only after its holder has stored `false`.
pub proof fn unlock_between_acquisitions<T>(
    threads: nat,
    data: T,
    run: Seq<Crowd<T>>,
    steps: Seq<Step<T>>,
    first: int,
    second: int,
)
    requires
        is_run(threads, data, run, steps),
        0 <= first < second < steps.len(),
        steps[first].acquires(run[first]),
        steps[second].acquires(run[second]),
    ensures
        exists|i: int|
            first < i < second && (#[trigger] steps[i]) is Unlock && steps[i].thread()
                == steps[first].thread(),
{
    let thread = steps[first].thread();
    if forall|i: int|
        first < i < second ==> !((#[trigger] steps[i]) is Unlock && steps[i].thread() == thread) {
        lemma_inside_until_unlock(threads, data, run, steps, first, second);
        every_run_is_wf(threads, data, run, steps, second);
    }
}

proof fn lemma_inside_until_unlock<T>(
    threads: nat,
    data: T,
    run: Seq<Crowd<T>>,
    steps: Seq<Step<T>>,
    first: int,
    last: int,
)
    requires
        is_run(threads, data, run, steps),
        0 <= first < last <= steps.len(),
        steps[first].acquires(run[first]),
        forall|i: int|
            first < i < last ==> !((#[trigger] steps[i]) is Unlock && steps[i].thread()
                == steps[first].thread()),
    ensures
        0 <= steps[first].thread() < run[last].at.len(),
        run[last].at[steps[first].thread()] is Inside,
    decreases last - first,
{
    if last == first + 1 {
        assert(run[first + 1] == steps[first].apply(run[first]));
    } else {
        lemma_inside_until_unlock(threads, data, run, steps, first, last - 1);
        assert(run[last - 1 + 1] == steps[last - 1].apply(run[last - 1]));
    }
}

/// A free lock is had for one turn, by any thread that spins.
pub proof fn free_lock_is_taken_in_one_turn<T>(c: Crowd<T>, thread: int)
    requires
        c.wf(),
        (Step::<T>::Turn { thread }).enabled(c),
    ensures
        (Step::<T>::Turn { thread }).apply(c).at[thread] is Inside <==> !c.lock.locked,
        c.lock.locked ==> (Step::<T>::Turn { thread }).apply(c) == c,
{
}

/// The value is changed from inside only.
pub proof fn value_changes_inside_only<T>(c: Crowd<T>, step: Step<T>)
    requires
        c.wf(),
        step.enabled(c),
        step.apply(c).lock.data != c.lock.data,
    ensures
        c.lock.locked,
        c.at[step.thread()] is Inside,
{
}

/// The flag of a `MinimalSpinLock` takes the steps of the flag here: where the two agree, a turn
/// takes the lock exactly if the flag is down, and leaves it up, and an unlock leaves it down.
pub proof fn minimal_lock_takes_the_same_steps<T>(
    memory: Seq<Option<bool>>,
    ptr: int,
    c: Crowd<T>,
    thread: int,
)
    requires
        c.wf(),
        0 <= ptr < memory.len(),
        memory[ptr] == Some(c.lock.locked),
    ensures
        (Step::<T>::Turn { thread }).enabled(c) ==> {
            let after = (Step::<T>::Turn { thread }).apply(c);
            &&& memory.update(ptr, Some(true))[ptr] == Some(after.lock.locked)
            &&& after.at[thread] is Inside <==> memory[ptr] == Some(false)
        },
        (Step::<T>::Unlock { thread }).enabled(c) ==> {
            let after = (Step::<T>::Unlock { thread }).apply(c);
            memory.update(ptr, Some(false))[ptr] == Some(after.lock.locked)
        },
{
}

/// A new lock is free and holds the value that it was made for: the first turn takes it, and finds
/// that value.
pub proof fn new_lock_is_free<T>(data: T)
    ensures
        LockState::fresh(data).wf(),
        !LockState::fresh(data).locked,
        LockState::fresh(data).holder is None,
        LockState::fresh(data).data == data,
        LockState::fresh(data).after_turn().locked,
        LockState::fresh(data).after_turn().holder is Some,
        LockState::fresh(data).after_turn().data == data,
{
}

/// After a turn the lock is taken, by a new holder exactly if it was free, and a turn does not touch
/// the value. The next turn fails then.
pub proof fn turn_takes_a_free_lock<T>(s: LockState<T>)
    requires
        s.wf(),
    ensures
        s.after_turn().wf(),
        s.after_turn().locked,
        s.after_turn().data == s.data,
        s.locked <==> s.after_turn().holder == s.holder,
        !s.locked ==> s.after_turn().holder == Some(s.next_ticket),
        s.after_turn().next_ticket >= s.next_ticket,
        s.after_turn().after_turn() == s.after_turn(),
{
}

/// After an unlock the lock is free, without a holder, and an unlock does not touch the value. The
/// next turn takes the lock then.
pub proof fn unlock_frees_the_lock<T>(s: LockState<T>)
    ensures
        s.unlocked().wf(),
        !s.unlocked().locked,
        s.unlocked().holder is None,
        s.unlocked().data == s.data,
        s.unlocked().next_ticket == s.next_ticket,
        s.unlocked().after_turn().holder == Some(s.next_ticket),
{
}

/// A write changes the value alone.
pub proof fn write_changes_the_value_alone<T>(s: LockState<T>, data: T)
    ensures
        s.data_written(data).data == data,
        s.data_written(data).locked == s.locked,
        s.data_written(data).holder == s.holder,
        s.data_written(data).next_ticket == s.next_ticket,
{
}

/// The value after `n` steps: the one that was written last, or else the first one.
pub open spec fn written_last<T>(data: T, steps: Seq<Step<T>>, n: int) -> T
    decreases n,
{
    if n <= 0 {
        data
    } else {
        match steps[n - 1] {
            Step::Write { thread, data: written } => written,
            _ => written_last(data, steps, n - 1),
        }
    }
}

/// Every holder finds the value that the lock was made for, or else the one that was written last.
pub proof fn value_is_the_one_written_last<T>(
    threads: nat,
    data: T,
    run: Seq<Crowd<T>>,
    steps: Seq<Step<T>>,
    i: int,
)
    requires
        is_run(threads, data, run, steps),
        0 <= i < run.len(),
    ensures
        run[i].lock.data == written_last(data, steps, i),
    decreases i,
{
    if i > 0 {
        value_is_the_one_written_last(threads, data, run, steps, i - 1);
        assert(steps[i - 1].enabled(run[i - 1]));
    }
}

} // verus!
