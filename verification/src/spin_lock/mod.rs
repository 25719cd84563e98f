//! Locks that spin.
//!
//! To take a lock, a thread turns in a loop, and each turn ([`MinimalSpinLock::lock_turn`],
//! [`DataSpinLock::lock_turn`]) is one atomic swap of the lock's flag.

use crate::memory::{Address, Memory};
use vstd::prelude::*;

pub mod laws;

verus! {

/// What lies in the memory of a [`MinimalSpinLock`]: the flag.
pub struct FlagCell {
    locked: bool,
}

impl View for FlagCell {
    type V = bool;

    /// Whether the lock is taken.
    closed spec fn view(&self) -> bool {
        self.locked
    }
}

/// The memory that the flags of locks lie in.
pub type FlagMemory = Memory<FlagCell>;

/// A lock around blocks of code. It holds no data.
pub struct MinimalSpinLock {
    ptr: Address,
}

impl MinimalSpinLock {
    /// Where the flag lies.
    pub closed spec fn ptr(self) -> int {
        self.ptr.index()
    }

    /// The identity of the memory that it is a place in.
    pub closed spec fn region(self) -> int {
        self.ptr.memory()
    }

    /// The lock lies in this memory.
    pub open spec fn lies_in(self, memory: FlagMemory) -> bool {
        self.region() == memory.id() && memory.allocated(self.ptr())
    }

    /// A lock that is free.
    pub fn new(memory: &mut FlagMemory) -> (lock: MinimalSpinLock)
        ensures
            final(memory).id() == old(memory).id(),
            lock.lies_in(*final(memory)),
            lock.ptr() == old(memory)@.len(),
            final(memory)@ == old(memory)@.push(Some(false)),
    {
        MinimalSpinLock { ptr: memory.place(FlagCell { locked: false }) }
    }

    /// One turn of the spin loop: swaps `true` into the flag, and says whether the lock has been
    /// taken by that. It has if the flag was `false`.
    pub fn lock_turn(&self, memory: &mut FlagMemory) -> (acquired: bool)
        requires
            self.lies_in(*old(memory)),
        ensures
            acquired == !old(memory).at(self.ptr()),
            final(memory).id() == old(memory).id(),
            final(memory)@ == old(memory)@.update(self.ptr(), Some(true)),
    {
        let cell = memory.object_mut(self.ptr);
        let before: bool = cell.locked;
        cell.locked = true;
        !before
    }

    /// Takes the lock. It must be free: if it is not, the loop turns until another thread unlocks.
    pub fn lock(&self, memory: &mut FlagMemory)
        requires
            self.lies_in(*old(memory)),
            !old(memory).at(self.ptr()),
        ensures
            final(memory).id() == old(memory).id(),
            final(memory)@ == old(memory)@.update(self.ptr(), Some(true)),
    {
        let mut acquired: bool = false;
        while !acquired
            invariant
                self.lies_in(*old(memory)),
                self.lies_in(*memory),
                memory.id() == old(memory).id(),
                memory@ == old(memory)@.update(self.ptr(), Some(acquired)),
            decreases !acquired as int,
        {
            acquired = self.lock_turn(memory);
        }
    }

    /// Frees the lock.
    pub fn unlock(&self, memory: &mut FlagMemory)
        requires
            self.lies_in(*old(memory)),
        ensures
            final(memory).id() == old(memory).id(),
            final(memory)@ == old(memory)@.update(self.ptr(), Some(false)),
    {
        memory.object_mut(self.ptr).locked = false;
    }

    /// Drops the lock.
    pub fn drop(self, memory: &mut FlagMemory)
        requires
            self.lies_in(*old(memory)),
        ensures
            final(memory).id() == old(memory).id(),
            final(memory)@ == old(memory)@.update(self.ptr(), None),
    {
        memory.free(self.ptr);
    }
}

/// The contents of a [`DataSpinLock`].
///
/// Every guard carries a ticket: a number that the lock gives out once.
#[verifier::ext_equal]
pub struct LockState<T> {
    /// The flag.
    pub locked: bool,
    /// The value that the lock guards.
    pub data: T,
    /// The ticket of the live guard.
    pub holder: Option<nat>,
    /// The next ticket to give out.
    pub next_ticket: nat,
}

impl<T> LockState<T> {
    /// The lock is taken exactly if there is a guard.
    pub open spec fn wf(self) -> bool {
        &&& self.locked <==> self.holder is Some
        &&& self.holder matches Some(ticket) ==> ticket < self.next_ticket
    }

    /// A lock that is free.
    pub open spec fn fresh(data: T) -> LockState<T> {
        LockState { locked: false, data, holder: None, next_ticket: 0 }
    }

    /// The state after one turn of the spin loop: the lock is taken with a new guard, unless it
    /// was taken before.
    pub open spec fn after_turn(self) -> LockState<T> {
        if self.locked {
            self
        } else {
            LockState {
                locked: true,
                holder: Some(self.next_ticket),
                next_ticket: self.next_ticket + 1,
                ..self
            }
        }
    }

    /// The state with another value.
    pub open spec fn data_written(self, data: T) -> LockState<T> {
        LockState { data, ..self }
    }

    /// The state once the guard is gone.
    pub open spec fn unlocked(self) -> LockState<T> {
        LockState { locked: false, holder: None, ..self }
    }
}

/// What lies in the memory of a [`DataSpinLock`]: the flag and the value.
pub struct LockCell<T> {
    locked: bool,
    data: T,
    holder: Ghost<Option<nat>>,
    next_ticket: Ghost<nat>,
}

impl<T> View for LockCell<T> {
    type V = LockState<T>;

    closed spec fn view(&self) -> LockState<T> {
        LockState {
            locked: self.locked,
            data: self.data,
            holder: self.holder@,
            next_ticket: self.next_ticket@,
        }
    }
}

/// The memory that locks lie in.
pub type LockMemory<T> = Memory<LockCell<T>>;

impl<T> Memory<LockCell<T>> {
    /// Every lock is taken exactly if it has a guard.
    pub open spec fn wf(self) -> bool {
        forall|i: int| 0 <= i < self@.len() && (#[trigger] self@[i]) is Some ==> self@[i]->0.wf()
    }

    /// `lock` lies in this memory.
    pub open spec fn holds_lock(self, lock: DataSpinLock<T>) -> bool {
        lock.region() == self.id() && self.allocated(lock.ptr())
    }

    /// `guard` is the live guard of a lock in this memory.
    pub open spec fn holds_guard(self, guard: SpinLockGuard<T>) -> bool {
        &&& self.holds_lock(guard.lock())
        &&& self.at(guard.lock().ptr()).holder == Some(guard.ticket())
    }
}

/// A lock around a value, which only a guard gives access to.
///
/// It can be shared between threads whatever the value is. Whether they can share the value, for
/// which it has to be `Send`, is up to the memory.
pub struct DataSpinLock<T> {
    ptr: Address,
    marker: Ghost<Option<T>>,
}

/// Access to the value of a [`DataSpinLock`].
///
/// The guard borrows its lock, and so cannot outlive it. Only the lock makes guards, so that its
/// flag and its value change through the guard alone.
pub struct SpinLockGuard<'a, T> {
    lock: &'a DataSpinLock<T>,
    ticket: Ghost<nat>,
}

impl<T> DataSpinLock<T> {
    /// Where the flag and the value lie.
    pub closed spec fn ptr(self) -> int {
        self.ptr.index()
    }

    /// The identity of the memory that it is a place in.
    pub closed spec fn region(self) -> int {
        self.ptr.memory()
    }

    /// A lock around `value` that is free.
    pub fn new(memory: &mut LockMemory<T>, value: T) -> (lock: DataSpinLock<T>)
        requires
            old(memory).wf(),
        ensures
            final(memory).wf(),
            final(memory).id() == old(memory).id(),
            final(memory).holds_lock(lock),
            lock.ptr() == old(memory)@.len(),
            final(memory)@ == old(memory)@.push(Some(LockState::fresh(value))),
    {
        let ptr = memory.place(
            LockCell { locked: false, data: value, holder: Ghost(None), next_ticket: Ghost(0) },
        );
        DataSpinLock { ptr, marker: Ghost(None) }
    }

    /// One turn of the spin loop: swaps `true` into the flag, and hands out a guard if the flag
    /// was `false`.
    pub fn lock_turn(&self, memory: &mut LockMemory<T>) -> (guard: Option<SpinLockGuard<'_, T>>)
        requires
            old(memory).wf(),
            old(memory).holds_lock(*self),
        ensures
            final(memory).wf(),
            final(memory).id() == old(memory).id(),
            final(memory)@ == old(memory)@.update(
                self.ptr(),
                Some(old(memory).at(self.ptr()).after_turn()),
            ),
            guard is Some <==> !old(memory).at(self.ptr()).locked,
            guard matches Some(g) ==> {
                &&& g.lock() == *self
                &&& g.ticket() == old(memory).at(self.ptr()).next_ticket
                &&& final(memory).holds_guard(g)
            },
    {
        let cell = memory.object_mut(self.ptr);
        let before: bool = cell.locked;
        cell.locked = true;
        if before {
            None
        } else {
            let ghost ticket = cell.next_ticket@;
            cell.holder = Ghost(Some(ticket));
            cell.next_ticket = Ghost(ticket + 1);
            Some(SpinLockGuard { lock: self, ticket: Ghost(ticket) })
        }
    }

    /// Takes the lock. It must be free: if it is not, the loop turns until the guard is dropped.
    pub fn lock(&self, memory: &mut LockMemory<T>) -> (guard: SpinLockGuard<'_, T>)
        requires
            old(memory).wf(),
            old(memory).holds_lock(*self),
            !old(memory).at(self.ptr()).locked,
        ensures
            final(memory).wf(),
            final(memory).id() == old(memory).id(),
            final(memory)@ == old(memory)@.update(
                self.ptr(),
                Some(old(memory).at(self.ptr()).after_turn()),
            ),
            guard.lock() == *self,
            guard.ticket() == old(memory).at(self.ptr()).next_ticket,
            final(memory).holds_guard(guard),
    {
        loop
            invariant
                memory@ == old(memory)@,
                memory.id() == old(memory).id(),
                memory.wf(),
                memory.holds_lock(*self),
                !memory.at(self.ptr()).locked,
            decreases 0int,
        {
            match self.lock_turn(memory) {
                Some(guard) => {
                    return guard;
                },
                None => {},
            }
        }
    }

    /// Drops the lock. The value comes out and goes with the result. Since a guard borrows the lock,
    /// there is none.
    pub fn drop(self, memory: &mut LockMemory<T>) -> (data: T)
        requires
            old(memory).wf(),
            old(memory).holds_lock(self),
        ensures
            final(memory).wf(),
            final(memory).id() == old(memory).id(),
            data == old(memory).at(self.ptr()).data,
            final(memory)@ == old(memory)@.update(self.ptr(), None),
    {
        memory.free(self.ptr).data
    }
}

impl<'a, T> SpinLockGuard<'a, T> {
    /// The lock that the guard is of.
    pub closed spec fn lock(self) -> DataSpinLock<T> {
        *self.lock
    }

    /// The number that tells the guard from the earlier ones of its lock.
    pub closed spec fn ticket(self) -> nat {
        self.ticket@
    }

    /// The value.
    pub fn deref<'m>(&self, memory: &'m LockMemory<T>) -> (data: &'m T)
        requires
            memory.holds_guard(*self),
        ensures
            *data == memory.at(self.lock().ptr()).data,
    {
        &memory.object(self.lock.ptr).data
    }

    /// The value, to be changed.
    pub fn deref_mut<'m>(&'m mut self, memory: &'m mut LockMemory<T>) -> (data: &'m mut T)
        requires
            old(memory).wf(),
            old(memory).holds_guard(*old(self)),
        ensures
            *data == old(memory).at(old(self).lock().ptr()).data,
            final(memory)@ == old(memory)@.update(
                old(self).lock().ptr(),
                Some(old(memory).at(old(self).lock().ptr()).data_written(*final(data))),
            ),
            final(memory).wf(),
            final(memory).id() == old(memory).id(),
            *final(self) == *old(self),
    {
        &mut memory.object_mut(self.lock.ptr).data
    }

    /// Gives the guard up, which frees the lock.
    pub fn drop(self, memory: &mut LockMemory<T>)
        requires
            old(memory).wf(),
            old(memory).holds_guard(self),
        ensures
            final(memory).wf(),
            final(memory).id() == old(memory).id(),
            final(memory)@ == old(memory)@.update(
                self.lock().ptr(),
                Some(old(memory).at(self.lock().ptr()).unlocked()),
            ),
    {
        let cell = memory.object_mut(self.lock.ptr);
        cell.locked = false;
        cell.holder = Ghost(None);
    }
}

} // verus!
