//! Reference-counted sharing with weak pointers.
//!
//! A [`Heap`] is the memory that threads share, and handles point into it. A call of a method is
//! made of the steps that the counters are updated by, one atomic update each. The steps can also
//! be taken one by one ([`WeakRef::upgrade_turn`], [`Upgrade::finish`], [`MyArc::make_strong`],
//! [`MyArc::release`], [`WeakRef::clear`], [`WeakRef::release`], [`Vacated::free`]), so that those
//! of several threads can come in any order.

use crate::arc_with_weak_pointers::model::{Block, Ledger};
use crate::memory::{Address, Memory};
use std::marker::PhantomData;
use std::sync::Arc;
use vstd::prelude::*;

pub mod laws;
pub mod model;
pub mod ordering;

verus! {

/// What lies in an allocation: the counters and the shared value.
struct ArcData<T> {
    /// The strong count: the number of `MyArc` handles.
    data_ref_count: usize,
    /// The number of handles of either sort, strong ones and weak ones.
    alloc_count: usize,
    /// `Some` while the strong count is positive. The lifetime of the value is apart from that
    /// of the container, which weak handles keep alive too.
    data: Option<T>,
    ledger: Ghost<Ledger>,
}

impl<T> View for ArcData<T> {
    type V = Block<T>;

    closed spec fn view(&self) -> Block<T> {
        Block {
            data_ref_count: self.data_ref_count as nat,
            alloc_count: self.alloc_count as nat,
            data: self.data,
            ledger: self.ledger@,
        }
    }
}

impl<T> ArcData<T> {
    fn new(data: T) -> (block: ArcData<T>)
        ensures
            block@ == Block::fresh(data),
    {
        ArcData {
            data_ref_count: 1,
            alloc_count: 1,
            data: Some(data),
            ledger: Ghost(Block::fresh(data).ledger),
        }
    }

    fn increment_alloc_ref_count(&mut self) -> (ticket: Ghost<nat>)
        requires
            old(self)@.alloc_count <= usize::MAX / 2,
        ensures
            ticket@ == old(self)@.ledger.next_ticket,
            final(self)@ == old(self)@.weak_added(),
    {
        let ghost before = self@;
        self.alloc_count = self.alloc_count + 1;
        self.ledger = Ghost(before.weak_added().ledger);
        Ghost(before.ledger.next_ticket)
    }

    /// Gives back the count from before.
    fn decrement_alloc_count(&mut self, ticket: Ghost<nat>) -> (before: usize)
        requires
            old(self)@.alloc_count >= 1,
        ensures
            before == old(self)@.alloc_count,
            final(self)@ == old(self)@.weak_released(ticket@),
    {
        let ghost b = self@;
        let before: usize = self.alloc_count;
        self.alloc_count = before - 1;
        self.ledger = Ghost(b.weak_released(ticket@).ledger);
        before
    }

    /// Gives back the count from before.
    fn decrement_data_ref_count(&mut self, ticket: Ghost<nat>) -> (before: usize)
        requires
            old(self)@.data_ref_count >= 1,
        ensures
            before == old(self)@.data_ref_count,
            final(self)@ == old(self)@.strong_released(ticket@),
    {
        let ghost b = self@;
        let before: usize = self.data_ref_count;
        self.data_ref_count = before - 1;
        self.ledger = Ghost(b.strong_released(ticket@).ledger);
        before
    }
}

/// The shared memory: allocations, each with its counters.
pub struct Heap<T> {
    blocks: Memory<ArcData<T>>,
}

impl<T> View for Heap<T> {
    type V = Seq<Option<Block<T>>>;

    /// The allocations in the order in which they were made; `None` where one has been freed.
    closed spec fn view(&self) -> Seq<Option<Block<T>>> {
        self.blocks@
    }
}

impl<T> Heap<T> {
    /// The identity of the heap. No more is known of it than that it stays the same, so that a
    /// handle of one heap is never known to be one of another.
    pub closed spec fn id(self) -> int {
        self.blocks.id()
    }

    /// Every allocation agrees with its handles.
    pub open spec fn wf(self) -> bool {
        forall|i: int| 0 <= i < self@.len() && (#[trigger] self@[i]) is Some ==> self@[i]->0.wf()
    }

    /// `ptr` points to a live allocation.
    pub open spec fn allocated(self, ptr: int) -> bool {
        0 <= ptr < self@.len() && self@[ptr] is Some
    }

    /// The allocation that `ptr` points to.
    pub open spec fn block(self, ptr: int) -> Block<T> {
        self@[ptr]->0
    }

    /// `arc` is a live strong handle to an allocation of this heap.
    pub open spec fn holds_strong(self, arc: MyArc<T>) -> bool {
        &&& arc.region() == self.id()
        &&& self.allocated(arc.ptr())
        &&& self.block(arc.ptr()).ledger.strong.contains(arc.ticket())
    }

    /// `weak` is a live weak handle to an allocation of this heap.
    pub open spec fn holds_weak(self, weak: WeakRef<T>) -> bool {
        &&& weak.region() == self.id()
        &&& self.allocated(weak.ptr())
        &&& self.block(weak.ptr()).ledger.weak.contains(weak.ticket())
    }

    /// `upgrade` is an upgrade of the live weak handle `weak` that is half done.
    pub open spec fn holds_upgrade(self, upgrade: Upgrade<T>, weak: WeakRef<T>) -> bool {
        &&& self.holds_weak(weak)
        &&& upgrade.region() == weak.region()
        &&& upgrade.ptr() == weak.ptr()
        &&& self.block(weak.ptr()).ledger.upgrading.contains_key(upgrade.ticket())
        &&& self.block(weak.ptr()).ledger.upgrading[upgrade.ticket()] == weak.ticket()
    }

    /// `weak` is a live weak handle that no operation is under way on.
    pub open spec fn holds_idle_weak(self, weak: WeakRef<T>) -> bool {
        self.holds_weak(weak) && self.block(weak.ptr()).weak_is_idle(weak.ticket())
    }

    /// A heap with no allocations.
    pub fn new() -> (heap: Heap<T>)
        ensures
            heap.wf(),
            heap@ == Seq::<Option<Block<T>>>::empty(),
    {
        Heap { blocks: Memory::new() }
    }
}

/// A weak handle: it keeps the container alive, not the value. It can go to another thread where
/// the value is `Send` and `Sync`.
pub struct WeakRef<T> {
    arc_ptr: Address,
    ticket: Ghost<nat>,
    marker: PhantomData<Arc<T>>,
}

/// A strong handle: a weak one that keeps the value alive too.
pub struct MyArc<T> {
    weak: WeakRef<T>,
}

/// An upgrade that has raised the strong count and not yet the allocation count.
pub struct Upgrade<T> {
    arc_ptr: Address,
    ticket: Ghost<nat>,
    marker: PhantomData<Arc<T>>,
}

/// What one turn of the upgrade loop comes to.
pub enum UpgradeTurn<T> {
    /// There are no strong handles left, so no upgrade is available.
    Gone,
    /// The strong count was not replaced. It was found to be the number that is given.
    Retry(usize),
    /// The strong count has been raised.
    Claimed(Upgrade<T>),
}

/// An allocation without any handle left, to be freed by whoever dropped the last one.
pub struct Vacated<T> {
    arc_ptr: Address,
    marker: PhantomData<Arc<T>>,
}

impl<T> WeakRef<T> {
    /// Where the handle points.
    pub closed spec fn ptr(self) -> int {
        self.arc_ptr.index()
    }

    /// The identity of the memory that it is a place in.
    pub closed spec fn region(self) -> int {
        self.arc_ptr.memory()
    }

    /// The number that tells the handle from the others of its allocation.
    pub closed spec fn ticket(self) -> nat {
        self.ticket@
    }

    /// Allocates a container for `data`, with one handle that counts as strong and as weak.
    fn new(heap: &mut Heap<T>, data: T) -> (weak: WeakRef<T>)
        ensures
            weak.region() == final(heap).id(),
            final(heap).id() == old(heap).id(),
            weak.ptr() == old(heap)@.len(),
            weak.ticket() == 0,
            final(heap)@ == old(heap)@.push(Some(Block::fresh(data))),
    {
        let arc_ptr = heap.blocks.place(ArcData::new(data));
        WeakRef { arc_ptr, ticket: Ghost(0), marker: PhantomData }
    }

    fn data<'a>(&self, heap: &'a Heap<T>) -> (block: &'a ArcData<T>)
        requires
            self.region() == heap.id(),
            heap.allocated(self.ptr()),
        ensures
            block@ == heap.block(self.ptr()),
    {
        heap.blocks.object(self.arc_ptr)
    }

    /// The strong count.
    pub fn data_ref_count(&self, heap: &Heap<T>) -> (count: usize)
        requires
            self.region() == heap.id(),
            heap.allocated(self.ptr()),
        ensures
            count == heap.block(self.ptr()).data_ref_count,
    {
        self.data(heap).data_ref_count
    }

    /// The number of handles of either sort.
    pub fn alloc_count(&self, heap: &Heap<T>) -> (count: usize)
        requires
            self.region() == heap.id(),
            heap.allocated(self.ptr()),
        ensures
            count == heap.block(self.ptr()).alloc_count,
    {
        self.data(heap).alloc_count
    }

    /// Another weak handle to the same allocation.
    ///
    /// An allocation count above half of `usize` is left out, since the overflow guard stops the
    /// process there.
    pub fn clone(&self, heap: &mut Heap<T>) -> (weak: WeakRef<T>)
        requires
            old(heap).wf(),
            old(heap).holds_weak(*self),
            old(heap).block(self.ptr()).alloc_count <= usize::MAX / 2,
        ensures
            final(heap).wf(),
            final(heap).id() == old(heap).id(),
            final(heap).holds_idle_weak(weak),
            weak.ptr() == self.ptr(),
            weak.ticket() == old(heap).block(self.ptr()).ledger.next_ticket,
            final(heap)@ == old(heap)@.update(
                self.ptr(),
                Some(old(heap).block(self.ptr()).weak_added()),
            ),
    {
        self.clone_share(heap)
    }

    /// As `clone`, for a handle of either sort.
    fn clone_share(&self, heap: &mut Heap<T>) -> (weak: WeakRef<T>)
        requires
            old(heap).wf(),
            self.region() == old(heap).id(),
            old(heap).allocated(self.ptr()),
            old(heap).block(self.ptr()).alloc_count <= usize::MAX / 2,
        ensures
            final(heap).wf(),
            final(heap).id() == old(heap).id(),
            final(heap).holds_idle_weak(weak),
            weak.ptr() == self.ptr(),
            weak.ticket() == old(heap).block(self.ptr()).ledger.next_ticket,
            final(heap)@ == old(heap)@.update(
                self.ptr(),
                Some(old(heap).block(self.ptr()).weak_added()),
            ),
    {
        proof {
            model::lemma_weak_added_wf(heap.block(self.ptr()));
        }
        let ticket = heap.blocks.object_mut(self.arc_ptr).increment_alloc_ref_count();
        WeakRef { arc_ptr: self.arc_ptr, ticket, marker: PhantomData }
    }

    /// One turn of the upgrade loop, with `n` as the strong count that was last seen.
    ///
    /// `spurious` is true where the weak compare-and-exchange fails although the counter holds
    /// `n`. The greatest `usize` is left out as `n`: the loop asserts that it is not reached.
    pub fn upgrade_turn(&self, heap: &mut Heap<T>, n: usize, spurious: bool) -> (turn: UpgradeTurn<
        T,
    >)
        requires
            old(heap).wf(),
            old(heap).holds_weak(*self),
            n < usize::MAX,
        ensures
            final(heap).wf(),
            final(heap).id() == old(heap).id(),
            n == 0 ==> turn is Gone && final(heap)@ == old(heap)@,
            n != 0 && (n != old(heap).block(self.ptr()).data_ref_count || spurious) ==> {
                &&& turn is Retry
                &&& turn->Retry_0 == old(heap).block(self.ptr()).data_ref_count
                &&& final(heap)@ == old(heap)@
            },
            n != 0 && n == old(heap).block(self.ptr()).data_ref_count && !spurious ==> {
                &&& turn is Claimed
                &&& final(heap).holds_upgrade(turn->Claimed_0, *self)
                &&& turn->Claimed_0.ticket() == old(heap).block(self.ptr()).ledger.next_ticket
                &&& final(heap)@ == old(heap)@.update(
                    self.ptr(),
                    Some(old(heap).block(self.ptr()).upgrade_claimed(self.ticket())),
                )
            },
    {
        if n == 0 {
            return UpgradeTurn::Gone;
        }
        let ghost before = heap.block(self.ptr());
        let found: usize = self.data_ref_count(heap);
        if found != n || spurious {
            return UpgradeTurn::Retry(found);
        }
        proof {
            model::lemma_upgrade_claimed_wf(before, self.ticket());
        }
        let block = heap.blocks.object_mut(self.arc_ptr);
        block.data_ref_count = n + 1;
        block.ledger = Ghost(before.upgrade_claimed(self.ticket()).ledger);
        UpgradeTurn::Claimed(
            Upgrade {
                arc_ptr: self.arc_ptr,
                ticket: Ghost(before.ledger.next_ticket),
                marker: PhantomData,
            },
        )
    }

    /// A strong handle to the same allocation, if the value is still there.
    ///
    /// A strong count of the greatest `usize` and an allocation count above half of it are left
    /// out: the assertion and the overflow guard stop there.
    pub fn upgrade(&self, heap: &mut Heap<T>) -> (arc: Option<MyArc<T>>)
        requires
            old(heap).wf(),
            old(heap).holds_weak(*self),
            old(heap).block(self.ptr()).data_ref_count > 0 ==> {
                &&& old(heap).block(self.ptr()).data_ref_count < usize::MAX
                &&& old(heap).block(self.ptr()).alloc_count <= usize::MAX / 2
            },
        ensures
            final(heap).wf(),
            final(heap).id() == old(heap).id(),
            arc is Some <==> old(heap).block(self.ptr()).data_ref_count > 0,
            arc matches Some(strong) ==> {
                &&& final(heap).holds_strong(strong)
                &&& strong.ptr() == self.ptr()
                &&& strong.ticket() == old(heap).block(self.ptr()).ledger.next_ticket
                &&& final(heap)@ == old(heap)@.update(
                    self.ptr(),
                    Some(old(heap).block(self.ptr()).after_upgrade(self.ticket())),
                )
            },
            arc is None ==> final(heap)@ == old(heap)@,
    {
        let mut n: usize = self.data_ref_count(heap);
        loop
            invariant
                heap.wf(),
                heap@ == old(heap)@,
                heap.id() == old(heap).id(),
                heap.holds_weak(*self),
                n == heap.block(self.ptr()).data_ref_count,
                n > 0 ==> n < usize::MAX && heap.block(self.ptr()).alloc_count <= usize::MAX / 2,
            decreases 0int,
        {
            match self.upgrade_turn(heap, n, false) {
                UpgradeTurn::Gone => {
                    return None;
                },
                UpgradeTurn::Retry(found) => {
                    n = found;
                },
                UpgradeTurn::Claimed(upgrade) => {
                    return Some(upgrade.finish(heap, self));
                },
            }
        }
    }

    /// Clears the data, which the strong handle that took the strong count to zero has to do. The
    /// value comes out and goes with the result.
    pub fn clear(&self, heap: &mut Heap<T>) -> (data: T)
        requires
            old(heap).wf(),
            old(heap).holds_weak(*self),
            old(heap).block(self.ptr()).ledger.clearing == Some(self.ticket()),
        ensures
            final(heap).wf(),
            final(heap).id() == old(heap).id(),
            final(heap)@ == old(heap)@.update(
                self.ptr(),
                Some(old(heap).block(self.ptr()).data_cleared()),
            ),
            Some(data) == old(heap).block(self.ptr()).data,
            final(heap).block(self.ptr()).data is None,
    {
        let ghost before = heap.block(self.ptr());
        proof {
            model::lemma_data_cleared_wf(before);
        }
        let block = heap.blocks.object_mut(self.arc_ptr);
        block.ledger = Ghost(before.data_cleared().ledger);
        block.data.take().unwrap()
    }

    /// Lowers the allocation count. Whoever takes it to zero has to free the allocation.
    pub fn release(self, heap: &mut Heap<T>) -> (vacated: Option<Vacated<T>>)
        requires
            old(heap).wf(),
            old(heap).holds_idle_weak(self),
        ensures
            final(heap).wf(),
            final(heap).id() == old(heap).id(),
            final(heap)@ == old(heap)@.update(
                self.ptr(),
                Some(old(heap).block(self.ptr()).weak_released(self.ticket())),
            ),
            vacated is Some <==> old(heap).block(self.ptr()).alloc_count == 1,
            vacated matches Some(v) ==> v.ptr() == self.ptr() && v.region() == self.region(),
    {
        proof {
            model::lemma_weak_released_wf(heap.block(self.ptr()), self.ticket());
        }
        let before: usize = heap.blocks.object_mut(self.arc_ptr).decrement_alloc_count(self.ticket);
        if before == 1 {
            Some(Vacated { arc_ptr: self.arc_ptr, marker: PhantomData })
        } else {
            None
        }
    }

    /// Gives the handle up. When the allocation count goes to zero, the allocation is freed.
    pub fn drop(self, heap: &mut Heap<T>)
        requires
            old(heap).wf(),
            old(heap).holds_idle_weak(self),
        ensures
            final(heap).wf(),
            final(heap).id() == old(heap).id(),
            final(heap)@ == old(heap)@.update(
                self.ptr(),
                old(heap).block(self.ptr()).after_weak_drop(self.ticket()),
            ),
    {
        match self.release(heap) {
            Some(vacated) => vacated.free(heap),
            None => {},
        }
    }
}

impl<T> Upgrade<T> {
    /// Where the upgraded handle points.
    pub closed spec fn ptr(self) -> int {
        self.arc_ptr.index()
    }

    /// The identity of the memory that it is a place in.
    pub closed spec fn region(self) -> int {
        self.arc_ptr.memory()
    }

    /// The ticket of the strong handle to be.
    pub closed spec fn ticket(self) -> nat {
        self.ticket@
    }

    /// The second half of an upgrade: raises the allocation count and hands out the strong handle.
    ///
    /// An allocation count above half of `usize` is left out, since the overflow guard stops the
    /// process there.
    pub fn finish(self, heap: &mut Heap<T>, weak: &WeakRef<T>) -> (arc: MyArc<T>)
        requires
            old(heap).wf(),
            old(heap).holds_upgrade(self, *weak),
            old(heap).block(self.ptr()).alloc_count <= usize::MAX / 2,
        ensures
            final(heap).wf(),
            final(heap).id() == old(heap).id(),
            final(heap).holds_strong(arc),
            arc.ptr() == self.ptr(),
            arc.ticket() == self.ticket(),
            final(heap)@ == old(heap)@.update(
                self.ptr(),
                Some(old(heap).block(self.ptr()).upgrade_finished(self.ticket())),
            ),
    {
        proof {
            model::lemma_upgrade_finished_wf(heap.block(self.ptr()), self.ticket());
        }
        let block = heap.blocks.object_mut(self.arc_ptr);
        let ghost before = block@;
        block.alloc_count = block.alloc_count + 1;
        block.ledger = Ghost(before.upgrade_finished(self.ticket()).ledger);
        MyArc { weak: WeakRef { arc_ptr: self.arc_ptr, ticket: self.ticket, marker: PhantomData } }
    }
}

impl<T> Vacated<T> {
    /// Where the allocation lies.
    pub closed spec fn ptr(self) -> int {
        self.arc_ptr.index()
    }

    /// The identity of the memory that it is a place in.
    pub closed spec fn region(self) -> int {
        self.arc_ptr.memory()
    }

    /// Frees the allocation. There is no value in it any more.
    pub fn free(self, heap: &mut Heap<T>)
        requires
            old(heap).wf(),
            self.region() == old(heap).id(),
            old(heap).allocated(self.ptr()),
            old(heap).block(self.ptr()).alloc_count == 0,
        ensures
            old(heap).block(self.ptr()).data is None,
            final(heap).wf(),
            final(heap).id() == old(heap).id(),
            final(heap)@ == old(heap)@.update(self.ptr(), None),
    {
        proof {
            laws::vacant_allocation_is_final(heap.block(self.ptr()), arbitrary());
        }
        heap.blocks.free(self.arc_ptr);
    }
}

impl<T> MyArc<T> {
    /// Where the handle points.
    pub closed spec fn ptr(self) -> int {
        self.weak.ptr()
    }

    /// The identity of the memory that it is a place in.
    pub closed spec fn region(self) -> int {
        self.weak.region()
    }

    /// The number that tells the handle from the others of its allocation.
    pub closed spec fn ticket(self) -> nat {
        self.weak.ticket()
    }

    /// Puts `data` into a new allocation and hands out its first strong handle.
    pub fn new(heap: &mut Heap<T>, data: T) -> (arc: MyArc<T>)
        requires
            old(heap).wf(),
        ensures
            final(heap).wf(),
            final(heap).id() == old(heap).id(),
            final(heap).holds_strong(arc),
            arc.ptr() == old(heap)@.len(),
            arc.ticket() == 0,
            final(heap)@ == old(heap)@.push(Some(Block::fresh(data))),
            final(heap).block(arc.ptr()).data == Some(data),
            final(heap).block(arc.ptr()).data_ref_count == 1,
            final(heap).block(arc.ptr()).alloc_count == 1,
            final(heap).block(arc.ptr()).ledger.strong == set![arc.ticket()],
            final(heap).block(arc.ptr()).ledger.weak == Set::<nat>::empty(),
            final(heap).block(arc.ptr()).at_rest(),
    {
        proof {
            model::lemma_fresh_wf(data);
        }
        MyArc { weak: WeakRef::new(heap, data) }
    }

    /// The strong count.
    pub fn data_ref_count(&self, heap: &Heap<T>) -> (count: usize)
        requires
            self.region() == heap.id(),
            heap.allocated(self.ptr()),
        ensures
            count == heap.block(self.ptr()).data_ref_count,
    {
        self.weak.data_ref_count(heap)
    }

    /// The number of handles of either sort.
    pub fn alloc_count(&self, heap: &Heap<T>) -> (count: usize)
        requires
            self.region() == heap.id(),
            heap.allocated(self.ptr()),
        ensures
            count == heap.block(self.ptr()).alloc_count,
    {
        self.weak.alloc_count(heap)
    }

    /// Exclusive access to the value, if there is no other handle of either sort.
    ///
    /// The allocation count is checked, not the strong count: a weak handle could be upgraded.
    pub fn get_mut<'a>(arc: &'a mut MyArc<T>, heap: &'a mut Heap<T>) -> (data: Option<&'a mut T>)
        requires
            old(heap).wf(),
            old(heap).holds_strong(*old(arc)),
        ensures
            data is Some <==> old(heap).block(old(arc).ptr()).alloc_count == 1,
            data matches Some(d) ==> {
                &&& old(heap).block(old(arc).ptr()).data == Some(*d)
                &&& final(heap)@ == old(heap)@.update(
                    old(arc).ptr(),
                    Some(old(heap).block(old(arc).ptr()).data_written(*final(d))),
                )
            },
            data is None ==> final(heap)@ == old(heap)@,
            *final(arc) == *old(arc),
            final(heap).wf(),
            final(heap).id() == old(heap).id(),
    {
        assert(heap.block(arc.ptr()).ledger.strong.len() >= 1);
        if arc.alloc_count(heap) == 1 {
            match &mut heap.blocks.object_mut(arc.weak.arc_ptr).data {
                Some(data) => Some(data),
                None => unreached(),
            }
        } else {
            None
        }
    }

    /// A weak handle to the same allocation.
    ///
    /// An allocation count above half of `usize` is left out, since the overflow guard stops the
    /// process there.
    pub fn downgrade(arc: &MyArc<T>, heap: &mut Heap<T>) -> (weak: WeakRef<T>)
        requires
            old(heap).wf(),
            old(heap).holds_strong(*arc),
            old(heap).block(arc.ptr()).alloc_count <= usize::MAX / 2,
        ensures
            final(heap).wf(),
            final(heap).id() == old(heap).id(),
            final(heap).holds_idle_weak(weak),
            weak.ptr() == arc.ptr(),
            weak.ticket() == old(heap).block(arc.ptr()).ledger.next_ticket,
            final(heap)@ == old(heap)@.update(
                arc.ptr(),
                Some(old(heap).block(arc.ptr()).weak_added()),
            ),
    {
        arc.weak.clone_share(heap)
    }

    /// The shared value.
    pub fn deref<'a>(&self, heap: &'a Heap<T>) -> (data: &'a T)
        requires
            heap.wf(),
            heap.holds_strong(*self),
        ensures
            heap.block(self.ptr()).data == Some(*data),
    {
        assert(heap.block(self.ptr()).ledger.strong.len() >= 1);
        self.weak.data(heap).data.as_ref().unwrap()
    }

    /// The second half of a clone: raises the strong count and makes `weak` a strong handle.
    pub fn make_strong(&self, heap: &mut Heap<T>, weak: WeakRef<T>) -> (arc: MyArc<T>)
        requires
            old(heap).wf(),
            old(heap).holds_strong(*self),
            old(heap).holds_idle_weak(weak),
            weak.ptr() == self.ptr(),
            old(heap).block(self.ptr()).data_ref_count < usize::MAX,
        ensures
            final(heap).wf(),
            final(heap).id() == old(heap).id(),
            final(heap).holds_strong(arc),
            arc.ptr() == weak.ptr(),
            arc.ticket() == weak.ticket(),
            final(heap)@ == old(heap)@.update(
                self.ptr(),
                Some(old(heap).block(self.ptr()).weak_made_strong(weak.ticket())),
            ),
    {
        let ghost before = heap.block(self.ptr());
        proof {
            assert(before.ledger.strong.len() >= 1);
            model::lemma_weak_made_strong_wf(before, weak.ticket());
        }
        let block = heap.blocks.object_mut(weak.arc_ptr);
        block.data_ref_count = block.data_ref_count + 1;
        block.ledger = Ghost(before.weak_made_strong(weak.ticket()).ledger);
        MyArc { weak }
    }

    /// Another strong handle to the same allocation.
    ///
    /// An allocation count above half of `usize` is left out, since the overflow guard stops the
    /// process there.
    pub fn clone(&self, heap: &mut Heap<T>) -> (arc: MyArc<T>)
        requires
            old(heap).wf(),
            old(heap).holds_strong(*self),
            old(heap).block(self.ptr()).alloc_count <= usize::MAX / 2,
            old(heap).block(self.ptr()).data_ref_count < usize::MAX,
        ensures
            final(heap).wf(),
            final(heap).id() == old(heap).id(),
            final(heap).holds_strong(arc),
            arc.ptr() == self.ptr(),
            arc.ticket() == old(heap).block(self.ptr()).ledger.next_ticket,
            final(heap)@ == old(heap)@.update(
                self.ptr(),
                Some(old(heap).block(self.ptr()).after_strong_clone()),
            ),
    {
        let weak = self.weak.clone_share(heap);
        self.make_strong(heap, weak)
    }

    /// Lowers the strong count, which leaves the weak half of the handle. Whoever takes the count
    /// to zero (`true`) has to clear the data.
    pub fn release(self, heap: &mut Heap<T>) -> (left: (WeakRef<T>, bool))
        requires
            old(heap).wf(),
            old(heap).holds_strong(self),
        ensures
            final(heap).wf(),
            final(heap).id() == old(heap).id(),
            final(heap).holds_weak(left.0),
            left.0.ptr() == self.ptr(),
            left.0.ticket() == self.ticket(),
            left.1 <==> old(heap).block(self.ptr()).data_ref_count == 1,
            final(heap)@ == old(heap)@.update(
                self.ptr(),
                Some(old(heap).block(self.ptr()).strong_released(self.ticket())),
            ),
    {
        proof {
            model::lemma_strong_released_wf(heap.block(self.ptr()), self.ticket());
        }
        let count: usize = heap.blocks.object_mut(self.weak.arc_ptr).decrement_data_ref_count(
            self.weak.ticket,
        );
        (self.weak, count == 1)
    }

    /// Gives the handle up. With the last strong handle the value comes out and goes with the result,
    /// and the last handle of either sort frees the allocation.
    pub fn drop(self, heap: &mut Heap<T>) -> (data: Option<T>)
        requires
            old(heap).wf(),
            old(heap).holds_strong(self),
        ensures
            final(heap).wf(),
            final(heap).id() == old(heap).id(),
            final(heap)@ == old(heap)@.update(
                self.ptr(),
                old(heap).block(self.ptr()).after_strong_drop(self.ticket()),
            ),
            data is Some <==> old(heap).block(self.ptr()).data_ref_count == 1,
            data is Some ==> data == old(heap).block(self.ptr()).data,
            data is Some && final(heap).allocated(self.ptr()) ==> final(heap).block(
                self.ptr(),
            ).data is None,
    {
        assert(!heap.block(self.ptr()).ledger.weak.contains(self.ticket()));
        let (weak, last) = self.release(heap);
        let data = if last {
            Some(weak.clear(heap))
        } else {
            None
        };
        weak.drop(heap);
        data
    }
}

} // verus!
