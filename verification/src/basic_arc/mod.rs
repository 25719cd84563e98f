//! Reference-counted sharing.
//!
//! A [`Heap`] is the memory that threads share, and handles point into it. The steps that drop a
//! handle, one atomic update each, can also be taken one by one ([`MyArc::release`],
//! [`Vacated::free`]), so that those of several threads can come in any order.

use crate::basic_arc::model::Block;
use crate::memory::{Address, Memory};
use std::marker::PhantomData;
use std::sync::Arc;
use vstd::prelude::*;

pub mod laws;
pub mod model;
pub mod ordering;

verus! {

/// What lies in an allocation: the reference count and the shared value.
struct ArcData<T> {
    ref_count: usize,
    data: T,
    handles: Ghost<Set<nat>>,
    next_ticket: Ghost<nat>,
}

impl<T> View for ArcData<T> {
    type V = Block<T>;

    closed spec fn view(&self) -> Block<T> {
        Block {
            ref_count: self.ref_count as nat,
            data: self.data,
            handles: self.handles@,
            next_ticket: self.next_ticket@,
        }
    }
}

impl<T> ArcData<T> {
    fn new(data: T) -> (block: ArcData<T>)
        ensures
            block@ == Block::fresh(data),
    {
        ArcData {
            ref_count: 1,
            data,
            handles: Ghost(Block::fresh(data).handles),
            next_ticket: Ghost(1),
        }
    }

    /// The guard against overflow leaves room above half of `usize` for the increments that come
    /// in before it takes effect.
    fn increment_ref_count(&mut self) -> (ticket: Ghost<nat>)
        requires
            old(self)@.ref_count <= usize::MAX / 2,
        ensures
            ticket@ == old(self)@.next_ticket,
            final(self)@ == old(self)@.handle_added(),
    {
        let ghost before = self@;
        self.ref_count = self.ref_count + 1;
        self.handles = Ghost(before.handle_added().handles);
        self.next_ticket = Ghost(before.next_ticket + 1);
        Ghost(before.next_ticket)
    }

    /// Gives back the count from before.
    fn decrement_ref_count(&mut self, ticket: Ghost<nat>) -> (before: usize)
        requires
            old(self)@.ref_count >= 1,
        ensures
            before == old(self)@.ref_count,
            final(self)@ == old(self)@.handle_released(ticket@),
    {
        let before: usize = self.ref_count;
        self.ref_count = before - 1;
        self.handles = Ghost(self.handles@.remove(ticket@));
        before
    }
}

/// The shared memory: allocations, each with its reference count.
pub struct Heap<T> {
    blocks: Memory<ArcData<T>>,
}

impl<T> View for Heap<T> {
    type V = Seq<Option<Block<T>>>;

    /// The allocations in the order in which they were made; `None` where one has been freed.
    closed spec fn view(&self) -> Seq<Option<Block<T>>> {
        self.blocks@
    }
}

impl<T> Heap<T> {
    /// The identity of the heap. No more is known of it than that it stays the same, so that a
    /// handle of one heap is never known to be one of another.
    pub closed spec fn id(self) -> int {
        self.blocks.id()
    }

    /// Every allocation agrees with its handles.
    pub open spec fn wf(self) -> bool {
        forall|i: int| 0 <= i < self@.len() && (#[trigger] self@[i]) is Some ==> self@[i]->0.wf()
    }

    /// `ptr` points to a live allocation.
    pub open spec fn allocated(self, ptr: int) -> bool {
        0 <= ptr < self@.len() && self@[ptr] is Some
    }

    /// The allocation that `ptr` points to.
    pub open spec fn block(self, ptr: int) -> Block<T> {
        self@[ptr]->0
    }

    /// `arc` is a live handle to an allocation of this heap.
    pub open spec fn holds(self, arc: MyArc<T>) -> bool {
        &&& arc.region() == self.id()
        &&& self.allocated(arc.ptr())
        &&& self.block(arc.ptr()).handles.contains(arc.ticket())
    }

    /// A heap with no allocations.
    pub fn new() -> (heap: Heap<T>)
        ensures
            heap.wf(),
            heap@ == Seq::<Option<Block<T>>>::empty(),
    {
        Heap { blocks: Memory::new() }
    }
}

/// A handle to a shared value. It can go to another thread where the value is `Send` and `Sync`.
pub struct MyArc<T> {
    arc_ptr: Address,
    ticket: Ghost<nat>,
    marker: PhantomData<Arc<T>>,
}

/// An allocation without any handle left, to be freed by whoever dropped the last one.
pub struct Vacated<T> {
    arc_ptr: Address,
    marker: PhantomData<Arc<T>>,
}

impl<T> Vacated<T> {
    /// Where the allocation lies.
    pub closed spec fn ptr(self) -> int {
        self.arc_ptr.index()
    }

    /// The identity of the memory that it is a place in.
    pub closed spec fn region(self) -> int {
        self.arc_ptr.memory()
    }

    /// Frees the allocation. The value comes out and goes with the result.
    pub fn free(self, heap: &mut Heap<T>) -> (data: T)
        requires
            old(heap).wf(),
            self.region() == old(heap).id(),
            old(heap).allocated(self.ptr()),
            old(heap).block(self.ptr()).ref_count == 0,
        ensures
            final(heap).wf(),
            final(heap).id() == old(heap).id(),
            data == old(heap).block(self.ptr()).data,
            final(heap)@ == old(heap)@.update(self.ptr(), None),
    {
        heap.blocks.free(self.arc_ptr).data
    }
}

impl<T> MyArc<T> {
    /// Where the handle points.
    pub closed spec fn ptr(self) -> int {
        self.arc_ptr.index()
    }

    /// The identity of the memory that it is a place in.
    pub closed spec fn region(self) -> int {
        self.arc_ptr.memory()
    }

    /// The number that tells the handle from the others of its allocation.
    pub closed spec fn ticket(self) -> nat {
        self.ticket@
    }

    /// Puts `data` into a new allocation and hands out its first handle.
    pub fn new(heap: &mut Heap<T>, data: T) -> (arc: MyArc<T>)
        requires
            old(heap).wf(),
        ensures
            final(heap).wf(),
            final(heap).id() == old(heap).id(),
            final(heap).holds(arc),
            arc.ptr() == old(heap)@.len(),
            arc.ticket() == 0,
            final(heap)@ == old(heap)@.push(Some(Block::fresh(data))),
            final(heap).block(arc.ptr()).data == data,
            final(heap).block(arc.ptr()).ref_count == 1,
            final(heap).block(arc.ptr()).handles == set![arc.ticket()],
    {
        proof {
            model::lemma_fresh_wf(data);
        }
        let arc_ptr = heap.blocks.place(ArcData::new(data));
        MyArc { arc_ptr, ticket: Ghost(0), marker: PhantomData }
    }

    fn data<'a>(&self, heap: &'a Heap<T>) -> (block: &'a ArcData<T>)
        requires
            self.region() == heap.id(),
            heap.allocated(self.ptr()),
        ensures
            block@ == heap.block(self.ptr()),
    {
        heap.blocks.object(self.arc_ptr)
    }

    /// The reference count.
    pub fn ref_count(&self, heap: &Heap<T>) -> (count: usize)
        requires
            heap.holds(*self),
        ensures
            count == heap.block(self.ptr()).ref_count,
    {
        self.data(heap).ref_count
    }

    /// Exclusive access to the value, if there is no other handle.
    ///
    /// It is called as `MyArc::get_mut`, so that it is not mistaken for a method of the value.
    pub fn get_mut<'a>(arc: &'a mut MyArc<T>, heap: &'a mut Heap<T>) -> (data: Option<&'a mut T>)
        requires
            old(heap).wf(),
            old(heap).holds(*old(arc)),
        ensures
            data is Some <==> old(heap).block(old(arc).ptr()).ref_count == 1,
            data matches Some(d) ==> {
                &&& *d == old(heap).block(old(arc).ptr()).data
                &&& final(heap)@ == old(heap)@.update(
                    old(arc).ptr(),
                    Some(old(heap).block(old(arc).ptr()).data_written(*final(d))),
                )
            },
            data is None ==> final(heap)@ == old(heap)@,
            *final(arc) == *old(arc),
            final(heap).wf(),
            final(heap).id() == old(heap).id(),
    {
        if arc.ref_count(heap) == 1 {
            Some(&mut heap.blocks.object_mut(arc.arc_ptr).data)
        } else {
            None
        }
    }

    /// Another handle to the same value.
    ///
    /// A reference count above half of `usize` is left out, since the overflow guard stops the
    /// process there.
    pub fn clone(&self, heap: &mut Heap<T>) -> (arc: MyArc<T>)
        requires
            old(heap).wf(),
            old(heap).holds(*self),
            old(heap).block(self.ptr()).ref_count <= usize::MAX / 2,
        ensures
            final(heap).wf(),
            final(heap).id() == old(heap).id(),
            final(heap).holds(arc),
            arc.ptr() == self.ptr(),
            arc.ticket() == old(heap).block(self.ptr()).next_ticket,
            final(heap)@ == old(heap)@.update(
                self.ptr(),
                Some(old(heap).block(self.ptr()).handle_added()),
            ),
    {
        proof {
            model::lemma_handle_added_wf(heap.block(self.ptr()));
        }
        let ticket = heap.blocks.object_mut(self.arc_ptr).increment_ref_count();
        MyArc { arc_ptr: self.arc_ptr, ticket, marker: PhantomData }
    }

    /// The shared value.
    pub fn deref<'a>(&self, heap: &'a Heap<T>) -> (data: &'a T)
        requires
            heap.holds(*self),
        ensures
            *data == heap.block(self.ptr()).data,
    {
        &self.data(heap).data
    }

    /// Lowers the reference count. Whoever takes it to zero has to free the allocation.
    pub fn release(self, heap: &mut Heap<T>) -> (vacated: Option<Vacated<T>>)
        requires
            old(heap).wf(),
            old(heap).holds(self),
        ensures
            final(heap).wf(),
            final(heap).id() == old(heap).id(),
            final(heap)@ == old(heap)@.update(
                self.ptr(),
                Some(old(heap).block(self.ptr()).handle_released(self.ticket())),
            ),
            vacated is Some <==> old(heap).block(self.ptr()).ref_count == 1,
            vacated matches Some(v) ==> v.ptr() == self.ptr() && v.region() == self.region(),
    {
        proof {
            model::lemma_handle_released_wf(heap.block(self.ptr()), self.ticket());
        }
        let before: usize = heap.blocks.object_mut(self.arc_ptr).decrement_ref_count(self.ticket);
        if before == 1 {
            Some(Vacated { arc_ptr: self.arc_ptr, marker: PhantomData })
        } else {
            None
        }
    }

    /// Gives the handle up. The last one frees the allocation: the value comes out and goes with the
    /// result.
    pub fn drop(self, heap: &mut Heap<T>) -> (data: Option<T>)
        requires
            old(heap).wf(),
            old(heap).holds(self),
        ensures
            final(heap).wf(),
            final(heap).id() == old(heap).id(),
            final(heap)@ == old(heap)@.update(
                self.ptr(),
                old(heap).block(self.ptr()).after_drop(self.ticket()),
            ),
            data is Some <==> old(heap).block(self.ptr()).handles == set![self.ticket()],
            data is Some ==> data == Some(old(heap).block(self.ptr()).data),
            data is Some <==> !final(heap).allocated(self.ptr()),
    {
        proof {
            laws::sole_handle_is_exclusive(heap.block(self.ptr()), self.ticket());
        }
        match self.release(heap) {
            Some(vacated) => Some(vacated.free(heap)),
            None => None,
        }
    }
}

} // verus!
