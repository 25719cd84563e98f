//! The mathematical model of one allocation, and what each atomic step does to it.

use vstd::prelude::*;

verus! {

/// The contents of one allocation.
///
/// Every handle carries a ticket: a number that the allocation gives out once.
#[verifier::ext_equal]
pub struct Block<T> {
    /// The reference count.
    pub ref_count: nat,
    /// The shared value.
    pub data: T,
    /// The tickets of the live handles.
    pub handles: Set<nat>,
    /// The next ticket to give out.
    pub next_ticket: nat,
}

impl<T> Block<T> {
    /// The reference count is the number of live handles.
    pub open spec fn wf(self) -> bool {
        &&& self.handles.finite()
        &&& self.ref_count == self.handles.len()
        &&& forall|t: nat| #[trigger] self.handles.contains(t) ==> t < self.next_ticket
    }

    /// A new allocation: one handle, with ticket zero.
    pub open spec fn fresh(data: T) -> Block<T> {
        Block { ref_count: 1, data, handles: set![0nat], next_ticket: 1 }
    }

    /// The reference count goes up by one, for a new handle.
    pub open spec fn handle_added(self) -> Block<T> {
        Block {
            ref_count: self.ref_count + 1,
            handles: self.handles.insert(self.next_ticket),
            next_ticket: self.next_ticket + 1,
            ..self
        }
    }

    /// The reference count goes down by one, and the handle `t` is gone.
    pub open spec fn handle_released(self, t: nat) -> Block<T> {
        Block {
            ref_count: (self.ref_count - 1) as nat,
            handles: self.handles.remove(t),
            ..self
        }
    }

    /// The data is replaced in place.
    pub open spec fn data_written(self, data: T) -> Block<T> {
        Block { data, ..self }
    }

    /// What is left of the allocation once the handle `t` is gone: nothing if it was the last.
    pub open spec fn after_drop(self, t: nat) -> Option<Block<T>> {
        if self.ref_count == 1 {
            None
        } else {
            Some(self.handle_released(t))
        }
    }
}

pub proof fn lemma_fresh_wf<T>(data: T)
    ensures
        Block::fresh(data).wf(),
{
    assert(set![0nat].len() == 1);
}

pub proof fn lemma_handle_added_wf<T>(b: Block<T>)
    requires
        b.wf(),
    ensures
        b.handle_added().wf(),
{
    assert(!b.handles.contains(b.next_ticket));
}

pub proof fn lemma_handle_released_wf<T>(b: Block<T>, t: nat)
    requires
        b.wf(),
        b.handles.contains(t),
    ensures
        b.ref_count >= 1,
        b.handle_released(t).wf(),
{
    assert(b.handles.len() >= 1);
}

} // verus!
