//! The memory that threads share.

use vstd::prelude::*;

verus! {

/// Objects of one sort, each at an address.
///
/// It stands for the memory of the process, where whatever is shared lies and where locks, channel
/// ends and counted handles point to. An address is given out once.
pub struct Memory<S> {
    cells: Vec<Option<S>>,
    id: Ghost<int>,
}

/// Where an object lies.
#[derive(Clone, Copy)]
pub(crate) struct Address {
    index: usize,
    memory: Ghost<int>,
}

impl Address {
    /// The place in the memory.
    pub(crate) closed spec fn index(self) -> int {
        self.index as int
    }

    /// The identity of the memory.
    pub(crate) closed spec fn memory(self) -> int {
        self.memory@
    }
}

impl<S: View> View for Memory<S> {
    type V = Seq<Option<S::V>>;

    /// What lies at each address; `None` where the object has been freed.
    closed spec fn view(&self) -> Seq<Option<S::V>> {
        Seq::new(
            self.cells@.len(),
            |i: int|
                match self.cells@[i] {
                    Some(object) => Some(object@),
                    None => None,
                },
        )
    }
}

impl<S: View> Memory<S> {
    /// The identity of the memory. No more is known of it than that it stays the same, so that an
    /// address of one memory is never known to be one of another.
    pub closed spec fn id(self) -> int {
        self.id@
    }

    /// There is an object at `ptr`.
    pub open spec fn allocated(self, ptr: int) -> bool {
        0 <= ptr < self@.len() && self@[ptr] is Some
    }

    /// The object at `ptr`.
    pub open spec fn at(self, ptr: int) -> S::V {
        self@[ptr]->0
    }

    /// There is an object of this memory at the address.
    pub(crate) open spec fn reaches(self, address: Address) -> bool {
        address.memory() == self.id() && self.allocated(address.index())
    }

    /// A memory without objects.
    pub fn new() -> (memory: Memory<S>)
        ensures
            memory@ == Seq::<Option<S::V>>::empty(),
    {
        Memory { cells: Vec::new(), id: Ghost(arbitrary()) }
    }

    /// Puts an object at a new address.
    pub(crate) fn place(&mut self, object: S) -> (address: Address)
        ensures
            address.index() == old(self)@.len(),
            address.memory() == final(self).id(),
            final(self).id() == old(self).id(),
            final(self)@ == old(self)@.push(Some(object@)),
    {
        let index: usize = self.cells.len();
        self.cells.push(Some(object));
        Address { index, memory: self.id }
    }

    /// The object at an address.
    pub(crate) fn object(&self, address: Address) -> (object: &S)
        requires
            self.reaches(address),
        ensures
            object@ == self.at(address.index()),
    {
        match &self.cells[address.index] {
            Some(object) => object,
            None => unreached(),
        }
    }

    /// The object at an address, to be changed.
    pub(crate) fn object_mut(&mut self, address: Address) -> (object: &mut S)
        requires
            old(self).reaches(address),
        ensures
            object@ == old(self).at(address.index()),
            final(self).id() == old(self).id(),
            final(self)@ == old(self)@.update(address.index(), Some(final(object)@)),
    {
        match &mut self.cells[address.index] {
            Some(object) => object,
            None => unreached(),
        }
    }

    /// Moves the object at an address out, and leaves nothing there.
    pub(crate) fn free(&mut self, address: Address) -> (object: S)
        requires
            old(self).reaches(address),
        ensures
            object@ == old(self).at(address.index()),
            final(self).id() == old(self).id(),
            final(self)@ == old(self)@.update(address.index(), None),
    {
        match self.cells[address.index].take() {
            Some(object) => object,
            None => unreached(),
        }
    }
}

} // verus!
