//! A one-shot channel that any number of threads refer to. It carries one message in its life.

use crate::memory::{Address, Memory};
use crate::message_cell::{MessageCell, Slot};
use vstd::prelude::*;

pub mod laws;

verus! {

/// What a [`Channel`] holds.
#[verifier::ext_equal]
pub struct ChannelState<T> {
    pub slot: Slot<T>,
    /// A send has begun.
    pub used: bool,
}

impl<T> ChannelState<T> {
    /// The flag is up only over a value, and a value comes only from a send.
    pub open spec fn wf(self) -> bool {
        &&& self.slot.wf()
        &&& self.slot.message is Some ==> self.used
    }

    /// Neither a send nor a receive is half done.
    pub open spec fn at_rest(self) -> bool {
        self.wf() && self.slot.at_rest()
    }

    /// A channel that has carried nothing yet.
    pub open spec fn fresh() -> ChannelState<T> {
        ChannelState { slot: Slot::empty(), used: false }
    }

    /// First step of a send: the channel is in use.
    pub open spec fn claimed(self) -> ChannelState<T> {
        ChannelState { used: true, ..self }
    }

    /// The state with the slot changed.
    pub open spec fn with_slot(self, slot: Slot<T>) -> ChannelState<T> {
        ChannelState { slot, ..self }
    }
}

/// What lies in the memory of a [`Channel`]: the message and the two flags.
///
/// Two flags make four states, of which three occur between the calls: not in use, in use with a
/// message to be read, and in use without one.
#[derive(Debug)]
pub struct ChannelCell<T> {
    cell: MessageCell<T>,
    used: bool,
}

impl<T> View for ChannelCell<T> {
    type V = ChannelState<T>;

    closed spec fn view(&self) -> ChannelState<T> {
        ChannelState { slot: self.cell@, used: self.used }
    }
}

/// The memory that channels lie in.
pub type ChannelMemory<T> = Memory<ChannelCell<T>>;

impl<T> Memory<ChannelCell<T>> {
    /// Every channel is in a valid state.
    pub open spec fn wf(self) -> bool {
        forall|i: int| 0 <= i < self@.len() && (#[trigger] self@[i]) is Some ==> self@[i]->0.wf()
    }
}

/// The channel.
///
/// It can be shared between threads whatever the message is. Whether they can pass the message on,
/// for which it has to be `Send`, is up to the memory.
pub struct Channel<T> {
    ptr: Address,
    marker: Ghost<Option<T>>,
}

impl<T> Channel<T> {
    /// Where the message and the flags lie.
    pub closed spec fn ptr(self) -> int {
        self.ptr.index()
    }

    /// The identity of the memory that it is a place in.
    pub closed spec fn region(self) -> int {
        self.ptr.memory()
    }

    /// The channel lies in this memory.
    pub open spec fn lies_in(self, memory: ChannelMemory<T>) -> bool {
        self.region() == memory.id() && memory.allocated(self.ptr())
    }

    /// The message and the flags.
    pub open spec fn state(self, memory: ChannelMemory<T>) -> ChannelState<T> {
        memory.at(self.ptr())
    }

    /// A channel that has carried nothing yet.
    pub fn new(memory: &mut ChannelMemory<T>) -> (channel: Channel<T>)
        requires
            old(memory).wf(),
        ensures
            final(memory).wf(),
            final(memory).id() == old(memory).id(),
            channel.lies_in(*final(memory)),
            channel.ptr() == old(memory)@.len(),
            final(memory)@ == old(memory)@.push(Some(ChannelState::<T>::fresh())),
    {
        let ptr = memory.place(ChannelCell { cell: MessageCell::new(), used: false });
        Channel { ptr, marker: Ghost(None) }
    }

    /// Whether there is a message to receive.
    pub fn is_ready(&self, memory: &ChannelMemory<T>) -> (ready: bool)
        requires
            self.lies_in(*memory),
        ensures
            ready == self.state(*memory).slot.ready,
    {
        memory.object(self.ptr).cell.is_ready()
    }

    /// Whether a send has begun.
    pub fn in_use(&self, memory: &ChannelMemory<T>) -> (used: bool)
        requires
            self.lies_in(*memory),
        ensures
            used == self.state(*memory).used,
    {
        memory.object(self.ptr).used
    }

    /// First step of a send: marks the channel as in use, and says whether it was before. The
    /// send goes on only if it was not.
    pub fn claim(&self, memory: &mut ChannelMemory<T>) -> (before: bool)
        requires
            old(memory).wf(),
            self.lies_in(*old(memory)),
        ensures
            final(memory).wf(),
            final(memory).id() == old(memory).id(),
            before == self.state(*old(memory)).used,
            final(memory)@ == old(memory)@.update(
                self.ptr(),
                Some(self.state(*old(memory)).claimed()),
            ),
    {
        let channel = memory.object_mut(self.ptr);
        let before: bool = channel.used;
        channel.used = true;
        before
    }

    /// Second step of a send: writes the message.
    pub fn write(&self, memory: &mut ChannelMemory<T>, message: T)
        requires
            old(memory).wf(),
            self.lies_in(*old(memory)),
            self.state(*old(memory)).used,
            self.state(*old(memory)).slot.message is None,
        ensures
            final(memory).wf(),
            final(memory).id() == old(memory).id(),
            final(memory)@ == old(memory)@.update(
                self.ptr(),
                Some(
                    self.state(*old(memory)).with_slot(
                        self.state(*old(memory)).slot.written(message),
                    ),
                ),
            ),
    {
        memory.object_mut(self.ptr).cell.write(message);
    }

    /// Third step of a send: puts the ready flag up.
    pub fn publish(&self, memory: &mut ChannelMemory<T>)
        requires
            old(memory).wf(),
            self.lies_in(*old(memory)),
            self.state(*old(memory)).slot.message is Some,
        ensures
            final(memory).wf(),
            final(memory).id() == old(memory).id(),
            final(memory)@ == old(memory)@.update(
                self.ptr(),
                Some(
                    self.state(*old(memory)).with_slot(
                        self.state(*old(memory)).slot.published(),
                    ),
                ),
            ),
    {
        memory.object_mut(self.ptr).cell.publish();
    }

    /// First step of a receive: puts the ready flag down, and says whether it was up. The receive
    /// goes on only if it was.
    pub fn take_ready(&self, memory: &mut ChannelMemory<T>) -> (before: bool)
        requires
            old(memory).wf(),
            self.lies_in(*old(memory)),
        ensures
            final(memory).wf(),
            final(memory).id() == old(memory).id(),
            before == self.state(*old(memory)).slot.ready,
            final(memory)@ == old(memory)@.update(
                self.ptr(),
                Some(
                    self.state(*old(memory)).with_slot(
                        self.state(*old(memory)).slot.taken(),
                    ),
                ),
            ),
    {
        memory.object_mut(self.ptr).cell.take_ready()
    }

    /// Second step of a receive: moves the message out.
    pub fn read(&self, memory: &mut ChannelMemory<T>) -> (message: T)
        requires
            old(memory).wf(),
            self.lies_in(*old(memory)),
            self.state(*old(memory)).slot.message is Some,
            !self.state(*old(memory)).slot.ready,
        ensures
            final(memory).wf(),
            final(memory).id() == old(memory).id(),
            Some(message) == self.state(*old(memory)).slot.message,
            final(memory)@ == old(memory)@.update(
                self.ptr(),
                Some(
                    self.state(*old(memory)).with_slot(
                        self.state(*old(memory)).slot.moved_out(),
                    ),
                ),
            ),
    {
        memory.object_mut(self.ptr).cell.read()
    }

    /// Sends the message. The channel must not have been used.
    pub fn send(&self, memory: &mut ChannelMemory<T>, message: T)
        requires
            old(memory).wf(),
            self.lies_in(*old(memory)),
            !self.state(*old(memory)).used,
        ensures
            final(memory).wf(),
            final(memory).id() == old(memory).id(),
            final(memory)@ == old(memory)@.update(
                self.ptr(),
                Some(ChannelState { slot: Slot::holding(message), used: true }),
            ),
    {
        self.claim(memory);
        self.write(memory, message);
        self.publish(memory);
    }

    /// Receives the message. There must be one. The channel stays in use.
    pub fn recv(&self, memory: &mut ChannelMemory<T>) -> (message: T)
        requires
            old(memory).wf(),
            self.lies_in(*old(memory)),
            self.state(*old(memory)).slot.ready,
        ensures
            final(memory).wf(),
            final(memory).id() == old(memory).id(),
            Some(message) == self.state(*old(memory)).slot.message,
            final(memory)@ == old(memory)@.update(
                self.ptr(),
                Some(self.state(*old(memory)).with_slot(Slot::empty())),
            ),
    {
        self.take_ready(memory);
        self.read(memory)
    }

    /// Drops the channel. The message, if it has been written and not read, comes out and goes with
    /// the result.
    pub fn drop(self, memory: &mut ChannelMemory<T>) -> (unread: Option<T>)
        requires
            old(memory).wf(),
            self.lies_in(*old(memory)),
            self.state(*old(memory)).at_rest(),
        ensures
            final(memory).wf(),
            final(memory).id() == old(memory).id(),
            unread is Some <==> self.state(*old(memory)).slot.ready,
            unread == self.state(*old(memory)).slot.message,
            final(memory)@ == old(memory)@.update(self.ptr(), None),
    {
        let unread = memory.object_mut(self.ptr).cell.drop_unread();
        memory.free(self.ptr);
        unread
    }
}

} // verus!
