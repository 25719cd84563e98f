//! A one-shot channel that its two ends borrow, without the overhead of shared ownership. The
//! channel has to outlive them.

use crate::memory::Address;
use crate::message_cell::{CellMemory, MessageCell, Slot};
use vstd::prelude::*;

verus! {

/// The channel that the two ends borrow.
///
/// It can be shared between threads whatever the messages are. Whether they can pass on a message,
/// for which it has to be `Send`, is up to the memory.
pub struct Channel<T> {
    ptr: Address,
    marker: Ghost<Option<T>>,
}

/// The sending end.
pub struct Sender<'a, T> {
    channel: &'a Channel<T>,
}

/// The receiving end.
pub struct Receiver<'a, T> {
    channel: &'a Channel<T>,
}

impl<'a, T> Sender<'a, T> {
    /// The channel that the end is of.
    pub closed spec fn channel(self) -> Channel<T> {
        *self.channel
    }

    /// Whether the message that was sent last has not been read yet.
    pub fn is_ready(&self, memory: &CellMemory<T>) -> (ready: bool)
        requires
            self.channel().lies_in(*memory),
        ensures
            ready == self.channel().slot(*memory).ready,
    {
        self.channel.is_ready(memory)
    }

    /// First step of a send: writes the message into the empty channel.
    pub fn write(&self, memory: &mut CellMemory<T>, message: T)
        requires
            old(memory).wf(),
            self.channel().lies_in(*old(memory)),
            self.channel().slot(*old(memory)).message is None,
        ensures
            final(memory).wf(),
            final(memory).id() == old(memory).id(),
            final(memory)@ == old(memory)@.update(
                self.channel().ptr(),
                Some(self.channel().slot(*old(memory)).written(message)),
            ),
    {
        memory.object_mut(self.channel.ptr).write(message);
    }

    /// Second step of a send: puts the flag up.
    pub fn publish(&self, memory: &mut CellMemory<T>)
        requires
            old(memory).wf(),
            self.channel().lies_in(*old(memory)),
            self.channel().slot(*old(memory)).message is Some,
        ensures
            final(memory).wf(),
            final(memory).id() == old(memory).id(),
            final(memory)@ == old(memory)@.update(
                self.channel().ptr(),
                Some(self.channel().slot(*old(memory)).published()),
            ),
    {
        memory.object_mut(self.channel.ptr).publish();
    }

    /// Sends a message. The one before must have been read.
    pub fn send(&self, memory: &mut CellMemory<T>, message: T)
        requires
            old(memory).wf(),
            self.channel().lies_in(*old(memory)),
            self.channel().slot(*old(memory)).at_rest(),
            !self.channel().slot(*old(memory)).ready,
        ensures
            final(memory).wf(),
            final(memory).id() == old(memory).id(),
            final(memory)@ == old(memory)@.update(
                self.channel().ptr(),
                Some(Slot::holding(message)),
            ),
    {
        self.channel.write_message(memory, message);
    }
}

impl<'a, T> Receiver<'a, T> {
    /// The channel that the end is of.
    pub closed spec fn channel(self) -> Channel<T> {
        *self.channel
    }

    /// Whether there is a message to receive.
    pub fn is_ready(&self, memory: &CellMemory<T>) -> (ready: bool)
        requires
            self.channel().lies_in(*memory),
        ensures
            ready == self.channel().slot(*memory).ready,
    {
        self.channel.is_ready(memory)
    }

    /// First step of a receive: puts the flag down, and says whether it was up. The receive goes
    /// on only if it was.
    pub fn take_ready(&self, memory: &mut CellMemory<T>) -> (before: bool)
        requires
            old(memory).wf(),
            self.channel().lies_in(*old(memory)),
        ensures
            final(memory).wf(),
            final(memory).id() == old(memory).id(),
            before == self.channel().slot(*old(memory)).ready,
            final(memory)@ == old(memory)@.update(
                self.channel().ptr(),
                Some(self.channel().slot(*old(memory)).taken()),
            ),
    {
        memory.object_mut(self.channel.ptr).take_ready()
    }

    /// Second step of a receive: moves the message out.
    pub fn read(self, memory: &mut CellMemory<T>) -> (message: T)
        requires
            old(memory).wf(),
            self.channel().lies_in(*old(memory)),
            self.channel().slot(*old(memory)).message is Some,
            !self.channel().slot(*old(memory)).ready,
        ensures
            final(memory).wf(),
            final(memory).id() == old(memory).id(),
            Some(message) == self.channel().slot(*old(memory)).message,
            final(memory)@ == old(memory)@.update(
                self.channel().ptr(),
                Some(self.channel().slot(*old(memory)).moved_out()),
            ),
    {
        memory.object_mut(self.channel.ptr).read()
    }

    /// Receives the message, and takes the receiver out of use, so that the message is not read
    /// twice. There must be a message.
    pub fn recv(self, memory: &mut CellMemory<T>) -> (message: T)
        requires
            old(memory).wf(),
            self.channel().lies_in(*old(memory)),
            self.channel().slot(*old(memory)).ready,
        ensures
            final(memory).wf(),
            final(memory).id() == old(memory).id(),
            Some(message) == self.channel().slot(*old(memory)).message,
            final(memory)@ == old(memory)@.update(
                self.channel().ptr(),
                Some(Slot::<T>::empty()),
            ),
    {
        self.channel.read_message(memory)
    }
}

impl<T> Channel<T> {
    /// Where the message and its flag lie.
    pub closed spec fn ptr(self) -> int {
        self.ptr.index()
    }

    /// The identity of the memory that it is a place in.
    pub closed spec fn region(self) -> int {
        self.ptr.memory()
    }

    /// The channel lies in this memory.
    pub open spec fn lies_in(self, memory: CellMemory<T>) -> bool {
        self.region() == memory.id() && memory.allocated(self.ptr())
    }

    /// The message and its flag.
    pub open spec fn slot(self, memory: CellMemory<T>) -> Slot<T> {
        memory.at(self.ptr())
    }

    /// An empty channel.
    pub fn new(memory: &mut CellMemory<T>) -> (channel: Channel<T>)
        requires
            old(memory).wf(),
        ensures
            final(memory).wf(),
            final(memory).id() == old(memory).id(),
            channel.lies_in(*final(memory)),
            channel.ptr() == old(memory)@.len(),
            final(memory)@ == old(memory)@.push(Some(Slot::<T>::empty())),
    {
        let ptr = memory.place(MessageCell::new());
        Channel { ptr, marker: Ghost(None) }
    }

    /// Takes out the message that has been written and not read, if there is one.
    pub fn take_unread(&mut self, memory: &mut CellMemory<T>) -> (unread: Option<T>)
        requires
            old(memory).wf(),
            old(self).lies_in(*old(memory)),
            old(self).slot(*old(memory)).at_rest(),
        ensures
            final(memory).wf(),
            final(memory).id() == old(memory).id(),
            unread is Some <==> old(self).slot(*old(memory)).ready,
            unread == old(self).slot(*old(memory)).message,
            final(memory)@ == old(memory)@.update(old(self).ptr(), Some(Slot::<T>::empty())),
            *final(self) == *old(self),
    {
        memory.object_mut(self.ptr).drop_unread()
    }

    /// Starts the channel anew, so that a message left unread is dropped, and makes its two ends.
    ///
    /// Both ends borrow the channel for as long as it is borrowed exclusively here. So there is no
    /// other pair of ends meanwhile, and the channel outlives them.
    pub fn split<'a>(&'a mut self, memory: &mut CellMemory<T>) -> (ends: (
        Sender<'a, T>,
        Receiver<'a, T>,
    ))
        requires
            old(memory).wf(),
            old(self).lies_in(*old(memory)),
            old(self).slot(*old(memory)).at_rest(),
        ensures
            final(memory).wf(),
            final(memory).id() == old(memory).id(),
            final(memory)@ == old(memory)@.update(old(self).ptr(), Some(Slot::<T>::empty())),
            ends.0.channel() == *old(self),
            ends.1.channel() == *old(self),
            *final(self) == *old(self),
    {
        self.take_unread(memory);
        let channel: &'a Channel<T> = self;
        (Sender { channel }, Receiver { channel })
    }

    fn is_ready(&self, memory: &CellMemory<T>) -> (ready: bool)
        requires
            self.lies_in(*memory),
        ensures
            ready == self.slot(*memory).ready,
    {
        memory.object(self.ptr).is_ready()
    }

    fn write_message(&self, memory: &mut CellMemory<T>, message: T)
        requires
            old(memory).wf(),
            self.lies_in(*old(memory)),
            self.slot(*old(memory)).at_rest(),
            !self.slot(*old(memory)).ready,
        ensures
            final(memory).wf(),
            final(memory).id() == old(memory).id(),
            final(memory)@ == old(memory)@.update(self.ptr(), Some(Slot::holding(message))),
    {
        memory.object_mut(self.ptr).write_message(message);
    }

    fn read_message(&self, memory: &mut CellMemory<T>) -> (message: T)
        requires
            old(memory).wf(),
            self.lies_in(*old(memory)),
            self.slot(*old(memory)).ready,
        ensures
            final(memory).wf(),
            final(memory).id() == old(memory).id(),
            Some(message) == self.slot(*old(memory)).message,
            final(memory)@ == old(memory)@.update(self.ptr(), Some(Slot::<T>::empty())),
    {
        memory.object_mut(self.ptr).read_message()
    }

    /// Drops the channel. The message, if it has been written and not read, comes out and goes with
    /// the result.
    pub fn drop(self, memory: &mut CellMemory<T>) -> (unread: Option<T>)
        requires
            old(memory).wf(),
            self.lies_in(*old(memory)),
            self.slot(*old(memory)).at_rest(),
        ensures
            final(memory).wf(),
            final(memory).id() == old(memory).id(),
            unread is Some <==> self.slot(*old(memory)).ready,
            unread == self.slot(*old(memory)).message,
            final(memory)@ == old(memory)@.update(self.ptr(), None),
    {
        let unread = memory.object_mut(self.ptr).drop_unread();
        memory.free(self.ptr);
        unread
    }
}

} // verus!
