//! A one-shot channel whose receiver sleeps until the message is there.
//!
//! The sender keeps a handle of the receiving thread, which it hands out to be woken. The receiver
//! stays on that thread.

use crate::memory::Address;
use crate::message_cell::{CellMemory, MessageCell, Slot};
use std::marker::PhantomData;
use std::rc::Rc;
use vstd::prelude::*;

pub mod laws;

verus! {

/// The channel that the two ends borrow.
///
/// It can be shared between threads whatever the messages are. Whether they can pass on a message,
/// for which it has to be `Send`, is up to the memory.
pub struct Channel<T> {
    ptr: Address,
    marker: Ghost<Option<T>>,
}

/// The sending end, with a handle of the thread that receives.
pub struct Sender<'a, T, H> {
    channel: &'a Channel<T>,
    receiver_handle: H,
}

/// The receiving end.
pub struct Receiver<'a, T> {
    channel: &'a Channel<T>,
    /// An `Rc` is not `Send`, and neither is the receiver then: on another thread it would not be
    /// the one that the sender wakes.
    no_send: PhantomData<Rc<()>>,
}

impl<'a, T, H> Sender<'a, T, H> {
    /// The channel that the end is of.
    pub closed spec fn channel(self) -> Channel<T> {
        *self.channel
    }

    /// The thread that receives.
    pub closed spec fn receiver(self) -> H {
        self.receiver_handle
    }

    /// Whether the message that was sent last has not been read yet.
    pub fn is_ready(&self, memory: &CellMemory<T>) -> (ready: bool)
        requires
            self.channel().lies_in(*memory),
        ensures
            ready == self.channel().slot(*memory).ready,
    {
        self.channel.is_ready(memory)
    }

    /// First step of a send: writes the message into the empty channel.
    pub fn write(&self, memory: &mut CellMemory<T>, message: T)
        requires
            old(memory).wf(),
            self.channel().lies_in(*old(memory)),
            self.channel().slot(*old(memory)).message is None,
        ensures
            final(memory).wf(),
            final(memory).id() == old(memory).id(),
            final(memory)@ == old(memory)@.update(
                self.channel().ptr(),
                Some(self.channel().slot(*old(memory)).written(message)),
            ),
    {
        memory.object_mut(self.channel.ptr).write(message);
    }

    /// Second step of a send: puts the flag up.
    pub fn publish(&self, memory: &mut CellMemory<T>)
        requires
            old(memory).wf(),
            self.channel().lies_in(*old(memory)),
            self.channel().slot(*old(memory)).message is Some,
        ensures
            final(memory).wf(),
            final(memory).id() == old(memory).id(),
            final(memory)@ == old(memory)@.update(
                self.channel().ptr(),
                Some(self.channel().slot(*old(memory)).published()),
            ),
    {
        memory.object_mut(self.channel.ptr).publish();
    }

    /// Sends a message, and gives back the thread that has to be unparked now. The message before
    /// must have been read.
    pub fn send(&self, memory: &mut CellMemory<T>, message: T) -> (unpark: &H)
        requires
            old(memory).wf(),
            self.channel().lies_in(*old(memory)),
            self.channel().slot(*old(memory)).at_rest(),
            !self.channel().slot(*old(memory)).ready,
        ensures
            final(memory).wf(),
            final(memory).id() == old(memory).id(),
            final(memory)@ == old(memory)@.update(
                self.channel().ptr(),
                Some(Slot::holding(message)),
            ),
            *unpark == self.receiver(),
    {
        self.channel.write_message(memory, message);
        &self.receiver_handle
    }
}

impl<'a, T> Receiver<'a, T> {
    /// The channel that the end is of.
    pub closed spec fn channel(self) -> Channel<T> {
        *self.channel
    }

    /// First step of a receive: puts the flag down, and says whether it was up. The receive goes
    /// on only if it was.
    pub fn take_ready(&self, memory: &mut CellMemory<T>) -> (before: bool)
        requires
            old(memory).wf(),
            self.channel().lies_in(*old(memory)),
        ensures
            final(memory).wf(),
            final(memory).id() == old(memory).id(),
            before == self.channel().slot(*old(memory)).ready,
            final(memory)@ == old(memory)@.update(
                self.channel().ptr(),
                Some(self.channel().slot(*old(memory)).taken()),
            ),
    {
        memory.object_mut(self.channel.ptr).take_ready()
    }

    /// Second step of a receive: moves the message out.
    pub fn read(&self, memory: &mut CellMemory<T>) -> (message: T)
        requires
            old(memory).wf(),
            self.channel().lies_in(*old(memory)),
            self.channel().slot(*old(memory)).message is Some,
            !self.channel().slot(*old(memory)).ready,
        ensures
            final(memory).wf(),
            final(memory).id() == old(memory).id(),
            Some(message) == self.channel().slot(*old(memory)).message,
            final(memory)@ == old(memory)@.update(
                self.channel().ptr(),
                Some(self.channel().slot(*old(memory)).moved_out()),
            ),
    {
        memory.object_mut(self.channel.ptr).read()
    }

    /// One turn of the receiving loop: receives the message if the flag is up. If it is down, be
    /// it that the message has been written already, the caller parks its thread and comes back
    /// for another turn.
    pub fn recv_turn(&self, memory: &mut CellMemory<T>) -> (message: Option<T>)
        requires
            old(memory).wf(),
            self.channel().lies_in(*old(memory)),
        ensures
            final(memory).wf(),
            final(memory).id() == old(memory).id(),
            message is Some <==> self.channel().slot(*old(memory)).ready,
            message is Some ==> message == self.channel().slot(*old(memory)).message,
            final(memory)@ == old(memory)@.update(
                self.channel().ptr(),
                Some(self.channel().slot(*old(memory)).after_turn()),
            ),
            message is None ==> final(memory)@ == old(memory)@,
    {
        self.channel.read_turn(memory)
    }

    /// Receives the message. There must be one: without it the loop would turn until another
    /// thread sends.
    pub fn recv(&self, memory: &mut CellMemory<T>) -> (message: T)
        requires
            old(memory).wf(),
            self.channel().lies_in(*old(memory)),
            self.channel().slot(*old(memory)).ready,
        ensures
            final(memory).wf(),
            final(memory).id() == old(memory).id(),
            Some(message) == self.channel().slot(*old(memory)).message,
            final(memory)@ == old(memory)@.update(
                self.channel().ptr(),
                Some(Slot::<T>::empty()),
            ),
    {
        self.channel.read_message(memory)
    }
}

impl<T> Channel<T> {
    /// Where the message and its flag lie.
    pub closed spec fn ptr(self) -> int {
        self.ptr.index()
    }

    /// The identity of the memory that it is a place in.
    pub closed spec fn region(self) -> int {
        self.ptr.memory()
    }

    /// The channel lies in this memory.
    pub open spec fn lies_in(self, memory: CellMemory<T>) -> bool {
        self.region() == memory.id() && memory.allocated(self.ptr())
    }

    /// The message and its flag.
    pub open spec fn slot(self, memory: CellMemory<T>) -> Slot<T> {
        memory.at(self.ptr())
    }

    /// An empty channel.
    pub fn new(memory: &mut CellMemory<T>) -> (channel: Channel<T>)
        requires
            old(memory).wf(),
        ensures
            final(memory).wf(),
            final(memory).id() == old(memory).id(),
            channel.lies_in(*final(memory)),
            channel.ptr() == old(memory)@.len(),
            final(memory)@ == old(memory)@.push(Some(Slot::<T>::empty())),
    {
        let ptr = memory.place(MessageCell::new());
        Channel { ptr, marker: Ghost(None) }
    }

    /// Takes out the message that has been written and not read, if there is one.
    pub fn take_unread(&mut self, memory: &mut CellMemory<T>) -> (unread: Option<T>)
        requires
            old(memory).wf(),
            old(self).lies_in(*old(memory)),
            old(self).slot(*old(memory)).at_rest(),
        ensures
            final(memory).wf(),
            final(memory).id() == old(memory).id(),
            unread is Some <==> old(self).slot(*old(memory)).ready,
            unread == old(self).slot(*old(memory)).message,
            final(memory)@ == old(memory)@.update(old(self).ptr(), Some(Slot::<T>::empty())),
            *final(self) == *old(self),
    {
        memory.object_mut(self.ptr).drop_unread()
    }

    /// Starts the channel anew, so that a message left unread is dropped, and makes its two ends.
    /// `receiver_handle` is the thread that receives: the one that makes the call.
    ///
    /// Both ends borrow the channel for as long as it is borrowed exclusively here. So there is no
    /// other pair of ends meanwhile, and the channel outlives them.
    pub fn split<'a, H>(
        &'a mut self,
        memory: &mut CellMemory<T>,
        receiver_handle: H,
    ) -> (ends: (Sender<'a, T, H>, Receiver<'a, T>))
        requires
            old(memory).wf(),
            old(self).lies_in(*old(memory)),
            old(self).slot(*old(memory)).at_rest(),
        ensures
            final(memory).wf(),
            final(memory).id() == old(memory).id(),
            final(memory)@ == old(memory)@.update(old(self).ptr(), Some(Slot::<T>::empty())),
            ends.0.channel() == *old(self),
            ends.0.receiver() == receiver_handle,
            ends.1.channel() == *old(self),
            *final(self) == *old(self),
    {
        self.take_unread(memory);
        let channel: &'a Channel<T> = self;
        (Sender { channel, receiver_handle }, Receiver { channel, no_send: PhantomData })
    }

    fn is_ready(&self, memory: &CellMemory<T>) -> (ready: bool)
        requires
            self.lies_in(*memory),
        ensures
            ready == self.slot(*memory).ready,
    {
        memory.object(self.ptr).is_ready()
    }

    fn write_message(&self, memory: &mut CellMemory<T>, message: T)
        requires
            old(memory).wf(),
            self.lies_in(*old(memory)),
            self.slot(*old(memory)).at_rest(),
            !self.slot(*old(memory)).ready,
        ensures
            final(memory).wf(),
            final(memory).id() == old(memory).id(),
            final(memory)@ == old(memory)@.update(self.ptr(), Some(Slot::holding(message))),
    {
        memory.object_mut(self.ptr).write_message(message);
    }

    fn read_turn(&self, memory: &mut CellMemory<T>) -> (message: Option<T>)
        requires
            old(memory).wf(),
            self.lies_in(*old(memory)),
        ensures
            final(memory).wf(),
            final(memory).id() == old(memory).id(),
            message is Some <==> self.slot(*old(memory)).ready,
            message is Some ==> message == self.slot(*old(memory)).message,
            final(memory)@ == old(memory)@.update(
                self.ptr(),
                Some(self.slot(*old(memory)).after_turn()),
            ),
    {
        let cell = memory.object_mut(self.ptr);
        if cell.take_ready() {
            Some(cell.read())
        } else {
            None
        }
    }

    fn read_message(&self, memory: &mut CellMemory<T>) -> (message: T)
        requires
            old(memory).wf(),
            self.lies_in(*old(memory)),
            self.slot(*old(memory)).ready,
        ensures
            final(memory).wf(),
            final(memory).id() == old(memory).id(),
            Some(message) == self.slot(*old(memory)).message,
            final(memory)@ == old(memory)@.update(self.ptr(), Some(Slot::<T>::empty())),
    {
        loop
            invariant
                memory@ == old(memory)@,
                memory.id() == old(memory).id(),
                memory.wf(),
                self.lies_in(*memory),
                self.slot(*memory).ready,
            decreases 0int,
        {
            match self.read_turn(memory) {
                Some(message) => {
                    return message;
                },
                None => {},
            }
        }
    }

    /// Drops the channel. The message, if it has been written and not read, comes out and goes with
    /// the result.
    pub fn drop(self, memory: &mut CellMemory<T>) -> (unread: Option<T>)
        requires
            old(memory).wf(),
            self.lies_in(*old(memory)),
            self.slot(*old(memory)).at_rest(),
        ensures
            final(memory).wf(),
            final(memory).id() == old(memory).id(),
            unread is Some <==> self.slot(*old(memory)).ready,
            unread == self.slot(*old(memory)).message,
            final(memory)@ == old(memory)@.update(self.ptr(), None),
    {
        let unread = memory.object_mut(self.ptr).drop_unread();
        memory.free(self.ptr);
        unread
    }
}

} // verus!
