//! A one-shot channel whose two ends own it together.
//!
//! `send` and `recv` take the end by value, so that a second message, or a second attempt to read
//! the first, does not pass the type checker. The channel goes with the second end.

use crate::memory::{Address, Memory};
use crate::message_cell::{MessageCell, Slot};
use vstd::prelude::*;

pub mod laws;

verus! {

/// How far the sender has come.
pub enum SenderStage {
    /// It has not begun to send.
    Unsent,
    /// It has written the message and not yet put the flag up.
    Wrote,
    /// It has put the flag up, and still owns the channel.
    Sent,
    /// It has given its share of the channel up.
    Gone,
}

/// How far the receiver has come.
pub enum RecieverStage {
    /// It has not found the flag up.
    Waiting,
    /// It has put down a flag that was up, and not yet moved the message out.
    Took,
    /// It has moved the message out, and still owns the channel.
    Received,
    /// It has given its share of the channel up.
    Gone,
}

/// What a [`Channel`] holds, and how far its two ends have come.
#[verifier::ext_equal]
pub struct ChannelState<T> {
    pub slot: Slot<T>,
    /// The number of ends that own the channel.
    pub owners: nat,
    pub sender: SenderStage,
    pub reciever: RecieverStage,
}

impl<T> ChannelState<T> {
    /// The number of ends that are left.
    pub open spec fn ends(self) -> nat {
        (if self.sender is Gone { 0nat } else { 1nat }) + (if self.reciever is Gone {
            0nat
        } else {
            1nat
        })
    }

    /// The owners are counted, and there is one. Before the sender has written there is nothing in
    /// the channel, nor is there once the receiver has received. In between, the flag is up except
    /// while a send or a receive is half done.
    pub open spec fn wf(self) -> bool {
        &&& self.owners == self.ends()
        &&& self.owners > 0
        &&& self.sender is Unsent ==> {
            &&& self.slot == Slot::<T>::empty()
            &&& self.reciever is Waiting || self.reciever is Gone
        }
        &&& self.sender is Wrote ==> {
            &&& self.slot.message is Some
            &&& !self.slot.ready
            &&& self.reciever is Waiting || self.reciever is Gone
        }
        &&& self.sender is Sent && self.reciever is Waiting ==> self.slot.ready
        &&& self.reciever is Took ==> self.slot.message is Some && !self.slot.ready
        &&& self.reciever is Received ==> self.slot == Slot::<T>::empty()
        &&& !(self.sender is Wrote) && !(self.reciever is Took) ==> self.slot.at_rest()
    }

    /// A channel with both ends.
    pub open spec fn fresh() -> ChannelState<T> {
        ChannelState {
            slot: Slot::empty(),
            owners: 2,
            sender: SenderStage::Unsent,
            reciever: RecieverStage::Waiting,
        }
    }

    /// First step of the send: the message is written.
    pub open spec fn written(self, message: T) -> ChannelState<T> {
        ChannelState { slot: self.slot.written(message), sender: SenderStage::Wrote, ..self }
    }

    /// Second step of the send: the flag goes up.
    pub open spec fn published(self) -> ChannelState<T> {
        ChannelState { slot: self.slot.published(), sender: SenderStage::Sent, ..self }
    }

    /// First step of the receive: the flag goes down. The receive goes on only if it was up.
    pub open spec fn taken(self) -> ChannelState<T> {
        ChannelState {
            slot: self.slot.taken(),
            reciever: if self.slot.ready {
                RecieverStage::Took
            } else {
                self.reciever
            },
            ..self
        }
    }

    /// Second step of the receive: the message is moved out.
    pub open spec fn moved_out(self) -> ChannelState<T> {
        ChannelState { slot: self.slot.moved_out(), reciever: RecieverStage::Received, ..self }
    }

    /// What is left of the channel once the sender has given its share up. If the receiver is gone
    /// already, the channel goes, and a message that has not been read with it.
    pub open spec fn without_sender(self) -> Option<ChannelState<T>> {
        if self.reciever is Gone {
            None
        } else {
            Some(ChannelState { owners: 1, sender: SenderStage::Gone, ..self })
        }
    }

    /// What is left of the channel once the receiver has given its share up. If the sender is gone
    /// already, the channel goes, and a message that has not been read with it.
    pub open spec fn without_reciever(self) -> Option<ChannelState<T>> {
        if self.sender is Gone {
            None
        } else {
            Some(ChannelState { owners: 1, reciever: RecieverStage::Gone, ..self })
        }
    }

    /// What is left of the channel once `message` has been sent.
    pub open spec fn after_send(self, message: T) -> Option<ChannelState<T>> {
        self.written(message).published().without_sender()
    }

    /// What is left of the channel once the message has been received.
    pub open spec fn after_recv(self) -> Option<ChannelState<T>> {
        self.taken().moved_out().without_reciever()
    }
}

/// The channel that the two ends share.
pub struct Channel<T> {
    cell: MessageCell<T>,
    owners: usize,
    sender: Ghost<SenderStage>,
    reciever: Ghost<RecieverStage>,
}

impl<T> View for Channel<T> {
    type V = ChannelState<T>;

    closed spec fn view(&self) -> ChannelState<T> {
        ChannelState {
            slot: self.cell@,
            owners: self.owners as nat,
            sender: self.sender@,
            reciever: self.reciever@,
        }
    }
}

/// The memory that channels lie in.
pub type ChannelMemory<T> = Memory<Channel<T>>;

impl<T> Memory<Channel<T>> {
    /// Every channel is in a valid state.
    pub open spec fn wf(self) -> bool {
        forall|i: int| 0 <= i < self@.len() && (#[trigger] self@[i]) is Some ==> self@[i]->0.wf()
    }

    /// `sender` is the sender of a channel in this memory.
    pub open spec fn holds_sender(self, sender: Sender<T>) -> bool {
        &&& sender.region() == self.id()
        &&& self.allocated(sender.ptr())
        &&& !(self.at(sender.ptr()).sender is Gone)
    }

    /// `reciever` is the receiver of a channel in this memory.
    pub open spec fn holds_reciever(self, reciever: Reciever<T>) -> bool {
        &&& reciever.region() == self.id()
        &&& self.allocated(reciever.ptr())
        &&& !(self.at(reciever.ptr()).reciever is Gone)
    }
}

/// The receiving end.
///
/// It can go to another thread whatever the message is. Whether it can find a message there, which
/// has to be `Send` for that, is up to the memory.
pub struct Reciever<T> {
    channel: Address,
    marker: Ghost<Option<T>>,
}

/// The sending end.
///
/// It can go to another thread whatever the message is. Whether it can leave a message there, which
/// has to be `Send` for that, is up to the memory.
pub struct Sender<T> {
    channel: Address,
    marker: Ghost<Option<T>>,
}

/// Makes a channel and its two ends.
pub fn channel<T>(memory: &mut ChannelMemory<T>) -> (ends: (Sender<T>, Reciever<T>))
    requires
        old(memory).wf(),
    ensures
        final(memory).wf(),
        final(memory).id() == old(memory).id(),
        final(memory).holds_sender(ends.0),
        final(memory).holds_reciever(ends.1),
        ends.0.ptr() == old(memory)@.len(),
        ends.1.ptr() == old(memory)@.len(),
        final(memory)@ == old(memory)@.push(Some(ChannelState::<T>::fresh())),
{
    let channel = memory.place(Channel::new());
    (Sender { channel, marker: Ghost(None) }, Reciever { channel, marker: Ghost(None) })
}

impl<T> Channel<T> {
    fn new() -> (channel: Channel<T>)
        ensures
            channel@ == ChannelState::<T>::fresh(),
    {
        Channel {
            cell: MessageCell::new(),
            owners: 2,
            sender: Ghost(SenderStage::Unsent),
            reciever: Ghost(RecieverStage::Waiting),
        }
    }

    fn is_ready(&self) -> (ready: bool)
        ensures
            ready == self@.slot.ready,
    {
        self.cell.is_ready()
    }

    fn write(&mut self, message: T)
        requires
            old(self)@.slot.message is None,
        ensures
            final(self)@ == old(self)@.written(message),
    {
        self.cell.write(message);
        self.sender = Ghost(SenderStage::Wrote);
    }

    fn publish(&mut self)
        requires
            old(self)@.slot.message is Some,
        ensures
            final(self)@ == old(self)@.published(),
    {
        self.cell.publish();
        self.sender = Ghost(SenderStage::Sent);
    }

    fn write_message(&mut self, message: T)
        requires
            old(self)@.slot == Slot::<T>::empty(),
        ensures
            final(self)@ == old(self)@.written(message).published(),
    {
        self.write(message);
        self.publish();
    }

    fn take_ready(&mut self) -> (before: bool)
        ensures
            before == old(self)@.slot.ready,
            final(self)@ == old(self)@.taken(),
    {
        let before: bool = self.cell.take_ready();
        if before {
            self.reciever = Ghost(RecieverStage::Took);
        }
        before
    }

    fn read(&mut self) -> (message: T)
        requires
            old(self)@.slot.message is Some,
        ensures
            Some(message) == old(self)@.slot.message,
            final(self)@ == old(self)@.moved_out(),
    {
        let message = self.cell.read();
        self.reciever = Ghost(RecieverStage::Received);
        message
    }

    fn read_message(&mut self) -> (message: T)
        requires
            old(self)@.slot.wf(),
            old(self)@.slot.ready,
        ensures
            Some(message) == old(self)@.slot.message,
            final(self)@ == old(self)@.taken().moved_out(),
    {
        self.take_ready();
        self.read()
    }

    /// Gives out the message if it has been written and not read.
    fn drop(&mut self) -> (unread: Option<T>)
        requires
            old(self)@.slot.at_rest(),
        ensures
            unread == old(self)@.slot.message,
            final(self)@ == (ChannelState { slot: Slot::<T>::empty(), ..old(self)@ }),
    {
        self.cell.drop_unread()
    }

    /// One owner less. Says whether it was the last one, and gives out what is in the channel then.
    fn release(&mut self) -> (left: (bool, Option<T>))
        requires
            old(self)@.owners == 1 ==> old(self)@.slot.at_rest(),
            old(self)@.owners >= 1,
        ensures
            left.0 == (old(self)@.owners == 1),
            left.1 == (if left.0 {
                old(self)@.slot.message
            } else {
                None
            }),
            final(self)@ == (ChannelState {
                slot: if left.0 {
                    Slot::empty()
                } else {
                    old(self)@.slot
                },
                owners: (old(self)@.owners - 1) as nat,
                ..old(self)@
            }),
    {
        self.owners = self.owners - 1;
        if self.owners == 0 {
            (true, self.drop())
        } else {
            (false, None)
        }
    }
}

impl<T> Reciever<T> {
    /// Where the channel lies.
    pub closed spec fn ptr(self) -> int {
        self.channel.index()
    }

    /// The identity of the memory that it is a place in.
    pub closed spec fn region(self) -> int {
        self.channel.memory()
    }

    /// Whether there is a message to receive.
    pub fn is_ready(&self, memory: &ChannelMemory<T>) -> (ready: bool)
        requires
            memory.holds_reciever(*self),
        ensures
            ready == memory.at(self.ptr()).slot.ready,
    {
        memory.object(self.channel).is_ready()
    }

    /// First step of the receive: puts the flag down, and says whether it was up. The receive goes
    /// on only if it was.
    pub fn take_ready(&self, memory: &mut ChannelMemory<T>) -> (before: bool)
        requires
            old(memory).wf(),
            old(memory).holds_reciever(*self),
            old(memory).at(self.ptr()).reciever is Waiting,
        ensures
            final(memory).wf(),
            final(memory).id() == old(memory).id(),
            before == old(memory).at(self.ptr()).slot.ready,
            final(memory)@ == old(memory)@.update(
                self.ptr(),
                Some(old(memory).at(self.ptr()).taken()),
            ),
    {
        memory.object_mut(self.channel).take_ready()
    }

    /// Second step of the receive: moves the message out.
    pub fn read(&self, memory: &mut ChannelMemory<T>) -> (message: T)
        requires
            old(memory).wf(),
            old(memory).holds_reciever(*self),
            old(memory).at(self.ptr()).reciever is Took,
        ensures
            final(memory).wf(),
            final(memory).id() == old(memory).id(),
            Some(message) == old(memory).at(self.ptr()).slot.message,
            final(memory)@ == old(memory)@.update(
                self.ptr(),
                Some(old(memory).at(self.ptr()).moved_out()),
            ),
    {
        memory.object_mut(self.channel).read()
    }

    /// Receives the message, and takes the receiver out of use. There must be a message.
    pub fn recv(self, memory: &mut ChannelMemory<T>) -> (message: T)
        requires
            old(memory).wf(),
            old(memory).holds_reciever(self),
            old(memory).at(self.ptr()).slot.ready,
        ensures
            final(memory).wf(),
            final(memory).id() == old(memory).id(),
            Some(message) == old(memory).at(self.ptr()).slot.message,
            final(memory)@ == old(memory)@.update(
                self.ptr(),
                old(memory).at(self.ptr()).after_recv(),
            ),
    {
        let message = memory.object_mut(self.channel).read_message();
        self.drop(memory);
        message
    }

    /// Gives the receiver up, with or without having received. With the sender gone already, the
    /// channel goes, and a message that has arrived and not been received comes out.
    pub fn close(self, memory: &mut ChannelMemory<T>) -> (unread: Option<T>)
        requires
            old(memory).wf(),
            old(memory).holds_reciever(self),
            !(old(memory).at(self.ptr()).reciever is Took),
        ensures
            final(memory).wf(),
            final(memory).id() == old(memory).id(),
            final(memory)@ == old(memory)@.update(
                self.ptr(),
                old(memory).at(self.ptr()).without_reciever(),
            ),
            unread == (if old(memory).at(self.ptr()).sender is Gone {
                old(memory).at(self.ptr()).slot.message
            } else {
                None
            }),
            final(memory).allocated(self.ptr()) <==> !(old(memory).at(self.ptr()).sender is Gone),
    {
        let channel = memory.object_mut(self.channel);
        let (last, unread) = channel.release();
        channel.reciever = Ghost(RecieverStage::Gone);
        if last {
            memory.free(self.channel);
        }
        unread
    }

    /// As `close`, with the message dropped.
    pub fn drop(self, memory: &mut ChannelMemory<T>)
        requires
            old(memory).wf(),
            old(memory).holds_reciever(self),
            !(old(memory).at(self.ptr()).reciever is Took),
        ensures
            final(memory).wf(),
            final(memory).id() == old(memory).id(),
            final(memory)@ == old(memory)@.update(
                self.ptr(),
                old(memory).at(self.ptr()).without_reciever(),
            ),
    {
        self.close(memory);
    }
}

impl<T> Sender<T> {
    /// Where the channel lies.
    pub closed spec fn ptr(self) -> int {
        self.channel.index()
    }

    /// The identity of the memory that it is a place in.
    pub closed spec fn region(self) -> int {
        self.channel.memory()
    }

    /// First step of the send: writes the message.
    pub fn write(&self, memory: &mut ChannelMemory<T>, message: T)
        requires
            old(memory).wf(),
            old(memory).holds_sender(*self),
            old(memory).at(self.ptr()).sender is Unsent,
        ensures
            final(memory).wf(),
            final(memory).id() == old(memory).id(),
            final(memory)@ == old(memory)@.update(
                self.ptr(),
                Some(old(memory).at(self.ptr()).written(message)),
            ),
    {
        memory.object_mut(self.channel).write(message);
    }

    /// Second step of the send: puts the flag up.
    pub fn publish(&self, memory: &mut ChannelMemory<T>)
        requires
            old(memory).wf(),
            old(memory).holds_sender(*self),
            old(memory).at(self.ptr()).sender is Wrote,
        ensures
            final(memory).wf(),
            final(memory).id() == old(memory).id(),
            final(memory)@ == old(memory)@.update(
                self.ptr(),
                Some(old(memory).at(self.ptr()).published()),
            ),
    {
        memory.object_mut(self.channel).publish();
    }

    /// Sends the message, and takes the sender out of use. With the receiver gone already, the
    /// message comes back.
    pub fn deliver(self, memory: &mut ChannelMemory<T>, message: T) -> (unread: Option<T>)
        requires
            old(memory).wf(),
            old(memory).holds_sender(self),
            old(memory).at(self.ptr()).sender is Unsent,
        ensures
            final(memory).wf(),
            final(memory).id() == old(memory).id(),
            final(memory)@ == old(memory)@.update(
                self.ptr(),
                old(memory).at(self.ptr()).after_send(message),
            ),
            unread == (if old(memory).at(self.ptr()).reciever is Gone {
                Some(message)
            } else {
                None
            }),
            !(old(memory).at(self.ptr()).reciever is Gone) ==> {
                &&& final(memory).allocated(self.ptr())
                &&& final(memory).at(self.ptr()).slot.message == Some(message)
                &&& final(memory).at(self.ptr()).slot.ready
            },
    {
        memory.object_mut(self.channel).write_message(message);
        self.close(memory)
    }

    /// As `deliver`, with a message that comes back dropped.
    pub fn send(self, memory: &mut ChannelMemory<T>, message: T)
        requires
            old(memory).wf(),
            old(memory).holds_sender(self),
            old(memory).at(self.ptr()).sender is Unsent,
        ensures
            final(memory).wf(),
            final(memory).id() == old(memory).id(),
            final(memory)@ == old(memory)@.update(
                self.ptr(),
                old(memory).at(self.ptr()).after_send(message),
            ),
            !(old(memory).at(self.ptr()).reciever is Gone) ==> {
                &&& final(memory).allocated(self.ptr())
                &&& final(memory).at(self.ptr()).slot.message == Some(message)
                &&& final(memory).at(self.ptr()).slot.ready
            },
    {
        self.deliver(memory, message);
    }

    /// Gives the sender up, with or without having sent. With the receiver gone already, the
    /// channel goes, and a message that has not been received comes out.
    pub fn close(self, memory: &mut ChannelMemory<T>) -> (unread: Option<T>)
        requires
            old(memory).wf(),
            old(memory).holds_sender(self),
            !(old(memory).at(self.ptr()).sender is Wrote),
        ensures
            final(memory).wf(),
            final(memory).id() == old(memory).id(),
            final(memory)@ == old(memory)@.update(
                self.ptr(),
                old(memory).at(self.ptr()).without_sender(),
            ),
            unread == (if old(memory).at(self.ptr()).reciever is Gone {
                old(memory).at(self.ptr()).slot.message
            } else {
                None
            }),
            final(memory).allocated(self.ptr()) <==> !(old(memory).at(self.ptr()).reciever is Gone),
    {
        let channel = memory.object_mut(self.channel);
        let (last, unread) = channel.release();
        channel.sender = Ghost(SenderStage::Gone);
        if last {
            memory.free(self.channel);
        }
        unread
    }

    /// As `close`, with the message dropped.
    pub fn drop(self, memory: &mut ChannelMemory<T>)
        requires
            old(memory).wf(),
            old(memory).holds_sender(self),
            !(old(memory).at(self.ptr()).sender is Wrote),
        ensures
            final(memory).wf(),
            final(memory).id() == old(memory).id(),
            final(memory)@ == old(memory)@.update(
                self.ptr(),
                old(memory).at(self.ptr()).without_sender(),
            ),
    {
        self.close(memory);
    }
}

} // verus!
