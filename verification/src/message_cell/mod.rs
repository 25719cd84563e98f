//! The place where a one-shot channel keeps its message: room for one value, and a flag that says
//! whether the value is there to be read.

use crate::memory::Memory;
use vstd::prelude::*;

pub mod laws;

verus! {

/// The contents of a [`MessageCell`].
#[verifier::ext_equal]
pub struct Slot<T> {
    /// The value, if one has been written and not yet read.
    pub message: Option<T>,
    /// The flag.
    pub ready: bool,
}

impl<T> Slot<T> {
    /// The flag is up only over a value.
    pub open spec fn wf(self) -> bool {
        self.ready ==> self.message is Some
    }

    /// Neither a send nor a receive is half done: the flag is up exactly over a value.
    pub open spec fn at_rest(self) -> bool {
        self.ready <==> self.message is Some
    }

    /// Nothing has been written.
    pub open spec fn empty() -> Slot<T> {
        Slot { message: None, ready: false }
    }

    /// `message` is there to be read.
    pub open spec fn holding(message: T) -> Slot<T> {
        Slot { message: Some(message), ready: true }
    }

    /// First step of a send: the value is written.
    pub open spec fn written(self, message: T) -> Slot<T> {
        Slot { message: Some(message), ..self }
    }

    /// Second step of a send: the flag goes up.
    pub open spec fn published(self) -> Slot<T> {
        Slot { ready: true, ..self }
    }

    /// First step of a receive: the flag goes down.
    pub open spec fn taken(self) -> Slot<T> {
        Slot { ready: false, ..self }
    }

    /// A whole attempt to receive: if the flag is up, it goes down and the value is moved out.
    pub open spec fn after_turn(self) -> Slot<T> {
        if self.ready {
            Slot::empty()
        } else {
            self
        }
    }

    /// Second step of a receive: the value is moved out.
    pub open spec fn moved_out(self) -> Slot<T> {
        Slot { message: None, ..self }
    }
}

/// Room for one message, with a flag.
#[derive(Debug)]
pub struct MessageCell<T> {
    message: Option<T>,
    ready: bool,
}

impl<T> View for MessageCell<T> {
    type V = Slot<T>;

    closed spec fn view(&self) -> Slot<T> {
        Slot { message: self.message, ready: self.ready }
    }
}

/// The memory that cells lie in.
pub type CellMemory<T> = Memory<MessageCell<T>>;

impl<T> Memory<MessageCell<T>> {
    /// The flag of every cell is up only over a value.
    pub open spec fn wf(self) -> bool {
        forall|i: int| 0 <= i < self@.len() && (#[trigger] self@[i]) is Some ==> self@[i]->0.wf()
    }
}

impl<T> MessageCell<T> {
    /// An empty cell.
    pub fn new() -> (cell: MessageCell<T>)
        ensures
            cell@ == Slot::<T>::empty(),
    {
        MessageCell { message: None, ready: false }
    }

    /// Whether the flag is up.
    pub fn is_ready(&self) -> (ready: bool)
        ensures
            ready == self@.ready,
    {
        self.ready
    }

    /// Writes the value, with the flag down.
    pub fn write(&mut self, message: T)
        requires
            old(self)@.message is None,
        ensures
            final(self)@ == old(self)@.written(message),
    {
        self.message = Some(message);
    }

    /// Puts the flag up over the value.
    pub fn publish(&mut self)
        requires
            old(self)@.message is Some,
        ensures
            final(self)@ == old(self)@.published(),
    {
        self.ready = true;
    }

    /// Puts the flag down and says whether it was up.
    pub fn take_ready(&mut self) -> (before: bool)
        ensures
            before == old(self)@.ready,
            final(self)@ == old(self)@.taken(),
    {
        let before: bool = self.ready;
        self.ready = false;
        before
    }

    /// Moves the value out.
    pub fn read(&mut self) -> (message: T)
        requires
            old(self)@.message is Some,
        ensures
            Some(message) == old(self)@.message,
            final(self)@ == old(self)@.moved_out(),
    {
        self.message.take().unwrap()
    }

    /// A whole send. The flag must be down: a message that has not been read is not overwritten.
    pub fn write_message(&mut self, message: T)
        requires
            old(self)@.at_rest(),
            !old(self)@.ready,
        ensures
            final(self)@ == Slot::holding(message),
    {
        self.write(message);
        self.publish();
    }

    /// A whole receive. The flag must be up. It goes down, so that the value that has been moved
    /// out is not dropped with the cell.
    pub fn read_message(&mut self) -> (message: T)
        requires
            old(self)@.wf(),
            old(self)@.ready,
        ensures
            Some(message) == old(self)@.message,
            final(self)@ == Slot::<T>::empty(),
    {
        self.take_ready();
        self.read()
    }

    /// Gives out the message if it has been written and not read, for the caller to drop.
    pub fn drop_unread(&mut self) -> (unread: Option<T>)
        requires
            old(self)@.at_rest(),
        ensures
            unread is Some <==> old(self)@.ready,
            unread == old(self)@.message,
            final(self)@ == Slot::<T>::empty(),
    {
        if self.take_ready() {
            Some(self.read())
        } else {
            None
        }
    }
}

} // verus!
