//! An unbounded channel: a queue of messages, and receivers that sleep until there is one.
//!
//! The channel is what its mutex guards, together with the sleepers of its condition variable. A
//! receiver takes turns ([`BasicChannel::recv_turn`], [`BasicChannel::wake_turn`]) and sleeps
//! after a turn that found nothing.

use crate::memory::{Address, Memory};
use std::collections::VecDeque;
use vstd::prelude::*;

pub mod laws;

verus! {

/// The contents of a [`BasicChannel`].
#[verifier::ext_equal]
pub struct ChannelState<T> {
    /// The messages that have been sent and not received, oldest first.
    pub queue: Seq<T>,
    /// The number of receivers that sleep and have not been notified.
    pub waiting: nat,
    /// The number of receivers that have been notified and have not yet come back.
    pub notified: nat,
    /// The number of senders that have queued a message and not yet notified a receiver.
    pub notifying: nat,
}

impl<T> ChannelState<T> {
    /// As long as receivers sleep, there are no more messages than receivers on their way back and
    /// senders about to notify one.
    pub open spec fn wf(self) -> bool {
        self.waiting > 0 ==> self.queue.len() <= self.notified + self.notifying
    }

    /// An empty channel without sleepers.
    pub open spec fn fresh() -> ChannelState<T> {
        ChannelState { queue: Seq::empty(), waiting: 0, notified: 0, notifying: 0 }
    }

    /// First step of a send: the message goes to the end of the queue.
    pub open spec fn pushed(self, message: T) -> ChannelState<T> {
        ChannelState {
            queue: self.queue.push(message),
            notifying: self.notifying + 1,
            ..self
        }
    }

    /// Second step of a send: one sleeper is notified, if there is one.
    pub open spec fn after_notify(self) -> ChannelState<T> {
        ChannelState {
            waiting: if self.waiting > 0 {
                (self.waiting - 1) as nat
            } else {
                0
            },
            notified: if self.waiting > 0 {
                self.notified + 1
            } else {
                self.notified
            },
            notifying: (self.notifying - 1) as nat,
            ..self
        }
    }

    /// The message that is next.
    pub open spec fn front(self) -> Option<T> {
        if self.queue.len() > 0 {
            Some(self.queue[0])
        } else {
            None
        }
    }

    /// The message that is next has been taken, if there is one.
    pub open spec fn popped(self) -> ChannelState<T> {
        ChannelState {
            queue: if self.queue.len() > 0 {
                self.queue.subrange(1, self.queue.len() as int)
            } else {
                self.queue
            },
            ..self
        }
    }

    /// One turn of the receiving loop: the next message is taken, or the receiver goes to sleep.
    pub open spec fn after_turn(self) -> ChannelState<T> {
        if self.queue.len() > 0 {
            self.popped()
        } else {
            ChannelState { waiting: self.waiting + 1, ..self }
        }
    }

    /// A sleeper wakes up: one that has been notified, or another one for no reason.
    pub open spec fn woken(self, spurious: bool) -> ChannelState<T> {
        if spurious {
            ChannelState { waiting: (self.waiting - 1) as nat, ..self }
        } else {
            ChannelState { notified: (self.notified - 1) as nat, ..self }
        }
    }
}

/// What lies in the memory of a [`BasicChannel`]: the queue that its mutex guards, and the threads
/// at its condition variable.
pub struct Queue<T> {
    data: VecDeque<T>,
    waiting: Ghost<nat>,
    notified: Ghost<nat>,
    notifying: Ghost<nat>,
}

impl<T> View for Queue<T> {
    type V = ChannelState<T>;

    closed spec fn view(&self) -> ChannelState<T> {
        ChannelState {
            queue: self.data@,
            waiting: self.waiting@,
            notified: self.notified@,
            notifying: self.notifying@,
        }
    }
}

impl<T> Queue<T> {
    fn turn(&mut self) -> (message: Option<T>)
        ensures
            message == old(self)@.front(),
            final(self)@ == old(self)@.after_turn(),
    {
        match self.data.pop_front() {
            Some(message) => Some(message),
            None => {
                self.waiting = Ghost(self.waiting@ + 1);
                None
            },
        }
    }
}

/// The memory that the queues of channels lie in.
pub type QueueMemory<T> = Memory<Queue<T>>;

impl<T> Memory<Queue<T>> {
    /// Every channel is in a valid state.
    pub open spec fn wf(self) -> bool {
        forall|i: int| 0 <= i < self@.len() && (#[trigger] self@[i]) is Some ==> self@[i]->0.wf()
    }
}

/// An unbounded channel.
///
/// It can be shared between threads whatever the messages are. Whether they can pass on a message,
/// for which it has to be `Send`, is up to the memory.
pub struct BasicChannel<T> {
    ptr: Address,
    marker: Ghost<Option<T>>,
}

impl<T> BasicChannel<T> {
    /// Where the queue lies.
    pub closed spec fn ptr(self) -> int {
        self.ptr.index()
    }

    /// The identity of the memory that it is a place in.
    pub closed spec fn region(self) -> int {
        self.ptr.memory()
    }

    /// The channel lies in this memory.
    pub open spec fn lies_in(self, memory: QueueMemory<T>) -> bool {
        self.region() == memory.id() && memory.allocated(self.ptr())
    }

    /// The queue and the sleepers.
    pub open spec fn state(self, memory: QueueMemory<T>) -> ChannelState<T> {
        memory.at(self.ptr())
    }

    /// An empty channel.
    pub fn new(memory: &mut QueueMemory<T>) -> (channel: BasicChannel<T>)
        requires
            old(memory).wf(),
        ensures
            final(memory).wf(),
            final(memory).id() == old(memory).id(),
            channel.lies_in(*final(memory)),
            channel.ptr() == old(memory)@.len(),
            final(memory)@ == old(memory)@.push(Some(ChannelState::<T>::fresh())),
    {
        let ptr = memory.place(
            Queue {
                data: VecDeque::new(),
                waiting: Ghost(0),
                notified: Ghost(0),
                notifying: Ghost(0),
            },
        );
        BasicChannel { ptr, marker: Ghost(None) }
    }

    /// First step of a send: queues the message.
    pub fn push(&self, memory: &mut QueueMemory<T>, data: T)
        requires
            old(memory).wf(),
            self.lies_in(*old(memory)),
        ensures
            final(memory).wf(),
            final(memory).id() == old(memory).id(),
            final(memory)@ == old(memory)@.update(
                self.ptr(),
                Some(self.state(*old(memory)).pushed(data)),
            ),
    {
        let queue = memory.object_mut(self.ptr);
        queue.data.push_back(data);
        queue.notifying = Ghost(queue.notifying@ + 1);
    }

    /// Second step of a send: notifies one sleeping receiver, if there is one. The caller wakes it.
    pub fn notify_one(&self, memory: &mut QueueMemory<T>)
        requires
            old(memory).wf(),
            self.lies_in(*old(memory)),
            self.state(*old(memory)).notifying > 0,
        ensures
            final(memory).wf(),
            final(memory).id() == old(memory).id(),
            final(memory)@ == old(memory)@.update(
                self.ptr(),
                Some(self.state(*old(memory)).after_notify()),
            ),
    {
        let queue = memory.object_mut(self.ptr);
        let ghost after = queue@.after_notify();
        queue.waiting = Ghost(after.waiting);
        queue.notified = Ghost(after.notified);
        queue.notifying = Ghost(after.notifying);
    }

    /// Sends a message: it goes to the end of the queue, and one sleeping receiver is notified, if
    /// there is one. The caller wakes it.
    pub fn send(&self, memory: &mut QueueMemory<T>, data: T)
        requires
            old(memory).wf(),
            self.lies_in(*old(memory)),
        ensures
            final(memory).wf(),
            final(memory).id() == old(memory).id(),
            final(memory)@ == old(memory)@.update(
                self.ptr(),
                Some(self.state(*old(memory)).pushed(data).after_notify()),
            ),
    {
        self.push(memory, data);
        self.notify_one(memory);
    }

    /// One turn of the receiving loop. Without a message the caller sleeps from here on.
    pub fn recv_turn(&self, memory: &mut QueueMemory<T>) -> (message: Option<T>)
        requires
            old(memory).wf(),
            self.lies_in(*old(memory)),
        ensures
            final(memory).wf(),
            final(memory).id() == old(memory).id(),
            message == self.state(*old(memory)).front(),
            final(memory)@ == old(memory)@.update(
                self.ptr(),
                Some(self.state(*old(memory)).after_turn()),
            ),
    {
        memory.object_mut(self.ptr).turn()
    }

    /// The turn of a receiver that has been asleep. One that has been notified is taken to come
    /// first, and only without any such one the receiver has woken up for no reason.
    pub fn wake_turn(&self, memory: &mut QueueMemory<T>) -> (message: Option<T>)
        requires
            old(memory).wf(),
            self.lies_in(*old(memory)),
            self.state(*old(memory)).waiting + self.state(*old(memory)).notified > 0,
        ensures
            final(memory).wf(),
            final(memory).id() == old(memory).id(),
            message == self.state(*old(memory)).front(),
            final(memory)@ == old(memory)@.update(
                self.ptr(),
                Some(
                    self.state(*old(memory)).woken(
                        self.state(*old(memory)).notified == 0,
                    ).after_turn(),
                ),
            ),
    {
        let queue = memory.object_mut(self.ptr);
        let ghost woken = queue@.woken(queue@.notified == 0);
        queue.waiting = Ghost(woken.waiting);
        queue.notified = Ghost(woken.notified);
        queue.turn()
    }

    /// Receives the oldest message. There must be one: without it the receiver would sleep until
    /// another thread sends.
    pub fn recv_blocking(&self, memory: &mut QueueMemory<T>) -> (message: T)
        requires
            old(memory).wf(),
            self.lies_in(*old(memory)),
            self.state(*old(memory)).queue.len() > 0,
        ensures
            final(memory).wf(),
            final(memory).id() == old(memory).id(),
            message == self.state(*old(memory)).queue[0],
            final(memory)@ == old(memory)@.update(
                self.ptr(),
                Some(self.state(*old(memory)).popped()),
            ),
    {
        loop
            invariant
                memory@ == old(memory)@,
                memory.id() == old(memory).id(),
                memory.wf(),
                self.lies_in(*memory),
                self.state(*memory).queue.len() > 0,
            decreases 0int,
        {
            match memory.object_mut(self.ptr).data.pop_front() {
                Some(message) => {
                    return message;
                },
                None => {},
            }
        }
    }

    /// Receives the oldest message, if there is one.
    pub fn recv_non_blocking(&self, memory: &mut QueueMemory<T>) -> (message: Option<T>)
        requires
            old(memory).wf(),
            self.lies_in(*old(memory)),
        ensures
            final(memory).wf(),
            final(memory).id() == old(memory).id(),
            message == self.state(*old(memory)).front(),
            final(memory)@ == old(memory)@.update(
                self.ptr(),
                Some(self.state(*old(memory)).popped()),
            ),
    {
        memory.object_mut(self.ptr).data.pop_front()
    }

    /// Drops the channel. The messages that have not been received come out, oldest first, and go
    /// with the result.
    pub fn drop(self, memory: &mut QueueMemory<T>) -> (unread: VecDeque<T>)
        requires
            old(memory).wf(),
            self.lies_in(*old(memory)),
        ensures
            final(memory).wf(),
            final(memory).id() == old(memory).id(),
            unread@ == self.state(*old(memory)).queue,
            final(memory)@ == old(memory)@.update(self.ptr(), None),
    {
        memory.free(self.ptr).data
    }
}

} // verus!
