//! What holds of a sender and a receiver on one cell, whatever order their steps come in.

use crate::message_cell::Slot;
use vstd::prelude::*;

verus! {

/// What is sent is what is received, and the cell is empty after the receive. The other cells of
/// the memory are left alone.
pub proof fn recv_gives_back_what_was_sent<T>(
    memory: Seq<Option<Slot<T>>>,
    ptr: int,
    message: T,
    other: int,
)
    requires
        0 <= ptr < memory.len(),
        memory[ptr] == Some(Slot::<T>::empty()),
        0 <= other < memory.len(),
        other != ptr,
    ensures
        ({
            let sent = memory.update(ptr, Some(Slot::holding(message)));
            &&& sent[ptr]->0.at_rest()
            &&& sent[ptr]->0.ready
            &&& sent[ptr]->0.message == Some(message)
            &&& sent[other] == memory[other]
            &&& sent.update(ptr, Some(Slot::<T>::empty())) == memory
        }),
{
    let sent = memory.update(ptr, Some(Slot::holding(message)));
    assert(sent.update(ptr, Some(Slot::<T>::empty())) =~= memory);
}

/// A send and a receive are made of their steps: writing and putting the flag up lead to the cell as
/// a send leaves it, and putting the flag down and moving the value out to the cell as a receive
/// leaves it. With the flag down, putting it down changes nothing.
pub proof fn operations_are_their_steps<T>(slot: Slot<T>, message: T)
    requires
        slot.wf(),
    ensures
        !slot.ready ==> slot.written(message).published() == Slot::holding(message),
        slot.ready ==> slot.taken().moved_out() == slot.after_turn() && slot.after_turn()
            == Slot::<T>::empty(),
        !slot.ready ==> slot.taken() == slot && slot.after_turn() == slot,
{
}

/// Where the sending thread stands.
pub enum SenderAt {
    /// Between sends.
    Idle,
    /// It has written the value and not yet put the flag up.
    Wrote,
}

/// Where the receiving thread stands.
pub enum ReceiverAt {
    /// Between receives.
    Idle,
    /// It has put down a flag that was up, and not yet moved the value out.
    Took,
}

/// A cell, the two threads at it, and what they have done so far.
#[verifier::ext_equal]
pub struct Exchange<T> {
    pub slot: Slot<T>,
    pub sender: SenderAt,
    pub receiver: ReceiverAt,
    /// The messages that have been written, in order.
    pub sent: Seq<T>,
    /// The messages that have been moved out, in order.
    pub received: Seq<T>,
    /// How many of the writes the last store to the flag has released: those that a thread sees
    /// which reads the flag with acquire ordering.
    pub released: nat,
    /// How many of the writes the receiver is sure to see.
    pub acquired: nat,
}

/// One atomic step of one of the two threads.
pub enum Step<T> {
    /// The sender writes a value.
    Write { message: T },
    /// The sender puts the flag up, with release ordering.
    Publish,
    /// The receiver puts the flag down, with acquire ordering, and looks at what it was.
    TakeReady,
    /// The receiver moves the value out.
    Read,
}

impl<T> Exchange<T> {
    /// A new cell, with both threads before their first call.
    pub open spec fn fresh() -> Exchange<T> {
        Exchange {
            slot: Slot::empty(),
            sender: SenderAt::Idle,
            receiver: ReceiverAt::Idle,
            sent: Seq::empty(),
            received: Seq::empty(),
            released: 0,
            acquired: 0,
        }
    }

    /// The messages that have been written and not moved out: those in the cell.
    pub open spec fn unread(self) -> Seq<T> {
        match self.slot.message {
            Some(message) => seq![message],
            None => Seq::empty(),
        }
    }

    /// Everything written has been received or is in the cell, the flag and the threads agree on
    /// who may touch the value, and a receiver that may touch it is sure to see it.
    pub open spec fn wf(self) -> bool {
        &&& self.sent == self.received + self.unread()
        &&& self.sender is Wrote ==> {
            &&& self.slot.message is Some
            &&& !self.slot.ready
            &&& self.receiver is Idle
        }
        &&& self.receiver is Took ==> {
            &&& self.slot.message is Some
            &&& !self.slot.ready
            &&& self.sender is Idle
            &&& self.acquired == self.sent.len()
        }
        &&& self.sender is Idle && self.receiver is Idle ==> self.slot.at_rest()
        &&& self.slot.ready ==> self.released == self.sent.len()
    }
}

impl<T> Step<T> {
    /// Whether the thread can take the step now. A send starts only while the flag is down.
    pub open spec fn enabled(self, e: Exchange<T>) -> bool {
        match self {
            Step::Write { message } => e.sender is Idle && !e.slot.ready,
            Step::Publish => e.sender is Wrote,
            Step::TakeReady => e.receiver is Idle,
            Step::Read => e.receiver is Took,
        }
    }

    /// The step does not overtake a receive: a send is the first one, or starts after the receive
    /// of the message before has ended. The flag alone does not say so, since a receive puts it
    /// down before it moves the value out.
    pub open spec fn in_order(self, e: Exchange<T>) -> bool {
        self is Write ==> e.sent.len() == 0 || e.receiver is Idle
    }

    /// The state after the step.
    pub open spec fn apply(self, e: Exchange<T>) -> Exchange<T> {
        match self {
            Step::Write { message } => Exchange {
                slot: e.slot.written(message),
                sender: SenderAt::Wrote,
                sent: e.sent.push(message),
                ..e
            },
            Step::Publish => Exchange {
                slot: e.slot.published(),
                sender: SenderAt::Idle,
                released: e.sent.len(),
                ..e
            },
            Step::TakeReady => if e.slot.ready {
                Exchange {
                    slot: e.slot.taken(),
                    receiver: ReceiverAt::Took,
                    acquired: e.released,
                    ..e
                }
            } else {
                Exchange { slot: e.slot.taken(), ..e }
            },
            Step::Read => Exchange {
                slot: e.slot.moved_out(),
                receiver: ReceiverAt::Idle,
                received: e.received.push(e.slot.message->0),
                ..e
            },
        }
    }
}

/// `run` is a history of a cell: the two threads have taken `steps`, one after the other.
pub open spec fn is_run<T>(run: Seq<Exchange<T>>, steps: Seq<Step<T>>) -> bool {
    &&& run.len() == steps.len() + 1
    &&& run[0] == Exchange::<T>::fresh()
    &&& forall|i: int|
        0 <= i < steps.len() ==> (#[trigger] steps[i]).enabled(run[i]) && run[i + 1]
            == steps[i].apply(run[i])
}

/// No send of a run overtakes a receive.
pub open spec fn run_in_order<T>(run: Seq<Exchange<T>>, steps: Seq<Step<T>>) -> bool {
    forall|i: int| 0 <= i < steps.len() ==> (#[trigger] steps[i]).in_order(run[i])
}

/// Every step that does not overtake a receive keeps what the two threads rely on.
pub proof fn step_keeps_wf<T>(e: Exchange<T>, step: Step<T>)
    requires
        e.wf(),
        step.enabled(e),
        step.in_order(e),
    ensures
        step.apply(e).wf(),
{
    let after = step.apply(e);
    assert(after.sent =~= after.received + after.unread());
}

/// In whatever order the two threads take their steps, what they rely on holds throughout, if no
/// send overtakes a receive.
pub proof fn every_run_is_wf<T>(run: Seq<Exchange<T>>, steps: Seq<Step<T>>, i: int)
    requires
        is_run(run, steps),
        run_in_order(run, steps),
        0 <= i < run.len(),
    ensures
        run[i].wf(),
    decreases i,
{
    if i == 0 {
        assert(run[0].sent =~= run[0].received + run[0].unread());
    } else {
        every_run_is_wf(run, steps, i - 1);
        step_keeps_wf(run[i - 1], steps[i - 1]);
    }
}

/// The receiver gets what was sent, in order, each message once, and at most one is on its way.
pub proof fn received_is_prefix_of_sent<T>(e: Exchange<T>)
    requires
        e.wf(),
    ensures
        e.received.is_prefix_of(e.sent),
        e.received.len() <= e.sent.len() <= e.received.len() + 1,
        e.slot.at_rest() ==> (e.slot.ready <==> e.sent.len() == e.received.len() + 1),
{
    assert(e.received =~= (e.received + e.unread()).take(e.received.len() as int));
}

/// A receiver that found the flag up moves out a value that has been written: the last one sent,
/// which the acquire swap has made visible to it.
pub proof fn read_finds_the_message<T>(e: Exchange<T>)
    requires
        e.wf(),
        Step::<T>::Read.enabled(e),
    ensures
        e.slot.message is Some,
        e.sent.len() > 0,
        e.slot.message->0 == e.sent.last(),
        e.acquired == e.sent.len(),
        Step::<T>::Read.apply(e).received == e.sent,
{
    assert(e.received.push(e.slot.message->0) =~= e.received + e.unread());
}

/// The sender and the receiver are never at the value at the same time, and a write finds the cell
/// empty, if the send does not overtake a receive.
pub proof fn value_is_accessed_by_one_thread<T>(e: Exchange<T>, message: T)
    requires
        e.wf(),
    ensures
        (Step::Write { message }).enabled(e) && (Step::Write { message }).in_order(e) ==> {
            &&& e.slot.message is None
            &&& !Step::<T>::Read.enabled(e)
        },
        !(e.sender is Wrote && e.receiver is Took),
{
    if e.receiver is Took {
        assert(e.unread().len() == 1);
    }
}

/// A first send always finds room: the flag is down, nothing has been written, and there is no
/// receive to overtake.
pub proof fn first_send_finds_room<T>(e: Exchange<T>, message: T)
    requires
        e.wf(),
        e.sender is Idle,
        e.sent.len() == 0,
    ensures
        (Step::Write { message }).enabled(e),
        (Step::Write { message }).in_order(e),
        e.slot == Slot::<T>::empty(),
        e.receiver is Idle,
{
    assert(e.unread().len() == 0);
}

/// A send that overtakes a receive is not harmless: it puts its message in the place of the one
/// that the receiver is about to move out, which nobody receives then.
pub proof fn overtaking_send_loses_a_message<T>(e: Exchange<T>, message: T)
    requires
        e.wf(),
        e.receiver is Took,
    ensures
        (Step::Write { message }).enabled(e),
        !(Step::Write { message }).in_order(e),
        ({
            let after = Step::<T>::Read.apply((Step::Write { message }).apply(e));
            &&& after.received.last() == message
            &&& after.received.len() == e.sent.len()
            &&& after.sent.len() == e.sent.len() + 1
            &&& after.unread() == Seq::<T>::empty()
        }),
{
    assert(e.unread().len() == 1);
}

/// A receive that finds the flag down has changed nothing.
pub proof fn early_receive_changes_nothing<T>(e: Exchange<T>)
    requires
        !e.slot.ready,
    ensures
        Step::<T>::TakeReady.apply(e) == e,
{
}

/// A new cell is empty with the flag down.
pub proof fn new_cell_is_empty<T>()
    ensures
        Slot::<T>::empty().at_rest(),
        Slot::<T>::empty().message is None,
        !Slot::<T>::empty().ready,
{
}

/// A message that has been sent is there with the flag up, whatever it is.
pub proof fn sent_message_is_there<T>(message: T)
    ensures
        Slot::holding(message).at_rest(),
        Slot::holding(message).ready,
        Slot::holding(message).message == Some(message),
{
}

/// Each step changes the value or the flag, never both.
pub proof fn step_changes_value_or_flag<T>(slot: Slot<T>, message: T)
    ensures
        slot.written(message).message == Some(message),
        slot.written(message).ready == slot.ready,
        slot.published().ready,
        slot.published().message == slot.message,
        !slot.taken().ready,
        slot.taken().message == slot.message,
        slot.moved_out().message is None,
        slot.moved_out().ready == slot.ready,
{
}

/// An attempt to receive empties the cell exactly if the flag was up, and changes nothing
/// otherwise. A second one finds nothing.
pub proof fn turn_empties_a_ready_cell<T>(slot: Slot<T>)
    requires
        slot.wf(),
    ensures
        slot.ready ==> slot.after_turn().message is None,
        !slot.ready ==> slot.after_turn() == slot,
        !slot.after_turn().ready,
        slot.after_turn().after_turn() == slot.after_turn(),
{
}

/// A message is accounted for once: when neither thread is in the midst of a call, what was sent has
/// been received, or else is the message that comes out when the cell is given up or starts anew.
pub proof fn message_is_received_or_comes_out<T>(e: Exchange<T>)
    requires
        e.wf(),
        e.sender is Idle,
        e.receiver is Idle,
    ensures
        e.slot.at_rest(),
        e.slot.message is None ==> e.received == e.sent,
        e.slot.message matches Some(message) ==> e.received.push(message) == e.sent,
{
    if let Some(message) = e.slot.message {
        assert(e.received.push(message) =~= e.received + e.unread());
    } else {
        assert(e.received =~= e.received + e.unread());
    }
}

} // verus!
