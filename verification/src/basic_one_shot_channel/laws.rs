//! What holds of the channel and of any number of threads at it, whatever order their steps come
//! in.

use crate::basic_one_shot_channel::ChannelState;
use crate::message_cell::Slot;
use vstd::prelude::*;

verus! {

/// What is sent is what is received, once: after the receive the channel is in use and empty, so
/// that neither a send nor a receive can follow.
pub proof fn recv_gives_back_what_was_sent<T>(s: ChannelState<T>, message: T)
    requires
        s.at_rest(),
        !s.used,
    ensures
        ({
            let sent = s.claimed().with_slot(s.slot.written(message).published());
            &&& sent == (ChannelState { slot: Slot::holding(message), used: true })
            &&& sent.slot.message == Some(message)
            &&& sent.with_slot(Slot::empty()).used
            &&& !sent.with_slot(Slot::empty()).slot.ready
        }),
{
}

/// Where a thread stands.
pub enum At {
    /// Between calls.
    Idle,
    /// In a send: it has found the channel not in use.
    Claimed,
    /// In a send: it has written the message.
    Wrote,
    /// In a receive: it has found the ready flag up.
    Took,
    /// Its send found the channel in use, or its receive found the ready flag down.
    Refused,
}

impl At {
    /// The thread is in the midst of a call that goes on.
    pub open spec fn active(self) -> bool {
        self is Claimed || self is Wrote || self is Took
    }
}

/// The channel, the threads at it, and what they have done so far.
#[verifier::ext_equal]
pub struct Crowd<T> {
    pub state: ChannelState<T>,
    pub at: Seq<At>,
    /// The message that has been written.
    pub sent: Option<T>,
    /// The message that has been moved out.
    pub received: Option<T>,
    /// The store that put the ready flag up has released the write: a thread that reads the flag
    /// with acquire ordering comes to know of it.
    pub released: bool,
    /// Which threads know of the write, so that it happens before what they do next.
    pub knows: Seq<bool>,
}

/// One atomic step of the thread with the number `by`.
pub enum Step<T> {
    /// It marks the channel as in use, with relaxed ordering.
    Claim { by: int },
    /// It writes the message.
    Write { by: int, message: T },
    /// It puts the ready flag up, with release ordering.
    Publish { by: int },
    /// It puts the ready flag down, with acquire ordering, and looks at what it was.
    TakeReady { by: int },
    /// It moves the message out.
    Read { by: int },
}

impl<T> Crowd<T> {
    /// A new channel, with `threads` threads before their first call.
    pub open spec fn fresh(threads: nat) -> Crowd<T> {
        Crowd {
            state: ChannelState::fresh(),
            at: Seq::new(threads, |i: int| At::Idle),
            sent: None,
            received: None,
            released: false,
            knows: Seq::new(threads, |i: int| false),
        }
    }

    /// Some thread is in the midst of a call that goes on.
    pub open spec fn some_active(self) -> bool {
        exists|i: int| 0 <= i < self.at.len() && (#[trigger] self.at[i]).active()
    }

    /// A message is in the cell: the one that was sent, not yet received.
    pub open spec fn in_cell(self) -> bool {
        &&& self.state.used
        &&& self.state.slot.message is Some
        &&& self.sent == self.state.slot.message
        &&& self.received is None
    }

    /// At most one thread is in the midst of a call, the flags say how far the message is, and a
    /// thread that is about to move it out knows of the write.
    pub open spec fn wf(self) -> bool {
        &&& self.knows.len() == self.at.len()
        &&& self.state.slot.ready ==> self.released
        &&& forall|i: int, j: int|
            0 <= i < self.at.len() && 0 <= j < self.at.len() && (#[trigger] self.at[i]).active() && (
            #[trigger] self.at[j]).active() ==> i == j
        &&& forall|i: int|
            0 <= i < self.at.len() ==> {
                &&& (#[trigger] self.at[i]) is Claimed ==> {
                    &&& self.state.used
                    &&& self.state.slot == Slot::<T>::empty()
                    &&& self.sent is None
                    &&& self.received is None
                }
                &&& (self.at[i] is Wrote || self.at[i] is Took) ==> self.in_cell()
                    && !self.state.slot.ready && self.knows[i]
            }
        &&& self.state.slot.ready ==> self.in_cell() && !self.some_active()
        &&& !self.state.used ==> {
            &&& self.state.slot == Slot::<T>::empty()
            &&& self.sent is None
            &&& self.received is None
            &&& !self.some_active()
        }
        &&& self.state.used && !self.state.slot.ready && !self.some_active() ==> {
            &&& self.state.slot.message is None
            &&& self.sent is Some
            &&& self.received == self.sent
        }
    }
}

impl<T> Step<T> {
    /// The thread that takes the step.
    pub open spec fn thread(self) -> int {
        match self {
            Step::Claim { by } => by,
            Step::Write { by, message } => by,
            Step::Publish { by } => by,
            Step::TakeReady { by } => by,
            Step::Read { by } => by,
        }
    }

    /// Whether the thread can take the step now.
    pub open spec fn enabled(self, c: Crowd<T>) -> bool {
        &&& 0 <= self.thread() < c.at.len()
        &&& match self {
            Step::Claim { by } => c.at[by] is Idle,
            Step::Write { by, message } => c.at[by] is Claimed,
            Step::Publish { by } => c.at[by] is Wrote,
            Step::TakeReady { by } => c.at[by] is Idle,
            Step::Read { by } => c.at[by] is Took,
        }
    }

    /// The state after the step.
    pub open spec fn apply(self, c: Crowd<T>) -> Crowd<T> {
        match self {
            Step::Claim { by } => Crowd {
                state: c.state.claimed(),
                at: c.at.update(
                    by,
                    if c.state.used {
                        At::Refused
                    } else {
                        At::Claimed
                    },
                ),
                ..c
            },
            Step::Write { by, message } => Crowd {
                state: c.state.with_slot(c.state.slot.written(message)),
                at: c.at.update(by, At::Wrote),
                sent: Some(message),
                knows: c.knows.update(by, true),
                ..c
            },
            Step::Publish { by } => Crowd {
                state: c.state.with_slot(c.state.slot.published()),
                at: c.at.update(by, At::Idle),
                released: c.knows[by],
                ..c
            },
            Step::TakeReady { by } => Crowd {
                state: c.state.with_slot(c.state.slot.taken()),
                at: c.at.update(
                    by,
                    if c.state.slot.ready {
                        At::Took
                    } else {
                        At::Refused
                    },
                ),
                knows: c.knows.update(by, c.knows[by] || (c.state.slot.ready && c.released)),
                ..c
            },
            Step::Read { by } => Crowd {
                state: c.state.with_slot(c.state.slot.moved_out()),
                at: c.at.update(by, At::Idle),
                received: c.state.slot.message,
                ..c
            },
        }
    }
}

/// `run` is a history of a channel: `threads` threads have taken `steps`, one after the other.
pub open spec fn is_run<T>(threads: nat, run: Seq<Crowd<T>>, steps: Seq<Step<T>>) -> bool {
    &&& run.len() == steps.len() + 1
    &&& run[0] == Crowd::<T>::fresh(threads)
    &&& forall|i: int|
        0 <= i < steps.len() ==> (#[trigger] steps[i]).enabled(run[i]) && run[i + 1]
            == steps[i].apply(run[i])
}

/// Every step of every thread keeps what the threads rely on.
pub proof fn step_keeps_wf<T>(c: Crowd<T>, step: Step<T>)
    requires
        c.wf(),
        step.enabled(c),
    ensures
        step.apply(c).wf(),
{
    let after = step.apply(c);
    let by = step.thread();
    assert forall|i: int| 0 <= i < c.at.len() && i != by implies after.at[i] == c.at[i] by {}
    if c.some_active() && !c.at[by].active() {
        let i = choose|i: int| 0 <= i < c.at.len() && (#[trigger] c.at[i]).active();
        assert(after.at[i].active());
    }
    if after.some_active() {
        let i = choose|i: int| 0 <= i < after.at.len() && (#[trigger] after.at[i]).active();
        assert(i != by ==> c.at[i].active());
    }
    if after.at[by].active() {
        assert(after.some_active());
    }
}

/// In whatever order threads take their steps, what they rely on holds throughout.
pub proof fn every_run_is_wf<T>(threads: nat, run: Seq<Crowd<T>>, steps: Seq<Step<T>>, i: int)
    requires
        is_run(threads, run, steps),
        0 <= i < run.len(),
    ensures
        run[i].wf(),
    decreases i,
{
    if i > 0 {
        every_run_is_wf(threads, run, steps, i - 1);
        step_keeps_wf(run[i - 1], steps[i - 1]);
    }
}

/// A message is never read before it is written, nor overwritten before it is read: a thread that
/// moves the value out finds the one that was sent, and a thread that writes finds none.
pub proof fn value_is_accessed_in_turn<T>(c: Crowd<T>, step: Step<T>)
    requires
        c.wf(),
        step.enabled(c),
    ensures
        step is Read ==> c.state.slot.message is Some && c.sent == c.state.slot.message,
        step is Write ==> c.state.slot.message is None && c.sent is None,
{
}

/// The thread that reads knows of the write: the acquire swap that let it go on read what the
/// release store of the sender wrote.
pub proof fn reader_knows_of_the_write<T>(
    threads: nat,
    run: Seq<Crowd<T>>,
    steps: Seq<Step<T>>,
    i: int,
)
    requires
        is_run(threads, run, steps),
        0 <= i < steps.len(),
        steps[i] is Read,
    ensures
        run[i].knows[steps[i].thread()],
        run[i].sent is Some,
        run[i + 1].received == run[i].sent,
{
    every_run_is_wf(threads, run, steps, i);
}

/// At most one thread is at the value at a time.
pub proof fn at_most_one_thread_goes_on<T>(c: Crowd<T>, first: int, second: int)
    requires
        c.wf(),
        0 <= first < c.at.len(),
        0 <= second < c.at.len(),
        c.at[first].active(),
        c.at[second].active(),
    ensures
        first == second,
{
}

/// The channel is used once: after the first claim every other send is refused.
pub proof fn second_send_is_refused<T>(c: Crowd<T>, step: Step<T>)
    requires
        c.wf(),
        step.enabled(c),
        c.state.used,
    ensures
        step.apply(c).state.used,
        step is Claim ==> step.apply(c).at[step.thread()] is Refused,
        c.sent is Some ==> step.apply(c).sent == c.sent,
{
}

/// What is received is what was sent, and it is received once: after that every other receive is
/// refused.
pub proof fn message_is_received_once<T>(c: Crowd<T>, step: Step<T>)
    requires
        c.wf(),
        step.enabled(c),
        c.received is Some,
    ensures
        c.received == c.sent,
        step.apply(c).received == c.received,
        step is TakeReady ==> step.apply(c).at[step.thread()] is Refused,
        !(step is Read),
{
    assert(!c.some_active()) by {
        if c.some_active() {
            let i = choose|i: int| 0 <= i < c.at.len() && (#[trigger] c.at[i]).active();
            assert(c.at[i] is Claimed || c.at[i] is Wrote || c.at[i] is Took);
        }
    }
}

/// A thread whose receive finds the flag up gets the message; one that finds it down is refused
/// and changes nothing but where it stands.
pub proof fn receive_needs_the_flag<T>(c: Crowd<T>, by: int)
    requires
        c.wf(),
        (Step::<T>::TakeReady { by }).enabled(c),
    ensures
        (Step::<T>::TakeReady { by }).apply(c).at[by] is Took <==> c.state.slot.ready,
        !c.state.slot.ready ==> (Step::<T>::TakeReady { by }).apply(c).state == c.state,
{
}

/// A new channel is not in use and has no message, whatever the messages are.
pub proof fn new_channel_is_unused<T>()
    ensures
        ChannelState::<T>::fresh().at_rest(),
        !ChannelState::<T>::fresh().used,
        !ChannelState::<T>::fresh().slot.ready,
        ChannelState::<T>::fresh().slot.message is None,
{
}

/// To claim the channel marks it alone, and a step at the message leaves the mark.
pub proof fn mark_and_message_are_apart<T>(s: ChannelState<T>, slot: Slot<T>)
    ensures
        s.claimed().used,
        s.claimed().slot == s.slot,
        s.with_slot(slot).slot == slot,
        s.with_slot(slot).used == s.used,
{
}

/// A message is accounted for once: when no thread is in the midst of a call, what was sent has
/// been received, or else is the message that comes out when the channel is dropped.
pub proof fn message_is_received_or_comes_out<T>(c: Crowd<T>)
    requires
        c.wf(),
        !c.some_active(),
    ensures
        c.state.at_rest(),
        c.received is Some ==> c.received == c.sent && c.state.slot.message is None,
        c.received is None ==> c.state.slot.message == c.sent,
{
}

} // verus!
