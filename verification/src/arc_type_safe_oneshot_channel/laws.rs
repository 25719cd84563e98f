//! What holds of the channel and of the threads at its two ends, whatever order their steps come
//! in.

use crate::arc_type_safe_oneshot_channel::ChannelState;
use crate::message_cell::laws as exchange;
use crate::message_cell::laws::Exchange;
use crate::message_cell::Slot;
use vstd::prelude::*;

verus! {

/// What is sent is what is received: a message sent while the receiver is there is the one that is
/// there to be read, and the channel is gone after the receive.
pub proof fn recv_gives_back_what_was_sent<T>(s: ChannelState<T>, message: T)
    requires
        s.wf(),
        s.sender is Unsent,
        s.reciever is Waiting,
    ensures
        s.after_send(message) matches Some(sent) && {
            &&& sent.wf()
            &&& sent.reciever is Waiting
            &&& sent.slot.ready
            &&& sent.slot.message == Some(message)
            &&& sent.after_recv() is None
        },
{
}

/// The sender never meets a message that has not been read, and a message is there only after the
/// one send and before the one receive.
pub proof fn ready_only_between_send_and_recv<T>(s: ChannelState<T>)
    requires
        s.wf(),
    ensures
        s.sender is Unsent ==> !s.slot.ready && s.slot.message is None,
        s.slot.ready ==> {
            &&& s.sender is Sent || s.sender is Gone
            &&& s.reciever is Waiting || s.reciever is Gone
        },
        s.sender is Sent && s.reciever is Waiting ==> s.slot.ready,
{
}

/// The channel goes with the second end, in whichever order they go.
pub proof fn second_end_frees_the_channel<T>(s: ChannelState<T>, message: T)
    requires
        s.wf(),
        s.sender is Unsent,
        s.reciever is Waiting,
    ensures
        s.after_send(message) is Some && s.after_send(message)->0.without_reciever() is None,
        s.after_send(message)->0.after_recv() is None,
        s.without_sender() is Some && s.without_sender()->0.without_reciever() is None,
        s.without_reciever() is Some && s.without_reciever()->0.after_send(message) is None,
        s.without_reciever()->0.without_sender() is None,
{
}

/// A channel, the two threads at its ends, and what they have done so far.
#[verifier::ext_equal]
pub struct Ownership<T> {
    /// The channel, until its last owner has dropped it.
    pub channel: Option<ChannelState<T>>,
    /// The two threads at the cell.
    pub exchange: Exchange<T>,
    /// The messages that were dropped with the channel.
    pub dropped: Seq<T>,
}

/// One atomic step of one of the two threads.
pub enum Step<T> {
    /// A step at the cell.
    Exchange(exchange::Step<T>),
    /// The sending thread gives its end up, with or without having sent. If it is the last one, it
    /// drops the channel, and an unread message with it.
    ReleaseSender,
    /// The receiving thread gives its end up, with or without having received. If it is the last
    /// one, it drops the channel, and an unread message with it.
    ReleaseReciever,
}

impl<T> Ownership<T> {
    /// A new channel, with both threads before their first call.
    pub open spec fn fresh() -> Ownership<T> {
        Ownership {
            channel: Some(ChannelState::fresh()),
            exchange: Exchange::fresh(),
            dropped: Seq::empty(),
        }
    }

    /// The channel is in a valid state that agrees with where the two threads stand, and
    /// everything sent, one message at most, has been received, is in the cell or was dropped with
    /// the channel.
    pub open spec fn wf(self) -> bool {
        &&& self.exchange.sent.len() <= 1
        &&& self.channel matches Some(s) ==> {
            &&& s.wf()
            &&& self.exchange.wf()
            &&& s.slot == self.exchange.slot
            &&& s.sender is Wrote <==> self.exchange.sender is Wrote
            &&& s.reciever is Took <==> self.exchange.receiver is Took
            &&& s.sender is Unsent ==> self.exchange.sent.len() == 0
            &&& s.sender is Wrote || s.sender is Sent ==> self.exchange.sent.len() == 1
            &&& s.reciever is Waiting || s.reciever is Took ==> self.exchange.received.len() == 0
            &&& s.reciever is Received ==> self.exchange.received.len() == 1
            &&& self.dropped == Seq::<T>::empty()
        }
        &&& self.channel is None ==> {
            &&& self.exchange.sender is Idle
            &&& self.exchange.receiver is Idle
            &&& self.exchange.slot == Slot::<T>::empty()
            &&& self.exchange.sent == self.exchange.received + self.dropped
        }
    }

    /// The state once one end has been given up, and `left` is what is left of the channel.
    pub open spec fn released(self, left: Option<ChannelState<T>>) -> Ownership<T> {
        if left is Some {
            Ownership { channel: left, ..self }
        } else {
            Ownership {
                channel: None,
                exchange: Exchange { slot: Slot::empty(), ..self.exchange },
                dropped: if self.exchange.slot.ready {
                    self.exchange.unread()
                } else {
                    Seq::empty()
                },
            }
        }
    }
}

impl<T> Step<T> {
    /// Whether the thread can take the step now. Since `send` and `recv` take the end by value,
    /// there is one write and one read at most.
    pub open spec fn enabled(self, o: Ownership<T>) -> bool {
        o.channel matches Some(s) && match self {
            Step::Exchange(step) => match step {
                exchange::Step::Write { message } => s.sender is Unsent,
                exchange::Step::Publish => s.sender is Wrote,
                exchange::Step::TakeReady => s.reciever is Waiting,
                exchange::Step::Read => s.reciever is Took,
            },
            Step::ReleaseSender => s.sender is Unsent || s.sender is Sent,
            Step::ReleaseReciever => s.reciever is Waiting || s.reciever is Received,
        }
    }

    /// The state after the step. The channel changes as it does in the calls of the two ends.
    pub open spec fn apply(self, o: Ownership<T>) -> Ownership<T> {
        let s = o.channel->0;
        match self {
            Step::Exchange(step) => Ownership {
                channel: Some(
                    match step {
                        exchange::Step::Write { message } => s.written(message),
                        exchange::Step::Publish => s.published(),
                        exchange::Step::TakeReady => s.taken(),
                        exchange::Step::Read => s.moved_out(),
                    },
                ),
                exchange: step.apply(o.exchange),
                ..o
            },
            Step::ReleaseSender => o.released(s.without_sender()),
            Step::ReleaseReciever => o.released(s.without_reciever()),
        }
    }
}

/// `run` is a history of a channel: the two threads have taken `steps`, one after the other.
pub open spec fn is_run<T>(run: Seq<Ownership<T>>, steps: Seq<Step<T>>) -> bool {
    &&& run.len() == steps.len() + 1
    &&& run[0] == Ownership::<T>::fresh()
    &&& forall|i: int|
        0 <= i < steps.len() ==> (#[trigger] steps[i]).enabled(run[i]) && run[i + 1]
            == steps[i].apply(run[i])
}

/// Every step keeps what the two threads rely on.
pub proof fn step_keeps_wf<T>(o: Ownership<T>, step: Step<T>)
    requires
        o.wf(),
        step.enabled(o),
    ensures
        step.apply(o).wf(),
{
    let after = step.apply(o);
    match step {
        Step::Exchange(inner) => {
            if let exchange::Step::Write { message } = inner {
                exchange::first_send_finds_room(o.exchange, message);
            }
            exchange::step_keeps_wf(o.exchange, inner);
        },
        _ => {
            if after.channel is None {
                assert(after.exchange.sent =~= after.exchange.received + after.dropped);
            }
        },
    }
}

/// In whatever order the two threads take their steps, what they rely on holds throughout.
pub proof fn every_run_is_wf<T>(run: Seq<Ownership<T>>, steps: Seq<Step<T>>, i: int)
    requires
        is_run(run, steps),
        0 <= i < run.len(),
    ensures
        run[i].wf(),
    decreases i,
{
    if i == 0 {
        assert(run[0].exchange.sent =~= run[0].exchange.received + run[0].exchange.unread());
    } else {
        every_run_is_wf(run, steps, i - 1);
        step_keeps_wf(run[i - 1], steps[i - 1]);
    }
}

/// A send is made of its steps: from wherever it can start, writing, putting the flag up and giving
/// the end up lead to the channel as `send` leaves it.
pub proof fn send_is_its_steps<T>(o: Ownership<T>, message: T)
    requires
        o.wf(),
        o.channel matches Some(s) && s.sender is Unsent,
    ensures
        ({
            let write = Step::Exchange(exchange::Step::Write { message });
            let publish = Step::<T>::Exchange(exchange::Step::Publish);
            let wrote = write.apply(o);
            let sent = publish.apply(wrote);
            let end = Step::<T>::ReleaseSender.apply(sent);
            &&& write.enabled(o)
            &&& publish.enabled(wrote)
            &&& Step::<T>::ReleaseSender.enabled(sent)
            &&& end.wf()
            &&& end.channel == o.channel->0.after_send(message)
            &&& end.exchange.sent == seq![message]
            &&& end.dropped == (if o.channel->0.reciever is Gone {
                seq![message]
            } else {
                Seq::empty()
            })
        }),
{
    let write = Step::Exchange(exchange::Step::Write { message });
    let publish = Step::<T>::Exchange(exchange::Step::Publish);
    step_keeps_wf(o, write);
    step_keeps_wf(write.apply(o), publish);
    step_keeps_wf(publish.apply(write.apply(o)), Step::ReleaseSender);
    assert(o.exchange.sent.push(message) =~= seq![message]);
}

/// A receive is made of its steps: with the flag up, putting it down, moving the message out and
/// giving the end up lead to the channel as `recv` leaves it, and to the message that was sent.
pub proof fn recv_is_its_steps<T>(o: Ownership<T>)
    requires
        o.wf(),
        o.channel matches Some(s) && s.reciever is Waiting && s.slot.ready,
    ensures
        ({
            let take = Step::<T>::Exchange(exchange::Step::TakeReady);
            let read = Step::<T>::Exchange(exchange::Step::Read);
            let took = take.apply(o);
            let received = read.apply(took);
            let end = Step::<T>::ReleaseReciever.apply(received);
            &&& take.enabled(o)
            &&& read.enabled(took)
            &&& Step::<T>::ReleaseReciever.enabled(received)
            &&& end.wf()
            &&& end.channel == o.channel->0.after_recv()
            &&& end.exchange.received == seq![o.channel->0.slot.message->0]
            &&& end.exchange.received == o.exchange.sent
            &&& end.dropped == Seq::<T>::empty()
        }),
{
    let take = Step::<T>::Exchange(exchange::Step::TakeReady);
    let read = Step::<T>::Exchange(exchange::Step::Read);
    step_keeps_wf(o, take);
    step_keeps_wf(take.apply(o), read);
    step_keeps_wf(read.apply(take.apply(o)), Step::ReleaseReciever);
    exchange::read_finds_the_message(take.apply(o).exchange);
    assert(o.exchange.received.push(o.channel->0.slot.message->0)
        =~= seq![o.channel->0.slot.message->0]);
}

/// An end that is dropped is given up in one step, which leads to the channel as its `drop` leaves
/// it. A message that is in the channel when the last end goes is dropped with it.
pub proof fn drop_is_its_step<T>(o: Ownership<T>)
    requires
        o.wf(),
        o.channel is Some,
    ensures
        o.channel->0.sender is Unsent ==> {
            let end = Step::<T>::ReleaseSender.apply(o);
            &&& Step::<T>::ReleaseSender.enabled(o)
            &&& end.wf()
            &&& end.channel == o.channel->0.without_sender()
            &&& end.dropped == Seq::<T>::empty()
        },
        o.channel->0.reciever is Waiting ==> {
            let end = Step::<T>::ReleaseReciever.apply(o);
            &&& Step::<T>::ReleaseReciever.enabled(o)
            &&& end.wf()
            &&& end.channel == o.channel->0.without_reciever()
            &&& end.dropped == (if o.channel->0.sender is Gone && o.channel->0.slot.ready {
                seq![o.channel->0.slot.message->0]
            } else {
                Seq::empty()
            })
        },
{
    if o.channel->0.sender is Unsent {
        step_keeps_wf(o, Step::ReleaseSender);
    }
    if o.channel->0.reciever is Waiting {
        step_keeps_wf(o, Step::ReleaseReciever);
    }
}

/// The one send always finds the channel empty and the flag down.
pub proof fn send_finds_room<T>(o: Ownership<T>, message: T)
    requires
        o.wf(),
        (Step::Exchange(exchange::Step::Write { message })).enabled(o),
    ensures
        o.channel->0.slot == Slot::<T>::empty(),
        (exchange::Step::Write { message }).enabled(o.exchange),
{
    exchange::first_send_finds_room(o.exchange, message);
}

/// The channel is freed once, when neither thread has anything left to do at it, and a message is
/// received or dropped with the channel, not both and not neither.
pub proof fn message_is_received_or_dropped<T>(o: Ownership<T>, step: Step<T>)
    requires
        o.wf(),
        o.channel is None,
    ensures
        !step.enabled(o),
        o.exchange.slot.message is None,
        o.exchange.sent == o.exchange.received + o.dropped,
        o.exchange.received.len() + o.dropped.len() == o.exchange.sent.len() <= 1,
{
}

/// A new channel has two owners and no message, whatever the messages are.
pub proof fn new_channel_has_two_owners<T>()
    ensures
        ChannelState::<T>::fresh().wf(),
        ChannelState::<T>::fresh().owners == 2,
        ChannelState::<T>::fresh().sender is Unsent,
        ChannelState::<T>::fresh().reciever is Waiting,
        !ChannelState::<T>::fresh().slot.ready,
        ChannelState::<T>::fresh().slot.message is None,
{
}

/// An end that goes frees the channel exactly if the other one is gone, and otherwise leaves to the
/// other one all that is there.
pub proof fn end_frees_the_channel_after_the_other<T>(s: ChannelState<T>)
    requires
        s.wf(),
    ensures
        s.without_sender() is None <==> s.reciever is Gone,
        s.without_sender() matches Some(left) ==> {
            &&& left.slot == s.slot
            &&& left.owners == 1
            &&& left.sender is Gone
            &&& left.reciever == s.reciever
        },
        s.without_reciever() is None <==> s.sender is Gone,
        s.without_reciever() matches Some(left) ==> {
            &&& left.slot == s.slot
            &&& left.owners == 1
            &&& left.reciever is Gone
            &&& left.sender == s.sender
        },
{
}

/// A send leaves the message, with the flag up, to a receiver that is there.
pub proof fn send_leaves_the_message<T>(s: ChannelState<T>, message: T)
    ensures
        s.after_send(message) is None <==> s.reciever is Gone,
        s.after_send(message) matches Some(left) ==> {
            &&& left.slot.message == Some(message)
            &&& left.slot.ready
            &&& left.owners == 1
            &&& left.sender is Gone
            &&& left.reciever == s.reciever
        },
{
}

/// A receive leaves nothing to a sender that is there.
pub proof fn receive_leaves_nothing<T>(s: ChannelState<T>)
    ensures
        s.after_recv() is None <==> s.sender is Gone,
        s.after_recv() matches Some(left) ==> {
            &&& left.slot.message is None
            &&& !left.slot.ready
            &&& left.owners == 1
            &&& left.reciever is Gone
            &&& left.sender == s.sender
        },
{
}

/// Each step moves its own end on and leaves the other one and the owners alone.
pub proof fn step_moves_its_own_end<T>(s: ChannelState<T>, message: T)
    ensures
        s.written(message).slot.message == Some(message),
        s.written(message).slot.ready == s.slot.ready,
        s.written(message).sender is Wrote,
        s.written(message).reciever == s.reciever,
        s.written(message).owners == s.owners,
        s.published().slot.message == s.slot.message,
        s.published().slot.ready,
        s.published().sender is Sent,
        s.published().reciever == s.reciever,
        s.published().owners == s.owners,
        s.taken().slot.message == s.slot.message,
        !s.taken().slot.ready,
        s.taken().sender == s.sender,
        s.slot.ready ==> s.taken().reciever is Took,
        !s.slot.ready ==> s.taken().reciever == s.reciever,
        s.taken().owners == s.owners,
        s.moved_out().slot.message is None,
        s.moved_out().slot.ready == s.slot.ready,
        s.moved_out().sender == s.sender,
        s.moved_out().reciever is Received,
        s.moved_out().owners == s.owners,
{
}

} // verus!
