//! What holds of the channel and of any number of senders and receivers, whatever order their
//! steps come in.

use crate::basic_channel::ChannelState;
use vstd::prelude::*;

verus! {

/// The channel, and what has gone through it so far.
#[verifier::ext_equal]
pub struct Traffic<T> {
    pub state: ChannelState<T>,
    /// The messages that have been sent, in the order in which they were queued.
    pub sent: Seq<T>,
    /// The messages that have been received, in the order in which they were taken.
    pub received: Seq<T>,
}

/// One step of some thread. Each is atomic: a turn is taken under the mutex.
pub enum Step<T> {
    /// A sender queues a message.
    Push { message: T },
    /// A sender notifies one sleeper.
    Notify,
    /// A receiver takes its first turn.
    Turn,
    /// A receiver wakes up and takes a turn.
    WakeTurn { spurious: bool },
    /// A receiver takes a message if there is one.
    Poll,
}

impl<T> Traffic<T> {
    /// A new channel.
    pub open spec fn fresh() -> Traffic<T> {
        Traffic { state: ChannelState::fresh(), sent: Seq::empty(), received: Seq::empty() }
    }

    /// Everything sent has been received or is in the queue, in order.
    pub open spec fn wf(self) -> bool {
        &&& self.state.wf()
        &&& self.sent == self.received + self.state.queue
    }
}

impl<T> Step<T> {
    /// Whether some thread can take the step now.
    pub open spec fn enabled(self, t: Traffic<T>) -> bool {
        match self {
            Step::Push { message } => true,
            Step::Notify => t.state.notifying > 0,
            Step::Turn => true,
            Step::WakeTurn { spurious } => if spurious {
                t.state.waiting > 0
            } else {
                t.state.notified > 0
            },
            Step::Poll => true,
        }
    }

    /// The state after the step.
    pub open spec fn apply(self, t: Traffic<T>) -> Traffic<T> {
        let taken = match t.state.front() {
            Some(message) => t.received.push(message),
            None => t.received,
        };
        match self {
            Step::Push { message } => Traffic {
                state: t.state.pushed(message),
                sent: t.sent.push(message),
                ..t
            },
            Step::Notify => Traffic { state: t.state.after_notify(), ..t },
            Step::Turn => Traffic { state: t.state.after_turn(), received: taken, ..t },
            Step::WakeTurn { spurious } => Traffic {
                state: t.state.woken(spurious).after_turn(),
                received: taken,
                ..t
            },
            Step::Poll => Traffic { state: t.state.popped(), received: taken, ..t },
        }
    }
}

/// `run` is a history of a channel: threads have taken `steps`, one after the other.
pub open spec fn is_run<T>(run: Seq<Traffic<T>>, steps: Seq<Step<T>>) -> bool {
    &&& run.len() == steps.len() + 1
    &&& run[0] == Traffic::<T>::fresh()
    &&& forall|i: int|
        0 <= i < steps.len() ==> (#[trigger] steps[i]).enabled(run[i]) && run[i + 1]
            == steps[i].apply(run[i])
}

/// Every step of every thread keeps what the threads rely on.
pub proof fn step_keeps_wf<T>(t: Traffic<T>, step: Step<T>)
    requires
        t.wf(),
        step.enabled(t),
    ensures
        step.apply(t).wf(),
{
    let after = step.apply(t);
    assert(after.sent =~= after.received + after.state.queue);
}

/// In whatever order threads take their steps, what they rely on holds throughout.
pub proof fn every_run_is_wf<T>(run: Seq<Traffic<T>>, steps: Seq<Step<T>>, i: int)
    requires
        is_run(run, steps),
        0 <= i < run.len(),
    ensures
        run[i].wf(),
    decreases i,
{
    if i == 0 {
        assert(run[0].sent =~= run[0].received + run[0].state.queue);
    } else {
        every_run_is_wf(run, steps, i - 1);
        step_keeps_wf(run[i - 1], steps[i - 1]);
    }
}

/// First in, first out, and each message once: what has been received is what was sent first, and
/// the rest is in the queue, and comes out when the channel is dropped.
pub proof fn received_is_prefix_of_sent<T>(run: Seq<Traffic<T>>, steps: Seq<Step<T>>, i: int)
    requires
        is_run(run, steps),
        0 <= i < run.len(),
    ensures
        run[i].received.is_prefix_of(run[i].sent),
        run[i].sent == run[i].received + run[i].state.queue,
        run[i].sent.len() == run[i].received.len() + run[i].state.queue.len(),
{
    every_run_is_wf(run, steps, i);
    let t = run[i];
    assert(t.received =~= (t.received + t.state.queue).take(t.received.len() as int));
}

/// No notification is lost: once the senders' calls are over, a receiver that sleeps while there
/// are messages is not needed for them, since as many others have been notified and take one on
/// their next turn.
pub proof fn no_lost_notification<T>(s: ChannelState<T>)
    requires
        s.wf(),
        s.notifying == 0,
        s.queue.len() > 0,
        s.waiting > 0,
    ensures
        s.notified >= s.queue.len(),
        s.woken(false).after_turn().queue.len() == s.queue.len() - 1,
        s.front() is Some,
{
}

/// A message sent into an empty channel is the next one out.
pub proof fn recv_gives_back_what_was_sent<T>(s: ChannelState<T>, message: T)
    requires
        s.wf(),
        s.queue.len() == 0,
    ensures
        s.pushed(message).after_notify().front() == Some(message),
        s.pushed(message).after_notify().popped().queue == s.queue,
{
    assert(s.pushed(message).after_notify().popped().queue =~= s.queue);
}

/// A receive and a send at a queue with messages do not disturb each other: they come to the same
/// in either order.
pub proof fn send_and_recv_commute<T>(s: ChannelState<T>, message: T)
    requires
        s.wf(),
        s.queue.len() > 0,
    ensures
        s.pushed(message).popped() == s.popped().pushed(message),
        s.pushed(message).front() == s.front(),
{
    assert(s.pushed(message).popped().queue =~= s.popped().pushed(message).queue);
}

/// A new channel has no message and no sleeper.
pub proof fn new_channel_is_empty<T>()
    ensures
        ChannelState::<T>::fresh().wf(),
        ChannelState::<T>::fresh().queue.len() == 0,
        ChannelState::<T>::fresh().front() is None,
        ChannelState::<T>::fresh().waiting == 0,
        ChannelState::<T>::fresh().notified == 0,
        ChannelState::<T>::fresh().notifying == 0,
{
}

/// A message that is pushed comes after all that are there, each of which keeps its place.
pub proof fn push_adds_at_the_end<T>(s: ChannelState<T>, message: T, i: int)
    ensures
        s.pushed(message).queue.len() == s.queue.len() + 1,
        s.pushed(message).queue[s.queue.len() as int] == message,
        0 <= i < s.queue.len() ==> s.pushed(message).queue[i] == s.queue[i],
        s.pushed(message).waiting == s.waiting,
        s.pushed(message).notified == s.notified,
        s.pushed(message).notifying == s.notifying + 1,
{
}

/// A receive takes the first message exactly if there is one, and each of the others moves up by one
/// place. It leaves the sleepers alone.
pub proof fn receive_takes_the_first<T>(s: ChannelState<T>, i: int)
    ensures
        s.front() is Some <==> s.queue.len() > 0,
        s.queue.len() > 0 ==> s.front() == Some(s.queue[0]) && s.popped().queue.len()
            == s.queue.len() - 1,
        0 < i < s.queue.len() ==> s.popped().queue[i - 1] == s.queue[i],
        s.queue.len() == 0 ==> s.popped() == s,
        s.popped().waiting == s.waiting,
        s.popped().notified == s.notified,
        s.popped().notifying == s.notifying,
{
}

/// A turn is a receive if there is a message, and otherwise one sleeper more.
pub proof fn turn_receives_or_sleeps<T>(s: ChannelState<T>)
    ensures
        s.front() is Some ==> s.after_turn() == s.popped(),
        s.front() is None ==> {
            &&& s.after_turn().queue == s.queue
            &&& s.after_turn().waiting == s.waiting + 1
            &&& s.after_turn().notified == s.notified
            &&& s.after_turn().notifying == s.notifying
        },
{
}

/// A notification gets one sleeper, if there is one, on its way back, and loses none. It leaves the
/// messages alone.
pub proof fn notify_gets_one_sleeper_back<T>(s: ChannelState<T>)
    requires
        s.notifying > 0,
    ensures
        s.after_notify().queue == s.queue,
        s.after_notify().waiting + s.after_notify().notified == s.waiting + s.notified,
        s.waiting > 0 <==> s.after_notify().notified == s.notified + 1,
        s.waiting == 0 ==> s.after_notify().notified == s.notified,
        s.after_notify().notifying == s.notifying - 1,
{
}

/// A receiver that wakes up is one sleeper less, of the sort that it was.
pub proof fn waking_is_one_sleeper_less<T>(s: ChannelState<T>)
    ensures
        s.waiting > 0 ==> {
            &&& s.woken(true).waiting == s.waiting - 1
            &&& s.woken(true).notified == s.notified
        },
        s.notified > 0 ==> {
            &&& s.woken(false).waiting == s.waiting
            &&& s.woken(false).notified == s.notified - 1
        },
        forall|spurious: bool| (#[trigger] s.woken(spurious)).queue == s.queue,
        forall|spurious: bool| (#[trigger] s.woken(spurious)).notifying == s.notifying,
{
}

/// However many messages are sent into an empty channel, the receives give them back one after the
/// other, oldest first: the message that was sent as number `k` comes out after `k` receives.
pub proof fn messages_come_out_as_they_went_in<T>(s: ChannelState<T>, messages: Seq<T>, k: int)
    requires
        s.queue.len() == 0,
        0 <= k < messages.len(),
    ensures
        pop_all(push_all(s, messages), k).front() == Some(messages[k]),
        pop_all(push_all(s, messages), messages.len() as int).front() is None,
{
    lemma_push_all(s, messages);
    lemma_pop_all(push_all(s, messages), k);
    lemma_pop_all(push_all(s, messages), messages.len() as int);
}

/// The channel after `messages` have been pushed, one after the other.
pub open spec fn push_all<T>(s: ChannelState<T>, messages: Seq<T>) -> ChannelState<T>
    decreases messages.len(),
{
    if messages.len() == 0 {
        s
    } else {
        push_all(s, messages.drop_last()).pushed(messages.last())
    }
}

/// The channel after `n` receives.
pub open spec fn pop_all<T>(s: ChannelState<T>, n: int) -> ChannelState<T>
    decreases n,
{
    if n <= 0 {
        s
    } else {
        pop_all(s, n - 1).popped()
    }
}

proof fn lemma_push_all<T>(s: ChannelState<T>, messages: Seq<T>)
    requires
        s.queue.len() == 0,
    ensures
        push_all(s, messages).queue == messages,
    decreases messages.len(),
{
    if messages.len() > 0 {
        lemma_push_all(s, messages.drop_last());
        assert(messages.drop_last().push(messages.last()) =~= messages);
    } else {
        assert(s.queue =~= messages);
    }
}

proof fn lemma_pop_all<T>(s: ChannelState<T>, n: int)
    requires
        0 <= n <= s.queue.len(),
    ensures
        pop_all(s, n).queue == s.queue.subrange(n, s.queue.len() as int),
    decreases n,
{
    if n > 0 {
        lemma_pop_all(s, n - 1);
        let before = pop_all(s, n - 1).queue;
        assert(before.subrange(1, before.len() as int) =~= s.queue.subrange(
            n,
            s.queue.len() as int,
        ));
    } else {
        assert(s.queue.subrange(0, s.queue.len() as int) =~= s.queue);
    }
}

} // verus!
