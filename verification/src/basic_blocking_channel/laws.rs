//! What holds of the channel and of its two threads, whatever order their steps come in.

use crate::message_cell::laws as exchange;
use crate::message_cell::laws::Exchange;
use vstd::prelude::*;

verus! {

/// The two threads at the cell, with the receiver's sleep.
#[verifier::ext_equal]
pub struct Session<T> {
    pub exchange: Exchange<T>,
    /// The sender has put the flag up and not yet unparked the receiver.
    pub unparking: bool,
    /// The receiver has found the flag down and called for sleep.
    pub parked: bool,
    /// The wake-up token of the receiving thread: a call for sleep ends at once if it is there.
    pub token: bool,
}

/// One atomic step of one of the two threads.
pub enum Step<T> {
    /// A step at the cell.
    Exchange(exchange::Step<T>),
    /// The sender unparks the receiver.
    Unpark,
    /// The receiver's sleep ends: because of the token, or for no reason.
    Wake { spurious: bool },
}

impl<T> Session<T> {
    /// A new channel, with both threads before their first call.
    pub open spec fn fresh() -> Session<T> {
        Session { exchange: Exchange::fresh(), unparking: false, parked: false, token: false }
    }

    /// A receiver that sleeps on a message has its wake-up, or the sender is about to give it.
    pub open spec fn wf(self) -> bool {
        &&& self.exchange.wf()
        &&& self.unparking ==> self.exchange.sender is Idle
        &&& self.parked ==> self.exchange.receiver is Idle
        &&& self.parked && self.exchange.slot.ready ==> self.token || self.unparking
    }
}

impl<T> Step<T> {
    /// Whether the thread can take the step now.
    pub open spec fn enabled(self, s: Session<T>) -> bool {
        match self {
            Step::Exchange(step) => {
                &&& step.enabled(s.exchange)
                &&& step is Write ==> !s.unparking
                &&& step is TakeReady ==> !s.parked
            },
            Step::Unpark => s.unparking,
            Step::Wake { spurious } => s.parked && (s.token || spurious),
        }
    }

    /// The step does not overtake a receive.
    pub open spec fn in_order(self, s: Session<T>) -> bool {
        self matches Step::Exchange(step) ==> step.in_order(s.exchange)
    }

    /// The state after the step.
    pub open spec fn apply(self, s: Session<T>) -> Session<T> {
        match self {
            Step::Exchange(step) => Session {
                exchange: step.apply(s.exchange),
                unparking: s.unparking || step is Publish,
                parked: s.parked || (step is TakeReady && !s.exchange.slot.ready),
                ..s
            },
            Step::Unpark => Session { unparking: false, token: true, ..s },
            Step::Wake { spurious } => Session { parked: false, token: false, ..s },
        }
    }
}

/// `run` is a history of a channel: the two threads have taken `steps`, one after the other.
pub open spec fn is_run<T>(run: Seq<Session<T>>, steps: Seq<Step<T>>) -> bool {
    &&& run.len() == steps.len() + 1
    &&& run[0] == Session::<T>::fresh()
    &&& forall|i: int|
        0 <= i < steps.len() ==> (#[trigger] steps[i]).enabled(run[i]) && run[i + 1]
            == steps[i].apply(run[i])
}

/// No send of a run overtakes a receive.
pub open spec fn run_in_order<T>(run: Seq<Session<T>>, steps: Seq<Step<T>>) -> bool {
    forall|i: int| 0 <= i < steps.len() ==> (#[trigger] steps[i]).in_order(run[i])
}

/// Every step that does not overtake a receive keeps what the two threads rely on.
pub proof fn step_keeps_wf<T>(s: Session<T>, step: Step<T>)
    requires
        s.wf(),
        step.enabled(s),
        step.in_order(s),
    ensures
        step.apply(s).wf(),
{
    if let Step::Exchange(inner) = step {
        exchange::step_keeps_wf(s.exchange, inner);
    }
}

/// In whatever order the two threads take their steps, what they rely on holds throughout, if no
/// send overtakes a receive.
pub proof fn every_run_is_wf<T>(run: Seq<Session<T>>, steps: Seq<Step<T>>, i: int)
    requires
        is_run(run, steps),
        run_in_order(run, steps),
        0 <= i < run.len(),
    ensures
        run[i].wf(),
    decreases i,
{
    if i == 0 {
        assert(run[0].exchange.sent =~= run[0].exchange.received + run[0].exchange.unread());
    } else {
        every_run_is_wf(run, steps, i - 1);
        step_keeps_wf(run[i - 1], steps[i - 1]);
    }
}

/// No wake-up is lost: once the sender's call is over, a receiver that sleeps while there is a
/// message has its token, and on its next turn takes the message.
pub proof fn no_lost_wake_up<T>(s: Session<T>)
    requires
        s.wf(),
        s.exchange.sender is Idle,
        !s.unparking,
        s.exchange.slot.ready,
        s.parked,
    ensures
        (Step::<T>::Wake { spurious: false }).enabled(s),
        ({
            let woken = (Step::<T>::Wake { spurious: false }).apply(s);
            let turn = Step::<T>::Exchange(exchange::Step::TakeReady);
            turn.enabled(woken) && turn.apply(woken).exchange.receiver is Took
        }),
{
}

/// The receiver returns from its loop with the message that was sent last, however often it woke
/// up without one before.
pub proof fn receiver_gets_the_message<T>(s: Session<T>)
    requires
        s.wf(),
        s.exchange.receiver is Took,
    ensures
        s.exchange.slot.message is Some,
        s.exchange.sent.len() > 0,
        s.exchange.slot.message->0 == s.exchange.sent.last(),
        exchange::Step::<T>::Read.apply(s.exchange).received == s.exchange.sent,
{
    exchange::read_finds_the_message(s.exchange);
}

} // verus!
