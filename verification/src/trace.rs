//! Histories of a channel: sequences of timed operations, and what a
//! receiver gets to see of them.
use crate::model::{Scheduled, State};
use vstd::prelude::*;

verus! {

/// One operation on a channel.
pub enum Op<T> {
    /// A delayed send of the payload.
    Send(T),
    /// An immediate send of the payload.
    SendImmediate(T),
    /// A turn of the scheduler.
    Wake,
    /// A read, blocking or not: both take the oldest ready event, if any.
    Recv,
    /// An explicit close, or the release of the receiver.
    Close,
    /// The duplication of a sender handle.
    AddSender,
    /// The release of a sender handle.
    DropSender,
}

/// An operation and the time at which it happens.
pub struct Step<T> {
    pub at: nat,
    pub op: Op<T>,
}

/// The payloads of a queue of events, in order.
pub open spec fn payloads<T>(events: Seq<Scheduled<T>>) -> Seq<T> {
    events.map_values(|e: Scheduled<T>| e.data)
}

impl<T> State<T> {
    /// The state after one operation.
    pub open spec fn step(self, s: Step<T>) -> Self {
        match s.op {
            Op::Send(data) => self.send(data, s.at),
            Op::SendImmediate(data) => self.send_immediate(data, s.at),
            Op::Wake => self.wake(s.at),
            Op::Recv => self.take(),
            Op::Close => self.close(),
            Op::AddSender => self.add_sender(),
            Op::DropSender => self.drop_sender(),
        }
    }

    /// The state after a history, oldest operation first.
    pub open spec fn run(self, steps: Seq<Step<T>>) -> Self
        decreases steps.len(),
    {
        if steps.len() == 0 {
            self
        } else {
            self.run(steps.drop_last()).step(steps.last())
        }
    }

    /// The payloads that the reads of a history have handed out, in order.
    pub open spec fn received(self, steps: Seq<Step<T>>) -> Seq<T>
        decreases steps.len(),
    {
        if steps.len() == 0 {
            Seq::empty()
        } else {
            let before = self.run(steps.drop_last());
            let got = self.received(steps.drop_last());
            if steps.last().op is Recv && before.ready.len() > 0 {
                got.push(before.ready[0].data)
            } else {
                got
            }
        }
    }

    /// The number of events that the channel holds, pending or ready.
    pub open spec fn held(self) -> nat {
        self.ready.len() + if self.pending is Some {
            1nat
        } else {
            0nat
        }
    }

    /// Everything that receivers have seen or can still see after a
    /// history: what the reads handed out, then what is ready.
    pub open spec fn visible(self, steps: Seq<Step<T>>) -> Seq<T> {
        self.received(steps) + payloads(self.run(steps).ready)
    }
}

/// The number of sends, delayed or immediate, in a history.
pub open spec fn sends<T>(steps: Seq<Step<T>>) -> nat
    decreases steps.len(),
{
    if steps.len() == 0 {
        0
    } else if steps.last().op is Send || steps.last().op is SendImmediate {
        sends(steps.drop_last()) + 1
    } else {
        sends(steps.drop_last())
    }
}

/// Time never runs backwards in the history.
pub open spec fn monotone<T>(steps: Seq<Step<T>>) -> bool {
    forall|i: int, j: int| 0 <= i <= j < steps.len() ==> steps[i].at <= steps[j].at
}

/// No delayed send happens strictly between positions `i` and `j`.
pub open spec fn no_send_between<T>(steps: Seq<Step<T>>, i: int, j: int) -> bool {
    forall|k: int| i < k < j ==> !(#[trigger] steps[k].op is Send)
}

/// Every delayed send but the first comes less than `gap` after the
/// delayed send before it.
pub open spec fn sends_within<T>(steps: Seq<Step<T>>, gap: nat) -> bool {
    forall|i: int, j: int|
        0 <= i < j < steps.len() && #[trigger] steps[i].op is Send && #[trigger] steps[j].op is Send
            && no_send_between(steps, i, j) ==> steps[j].at < steps[i].at + gap
}

/// The history holds nothing but delayed sends, scheduler turns and reads.
pub open spec fn sends_turns_reads<T>(steps: Seq<Step<T>>) -> bool {
    forall|k: int|
        0 <= k < steps.len() ==> (#[trigger] steps[k].op is Send) || steps[k].op is Wake
            || steps[k].op is Recv
}

/// The history holds nothing but scheduler turns and reads.
pub open spec fn turns_reads<T>(steps: Seq<Step<T>>) -> bool {
    forall|k: int| 0 <= k < steps.len() ==> (#[trigger] steps[k].op is Wake) || steps[k].op is Recv
}

/// Some scheduler turn of the history happens at or after `due`.
pub open spec fn wakes_from<T>(steps: Seq<Step<T>>, due: nat) -> bool {
    exists|k: int| 0 <= k < steps.len() && #[trigger] steps[k].op is Wake && steps[k].at >= due
}

/// A burst and the quiet stretch after it.
pub struct Round<T> {
    pub burst: Seq<Step<T>>,
    pub quiet: Seq<Step<T>>,
}

impl<T> Round<T> {
    /// The burst is one: delayed sends, scheduler turns and reads, in the
    /// order of time, the sends less than `delay` apart, a send last. The
    /// quiet stretch holds scheduler turns and reads only, and one of its
    /// turns comes at or after the due time of the burst's last send.
    pub open spec fn settles(self, delay: nat) -> bool {
        &&& self.burst.len() > 0
        &&& self.burst.last().op is Send
        &&& sends_turns_reads(self.burst)
        &&& monotone(self.burst)
        &&& sends_within(self.burst, delay)
        &&& turns_reads(self.quiet)
        &&& wakes_from(self.quiet, self.burst.last().at + delay)
    }

    /// The payload of the burst's last send.
    pub open spec fn last_payload(self) -> T {
        self.burst.last().op->Send_0
    }
}

/// The history that the rounds make, one after the other.
pub open spec fn history<T>(rounds: Seq<Round<T>>) -> Seq<Step<T>>
    decreases rounds.len(),
{
    if rounds.len() == 0 {
        Seq::empty()
    } else {
        history(rounds.drop_last()) + (rounds.last().burst + rounds.last().quiet)
    }
}

} // verus!
