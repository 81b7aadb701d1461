//! The mathematical model of the channel: its state and its transitions.
//!
//! Time is counted in ticks of a clock that never runs backwards. The model
//! counts them without bound; the machine holds them in a `u64`.
use vstd::prelude::*;

verus! {

/// An event as the model sees it: a payload and the instant from which it
/// may be delivered.
pub struct Scheduled<T> {
    pub data: T,
    pub due: nat,
}

/// Why an operation on the channel did not succeed.
#[derive(Debug, PartialEq, Eq, Clone, Copy, Structural)]
pub enum ChannelError {
    /// The channel is closed (and, for a read, drained).
    ChannelClosed,
    /// A non-blocking read found nothing ready on an open channel.
    Empty,
}

impl ChannelError {
    /// The text of the error.
    pub open spec fn text(self) -> Seq<char> {
        match self {
            ChannelError::ChannelClosed => "Channel is closed"@,
            ChannelError::Empty => "Channel is empty"@,
        }
    }

    /// The text of the error, for the embedding to report.
    pub fn message(&self) -> (text: &'static str)
        ensures
            text@ == self.text(),
    {
        match self {
            ChannelError::ChannelClosed => "Channel is closed",
            ChannelError::Empty => "Channel is empty",
        }
    }
}

/// Whom the caller has to wake once an operation is done.
#[derive(Debug, PartialEq, Eq, Clone, Copy, Structural)]
pub enum Wake {
    /// Nobody: nothing changed for anyone who waits.
    Nobody,
    /// The scheduler: the pending slot has changed.
    Scheduler,
    /// One receiver: the ready queue has grown.
    Receiver,
    /// Everyone who waits, scheduler and receivers: the channel has closed.
    Everyone,
}

/// What the scheduler has to do after one of its turns.
#[derive(Debug, PartialEq, Eq, Clone, Copy, Structural)]
pub enum Turn {
    /// The channel is closed: the scheduler terminates.
    Exit,
    /// Nothing is pending: block until woken.
    Park,
    /// The pending event is not due yet: block until woken, at most for
    /// this many ticks.
    Sleep(u64),
    /// The pending event was due and has been moved to the ready queue:
    /// wake one receiver, then take the next turn.
    Promoted,
}

impl Turn {
    /// Whom the scheduler has to wake after the turn: one receiver after a
    /// promotion, nobody otherwise.
    pub open spec fn wakes(self) -> Wake {
        if self is Promoted {
            Wake::Receiver
        } else {
            Wake::Nobody
        }
    }

    /// Whom the scheduler has to wake after the turn.
    pub fn wake(&self) -> (wake: Wake)
        ensures
            wake == self.wakes(),
    {
        match self {
            Turn::Promoted => Wake::Receiver,
            _ => Wake::Nobody,
        }
    }
}

/// The whole state of a channel.
pub struct State<T> {
    /// The pending slot: the latest event that has not matured yet.
    pub pending: Option<Scheduled<T>>,
    /// The ready queue, oldest first.
    pub ready: Seq<Scheduled<T>>,
    /// The active flag. Once false it stays false.
    pub active: bool,
    /// The settle delay, fixed at construction.
    pub delay: nat,
    /// The number of live sender handles.
    pub senders: nat,
}

impl<T> State<T> {
    /// A fresh channel: open, empty, with one sender.
    pub open spec fn new(delay: nat) -> Self {
        State { pending: None, ready: Seq::empty(), active: true, delay, senders: 1 }
    }

    /// An open channel has at least one sender.
    pub open spec fn wf(self) -> bool {
        self.active ==> self.senders > 0
    }

    /// A delayed send at time `now`: on an open channel the pending slot is
    /// overwritten, whatever it held; a closed channel does not change.
    pub open spec fn send(self, data: T, now: nat) -> Self {
        if self.active {
            State { pending: Some(Scheduled { data, due: now + self.delay }), ..self }
        } else {
            self
        }
    }

    /// An immediate send at time `now`: on an open channel the pending slot
    /// is cleared and the event joins the ready queue, due at once.
    pub open spec fn send_immediate(self, data: T, now: nat) -> Self {
        if self.active {
            State { pending: None, ready: self.ready.push(Scheduled { data, due: now }), ..self }
        } else {
            self
        }
    }

    /// What a delayed send returns: on an open channel, the order to wake
    /// the scheduler.
    pub open spec fn send_result(self) -> Result<Wake, ChannelError> {
        if self.active {
            Ok(Wake::Scheduler)
        } else {
            Err(ChannelError::ChannelClosed)
        }
    }

    /// What an immediate send returns: on an open channel, the order to
    /// wake a receiver.
    pub open spec fn send_immediate_result(self) -> Result<Wake, ChannelError> {
        if self.active {
            Ok(Wake::Receiver)
        } else {
            Err(ChannelError::ChannelClosed)
        }
    }

    /// Whether, at time `now`, a pending event waits that has matured.
    pub open spec fn due(self, now: nat) -> bool {
        self.pending matches Some(e) && e.due <= now
    }

    /// One turn of the scheduler at time `now`. Closed: the pending event,
    /// if any, is discarded. Open: a pending event that is due moves to the
    /// tail of the ready queue; otherwise nothing changes.
    pub open spec fn wake(self, now: nat) -> Self {
        if !self.active {
            State { pending: None, ..self }
        } else if self.due(now) {
            State { pending: None, ready: self.ready.push(self.pending->0), ..self }
        } else {
            self
        }
    }

    /// Whether `turn` is what the scheduler has to do after its turn at
    /// time `now`. Exactly one `Turn` fits each state and time that the
    /// machine can represent.
    pub open spec fn turn_is(self, now: nat, turn: Turn) -> bool {
        match turn {
            Turn::Exit => !self.active,
            Turn::Park => self.active && self.pending is None,
            Turn::Sleep(ticks) => self.active && self.pending is Some && !self.due(now) && ticks
                == self.pending->0.due - now,
            Turn::Promoted => self.active && self.due(now),
        }
    }

    /// A read: the oldest ready event, if there is one, leaves the queue.
    pub open spec fn take(self) -> Self {
        if self.ready.len() > 0 {
            State { ready: self.ready.drop_first(), ..self }
        } else {
            self
        }
    }

    /// What a blocking read returns on its current attempt: the oldest
    /// ready payload; `None` where the caller has to wait and try again;
    /// the error once the channel is closed and drained.
    pub open spec fn recv_result(self) -> Result<Option<T>, ChannelError> {
        if self.ready.len() > 0 {
            Ok(Some(self.ready[0].data))
        } else if self.active {
            Ok(None)
        } else {
            Err(ChannelError::ChannelClosed)
        }
    }

    /// What a non-blocking read returns.
    pub open spec fn try_recv_result(self) -> Result<T, ChannelError> {
        if self.ready.len() > 0 {
            Ok(self.ready[0].data)
        } else if self.active {
            Err(ChannelError::Empty)
        } else {
            Err(ChannelError::ChannelClosed)
        }
    }

    /// Closing: the active flag goes false. Nothing else changes.
    pub open spec fn close(self) -> Self {
        State { active: false, ..self }
    }

    /// Whom to wake after an operation that may have closed the channel:
    /// everyone if it did, nobody if the channel is as open or as closed as
    /// it was.
    pub open spec fn closing_wakes(self, next: Self) -> Wake {
        if self.active && !next.active {
            Wake::Everyone
        } else {
            Wake::Nobody
        }
    }

    /// A sender handle is duplicated.
    pub open spec fn add_sender(self) -> Self {
        State { senders: self.senders + 1, ..self }
    }

    /// A sender handle is released. The last one to go closes the channel.
    pub open spec fn drop_sender(self) -> Self {
        if self.senders <= 1 {
            State { senders: 0, active: false, ..self }
        } else {
            State { senders: (self.senders - 1) as nat, ..self }
        }
    }
}

} // verus!
