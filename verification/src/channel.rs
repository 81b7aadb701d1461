//! The executable channel: the shared state and the handles that act on it.
//!
//! A handle is a capability, not an owner: every operation takes the shared
//! state by `&mut`, so the embedding decides how that state is shared (one
//! lock around a [`Shared`] is enough). Each operation is one critical
//! section and states exactly which transition of the model it performs.
//!
//! A channel closes when [`Shared::close`] is called, when its last sender
//! is released, or when its receiver is released. Releasing one of several
//! senders does not close it. Closing is final.
use crate::model::{ChannelError, Scheduled, State, Turn, Wake};
use core::marker::PhantomData;
use std::collections::VecDeque;
use vstd::prelude::*;

verus! {

/// A payload and the tick from which it may be delivered.
struct Event<T> {
    data: T,
    scheduled_time: u64,
}

impl<T> View for Event<T> {
    type V = Scheduled<T>;

    closed spec fn view(&self) -> Scheduled<T> {
        Scheduled { data: self.data, due: self.scheduled_time as nat }
    }
}

/// The state that all handles of one channel share.
pub struct Shared<T> {
    queue: VecDeque<Event<T>>,
    current_event: Option<Event<T>>,
    delay: u64,
    active: bool,
    senders: usize,
}

impl<T> View for Shared<T> {
    type V = State<T>;

    closed spec fn view(&self) -> State<T> {
        State {
            pending: match self.current_event {
                Some(e) => Some(e@),
                None => None,
            },
            ready: self.queue@.map_values(|e: Event<T>| e@),
            active: self.active,
            delay: self.delay as nat,
            senders: self.senders as nat,
        }
    }
}

/// A producer handle.
pub struct Sender<T> {
    marker: PhantomData<T>,
}

/// The consumer handle.
pub struct Receiver<T> {
    marker: PhantomData<T>,
}

/// Creates a channel with the given settle delay, in ticks: its two handles
/// and the state they share. The embedding starts the scheduler.
pub fn channel<T>(delay: u64) -> (r: (Sender<T>, Receiver<T>, Shared<T>))
    ensures
        r.2@ == State::<T>::new(delay as nat),
        r.2@.wf(),
{
    let shared = Shared {
        queue: VecDeque::new(),
        current_event: None,
        delay,
        active: true,
        senders: 1,
    };
    assert(shared@.ready =~= Seq::empty());
    (Sender { marker: PhantomData }, Receiver { marker: PhantomData }, shared)
}

impl<T> Shared<T> {
    /// Whether the channel is still open.
    pub fn is_active(&self) -> (active: bool)
        ensures
            active == self@.active,
    {
        self.active
    }

    /// The settle delay, in ticks.
    pub fn delay(&self) -> (delay: u64)
        ensures
            delay == self@.delay,
    {
        self.delay
    }

    /// The number of live sender handles.
    pub fn senders(&self) -> (senders: usize)
        ensures
            senders == self@.senders,
    {
        self.senders
    }

    /// Closes the channel. Closing a closed channel changes nothing and
    /// wakes nobody.
    pub fn close(&mut self) -> (wake: Wake)
        ensures
            final(self)@ == old(self)@.close(),
            wake == old(self)@.closing_wakes(final(self)@),
            old(self)@.wf() ==> final(self)@.wf(),
    {
        if self.active {
            self.active = false;
            Wake::Everyone
        } else {
            Wake::Nobody
        }
    }
}

impl<T> Sender<T> {
    /// Sends `data` with the settle delay: it replaces whatever is pending
    /// and becomes due `delay` ticks after `now`. On a closed channel
    /// nothing changes and `data` is dropped.
    pub fn send(&self, shared: &mut Shared<T>, data: T, now: u64) -> (r: Result<Wake, ChannelError>)
        requires
            old(shared)@.active ==> now + old(shared)@.delay <= u64::MAX,
        ensures
            r == old(shared)@.send_result(),
            final(shared)@ == old(shared)@.send(data, now as nat),
            old(shared)@.wf() ==> final(shared)@.wf(),
    {
        if !shared.active {
            return Err(ChannelError::ChannelClosed);
        }
        let scheduled_time: u64 = now + shared.delay;
        shared.current_event = Some(Event { data, scheduled_time });
        Ok(Wake::Scheduler)
    }

    /// Sends `data` without delay: it clears the pending slot and joins the
    /// ready queue at once. On a closed channel nothing changes and `data`
    /// is dropped.
    pub fn send_immediate(&self, shared: &mut Shared<T>, data: T, now: u64) -> (r: Result<
        Wake,
        ChannelError,
    >)
        ensures
            r == old(shared)@.send_immediate_result(),
            final(shared)@ == old(shared)@.send_immediate(data, now as nat),
            old(shared)@.wf() ==> final(shared)@.wf(),
    {
        if !shared.active {
            return Err(ChannelError::ChannelClosed);
        }
        shared.current_event = None;
        shared.queue.push_back(Event { data, scheduled_time: now });
        assert(shared@.ready =~= old(shared)@.ready.push(Scheduled { data, due: now as nat }));
        Ok(Wake::Receiver)
    }

    /// Duplicates the handle: the channel has one more sender.
    pub fn clone(&self, shared: &mut Shared<T>) -> (handle: Sender<T>)
        requires
            old(shared)@.senders < usize::MAX,
        ensures
            final(shared)@ == old(shared)@.add_sender(),
            old(shared)@.wf() ==> final(shared)@.wf(),
    {
        shared.senders = shared.senders + 1;
        Sender { marker: PhantomData }
    }

    /// Releases the handle. When the last sender goes, the channel closes.
    pub fn release(self, shared: &mut Shared<T>) -> (wake: Wake)
        ensures
            final(shared)@ == old(shared)@.drop_sender(),
            wake == old(shared)@.closing_wakes(final(shared)@),
            old(shared)@.wf() ==> final(shared)@.wf(),
    {
        if shared.senders <= 1 {
            shared.senders = 0;
            shared.close()
        } else {
            shared.senders = shared.senders - 1;
            Wake::Nobody
        }
    }
}

impl<T> Receiver<T> {
    /// Releases the handle, which closes the channel.
    pub fn release(self, shared: &mut Shared<T>) -> (wake: Wake)
        ensures
            final(shared)@ == old(shared)@.close(),
            wake == old(shared)@.closing_wakes(final(shared)@),
            old(shared)@.wf() ==> final(shared)@.wf(),
    {
        shared.close()
    }

    /// One attempt of a blocking read. `Ok(Some(..))` is the oldest ready
    /// payload. `Ok(None)` says that nothing is ready on an open channel:
    /// the caller waits to be woken and calls again.
    pub fn recv(&self, shared: &mut Shared<T>) -> (r: Result<Option<T>, ChannelError>)
        ensures
            r == old(shared)@.recv_result(),
            final(shared)@ == old(shared)@.take(),
            old(shared)@.wf() ==> final(shared)@.wf(),
    {
        match shared.queue.pop_front() {
            Some(event) => {
                assert(shared@.ready =~= old(shared)@.ready.drop_first());
                Ok(Some(event.data))
            },
            None => {
                assert(shared@.ready =~= old(shared)@.ready);
                if shared.active {
                    Ok(None)
                } else {
                    Err(ChannelError::ChannelClosed)
                }
            },
        }
    }

    /// A non-blocking read: the oldest ready payload, or the reason why
    /// there is none.
    pub fn try_recv(&self, shared: &mut Shared<T>) -> (r: Result<T, ChannelError>)
        ensures
            r == old(shared)@.try_recv_result(),
            final(shared)@ == old(shared)@.take(),
            old(shared)@.wf() ==> final(shared)@.wf(),
    {
        match shared.queue.pop_front() {
            Some(event) => {
                assert(shared@.ready =~= old(shared)@.ready.drop_first());
                Ok(event.data)
            },
            None => {
                assert(shared@.ready =~= old(shared)@.ready);
                if shared.active {
                    Err(ChannelError::Empty)
                } else {
                    Err(ChannelError::ChannelClosed)
                }
            },
        }
    }
}

/// One turn of the scheduler at time `now`, taken whenever it starts or
/// wakes. The result says how it waits for its next turn.
pub fn worker_thread<T>(shared: &mut Shared<T>, now: u64) -> (turn: Turn)
    ensures
        old(shared)@.turn_is(now as nat, turn),
        final(shared)@ == old(shared)@.wake(now as nat),
        old(shared)@.wf() ==> final(shared)@.wf(),
{
    if !shared.active {
        shared.current_event = None;
        return Turn::Exit;
    }
    match shared.current_event.take() {
        None => Turn::Park,
        Some(event) => {
            if event.scheduled_time <= now {
                shared.queue.push_back(event);
                assert(shared@.ready =~= old(shared)@.ready.push(event@));
                Turn::Promoted
            } else {
                let ticks: u64 = event.scheduled_time - now;
                shared.current_event = Some(event);
                Turn::Sleep(ticks)
            }
        },
    }
}

} // verus!
