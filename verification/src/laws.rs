//! What holds of every channel, proved from the model.
use crate::model::{ChannelError, Scheduled, State, Turn, Wake};
use crate::trace::{
    history, monotone, no_send_between, payloads, sends, sends_turns_reads, sends_within,
    turns_reads, wakes_from, Op, Round, Step,
};
use vstd::prelude::*;

verus! {

/// A history in two parts runs as the first part, then the second.
pub proof fn lemma_run_split<T>(s: State<T>, first: Seq<Step<T>>, second: Seq<Step<T>>)
    ensures
        s.run(first + second) == s.run(first).run(second),
        s.received(first + second) == s.received(first) + s.run(first).received(second),
        s.visible(first + second) == s.received(first) + s.run(first).visible(second),
    decreases second.len(),
{
    if second.len() == 0 {
        assert(first + second =~= first);
        assert(s.received(first) + Seq::<T>::empty() =~= s.received(first));
    } else {
        assert((first + second).drop_last() =~= first + second.drop_last());
        assert((first + second).last() == second.last());
        lemma_run_split(s, first, second.drop_last());
        let got = s.received(first);
        let more = s.run(first).received(second.drop_last());
        let before = s.run(first).run(second.drop_last());
        if second.last().op is Recv && before.ready.len() > 0 {
            assert((got + more).push(before.ready[0].data) =~= got + more.push(
                before.ready[0].data,
            ));
        }
    }
    assert(s.received(first) + s.run(first).received(second) + payloads(
        s.run(first).run(second).ready,
    ) =~= s.received(first) + (s.run(first).received(second) + payloads(
        s.run(first).run(second).ready,
    )));
}

/// The settle delay is fixed: no history changes it.
pub proof fn lemma_delay_is_fixed<T>(s: State<T>, steps: Seq<Step<T>>)
    ensures
        s.run(steps).delay == s.delay,
    decreases steps.len(),
{
    if steps.len() > 0 {
        lemma_delay_is_fixed(s, steps.drop_last());
    }
}

/// A fresh channel is well formed, and every history of a well-formed
/// channel leaves it well formed.
pub proof fn lemma_well_formed<T>(delay: nat, s: State<T>, steps: Seq<Step<T>>)
    requires
        s.wf(),
    ensures
        State::<T>::new(delay).wf(),
        s.run(steps).wf(),
    decreases steps.len(),
{
    if steps.len() > 0 {
        lemma_well_formed(delay, s, steps.drop_last());
    }
}

/// What one operation adds to what receivers can see: a scheduler turn on
/// an open channel whose pending event is due adds that event's payload, an
/// immediate send on an open channel adds its payload, and nothing else
/// adds or removes anything.
pub proof fn lemma_visible_step<T>(s: State<T>, steps: Seq<Step<T>>, next: Step<T>)
    ensures
        s.visible(steps.push(next)) == ({
            let before = s.run(steps);
            match next.op {
                Op::Wake if before.active && before.due(next.at) => s.visible(steps).push(
                    before.pending->0.data,
                ),
                Op::SendImmediate(data) if before.active => s.visible(steps).push(data),
                _ => s.visible(steps),
            }
        }),
{
    assert(steps.push(next).drop_last() =~= steps);
    let before = s.run(steps);
    let got = s.received(steps);
    match next.op {
        Op::Wake => {
            if before.active && before.due(next.at) {
                assert(got + payloads(before.ready.push(before.pending->0)) =~= (got + payloads(
                    before.ready,
                )).push(before.pending->0.data));
            }
        },
        Op::SendImmediate(data) => {
            if before.active {
                assert(got + payloads(before.ready.push(Scheduled { data, due: next.at }))
                    =~= (got + payloads(before.ready)).push(data));
            }
        },
        Op::Recv => {
            if before.ready.len() > 0 {
                assert(got.push(before.ready[0].data) + payloads(before.ready.drop_first())
                    =~= got + payloads(before.ready));
            }
        },
        _ => {},
    }
}

/// First in, first out. What receivers see only ever grows at its end:
/// whatever a longer history shows them begins with what the shorter one
/// showed, so payloads come out in the order in which they became ready.
pub proof fn lemma_fifo<T>(s: State<T>, steps: Seq<Step<T>>, more: Seq<Step<T>>)
    ensures
        s.visible(steps).is_prefix_of(s.visible(steps + more)),
    decreases more.len(),
{
    if more.len() == 0 {
        assert(steps + more =~= steps);
    } else {
        lemma_fifo(s, steps, more.drop_last());
        lemma_visible_step(s, steps + more.drop_last(), more.last());
        assert((steps + more.drop_last()).push(more.last()) =~= steps + more);
    }
}

/// Nothing is duplicated. After any history, the events handed out and the
/// events still held are no more than the events held at the start and the
/// sends of the history.
pub proof fn lemma_no_duplication<T>(s: State<T>, steps: Seq<Step<T>>)
    ensures
        s.received(steps).len() + s.run(steps).held() <= s.held() + sends(steps),
    decreases steps.len(),
{
    if steps.len() > 0 {
        lemma_no_duplication(s, steps.drop_last());
    }
}

/// Nothing is ready early. In a history in which time never runs
/// backwards, on a channel that starts with nothing ready, every event in
/// the ready queue has reached its due time: an immediate send is due when
/// it is sent, a delayed one the settle delay later, and it is promoted no
/// sooner.
pub proof fn lemma_nothing_is_early<T>(s: State<T>, steps: Seq<Step<T>>)
    requires
        s.ready.len() == 0,
        monotone(steps),
    ensures
        forall|i: int|
            0 <= i < s.run(steps).ready.len() ==> steps.len() > 0 && (#[trigger] s.run(
                steps,
            ).ready[i]).due <= steps.last().at,
    decreases steps.len(),
{
    if steps.len() > 0 {
        let done = steps.drop_last();
        lemma_nothing_is_early(s, done);
        let before = s.run(done);
        let end = s.run(steps);
        assert forall|i: int| 0 <= i < end.ready.len() implies (#[trigger] end.ready[i]).due
            <= steps.last().at by {
            if steps.last().op is Recv {
                assert(end.ready[i] == before.ready[i + 1]);
            } else if i < before.ready.len() {
                assert(end.ready[i] == before.ready[i]);
            }
            if done.len() > 0 {
                assert(done.last().at == steps[steps.len() - 2].at);
            }
        }
    }
}

/// Last write wins. A delayed send on an open channel replaces whatever was
/// pending and leaves the ready queue alone, so of two sends in a row only
/// the second counts. A send on a closed channel fails and changes nothing:
/// no send is ever applied in part.
pub proof fn lemma_last_write_wins<T>(s: State<T>, first: T, at: nat, second: T, now: nat)
    ensures
        s.send(first, at).send(second, now) == s.send(second, now),
        s.send(second, now).ready == s.ready,
        s.active ==> s.send(second, now).pending == Some(
            Scheduled { data: second, due: now + s.delay },
        ),
        s.send_result() is Err ==> s.send(second, now) == s,
        s.send_immediate_result() is Err ==> s.send_immediate(second, now) == s,
{
}

/// The scheduler's turn leaves no choice: at most one `Turn` fits a state
/// and a time.
pub proof fn lemma_turn_is_unique<T>(s: State<T>, now: nat, a: Turn, b: Turn)
    requires
        s.turn_is(now, a),
        s.turn_is(now, b),
    ensures
        a == b,
{
}

/// The scheduler sleeps exactly as long as it has to. Where its turn at
/// time `now` says to sleep for `ticks`, the pending event is not due at any
/// time before `now + ticks`, and a turn at `now + ticks`, if no send came
/// in between, promotes it.
pub proof fn lemma_sleep_is_exact<T>(s: State<T>, now: nat, ticks: u64)
    requires
        s.turn_is(now, Turn::Sleep(ticks)),
    ensures
        ticks > 0,
        forall|t: nat| t < now + ticks ==> !#[trigger] s.due(t),
        ({
            let then = now + ticks as nat;
            &&& s.turn_is(then, Turn::Promoted)
            &&& s.wake(then).pending is None
            &&& s.wake(then).ready == s.ready.push(s.pending->0)
        }),
{
}

/// The position of the latest delayed send before position `k`, or -1.
spec fn last_send<T>(steps: Seq<Step<T>>, k: int) -> int
    decreases k,
{
    if k <= 0 {
        -1
    } else if steps[k - 1].op is Send {
        k - 1
    } else {
        last_send(steps, k - 1)
    }
}

/// The position of the first delayed send at or after position `k`, or the
/// length of the history.
spec fn next_send<T>(steps: Seq<Step<T>>, k: int) -> int
    decreases steps.len() - k,
{
    if k >= steps.len() {
        steps.len() as int
    } else if steps[k].op is Send {
        k
    } else {
        next_send(steps, k + 1)
    }
}

proof fn lemma_last_send<T>(steps: Seq<Step<T>>, k: int)
    requires
        0 <= k <= steps.len(),
    ensures
        -1 <= last_send(steps, k) < k,
        last_send(steps, k) >= 0 ==> steps[last_send(steps, k)].op is Send,
        no_send_between(steps, last_send(steps, k), k),
    decreases k,
{
    if k > 0 && !(steps[k - 1].op is Send) {
        lemma_last_send(steps, k - 1);
    }
}

proof fn lemma_next_send<T>(steps: Seq<Step<T>>, k: int)
    requires
        0 <= k <= steps.len(),
    ensures
        k <= next_send(steps, k) <= steps.len(),
        next_send(steps, k) < steps.len() ==> steps[next_send(steps, k)].op is Send,
        no_send_between(steps, k - 1, next_send(steps, k)),
        steps.len() > 0 && steps.last().op is Send ==> next_send(steps, k) < steps.len() || k
            == steps.len(),
    decreases steps.len() - k,
{
    if k < steps.len() && !(steps[k].op is Send) {
        lemma_next_send(steps, k + 1);
    }
}

/// Whether the history is a burst: delayed sends, scheduler turns and
/// reads in the order of time, the sends less than `gap` apart, a send last.
#[verifier::opaque]
spec fn is_burst<T>(steps: Seq<Step<T>>, gap: nat) -> bool {
    &&& steps.len() > 0
    &&& steps.last().op is Send
    &&& sends_turns_reads(steps)
    &&& monotone(steps)
    &&& sends_within(steps, gap)
}

/// Inside a burst, whatever follows a send and is no send itself comes
/// before that send is due: the next send does, and time does not run
/// backwards.
proof fn lemma_inside_burst<T>(steps: Seq<Step<T>>, gap: nat, k: int)
    requires
        is_burst(steps, gap),
        0 <= k < steps.len(),
    ensures
        steps[k].op is Send || steps[k].op is Wake || steps[k].op is Recv,
        !(steps[k].op is Send) && last_send(steps, k) >= 0 ==> steps[k].at < steps[last_send(
            steps,
            k,
        )].at + gap,
{
    reveal(is_burst);
    if !(steps[k].op is Send) && last_send(steps, k) >= 0 {
        let i = last_send(steps, k);
        let j = next_send(steps, k + 1);
        lemma_last_send(steps, k);
        lemma_next_send(steps, k + 1);
        assert(j < steps.len());
        assert forall|m: int| i < m < j implies !(#[trigger] steps[m].op is Send) by {
            if m < k {
                assert(no_send_between(steps, i, k));
            } else if m > k {
                assert(no_send_between(steps, k, j));
            }
        }
        assert(no_send_between(steps, i, j));
        assert(steps[i].op is Send && steps[j].op is Send);
        assert(steps[j].at < steps[i].at + gap);
        assert(steps[k].at <= steps[j].at);
    }
}

/// While a burst lasts, nothing of it gets through: after every prefix of
/// the burst the channel is open, the pending slot holds the latest send so
/// far, and receivers see what they saw before the burst.
proof fn lemma_burst_prefix<T>(s: State<T>, steps: Seq<Step<T>>, k: int)
    requires
        s.active,
        steps.len() > 0,
        is_burst(steps, s.delay),
        s.pending is None || steps[0].op is Send,
        0 <= k <= steps.len(),
    ensures
        ({
            let mid = s.run(steps.take(k));
            let i = last_send(steps, k);
            &&& mid.active
            &&& mid.delay == s.delay
            &&& s.visible(steps.take(k)) == payloads(s.ready)
            &&& mid.pending == if i < 0 {
                s.pending
            } else {
                Some(Scheduled { data: steps[i].op->Send_0, due: steps[i].at + s.delay })
            }
        }),
    decreases k,
{
    if k == 0 {
        assert(steps.take(0) =~= Seq::empty());
        assert(s.visible(steps.take(0)) =~= payloads(s.ready));
    } else {
        lemma_burst_prefix(s, steps, k - 1);
        let done = steps.take(k - 1);
        let next = steps[k - 1];
        assert(steps.take(k) =~= done.push(next));
        assert(done.push(next).drop_last() =~= done);
        lemma_visible_step(s, done, next);
        lemma_inside_burst(steps, s.delay, k - 1);
        let before = s.run(done);
        let i = last_send(steps, k - 1);
        assert(s.run(steps.take(k)) == before.step(next));
        if next.op is Wake {
            if i < 0 {
                // No send so far: the burst does not begin with one, so
                // nothing was pending to start with.
                if k - 1 > 0 {
                    lemma_no_send_yet(steps, k - 1, 1);
                }
                assert(!(steps[0].op is Send));
                assert(before.pending is None);
            } else {
                assert(!before.due(next.at));
            }
            assert(before.step(next) == before);
        }
    }
}

/// Where no send comes before position `k`, none comes before an earlier
/// position.
proof fn lemma_no_send_yet<T>(steps: Seq<Step<T>>, k: int, j: int)
    requires
        0 <= j <= k,
        last_send(steps, k) < 0,
    ensures
        last_send(steps, j) < 0,
    decreases k - j,
{
    if j < k {
        lemma_no_send_yet(steps, k - 1, j);
    }
}

/// A quiet stretch, with scheduler turns and reads only, on an open
/// channel. If something is pending and some turn happens at or after its
/// due time, it is promoted: the pending slot ends empty and receivers see
/// its payload after all they saw before. Otherwise nothing changes for
/// them and the pending slot is as it was.
pub proof fn lemma_quiet_stretch<T>(s: State<T>, steps: Seq<Step<T>>)
    requires
        s.active,
        turns_reads(steps),
    ensures
        ({
            let end = s.run(steps);
            &&& end.active
            &&& if s.pending is Some && wakes_from(steps, s.pending->0.due) {
                &&& end.pending is None
                &&& s.visible(steps) == payloads(s.ready).push(s.pending->0.data)
            } else {
                &&& end.pending == s.pending
                &&& s.visible(steps) == payloads(s.ready)
            }
        }),
    decreases steps.len(),
{
    if steps.len() == 0 {
        assert(s.visible(steps) =~= payloads(s.ready));
    } else {
        let done = steps.drop_last();
        let next = steps.last();
        lemma_quiet_stretch(s, done);
        lemma_visible_step(s, done, next);
        assert(done.push(next) =~= steps);
        if s.pending is Some {
            let due = s.pending->0.due;
            if wakes_from(done, due) {
                let k = choose|k: int| 0 <= k < done.len() && #[trigger] done[k].op is Wake && done[k].at >= due;
                assert(steps[k].op is Wake && steps[k].at >= due);
            } else if next.op is Wake && next.at >= due {
                assert(steps[steps.len() - 1].op is Wake);
            } else {
                if wakes_from(steps, due) {
                    let k = choose|k: int| 0 <= k < steps.len() && #[trigger] steps[k].op is Wake && steps[k].at >= due;
                    if k < done.len() {
                        assert(done[k].op is Wake && done[k].at >= due);
                    }
                }
            }
        }
    }
}

/// The coalescing law. Take an open channel and a burst: a history of
/// delayed sends, scheduler turns and reads in which time never runs
/// backwards, every delayed send but the first comes less than the settle
/// delay after the one before it, and a delayed send comes last. Nothing is
/// pending before the burst, or else the burst begins with a send, which
/// replaces what was. Let a quiet stretch of scheduler turns and reads
/// follow. Then all that receivers see of the burst is the payload of its
/// last send, and they see it only if the scheduler took a turn at or after
/// that send's due time, which is the settle delay after it was sent.
pub proof fn lemma_burst_coalesces<T>(s: State<T>, burst: Seq<Step<T>>, quiet: Seq<Step<T>>)
    requires
        s.active,
        burst.len() > 0,
        s.pending is None || burst[0].op is Send,
        burst.last().op is Send,
        sends_turns_reads(burst),
        monotone(burst),
        sends_within(burst, s.delay),
        turns_reads(quiet),
    ensures
        ({
            let last = Scheduled {
                data: burst.last().op->Send_0,
                due: burst.last().at + s.delay,
            };
            let end = s.run(burst + quiet);
            &&& end.active
            &&& if wakes_from(quiet, last.due) {
                &&& end.pending is None
                &&& s.visible(burst + quiet) == payloads(s.ready).push(last.data)
            } else {
                &&& end.pending == Some(last)
                &&& s.visible(burst + quiet) == payloads(s.ready)
            }
        }),
{
    let n = burst.len() as int;
    assert(is_burst(burst, s.delay)) by {
        reveal(is_burst);
    }
    lemma_burst_prefix(s, burst, n);
    assert(burst.take(n) =~= burst);
    assert(last_send(burst, n) == n - 1);
    let mid = s.run(burst);
    lemma_quiet_stretch(mid, quiet);
    lemma_run_split(s, burst, quiet);
    let got = s.received(burst);
    let data = burst.last().op->Send_0;
    assert(got + payloads(mid.ready).push(data) =~= (got + payloads(mid.ready)).push(data));
}

/// Burst after burst. On an open channel with nothing pending, let rounds
/// follow one another, each a burst and a quiet stretch in which the burst
/// settles. Then receivers see, after what they saw before, exactly one
/// payload for each round, in order: that of the round's last send.
pub proof fn lemma_rounds_coalesce<T>(s: State<T>, rounds: Seq<Round<T>>)
    requires
        s.active,
        s.pending is None,
        forall|i: int| 0 <= i < rounds.len() ==> (#[trigger] rounds[i]).settles(s.delay),
    ensures
        s.run(history(rounds)).active,
        s.run(history(rounds)).pending is None,
        s.visible(history(rounds)) == payloads(s.ready) + rounds.map_values(
            |r: Round<T>| r.last_payload(),
        ),
    decreases rounds.len(),
{
    let last_payloads = rounds.map_values(|r: Round<T>| r.last_payload());
    if rounds.len() == 0 {
        assert(s.visible(history(rounds)) =~= payloads(s.ready) + last_payloads);
    } else {
        let before = rounds.drop_last();
        let round = rounds.last();
        lemma_rounds_coalesce(s, before);
        let mid = s.run(history(before));
        lemma_delay_is_fixed(s, history(before));
        lemma_burst_coalesces(mid, round.burst, round.quiet);
        lemma_run_split(s, history(before), round.burst + round.quiet);
        let got = s.received(history(before));
        assert(got + payloads(mid.ready).push(round.last_payload()) =~= (got + payloads(
            mid.ready,
        )).push(round.last_payload()));
        assert((payloads(s.ready) + before.map_values(|r: Round<T>| r.last_payload())).push(
            round.last_payload(),
        ) =~= payloads(s.ready) + last_payloads);
    }
}

/// A history without reads hands out nothing.
proof fn lemma_no_reads<T>(s: State<T>, steps: Seq<Step<T>>)
    requires
        forall|k: int| 0 <= k < steps.len() ==> !(#[trigger] steps[k].op is Recv),
    ensures
        s.received(steps) == Seq::<T>::empty(),
    decreases steps.len(),
{
    if steps.len() > 0 {
        lemma_no_reads(s, steps.drop_last());
    }
}

/// The round trip of a lone send. On an open channel with nothing pending
/// and nothing ready, a delayed send at time `now` is followed by scheduler
/// turns. As long as every turn comes before `now + delay`, the turn asks
/// to sleep exactly until then, and a read finds nothing and is told to
/// wait. From the first turn at or after `now + delay` on, a read returns
/// exactly the payload that was sent.
pub proof fn lemma_round_trip<T>(s: State<T>, data: T, now: nat, turns: Seq<Step<T>>)
    requires
        s.active,
        s.pending is None,
        s.ready.len() == 0,
        forall|k: int| 0 <= k < turns.len() ==> #[trigger] turns[k].op is Wake,
    ensures
        ({
            let sent = s.send(data, now);
            let due = now + s.delay;
            let end = sent.run(turns);
            &&& s.send_result() == Ok::<Wake, ChannelError>(Wake::Scheduler)
            &&& forall|t: nat, ticks: u64|
                t < due ==> (#[trigger] sent.turn_is(t, Turn::Sleep(ticks)) <==> ticks == due - t)
            &&& wakes_from(turns, due) ==> {
                &&& end.recv_result() == Ok::<Option<T>, ChannelError>(Some(data))
                &&& end.try_recv_result() == Ok::<T, ChannelError>(data)
            }
            &&& !wakes_from(turns, due) ==> {
                &&& end.recv_result() == Ok::<Option<T>, ChannelError>(None)
                &&& end.try_recv_result() == Err::<T, ChannelError>(ChannelError::Empty)
            }
        }),
{
    let sent = s.send(data, now);
    lemma_quiet_stretch(sent, turns);
    lemma_no_reads(sent, turns);
    let end = sent.run(turns);
    assert(payloads(s.ready) =~= Seq::empty());
    assert(sent.visible(turns) =~= payloads(end.ready));
    if wakes_from(turns, now + s.delay) {
        assert(payloads(end.ready)[0] == data);
    } else {
        assert(payloads(end.ready).len() == 0);
    }
}

/// An immediate send on an open channel bypasses the delay: its payload is
/// at the tail of the ready queue at once, whatever the time and without a
/// turn of the scheduler, so on an empty queue the next read returns it.
pub proof fn lemma_send_immediate_bypasses_delay<T>(s: State<T>, data: T, now: nat)
    requires
        s.active,
    ensures
        ({
            let next = s.send_immediate(data, now);
            &&& s.send_immediate_result() == Ok::<Wake, ChannelError>(Wake::Receiver)
            &&& next.pending is None
            &&& next.ready == s.ready.push(Scheduled { data, due: now })
            &&& s.ready.len() == 0 ==> {
                &&& next.recv_result() == Ok::<Option<T>, ChannelError>(Some(data))
                &&& next.try_recv_result() == Ok::<T, ChannelError>(data)
            }
        }),
{
}

/// An immediate send invalidates the pending event: the channel goes on
/// exactly as if nothing had been pending, so no later history delivers
/// what was.
pub proof fn lemma_send_immediate_discards_pending<T>(
    s: State<T>,
    data: T,
    now: nat,
    later: Seq<Step<T>>,
)
    requires
        s.active,
    ensures
        ({
            let with = s.send_immediate(data, now);
            let without = State { pending: None, ..s }.send_immediate(data, now);
            &&& with == without
            &&& with.run(later) == without.run(later)
            &&& with.received(later) == without.received(later)
            &&& forall|t: nat| #[trigger] with.wake(t) == with && with.turn_is(t, Turn::Park)
        }),
{
}

/// Closing twice is closing once.
pub proof fn lemma_close_is_idempotent<T>(s: State<T>)
    ensures
        s.close().close() == s.close(),
        !s.active ==> s.close() == s,
{
}

/// Closing is terminal. Whatever happens to a closed channel, it stays
/// closed, every send fails with `ChannelClosed` and changes nothing, no
/// event enters the pending slot, and receivers see what was ready when it
/// closed and nothing more. Once the ready queue is drained, every read
/// fails with `ChannelClosed`.
pub proof fn lemma_closed_is_terminal<T>(s: State<T>, steps: Seq<Step<T>>)
    requires
        !s.active,
    ensures
        ({
            let end = s.run(steps);
            &&& !end.active
            &&& end.send_result() == Err::<Wake, ChannelError>(ChannelError::ChannelClosed)
            &&& end.send_immediate_result() == Err::<Wake, ChannelError>(
                ChannelError::ChannelClosed,
            )
            &&& end.closing_wakes(end.close()) == Wake::Nobody
            &&& forall|data: T, now: nat| #[trigger] end.send(data, now) == end
            &&& forall|data: T, now: nat| #[trigger] end.send_immediate(data, now) == end
            &&& end.pending is None || end.pending == s.pending
            &&& end.ready.len() <= s.ready.len()
            &&& s.visible(steps) == payloads(s.ready)
            &&& end.ready.len() == 0 ==> {
                &&& end.recv_result() == Err::<Option<T>, ChannelError>(
                    ChannelError::ChannelClosed,
                )
                &&& end.try_recv_result() == Err::<T, ChannelError>(ChannelError::ChannelClosed)
            }
        }),
    decreases steps.len(),
{
    if steps.len() == 0 {
        assert(s.visible(steps) =~= payloads(s.ready));
    } else {
        lemma_closed_is_terminal(s, steps.drop_last());
        lemma_visible_step(s, steps.drop_last(), steps.last());
        assert(steps.drop_last().push(steps.last()) =~= steps);
    }
}

/// A non-blocking read never waits. Where nothing is ready it changes
/// nothing and says at once why there is nothing: `Empty` on an open
/// channel, `ChannelClosed` on a closed one.
pub proof fn lemma_try_recv_on_empty<T>(s: State<T>)
    requires
        s.ready.len() == 0,
    ensures
        s.take() == s,
        s.active ==> s.try_recv_result() == Err::<T, ChannelError>(ChannelError::Empty),
        !s.active ==> s.try_recv_result() == Err::<T, ChannelError>(ChannelError::ChannelClosed),
{
}

} // verus!
