use vstd::prelude::*;

use crate::bridge::{
    elapsed, is_running, next, teardown, Action, Bridge, Event, FrameRead, Phase, Poll,
    TIMEOUT_MS,
};

verus! {

/// The session reached from `b` by the timed events `evs`, and the actions
/// handed back on the way.
pub open spec fn run(b: Bridge, evs: Seq<(Event, u64)>) -> (Bridge, Seq<Action>)
    decreases evs.len(),
{
    if evs.len() == 0 {
        (b, Seq::empty())
    } else {
        let (b1, a) = next(b, evs[0].0, evs[0].1);
        let (bn, rest) = run(b1, evs.drop_first());
        (bn, seq![a] + rest)
    }
}

/// How many times the actions ask for the read deadline to be cleared.
pub open spec fn clears(acts: Seq<Action>) -> nat
    decreases acts.len(),
{
    if acts.len() == 0 {
        0
    } else {
        (if acts[0] == Action::SetReadDeadline(None) { 1nat } else { 0nat }) + clears(
            acts.drop_first(),
        )
    }
}

/// How many times the actions ask for no-delay to be switched off.
pub open spec fn no_delay_offs(acts: Seq<Action>) -> nat
    decreases acts.len(),
{
    if acts.len() == 0 {
        0
    } else {
        (if acts[0] == Action::SetNoDelay(false) { 1nat } else { 0nat }) + no_delay_offs(
            acts.drop_first(),
        )
    }
}

/// The chunks that the actions send to the remote peer, in order.
pub open spec fn sent_chunks(acts: Seq<Action>) -> Seq<Vec<u8>>
    decreases acts.len(),
{
    if acts.len() == 0 {
        Seq::empty()
    } else {
        let rest = sent_chunks(acts.drop_first());
        match acts[0] {
            Action::SendRemote(c) => seq![c] + rest,
            _ => rest,
        }
    }
}

/// The events of one tick per chunk: the framed read times out, the poll
/// yields the chunk, and the send succeeds, all seen at the chunk's time.
pub open spec fn relay_events(chunks: Seq<Vec<u8>>, times: Seq<u64>) -> Seq<(Event, u64)>
    decreases chunks.len(),
{
    if chunks.len() == 0 || times.len() == 0 {
        Seq::empty()
    } else {
        seq![
            (Event::Frame(FrameRead::TimedOut), times[0]),
            (Event::Polled(Poll::Chunk(chunks[0])), times[0]),
            (Event::Sent(true), times[0]),
        ] + relay_events(chunks.drop_first(), times.drop_first())
    }
}

/// Whether each time comes before the inactivity timeout of the one before
/// it, the first measured from `since`.
pub open spec fn paced(since: u64, times: Seq<u64>) -> bool
    decreases times.len(),
{
    times.len() == 0 || (elapsed(since, times[0]) < TIMEOUT_MS && paced(
        times[0],
        times.drop_first(),
    ))
}

/// Whether events of this kind carry no data either way.
pub open spec fn is_idle(e: Event) -> bool {
    ||| e == Event::Frame(FrameRead::Other)
    ||| e == Event::Frame(FrameRead::TimedOut)
    ||| e == Event::Polled(Poll::Empty)
}

proof fn lemma_run_append(b: Bridge, xs: Seq<(Event, u64)>, ys: Seq<(Event, u64)>)
    ensures
        run(b, xs + ys) == (run(run(b, xs).0, ys).0, run(b, xs).1 + run(run(b, xs).0, ys).1),
    decreases xs.len(),
{
    if xs.len() == 0 {
        assert(xs + ys =~= ys);
        assert(run(b, xs).1 + run(b, ys).1 =~= run(b, ys).1);
    } else {
        let b1 = next(b, xs[0].0, xs[0].1).0;
        assert((xs + ys).drop_first() =~= xs.drop_first() + ys);
        lemma_run_append(b1, xs.drop_first(), ys);
        let a = next(b, xs[0].0, xs[0].1).1;
        let mid = run(b1, xs.drop_first());
        assert(seq![a] + (mid.1 + run(mid.0, ys).1) =~= (seq![a] + mid.1) + run(mid.0, ys).1);
    }
}

proof fn lemma_sent_append(xs: Seq<Action>, ys: Seq<Action>)
    ensures
        sent_chunks(xs + ys) == sent_chunks(xs) + sent_chunks(ys),
    decreases xs.len(),
{
    if xs.len() == 0 {
        assert(xs + ys =~= ys);
        assert(sent_chunks(xs) + sent_chunks(ys) =~= sent_chunks(ys));
    } else {
        assert((xs + ys).drop_first() =~= xs.drop_first() + ys);
        lemma_sent_append(xs.drop_first(), ys);
        let r = sent_chunks(xs.drop_first());
        match xs[0] {
            Action::SendRemote(c) => {
                assert(seq![c] + (r + sent_chunks(ys)) =~= (seq![c] + r) + sent_chunks(ys));
            },
            _ => {},
        }
    }
}

/// Chunks handed to a running session one per tick, each before the
/// inactivity timeout of the one before, are each sent as one binary
/// message, unchanged and in the order they came; the session keeps running.
pub proof fn relay_keeps_order(b: Bridge, chunks: Seq<Vec<u8>>, times: Seq<u64>)
    requires
        b.phase == Phase::Reading,
        times.len() == chunks.len(),
        paced(b.last_activity, times),
    ensures
        sent_chunks(run(b, relay_events(chunks, times)).1) == chunks,
        run(b, relay_events(chunks, times)).0.phase == Phase::Reading,
    decreases chunks.len(),
{
    let evs = relay_events(chunks, times);
    if chunks.len() == 0 {
        assert(sent_chunks(Seq::<Action>::empty()) =~= chunks);
    } else {
        let t = times[0];
        let c = chunks[0];
        let tick = seq![
            (Event::Frame(FrameRead::TimedOut), t),
            (Event::Polled(Poll::Chunk(c)), t),
            (Event::Sent(true), t),
        ];
        let rest = relay_events(chunks.drop_first(), times.drop_first());
        assert(evs == tick + rest);
        lemma_run_append(b, tick, rest);
        let b1 = Bridge { phase: Phase::Polling, ..b };
        let b2 = Bridge { phase: Phase::Sending, last_activity: t, ..b };
        let b3 = Bridge { phase: Phase::Reading, last_activity: t, ..b };
        assert(next(b, tick[0].0, t) == (b1, Action::PollOutbound));
        assert(next(b1, tick[1].0, t) == (b2, Action::SendRemote(c)));
        assert(next(b2, tick[2].0, t) == (b3, Action::ReadFrame));
        let t1 = tick.drop_first();
        let t2 = t1.drop_first();
        let t3 = t2.drop_first();
        assert(t1[0] == tick[1]);
        assert(t2[0] == tick[2]);
        assert(t3 =~= Seq::<(Event, u64)>::empty());
        let acts = seq![Action::PollOutbound, Action::SendRemote(c), Action::ReadFrame];
        assert(run(b3, t3) == (b3, Seq::<Action>::empty()));
        assert(run(b2, t2) == (b3, seq![Action::ReadFrame] + Seq::<Action>::empty()));
        assert(run(b1, t1) == (b3, seq![Action::SendRemote(c)] + run(b2, t2).1));
        assert(run(b, tick) == (b3, seq![Action::PollOutbound] + run(b1, t1).1));
        assert(run(b, tick).1 =~= acts);
        relay_keeps_order(b3, chunks.drop_first(), times.drop_first());
        let tail = run(b3, rest).1;
        lemma_sent_append(acts, tail);
        let a1 = acts.drop_first();
        let a2 = a1.drop_first();
        let a3 = a2.drop_first();
        assert(a1[0] == Action::SendRemote(c));
        assert(a2[0] == Action::ReadFrame);
        assert(a3 =~= Seq::<Action>::empty());
        assert(sent_chunks(a3) == Seq::<Vec<u8>>::empty());
        assert(sent_chunks(a2) == sent_chunks(a3));
        assert(sent_chunks(a1) == seq![c] + sent_chunks(a2));
        assert(sent_chunks(acts) == sent_chunks(a1));
        assert(sent_chunks(acts) =~= seq![c]);
        assert(seq![c] + chunks.drop_first() =~= chunks);
    }
}

/// Whether a phase comes after setup succeeded: running, tearing down, or
/// done.
pub open spec fn past_setup(p: Phase) -> bool {
    is_running(p) || p == Phase::ClearingDeadline || p == Phase::DisablingNoDelay || p
        == Phase::Done
}

/// A binary payload read from the transport is handed to the local sink
/// with the session clock untouched; the clock is reset only once the write
/// has completed, and a failed write ends the session.
pub proof fn clock_reset_after_write(b: Bridge, x: Vec<u8>, now: u64, later: u64)
    requires
        b.phase == Phase::Reading,
    ensures
        next(b, Event::Frame(FrameRead::Binary(x)), now) == (
        Bridge { phase: Phase::Writing, ..b },
        Action::WriteLocal(x),
        ),
        next(Bridge { phase: Phase::Writing, ..b }, Event::Written(true), later) == (
        Bridge { phase: Phase::Reading, last_activity: later, ..b },
        Action::ReadFrame,
        ),
        next(Bridge { phase: Phase::Writing, ..b }, Event::Written(false), later) == teardown(
            b,
        ),
{
}

/// Events that carry no data leave the session clock where it was.
pub proof fn idle_keeps_clock(b: Bridge, e: Event, now: u64)
    requires
        is_running(b.phase),
        is_idle(e),
    ensures
        next(b, e, now).0.last_activity == b.last_activity,
{
}

/// Once no data has flowed for the inactivity timeout, the next expired
/// read ends the running session: the read deadline is cleared, and after
/// the outcomes of the restoring steps, whatever they are, the session is
/// done.
pub proof fn inactivity_ends_session(b: Bridge, now: u64, ok1: bool, t1: u64, ok2: bool, t2: u64)
    requires
        b.phase == Phase::Reading,
        elapsed(b.last_activity, now) >= TIMEOUT_MS,
    ensures
        next(b, Event::Frame(FrameRead::TimedOut), now) == teardown(b),
        run(
            b,
            seq![
                (Event::Frame(FrameRead::TimedOut), now),
                (Event::Configured(ok1), t1),
                (Event::Configured(ok2), t2),
            ],
        ).0.phase == Phase::Done,
{
    let evs = seq![
        (Event::Frame(FrameRead::TimedOut), now),
        (Event::Configured(ok1), t1),
        (Event::Configured(ok2), t2),
    ];
    let e1 = evs.drop_first();
    let e2 = e1.drop_first();
    let e3 = e2.drop_first();
    assert(e1[0] == evs[1]);
    assert(e2[0] == evs[2]);
    assert(e3.len() == 0);
    let b1 = teardown(b).0;
    let b2 = next(b1, evs[1].0, t1).0;
    let b3 = next(b2, evs[2].0, t2).0;
    assert(b3.phase == Phase::Done);
    assert(run(b3, e3).0 == b3);
    assert(run(b2, e2).0 == b3);
    assert(run(b1, e1).0 == b3);
}

/// Whether no socket option failed to be set along the events.
pub open spec fn options_all_set(evs: Seq<(Event, u64)>) -> bool {
    forall|i: int| 0 <= i < evs.len() ==> evs[i].0 != Event::Configured(false)
}

/// Along any events after setup, the read deadline is cleared exactly once
/// if the session stops running and never otherwise, no-delay is switched
/// off at most once, and a session that has stopped running never runs
/// again. Where the session ends and every option was set, no-delay was
/// switched off exactly once.
pub proof fn teardown_once(b: Bridge, evs: Seq<(Event, u64)>)
    requires
        past_setup(b.phase),
    ensures
        past_setup(run(b, evs).0.phase),
        !is_running(b.phase) ==> !is_running(run(b, evs).0.phase),
        clears(run(b, evs).1) == (if is_running(b.phase) && !is_running(run(b, evs).0.phase) {
            1nat
        } else {
            0nat
        }),
        no_delay_offs(run(b, evs).1) <= 1,
        (b.phase == Phase::DisablingNoDelay || b.phase == Phase::Done) ==> no_delay_offs(
            run(b, evs).1,
        ) == 0,
        (is_running(b.phase) || b.phase == Phase::ClearingDeadline) && run(b, evs).0.phase
            == Phase::Done && options_all_set(evs) ==> no_delay_offs(run(b, evs).1) == 1,
    decreases evs.len(),
{
    if evs.len() > 0 {
        let (b1, a) = next(b, evs[0].0, evs[0].1);
        assert(options_all_set(evs) ==> options_all_set(evs.drop_first())) by {
            if options_all_set(evs) {
                assert forall|i: int| 0 <= i < evs.drop_first().len() implies evs.drop_first()[i].0
                    != Event::Configured(false) by {
                    assert(evs.drop_first()[i] == evs[i + 1]);
                }
            }
        }
        teardown_once(b1, evs.drop_first());
        let rest = run(b1, evs.drop_first()).1;
        let acts = seq![a] + rest;
        assert(acts.drop_first() =~= rest);
        assert(acts[0] == a);
    }
}

} // verus!
