use vstd::prelude::*;

use crate::echo::{echo_line, lossy_text, marker, Direction};

verus! {

/// How long one framed read may block before the loop polls the outbound
/// channel, in milliseconds.
pub const TICK_DURATION_MS: u64 = 10;

/// How long the session may go without data in either direction, in
/// milliseconds.
pub const TIMEOUT_MS: u64 = 60000;

/// Where the session stands: which outcome it waits for.
#[derive(Clone, Copy, Debug, PartialEq, Eq, Structural)]
pub enum Phase {
    /// Setup: waiting for the tick read deadline to be set.
    SettingDeadline,
    /// Setup: waiting for no-delay to be switched on.
    EnablingNoDelay,
    /// Running: waiting for a framed read.
    Reading,
    /// Running: waiting for a payload to be written to the local sink.
    Writing,
    /// Running: waiting for a poll of the outbound channel.
    Polling,
    /// Running: waiting for a chunk to be sent to the remote peer.
    Sending,
    /// Teardown: waiting for the read deadline to be cleared.
    ClearingDeadline,
    /// Teardown: waiting for no-delay to be switched off.
    DisablingNoDelay,
    /// The session is over; nothing more is done.
    Done,
}

/// What one framed read from the transport connection gave.
#[derive(Debug, PartialEq, Eq)]
pub enum FrameRead {
    /// A binary message with its payload.
    Binary(Vec<u8>),
    /// A message of another kind; it carries no relay data.
    Other,
    /// The read deadline expired before a frame arrived.
    TimedOut,
    /// Any other read error.
    Failed,
}

/// What a non-blocking poll of the outbound channel gave.
#[derive(Debug, PartialEq, Eq)]
pub enum Poll {
    /// No chunk is waiting.
    Empty,
    /// The producer has ended and every chunk has been taken.
    Disconnected,
    /// The next chunk, in the order it was read.
    Chunk(Vec<u8>),
}

/// The outcome of the action that the session asked for last.
#[derive(Debug, PartialEq, Eq)]
pub enum Event {
    /// A socket option was set (`true`) or could not be (`false`).
    Configured(bool),
    /// A framed read ended.
    Frame(FrameRead),
    /// A payload was written in full to the local sink (`true`) or not.
    Written(bool),
    /// The outbound channel was polled.
    Polled(Poll),
    /// A chunk was sent as a binary message (`true`) or not.
    Sent(bool),
}

/// What the driver of the session is to do next.
#[derive(Debug, PartialEq, Eq)]
pub enum Action {
    /// Set the transport's read deadline to this many milliseconds, or clear
    /// it (`None`).
    SetReadDeadline(Option<u64>),
    /// Switch the transport's no-delay option on or off.
    SetNoDelay(bool),
    /// Read one message from the transport connection.
    ReadFrame,
    /// Write this payload in full to the local sink.
    WriteLocal(Vec<u8>),
    /// Poll the outbound channel without blocking.
    PollOutbound,
    /// Send this chunk as one binary message.
    SendRemote(Vec<u8>),
    /// The session is over.
    Finish,
}

/// The decisions of one bridge session between a framed transport
/// connection and a duplex byte endpoint. The driver performs each action
/// that `step` hands back and feeds its outcome in as the next event.
#[derive(Clone, Copy, Debug)]
pub struct Bridge {
    /// What the session waits for.
    pub phase: Phase,
    /// When data last flowed in either direction, in milliseconds.
    pub last_activity: u64,
    /// Whether payloads are echoed to a diagnostic output.
    pub echo: bool,
}

/// Whether a phase belongs to the running session.
pub open spec fn is_running(p: Phase) -> bool {
    p == Phase::Reading || p == Phase::Writing || p == Phase::Polling || p == Phase::Sending
}

/// Milliseconds from `since` to `now`; none where the clock reads earlier.
pub open spec fn elapsed(since: u64, now: u64) -> int {
    if now >= since {
        now - since
    } else {
        0
    }
}

/// Whether `e` is an outcome of the action that a session in phase `p`
/// asked for.
pub open spec fn accepts(p: Phase, e: Event) -> bool {
    match p {
        Phase::SettingDeadline | Phase::EnablingNoDelay | Phase::ClearingDeadline
        | Phase::DisablingNoDelay => e is Configured,
        Phase::Reading => e is Frame,
        Phase::Writing => e is Written,
        Phase::Polling => e is Polled,
        Phase::Sending => e is Sent,
        Phase::Done => false,
    }
}

/// The session in phase `p`, the rest unchanged.
pub open spec fn with_phase(b: Bridge, p: Phase) -> Bridge {
    Bridge { phase: p, ..b }
}

/// The session in phase `p`, with data seen at `now`.
pub open spec fn active_at(b: Bridge, p: Phase, now: u64) -> Bridge {
    Bridge { phase: p, last_activity: now, ..b }
}

/// Entering teardown: the read deadline is cleared first.
pub open spec fn teardown(b: Bridge) -> (Bridge, Action) {
    (with_phase(b, Phase::ClearingDeadline), Action::SetReadDeadline(None))
}

/// Ending the session.
pub open spec fn finish(b: Bridge) -> (Bridge, Action) {
    (with_phase(b, Phase::Done), Action::Finish)
}

/// The session and the action that follow event `e`, seen at `now`. An
/// event that the phase does not accept changes nothing.
pub open spec fn next(b: Bridge, e: Event, now: u64) -> (Bridge, Action) {
    match (b.phase, e) {
        (Phase::SettingDeadline, Event::Configured(ok)) => if ok {
            (with_phase(b, Phase::EnablingNoDelay), Action::SetNoDelay(true))
        } else {
            finish(b)
        },
        (Phase::EnablingNoDelay, Event::Configured(ok)) => if ok {
            (active_at(b, Phase::Reading, now), Action::ReadFrame)
        } else {
            finish(b)
        },
        (Phase::Reading, Event::Frame(f)) => match f {
            FrameRead::Binary(x) => (with_phase(b, Phase::Writing), Action::WriteLocal(x)),
            FrameRead::Other => (b, Action::ReadFrame),
            FrameRead::TimedOut => if elapsed(b.last_activity, now) >= TIMEOUT_MS {
                teardown(b)
            } else {
                (with_phase(b, Phase::Polling), Action::PollOutbound)
            },
            FrameRead::Failed => teardown(b),
        },
        (Phase::Writing, Event::Written(ok)) => if ok {
            (active_at(b, Phase::Reading, now), Action::ReadFrame)
        } else {
            teardown(b)
        },
        (Phase::Polling, Event::Polled(q)) => match q {
            Poll::Empty => (with_phase(b, Phase::Reading), Action::ReadFrame),
            Poll::Disconnected => teardown(b),
            Poll::Chunk(c) => (active_at(b, Phase::Sending, now), Action::SendRemote(c)),
        },
        (Phase::Sending, Event::Sent(ok)) => if ok {
            (with_phase(b, Phase::Reading), Action::ReadFrame)
        } else {
            teardown(b)
        },
        (Phase::ClearingDeadline, Event::Configured(ok)) => if ok {
            (with_phase(b, Phase::DisablingNoDelay), Action::SetNoDelay(false))
        } else {
            finish(b)
        },
        (Phase::DisablingNoDelay, Event::Configured(_)) => finish(b),
        _ => (b, Action::Finish),
    }
}

impl Bridge {
    /// A session about to be set up, and its first action: set the read
    /// deadline to one tick.
    pub fn new(echo: bool, now: u64) -> (r: (Bridge, Action))
        ensures
            r.0 == (Bridge { phase: Phase::SettingDeadline, last_activity: now, echo }),
            r.1 == Action::SetReadDeadline(Some(TICK_DURATION_MS)),
    {
        (
            Bridge { phase: Phase::SettingDeadline, last_activity: now, echo },
            Action::SetReadDeadline(Some(TICK_DURATION_MS)),
        )
    }

    /// The line to echo for a payload going in direction `dir`, where echo
    /// is on.
    pub fn echo_text(&self, dir: Direction, payload: &[u8]) -> (r: Option<String>)
        ensures
            r is Some <==> self.echo,
            r matches Some(t) ==> t@ == marker(dir) + lossy_text(payload@),
    {
        if self.echo {
            Some(echo_line(dir, payload))
        } else {
            None
        }
    }

    /// Whether the session has ended.
    pub fn is_done(&self) -> (r: bool)
        ensures
            r == (self.phase == Phase::Done),
    {
        self.phase == Phase::Done
    }

    /// Whether `e` is an outcome of the action that the session asked for.
    pub fn accepts(&self, e: &Event) -> (r: bool)
        ensures
            r == accepts(self.phase, *e),
    {
        match self.phase {
            Phase::SettingDeadline | Phase::EnablingNoDelay | Phase::ClearingDeadline
            | Phase::DisablingNoDelay => matches!(e, Event::Configured(_)),
            Phase::Reading => matches!(e, Event::Frame(_)),
            Phase::Writing => matches!(e, Event::Written(_)),
            Phase::Polling => matches!(e, Event::Polled(_)),
            Phase::Sending => matches!(e, Event::Sent(_)),
            Phase::Done => false,
        }
    }

    fn enter(&mut self, p: Phase)
        ensures
            *final(self) == with_phase(*old(self), p),
    {
        self.phase = p;
    }

    fn enter_active(&mut self, p: Phase, now: u64)
        ensures
            *final(self) == active_at(*old(self), p, now),
    {
        self.phase = p;
        self.last_activity = now;
    }

    fn begin_teardown(&mut self) -> (r: Action)
        ensures
            (*final(self), r) == teardown(*old(self)),
    {
        self.enter(Phase::ClearingDeadline);
        Action::SetReadDeadline(None)
    }

    fn end(&mut self) -> (r: Action)
        ensures
            (*final(self), r) == finish(*old(self)),
    {
        self.enter(Phase::Done);
        Action::Finish
    }

    /// Takes the outcome `e` of the last action, seen at `now`, and returns
    /// the next action.
    pub fn step(&mut self, e: Event, now: u64) -> (r: Action)
        requires
            accepts(old(self).phase, e),
        ensures
            (*final(self), r) == next(*old(self), e, now),
    {
        match e {
            Event::Configured(ok) => match self.phase {
                Phase::SettingDeadline => if ok {
                    self.enter(Phase::EnablingNoDelay);
                    Action::SetNoDelay(true)
                } else {
                    self.end()
                },
                Phase::EnablingNoDelay => if ok {
                    self.enter_active(Phase::Reading, now);
                    Action::ReadFrame
                } else {
                    self.end()
                },
                Phase::ClearingDeadline => if ok {
                    self.enter(Phase::DisablingNoDelay);
                    Action::SetNoDelay(false)
                } else {
                    self.end()
                },
                _ => self.end(),
            },
            Event::Frame(f) => match f {
                FrameRead::Binary(x) => {
                    self.enter(Phase::Writing);
                    Action::WriteLocal(x)
                },
                FrameRead::Other => Action::ReadFrame,
                FrameRead::TimedOut => {
                    let idle: u64 = if now >= self.last_activity {
                        now - self.last_activity
                    } else {
                        0
                    };
                    if idle >= TIMEOUT_MS {
                        self.begin_teardown()
                    } else {
                        self.enter(Phase::Polling);
                        Action::PollOutbound
                    }
                },
                FrameRead::Failed => self.begin_teardown(),
            },
            Event::Written(ok) => if ok {
                self.enter_active(Phase::Reading, now);
                Action::ReadFrame
            } else {
                self.begin_teardown()
            },
            Event::Polled(q) => match q {
                Poll::Empty => {
                    self.enter(Phase::Reading);
                    Action::ReadFrame
                },
                Poll::Disconnected => self.begin_teardown(),
                Poll::Chunk(c) => {
                    self.enter_active(Phase::Sending, now);
                    Action::SendRemote(c)
                },
            },
            Event::Sent(ok) => if ok {
                self.enter(Phase::Reading);
                Action::ReadFrame
            } else {
                self.begin_teardown()
            },
        }
    }
}

} // verus!
