use rtal::bridge::{Action, Bridge, Event, FrameRead, Phase, Poll, TICK_DURATION_MS, TIMEOUT_MS};
use rtal::echo::Direction;
use rtal::pump::{next_chunk, BUFFER_SIZE};

fn running(echo: bool, now: u64) -> Bridge {
    let (mut b, first) = Bridge::new(echo, now);
    assert_eq!(first, Action::SetReadDeadline(Some(TICK_DURATION_MS)));
    assert_eq!(b.step(Event::Configured(true), now), Action::SetNoDelay(true));
    assert_eq!(b.step(Event::Configured(true), now), Action::ReadFrame);
    assert_eq!(b.phase, Phase::Reading);
    b
}

fn assert_tears_down(b: &mut Bridge, a: Action, now: u64) {
    assert_eq!(a, Action::SetReadDeadline(None));
    assert_eq!(b.phase, Phase::ClearingDeadline);
    assert_eq!(b.step(Event::Configured(true), now), Action::SetNoDelay(false));
    assert_eq!(b.step(Event::Configured(true), now), Action::Finish);
    assert!(b.is_done());
}

#[test]
fn setup_sets_tick_deadline_then_no_delay() {
    let (mut b, first) = Bridge::new(false, 5);
    assert_eq!(first, Action::SetReadDeadline(Some(10)));
    assert_eq!(b.phase, Phase::SettingDeadline);
    assert_eq!(b.step(Event::Configured(true), 6), Action::SetNoDelay(true));
    assert_eq!(b.step(Event::Configured(true), 7), Action::ReadFrame);
    assert_eq!(b.last_activity, 7);
}

#[test]
fn setup_failure_ends_without_teardown() {
    let (mut b, _) = Bridge::new(false, 0);
    assert_eq!(b.step(Event::Configured(false), 1), Action::Finish);
    assert!(b.is_done());
    let (mut b, _) = Bridge::new(false, 0);
    b.step(Event::Configured(true), 1);
    assert_eq!(b.step(Event::Configured(false), 2), Action::Finish);
    assert!(b.is_done());
}

#[test]
fn hello_relayed_within_one_tick() {
    let mut buffer = vec![0u8; BUFFER_SIZE];
    buffer[..6].copy_from_slice(b"hello\n");
    let chunk = next_chunk(Some(6), &buffer).unwrap();
    assert_eq!(chunk, b"hello\n".to_vec());
    let mut b = running(false, 100);
    assert_eq!(b.echo_text(Direction::Outbound, &chunk), None);
    let a = b.step(Event::Frame(FrameRead::TimedOut), 100 + TICK_DURATION_MS);
    assert_eq!(a, Action::PollOutbound);
    let a = b.step(Event::Polled(Poll::Chunk(chunk)), 100 + TICK_DURATION_MS);
    assert_eq!(a, Action::SendRemote(b"hello\n".to_vec()));
    assert_eq!(b.last_activity, 110);
    assert_eq!(b.step(Event::Sent(true), 110), Action::ReadFrame);
}

#[test]
fn ping_written_and_clock_reset() {
    let mut b = running(false, 0);
    let a = b.step(Event::Frame(FrameRead::Binary(b"ping".to_vec())), 500);
    assert_eq!(a, Action::WriteLocal(b"ping".to_vec()));
    assert_eq!(b.last_activity, 0);
    assert_eq!(b.step(Event::Written(true), 501), Action::ReadFrame);
    assert_eq!(b.last_activity, 501);
}

#[test]
fn process_ready_then_channel_closes() {
    let mut buffer = vec![0u8; 64];
    buffer[..5].copy_from_slice(b"ready");
    let chunk = next_chunk(Some(5), &buffer).unwrap();
    assert_eq!(next_chunk(Some(0), &buffer), None);
    let mut b = running(false, 0);
    assert_eq!(b.step(Event::Frame(FrameRead::TimedOut), 10), Action::PollOutbound);
    assert_eq!(b.step(Event::Polled(Poll::Chunk(chunk)), 10), Action::SendRemote(b"ready".to_vec()));
    assert_eq!(b.step(Event::Sent(true), 10), Action::ReadFrame);
    assert_eq!(b.step(Event::Frame(FrameRead::TimedOut), 20), Action::PollOutbound);
    let a = b.step(Event::Polled(Poll::Disconnected), 20);
    assert_tears_down(&mut b, a, 20);
}

#[test]
fn send_failure_ends_session_at_once() {
    let mut b = running(false, 0);
    b.step(Event::Frame(FrameRead::TimedOut), 10);
    b.step(Event::Polled(Poll::Chunk(vec![1, 2, 3])), 10);
    let a = b.step(Event::Sent(false), 11);
    assert_ne!(a, Action::PollOutbound);
    assert_tears_down(&mut b, a, 11);
}

#[test]
fn inactivity_timeout_ends_session() {
    let mut b = running(false, 1000);
    let a = b.step(Event::Frame(FrameRead::TimedOut), 1000 + TIMEOUT_MS - 1);
    assert_eq!(a, Action::PollOutbound);
    assert_eq!(b.step(Event::Polled(Poll::Empty), 1000 + TIMEOUT_MS - 1), Action::ReadFrame);
    assert_eq!(b.last_activity, 1000);
    let a = b.step(Event::Frame(FrameRead::TimedOut), 1000 + TIMEOUT_MS);
    assert_tears_down(&mut b, a, 1000 + TIMEOUT_MS);
}

#[test]
fn clock_running_backwards_counts_as_no_time() {
    let mut b = running(false, 5000);
    assert_eq!(b.step(Event::Frame(FrameRead::TimedOut), 10), Action::PollOutbound);
}

#[test]
fn other_frames_are_ignored() {
    let mut b = running(false, 0);
    assert_eq!(b.step(Event::Frame(FrameRead::Other), 30), Action::ReadFrame);
    assert_eq!(b.phase, Phase::Reading);
    assert_eq!(b.last_activity, 0);
}

#[test]
fn read_failure_ends_session() {
    let mut b = running(false, 0);
    let a = b.step(Event::Frame(FrameRead::Failed), 3);
    assert_tears_down(&mut b, a, 3);
}

#[test]
fn write_failure_ends_session() {
    let mut b = running(false, 0);
    b.step(Event::Frame(FrameRead::Binary(vec![9])), 3);
    let a = b.step(Event::Written(false), 4);
    assert_tears_down(&mut b, a, 4);
}

#[test]
fn failed_deadline_clear_skips_no_delay() {
    let mut b = running(false, 0);
    let a = b.step(Event::Frame(FrameRead::Failed), 3);
    assert_eq!(a, Action::SetReadDeadline(None));
    assert_eq!(b.step(Event::Configured(false), 4), Action::Finish);
    assert!(b.is_done());
}

#[test]
fn teardown_clears_deadline_once_after_many_ticks() {
    let mut b = running(false, 0);
    let mut clears: u32 = 0;
    let mut offs: u32 = 0;
    let mut a = Action::ReadFrame;
    let mut t: u64 = 0;
    for _ in 0..50 {
        t += TICK_DURATION_MS;
        a = b.step(Event::Frame(FrameRead::TimedOut), t);
        assert_eq!(a, Action::PollOutbound);
        a = b.step(Event::Polled(Poll::Empty), t);
    }
    assert_eq!(a, Action::ReadFrame);
    let mut event = Event::Frame(FrameRead::Failed);
    while !b.is_done() {
        a = b.step(event, t);
        if a == Action::SetReadDeadline(None) {
            clears += 1;
        }
        if a == Action::SetNoDelay(false) {
            offs += 1;
        }
        event = Event::Configured(true);
    }
    assert_eq!(clears, 1);
    assert_eq!(offs, 1);
}

#[test]
fn chunks_relayed_in_order() {
    let mut b = running(false, 0);
    let chunks = vec![b"a".to_vec(), b"bc".to_vec(), b"def".to_vec()];
    let mut sent = Vec::new();
    let mut t: u64 = 0;
    for c in chunks.clone() {
        t += 30000;
        assert_eq!(b.step(Event::Frame(FrameRead::TimedOut), t), Action::PollOutbound);
        match b.step(Event::Polled(Poll::Chunk(c)), t) {
            Action::SendRemote(x) => sent.push(x),
            other => panic!("unexpected {:?}", other),
        }
        assert_eq!(b.step(Event::Sent(true), t), Action::ReadFrame);
    }
    assert_eq!(sent, chunks);
    assert_eq!(b.phase, Phase::Reading);
}

#[test]
fn accepts_only_outcomes_of_last_action() {
    let mut b = running(false, 0);
    assert!(b.accepts(&Event::Frame(FrameRead::TimedOut)));
    assert!(!b.accepts(&Event::Sent(true)));
    b.step(Event::Frame(FrameRead::TimedOut), 1);
    assert!(b.accepts(&Event::Polled(Poll::Empty)));
    assert!(!b.accepts(&Event::Configured(true)));
    let (d, _) = Bridge::new(false, 0);
    assert!(d.accepts(&Event::Configured(false)));
    assert!(!d.accepts(&Event::Written(true)));
}

#[test]
fn echo_text_when_enabled() {
    let b = running(true, 0);
    assert_eq!(b.echo_text(Direction::Inbound, b"ping"), Some("< ping".to_string()));
    assert_eq!(b.echo_text(Direction::Outbound, b"x\n"), Some("> x\n".to_string()));
}
