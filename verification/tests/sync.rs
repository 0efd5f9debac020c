use jtag_tap::error::ProtocolError;
use jtag_tap::sync::{
    check_reply, next_poll, PollOutcome, SyncPhase, SyncSession, BAD_COMMAND, REPLY_LEN, SYNC_BYTE,
};

// A device that answers a byte that is no command with a fixed frame, after
// a number of polls that find nothing.
struct MockChannel {
    reply: Option<[u8; 2]>,
    silent_polls: u32,
    written: Vec<u8>,
    polls: u32,
}

impl MockChannel {
    fn pending(&mut self) -> u32 {
        self.polls += 1;
        match self.reply {
            Some(_) if self.polls > self.silent_polls && !self.written.is_empty() => 2,
            _ => 0,
        }
    }
}

fn handshake(channel: &mut MockChannel, max_polls: u32) -> Result<(), ProtocolError> {
    let mut session = SyncSession::new(max_polls);
    channel.written.extend_from_slice(&session.start());
    loop {
        let pending = channel.pending();
        match session.on_pending(pending) {
            PollOutcome::Ready => break,
            PollOutcome::Wait => {}
            PollOutcome::TimedOut => {
                assert_eq!(
                    session.current_phase(),
                    SyncPhase::Failed(ProtocolError::SyncTimeout)
                );
                return Err(ProtocolError::SyncTimeout);
            }
        }
    }
    assert_eq!(session.current_phase(), SyncPhase::Reading);
    let frame = channel.reply.unwrap();
    let r = session.on_reply(&frame[..REPLY_LEN]);
    match r {
        Ok(()) => assert_eq!(session.current_phase(), SyncPhase::Aligned),
        Err(e) => assert_eq!(session.current_phase(), SyncPhase::Failed(e)),
    }
    r
}

fn channel(reply: Option<[u8; 2]>, silent_polls: u32) -> MockChannel {
    MockChannel { reply, silent_polls, written: Vec::new(), polls: 0 }
}

#[test]
fn constants_of_the_frame() {
    assert_eq!(SYNC_BYTE, 0xAA);
    assert_eq!(BAD_COMMAND, 0xFA);
    assert_eq!(REPLY_LEN, 2);
}

#[test]
fn sync_succeeds_on_the_expected_frame() {
    let mut c = channel(Some([0xFA, 0xAA]), 0);
    assert_eq!(handshake(&mut c, 100), Ok(()));
    assert_eq!(c.written, vec![0xAA]);
    assert_eq!(c.polls, 1);
}

#[test]
fn sync_succeeds_after_some_silent_polls() {
    let mut c = channel(Some([0xFA, 0xAA]), 4);
    assert_eq!(handshake(&mut c, 5), Ok(()));
    assert_eq!(c.polls, 5);
}

#[test]
fn sync_mismatch_on_a_wrong_echo() {
    let mut c = channel(Some([0xFA, 0x00]), 0);
    assert_eq!(handshake(&mut c, 100), Err(ProtocolError::SyncMismatch));
}

#[test]
fn sync_mismatch_on_a_wrong_marker() {
    let mut c = channel(Some([0x00, 0xAA]), 0);
    assert_eq!(handshake(&mut c, 100), Err(ProtocolError::SyncMismatch));
}

#[test]
fn sync_times_out_on_a_silent_device() {
    let mut c = channel(None, 0);
    assert_eq!(handshake(&mut c, 7), Err(ProtocolError::SyncTimeout));
    assert_eq!(c.polls, 7);
    assert_eq!(c.written, vec![0xAA]);
}

#[test]
fn sync_times_out_when_the_answer_comes_too_late() {
    let mut c = channel(Some([0xFA, 0xAA]), 3);
    assert_eq!(handshake(&mut c, 3), Err(ProtocolError::SyncTimeout));
    assert_eq!(c.polls, 3);
}

#[test]
fn sync_with_no_poll_allowed_polls_once() {
    let mut c = channel(None, 0);
    assert_eq!(handshake(&mut c, 0), Err(ProtocolError::SyncTimeout));
    assert_eq!(c.polls, 1);
    let mut c = channel(Some([0xFA, 0xAA]), 0);
    assert_eq!(handshake(&mut c, 0), Ok(()));
}

#[test]
fn session_counts_polls_down() {
    let mut s = SyncSession::new(3);
    assert_eq!(s.current_phase(), SyncPhase::Idle);
    assert_eq!(s.remaining_polls(), 3);
    assert_eq!(s.start(), vec![0xAA]);
    assert_eq!(s.current_phase(), SyncPhase::Polling);
    assert_eq!(s.on_pending(0), PollOutcome::Wait);
    assert_eq!(s.remaining_polls(), 2);
    assert_eq!(s.on_pending(0), PollOutcome::Wait);
    assert_eq!(s.remaining_polls(), 1);
    assert_eq!(s.on_pending(0), PollOutcome::TimedOut);
    assert_eq!(s.remaining_polls(), 0);
}

#[test]
fn session_reads_as_soon_as_a_byte_is_pending() {
    let mut s = SyncSession::new(1);
    s.start();
    assert_eq!(s.on_pending(1), PollOutcome::Ready);
    assert_eq!(s.remaining_polls(), 1);
    assert_eq!(s.current_phase(), SyncPhase::Reading);
}

#[test]
fn check_reply_wants_exactly_the_frame() {
    assert_eq!(check_reply(&[0xFA, 0xAA]), Ok(()));
    assert_eq!(check_reply(&[0xFA, 0x00]), Err(ProtocolError::SyncMismatch));
    assert_eq!(check_reply(&[0xAA, 0xFA]), Err(ProtocolError::SyncMismatch));
    assert_eq!(check_reply(&[0xFA]), Err(ProtocolError::SyncMismatch));
    assert_eq!(check_reply(&[]), Err(ProtocolError::SyncMismatch));
    assert_eq!(check_reply(&[0xFA, 0xAA, 0x00]), Err(ProtocolError::SyncMismatch));
}

#[test]
fn next_poll_outcomes() {
    assert_eq!(next_poll(0, 0), PollOutcome::TimedOut);
    assert_eq!(next_poll(1, 0), PollOutcome::TimedOut);
    assert_eq!(next_poll(2, 0), PollOutcome::Wait);
    assert_eq!(next_poll(u32::MAX, 0), PollOutcome::Wait);
    assert_eq!(next_poll(0, 1), PollOutcome::Ready);
    assert_eq!(next_poll(1, 2), PollOutcome::Ready);
    assert_eq!(next_poll(9, u32::MAX), PollOutcome::Ready);
}
