//! The handshake that aligns commands with responses.
//!
//! One byte that is no command is written; the engine answers with a frame
//! of two bytes, a marker and the byte it was sent. The session decides what
//! the caller does next: write, poll for pending bytes, read, or stop.

use crate::error::ProtocolError;
use vstd::prelude::*;

verus! {

/// The byte that is written: no command of the engine has this opcode.
pub const SYNC_BYTE: u8 = 0xAA;

/// The marker with which the engine answers a byte that is no command.
pub const BAD_COMMAND: u8 = 0xFA;

/// Length of the acknowledgment frame.
pub const REPLY_LEN: usize = 2;

/// Where a handshake stands.
#[derive(Clone, Copy, Debug, PartialEq, Eq, Structural)]
pub enum SyncPhase {
    /// Nothing was written yet.
    Idle,
    /// The byte was written; no response byte has been seen yet.
    Polling,
    /// Response bytes are pending; the frame is to be read.
    Reading,
    /// The frame was the expected one: the channel is aligned.
    Aligned,
    /// The handshake failed.
    Failed(ProtocolError),
}

/// What the caller does after a poll.
#[derive(Clone, Copy, Debug, PartialEq, Eq, Structural)]
pub enum PollOutcome {
    /// Read `REPLY_LEN` bytes and hand them to `on_reply`.
    Ready,
    /// Wait one interval and poll again.
    Wait,
    /// Stop: the allowed number of polls is used up.
    TimedOut,
}

/// A running handshake.
pub struct SyncSession {
    phase: SyncPhase,
    polls_left: u32,
}

/// The acknowledgment frame that the engine owes.
pub open spec fn expected_reply() -> Seq<u8> {
    seq![BAD_COMMAND, SYNC_BYTE]
}

/// What a poll that saw `pending` bytes means with `polls_left` polls still
/// allowed, this one included.
pub open spec fn poll_outcome(polls_left: u32, pending: u32) -> PollOutcome {
    if pending > 0 {
        PollOutcome::Ready
    } else if polls_left <= 1 {
        PollOutcome::TimedOut
    } else {
        PollOutcome::Wait
    }
}

/// The number of polls made against a device that never answers, starting
/// with `polls_left` allowed.
pub open spec fn silent_polls(polls_left: u32) -> nat
    decreases polls_left,
{
    if poll_outcome(polls_left, 0) == PollOutcome::Wait {
        1 + silent_polls((polls_left - 1) as u32)
    } else {
        1
    }
}

/// Against a device that never answers, the handshake stops after as many
/// polls as were allowed, and after one where none was.
pub proof fn lemma_silent_polls(polls_left: u32)
    ensures
        silent_polls(polls_left) == if polls_left == 0 { 1 } else { polls_left as nat },
    decreases polls_left,
{
    if polls_left > 1 {
        lemma_silent_polls((polls_left - 1) as u32);
    }
}

/// Decides on a poll that saw `pending` bytes with `polls_left` polls still
/// allowed, this one included.
pub fn next_poll(polls_left: u32, pending: u32) -> (outcome: PollOutcome)
    ensures
        outcome == poll_outcome(polls_left, pending),
{
    if pending > 0 {
        PollOutcome::Ready
    } else if polls_left <= 1 {
        PollOutcome::TimedOut
    } else {
        PollOutcome::Wait
    }
}

/// Checks an acknowledgment frame: it must be the marker followed by the
/// byte that was sent, and nothing else.
pub fn check_reply(reply: &[u8]) -> (r: Result<(), ProtocolError>)
    ensures
        reply@ == expected_reply() ==> r == Ok::<(), ProtocolError>(()),
        reply@ != expected_reply() ==> r == Err::<(), ProtocolError>(ProtocolError::SyncMismatch),
{
    if reply.len() == REPLY_LEN && reply[0] == BAD_COMMAND && reply[1] == SYNC_BYTE {
        assert(reply@ =~= expected_reply());
        Ok(())
    } else {
        Err(ProtocolError::SyncMismatch)
    }
}

impl SyncSession {
    /// Where the handshake stands.
    pub closed spec fn phase(&self) -> SyncPhase {
        self.phase
    }

    /// The number of polls still allowed.
    pub closed spec fn polls_left(&self) -> u32 {
        self.polls_left
    }

    /// A handshake that allows `max_polls` polls for the first response
    /// byte.
    pub fn new(max_polls: u32) -> (s: SyncSession)
        ensures
            s.phase() == SyncPhase::Idle,
            s.polls_left() == max_polls,
    {
        SyncSession { phase: SyncPhase::Idle, polls_left: max_polls }
    }

    /// Where the handshake stands.
    pub fn current_phase(&self) -> (p: SyncPhase)
        ensures
            p == self.phase(),
    {
        self.phase
    }

    /// The number of polls still allowed.
    pub fn remaining_polls(&self) -> (n: u32)
        ensures
            n == self.polls_left(),
    {
        self.polls_left
    }

    /// Starts the handshake: returns the request to write.
    pub fn start(&mut self) -> (request: Vec<u8>)
        requires
            old(self).phase() == SyncPhase::Idle,
        ensures
            request@ == seq![SYNC_BYTE],
            final(self).phase() == SyncPhase::Polling,
            final(self).polls_left() == old(self).polls_left(),
    {
        self.phase = SyncPhase::Polling;
        let mut request: Vec<u8> = Vec::new();
        request.push(SYNC_BYTE);
        assert(request@ =~= seq![SYNC_BYTE]);
        request
    }

    /// Takes the number of pending response bytes that a poll found. With a
    /// byte pending the frame is read next; with none, the caller waits and
    /// polls again while polls are left, and the handshake fails with a
    /// timeout when they are used up.
    pub fn on_pending(&mut self, pending: u32) -> (outcome: PollOutcome)
        requires
            old(self).phase() == SyncPhase::Polling,
        ensures
            outcome == poll_outcome(old(self).polls_left(), pending),
            outcome == PollOutcome::Ready ==> final(self).phase() == SyncPhase::Reading
                && final(self).polls_left() == old(self).polls_left(),
            outcome == PollOutcome::Wait ==> final(self).phase() == SyncPhase::Polling
                && final(self).polls_left() == old(self).polls_left() - 1,
            outcome == PollOutcome::TimedOut ==> final(self).phase() == SyncPhase::Failed(
                ProtocolError::SyncTimeout,
            ) && final(self).polls_left() == 0,
    {
        let outcome = next_poll(self.polls_left, pending);
        match outcome {
            PollOutcome::Ready => {
                self.phase = SyncPhase::Reading;
            },
            PollOutcome::Wait => {
                self.polls_left = self.polls_left - 1;
            },
            PollOutcome::TimedOut => {
                self.phase = SyncPhase::Failed(ProtocolError::SyncTimeout);
                self.polls_left = 0;
            },
        }
        outcome
    }

    /// Takes the frame that was read and ends the handshake: aligned where
    /// the frame is the expected one, failed with a mismatch otherwise.
    pub fn on_reply(&mut self, reply: &[u8]) -> (r: Result<(), ProtocolError>)
        requires
            old(self).phase() == SyncPhase::Reading,
        ensures
            reply@ == expected_reply() ==> r == Ok::<(), ProtocolError>(()) && final(self).phase()
                == SyncPhase::Aligned,
            reply@ != expected_reply() ==> r == Err::<(), ProtocolError>(
                ProtocolError::SyncMismatch,
            ) && final(self).phase() == SyncPhase::Failed(ProtocolError::SyncMismatch),
            final(self).polls_left() == old(self).polls_left(),
    {
        let r = check_reply(reply);
        self.phase = match r {
            Ok(_) => SyncPhase::Aligned,
            Err(e) => SyncPhase::Failed(e),
        };
        r
    }
}

} // verus!
