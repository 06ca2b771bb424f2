//! Reception on the RS-485 port (USART1).
//!
//! When the port raises its receive interrupt, the handler drains the
//! receive FIFO into the protocol handler's queue, one byte per poll, and
//! then lets the protocol handler parse what arrived.  The handler polls at
//! most `MAX_POLLS` times (the FIFO depth plus one).  This module holds the
//! handler's decisions as a state machine: the interrupt routine reports what
//! each poll of the port and each hand-over to the queue gave, and performs
//! the action that comes back.
use vstd::prelude::*;

verus! {

/// Largest number of bytes that one receive interrupt moves to the queue:
/// the depth of the receive FIFO plus one.
pub const MAX_POLLS: u8 = 10;

/// What one poll of the receive side of the port gave.
#[derive(Clone, Copy, Debug, PartialEq, Eq, Structural)]
pub enum RxPoll {
    /// The peripherals have not been handed over yet.
    NoPeripheral,
    /// The receive FIFO holds no byte.
    FifoEmpty,
    /// A byte was taken from the receive data register.
    Byte(u8),
}

/// What the interrupt routine has to do next.
#[derive(Clone, Copy, Debug, PartialEq, Eq, Structural)]
pub enum RxAction {
    /// Poll the receive side of the port and report the result with
    /// `RxSession::on_poll`.
    Poll,
    /// Hand the byte to the protocol handler's queue, if the application
    /// exists, and report with `RxSession::on_enqueue` whether it did.
    Enqueue(u8),
    /// Let the protocol handler parse the queue, if the application exists,
    /// and end the interrupt.
    Parse,
    /// End the interrupt without parsing.
    Return,
}

/// Where a receive session stands.
#[derive(Clone, Copy, Debug, PartialEq, Eq, Structural)]
pub enum RxPhase {
    /// The next event is the result of a poll.
    AwaitPoll,
    /// The next event is the outcome of handing a byte to the queue.
    AwaitEnqueue,
    /// The session has ended.
    Finished,
}

/// The state of one run of the receive interrupt.
#[derive(Clone, Copy, Debug, PartialEq, Eq, Structural)]
pub struct RxSession {
    /// Number of bytes handed to the queue so far.
    pub iterations: u8,
    /// Whether a byte has been taken from the port in this session.
    pub received: bool,
    /// What the session waits for.
    pub phase: RxPhase,
}

/// The state at the start of a receive interrupt.
pub open spec fn initial_session() -> RxSession {
    RxSession { iterations: 0, received: false, phase: RxPhase::AwaitPoll }
}

/// The session once it has ended, with the counters it had.
pub open spec fn finished(s: RxSession) -> RxSession {
    RxSession { phase: RxPhase::Finished, ..s }
}

/// The transition on the result of a poll.  A byte is passed on to the
/// queue; an empty FIFO or missing peripherals end the session, with a parse
/// when a byte came in before and without one otherwise.  A poll that the
/// session did not ask for ends it without a parse.
pub open spec fn poll_step(s: RxSession, poll: RxPoll) -> (RxSession, RxAction) {
    if s.phase != RxPhase::AwaitPoll || s.iterations >= MAX_POLLS {
        (finished(s), RxAction::Return)
    } else {
        match poll {
            RxPoll::Byte(b) => (
                RxSession { received: true, phase: RxPhase::AwaitEnqueue, ..s },
                RxAction::Enqueue(b),
            ),
            _ => (finished(s), if s.received {
                RxAction::Parse
            } else {
                RxAction::Return
            }),
        }
    }
}

/// The transition on the outcome of a hand-over to the queue.  Without an
/// application the byte is lost and the session ends without a parse; with
/// one, the session polls again, or parses once `MAX_POLLS` bytes were
/// handed over.  An outcome that the session did not ask for ends it
/// without a parse.
pub open spec fn enqueue_step(s: RxSession, app_present: bool) -> (RxSession, RxAction) {
    if s.phase != RxPhase::AwaitEnqueue || s.iterations >= MAX_POLLS || !app_present {
        (finished(s), RxAction::Return)
    } else if s.iterations + 1 == MAX_POLLS {
        (RxSession { iterations: MAX_POLLS, phase: RxPhase::Finished, ..s }, RxAction::Parse)
    } else {
        (
            RxSession { iterations: (s.iterations + 1) as u8, phase: RxPhase::AwaitPoll, ..s },
            RxAction::Poll,
        )
    }
}

impl RxSession {
    /// A session at the start of a receive interrupt; its first action is
    /// `RxAction::Poll`.
    pub fn new() -> (s: Self)
        ensures
            s == initial_session(),
    {
        RxSession { iterations: 0, received: false, phase: RxPhase::AwaitPoll }
    }

    /// Takes the result of a poll and says what to do next.
    pub fn on_poll(&mut self, poll: RxPoll) -> (action: RxAction)
        ensures
            (*final(self), action) == poll_step(*old(self), poll),
    {
        if self.phase != RxPhase::AwaitPoll || self.iterations >= MAX_POLLS {
            self.phase = RxPhase::Finished;
            return RxAction::Return;
        }
        match poll {
            RxPoll::Byte(b) => {
                self.received = true;
                self.phase = RxPhase::AwaitEnqueue;
                RxAction::Enqueue(b)
            },
            _ => {
                self.phase = RxPhase::Finished;
                if self.received {
                    RxAction::Parse
                } else {
                    RxAction::Return
                }
            },
        }
    }

    /// Takes the outcome of handing a byte to the queue (whether the
    /// application existed to take it) and says what to do next.
    pub fn on_enqueue(&mut self, app_present: bool) -> (action: RxAction)
        ensures
            (*final(self), action) == enqueue_step(*old(self), app_present),
    {
        if self.phase != RxPhase::AwaitEnqueue || self.iterations >= MAX_POLLS || !app_present {
            self.phase = RxPhase::Finished;
            return RxAction::Return;
        }
        self.iterations = self.iterations + 1;
        if self.iterations == MAX_POLLS {
            self.phase = RxPhase::Finished;
            RxAction::Parse
        } else {
            self.phase = RxPhase::AwaitPoll;
            RxAction::Poll
        }
    }
}

/// The result of the next poll when the port would give `polls` in turn:
/// once they run out the FIFO is empty.
pub open spec fn next_poll(polls: Seq<RxPoll>) -> RxPoll {
    if polls.len() > 0 {
        polls[0]
    } else {
        RxPoll::FifoEmpty
    }
}

/// The polls that remain after the next one.
pub open spec fn rest_polls(polls: Seq<RxPoll>) -> Seq<RxPoll> {
    if polls.len() > 0 {
        polls.drop_first()
    } else {
        polls
    }
}

/// The whole interrupt, as its routine drives the session from `s`: the
/// port gives `polls` in turn and the application exists or not throughout.
/// The result is the bytes handed to the queue, in order, and whether the
/// queue was parsed.
pub open spec fn drive(s: RxSession, polls: Seq<RxPoll>, app_present: bool) -> (Seq<u8>, bool)
    decreases MAX_POLLS - s.iterations,
{
    if s.phase != RxPhase::AwaitPoll || s.iterations >= MAX_POLLS {
        (Seq::empty(), false)
    } else {
        let (s1, a1) = poll_step(s, next_poll(polls));
        match a1 {
            RxAction::Enqueue(b) => {
                let (s2, a2) = enqueue_step(s1, app_present);
                match a2 {
                    RxAction::Poll => {
                        let (rest, parsed) = drive(s2, rest_polls(polls), app_present);
                        (seq![b] + rest, parsed)
                    },
                    RxAction::Parse => (seq![b], app_present),
                    _ => (Seq::empty(), false),
                }
            },
            RxAction::Parse => (Seq::empty(), app_present),
            _ => (Seq::empty(), false),
        }
    }
}

/// The bytes at the front of `polls`, up to the first poll that gave none,
/// and at most `limit` of them.
pub open spec fn leading_bytes(polls: Seq<RxPoll>, limit: nat) -> Seq<u8>
    decreases limit,
{
    if limit == 0 {
        Seq::empty()
    } else {
        match next_poll(polls) {
            RxPoll::Byte(b) => seq![b] + leading_bytes(rest_polls(polls), (limit - 1) as nat),
            _ => Seq::empty(),
        }
    }
}

proof fn lemma_drive_from(s: RxSession, polls: Seq<RxPoll>)
    requires
        s.phase == RxPhase::AwaitPoll,
        s.iterations < MAX_POLLS,
        s.received == (s.iterations > 0),
    ensures
        ({
            let bytes = leading_bytes(polls, (MAX_POLLS - s.iterations) as nat);
            drive(s, polls, true) == (bytes, s.iterations > 0 || bytes.len() > 0)
        }),
    decreases MAX_POLLS - s.iterations,
{
    let limit = (MAX_POLLS - s.iterations) as nat;
    match next_poll(polls) {
        RxPoll::Byte(b) => {
            let (s1, a1) = poll_step(s, next_poll(polls));
            let (s2, a2) = enqueue_step(s1, true);
            if s.iterations + 1 < MAX_POLLS {
                lemma_drive_from(s2, rest_polls(polls));
            } else {
                assert(leading_bytes(rest_polls(polls), 0) == Seq::<u8>::empty());
                assert(seq![b] + Seq::<u8>::empty() =~= seq![b]);
            }
        },
        _ => {},
    }
}

/// At most `limit` bytes are counted.
pub proof fn lemma_leading_bytes_bound(polls: Seq<RxPoll>, limit: nat)
    ensures
        leading_bytes(polls, limit).len() <= limit,
    decreases limit,
{
    if limit > 0 {
        lemma_leading_bytes_bound(rest_polls(polls), (limit - 1) as nat);
    }
}

/// One receive interrupt, with the application in place, hands the queue
/// exactly the bytes that the port gives before it reports an empty FIFO,
/// in order and at most `MAX_POLLS` of them, and has the queue parsed just
/// when it handed over at least one byte.  Without the application nothing
/// is handed over and nothing is parsed.
pub proof fn lemma_receive_interrupt(polls: Seq<RxPoll>)
    ensures
        ({
            let bytes = leading_bytes(polls, MAX_POLLS as nat);
            &&& drive(initial_session(), polls, true) == (bytes, bytes.len() > 0)
            &&& bytes.len() <= MAX_POLLS
        }),
        drive(initial_session(), polls, false) == (Seq::<u8>::empty(), false),
{
    lemma_drive_from(initial_session(), polls);
    lemma_leading_bytes_bound(polls, MAX_POLLS as nat);
}

} // verus!
