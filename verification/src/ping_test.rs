//! The schedule of the ping test: initialize, send one echo request, wait
//! up to 300 times 10 ms for the reply, then answer other hosts for 300
//! times 100 ms. The platform performs each action and reports what came
//! of it.
use vstd::prelude::*;

verus! {

/// Number of 10 ms waits for the echo reply.
pub const REPLY_POLLS: u32 = 300;
/// Milliseconds between two checks for the echo reply.
pub const REPLY_POLL_MS: u64 = 10;
/// Number of 100 ms cycles of answering other hosts.
pub const RESPOND_CYCLES: u32 = 300;
/// Milliseconds between two receive polls while answering other hosts.
pub const RESPOND_POLL_MS: u64 = 100;

/// Where the ping test stands.
#[derive(Debug, Clone, Copy, PartialEq, Eq, Structural)]
pub enum PingTestPhase {
    /// The network stack is to be initialized.
    Init,
    /// The echo request is to be sent.
    Sending,
    /// Waiting for the reply; `tries` checks have found none.
    Awaiting { tries: u32 },
    /// Answering other hosts; `cycle` cycles are done.
    Responding { cycle: u32 },
    /// The test is over.
    Done,
}

/// What came of the last action.
#[derive(Debug, Clone, Copy, PartialEq, Eq, Structural)]
pub enum PingTestEvent {
    /// The network stack was initialized (`true`) or failed to (`false`).
    Initialized(bool),
    /// The echo request was sent (`true`) or could not be (`false`).
    Sent(bool),
    /// The requested wait is over.
    Waited,
    /// A check for the reply found it (`true`) or not (`false`).
    ReplyChecked(bool),
    /// A check for the reply failed.
    ReplyError,
    /// A receive poll (and the answer to what it received) is done.
    Polled,
}

/// What the platform is to do next.
#[derive(Debug, Clone, Copy, PartialEq, Eq, Structural)]
pub enum PingTestAction {
    /// Initialize the network stack.
    Init,
    /// Send the echo request.
    SendPing,
    /// Busy-wait this many milliseconds (and advance the stack's clock).
    WaitMs(u64),
    /// Check for the echo reply.
    CheckReply,
    /// Receive a packet, if any, and answer it.
    Poll,
    /// The test is over.
    Stop,
}

/// The first step of the test.
pub open spec fn ping_test_start() -> (PingTestPhase, PingTestAction) {
    (PingTestPhase::Init, PingTestAction::Init)
}

/// Entering the answering stage.
pub open spec fn start_responding() -> (PingTestPhase, PingTestAction) {
    (PingTestPhase::Responding { cycle: 0 }, PingTestAction::WaitMs(RESPOND_POLL_MS))
}

/// The next phase and action, given the phase and what came of the last
/// action. An event that does not fit the phase ends the test.
pub open spec fn ping_test_next(phase: PingTestPhase, event: PingTestEvent) -> (PingTestPhase, PingTestAction) {
    match (phase, event) {
        (PingTestPhase::Init, PingTestEvent::Initialized(ok)) => if ok {
            (PingTestPhase::Sending, PingTestAction::SendPing)
        } else {
            (PingTestPhase::Done, PingTestAction::Stop)
        },
        (PingTestPhase::Sending, PingTestEvent::Sent(ok)) => if ok {
            (PingTestPhase::Awaiting { tries: 0 }, PingTestAction::WaitMs(REPLY_POLL_MS))
        } else {
            start_responding()
        },
        (PingTestPhase::Awaiting { tries }, PingTestEvent::Waited) => (
            PingTestPhase::Awaiting { tries },
            PingTestAction::CheckReply,
        ),
        (PingTestPhase::Awaiting { tries }, PingTestEvent::ReplyChecked(found)) => if found {
            start_responding()
        } else if tries + 1 < REPLY_POLLS {
            (PingTestPhase::Awaiting { tries: (tries + 1) as u32 }, PingTestAction::WaitMs(REPLY_POLL_MS))
        } else {
            start_responding()
        },
        (PingTestPhase::Awaiting { tries }, PingTestEvent::ReplyError) => start_responding(),
        (PingTestPhase::Responding { cycle }, PingTestEvent::Waited) => (
            PingTestPhase::Responding { cycle },
            PingTestAction::Poll,
        ),
        (PingTestPhase::Responding { cycle }, PingTestEvent::Polled) => if cycle + 1 < RESPOND_CYCLES {
            (PingTestPhase::Responding { cycle: (cycle + 1) as u32 }, PingTestAction::WaitMs(RESPOND_POLL_MS))
        } else {
            (PingTestPhase::Done, PingTestAction::Stop)
        },
        _ => (PingTestPhase::Done, PingTestAction::Stop),
    }
}

/// Whether a phase's counters are within their bounds.
pub open spec fn phase_wf(phase: PingTestPhase) -> bool {
    match phase {
        PingTestPhase::Awaiting { tries } => tries < REPLY_POLLS,
        PingTestPhase::Responding { cycle } => cycle < RESPOND_CYCLES,
        _ => true,
    }
}

/// How many more 10 ms waits for the reply the test may still ask for.
pub open spec fn reply_waits_left(phase: PingTestPhase) -> int {
    match phase {
        PingTestPhase::Init | PingTestPhase::Sending => REPLY_POLLS as int,
        PingTestPhase::Awaiting { tries } => REPLY_POLLS - 1 - tries,
        _ => 0,
    }
}

/// How many more 100 ms waits between receive polls the test may still ask
/// for.
pub open spec fn respond_waits_left(phase: PingTestPhase) -> int {
    match phase {
        PingTestPhase::Responding { cycle } => RESPOND_CYCLES - 1 - cycle,
        PingTestPhase::Done => 0,
        _ => RESPOND_CYCLES as int,
    }
}

/// The number of waits of `ms` milliseconds the test asks for when, from
/// `phase`, the actions it asks for come out as `events` say.
pub open spec fn waits_asked(phase: PingTestPhase, events: Seq<PingTestEvent>, ms: u64) -> int
    decreases events.len(),
{
    if events.len() == 0 {
        0
    } else {
        let (next, action) = ping_test_next(phase, events[0]);
        (if action == PingTestAction::WaitMs(ms) { 1int } else { 0int }) + waits_asked(next, events.drop_first(), ms)
    }
}

/// One step asks for a 10 ms wait only by using up one of those left, a
/// 100 ms wait only by using up one of those left, and gives none back.
proof fn lemma_step_uses_waits(phase: PingTestPhase, event: PingTestEvent)
    requires
        phase_wf(phase),
    ensures
        ({
            let (next, action) = ping_test_next(phase, event);
            &&& phase_wf(next)
            &&& reply_waits_left(next) + (if action == PingTestAction::WaitMs(REPLY_POLL_MS) { 1int } else { 0int })
                <= reply_waits_left(phase)
            &&& respond_waits_left(next) + (if action == PingTestAction::WaitMs(RESPOND_POLL_MS) { 1int } else { 0int })
                <= respond_waits_left(phase)
            &&& reply_waits_left(next) >= 0 && respond_waits_left(next) >= 0
        }),
{
}

/// From any phase within its bounds, whatever comes of the actions, the
/// test asks for no more 10 ms and 100 ms waits than it has left.
pub proof fn lemma_waits_bounded_from(phase: PingTestPhase, events: Seq<PingTestEvent>)
    requires
        phase_wf(phase),
    ensures
        waits_asked(phase, events, REPLY_POLL_MS) <= reply_waits_left(phase),
        waits_asked(phase, events, RESPOND_POLL_MS) <= respond_waits_left(phase),
    decreases events.len(),
{
    if events.len() > 0 {
        let (next, action) = ping_test_next(phase, events[0]);
        lemma_step_uses_waits(phase, events[0]);
        lemma_waits_bounded_from(next, events.drop_first());
    }
}

/// The test waits for the echo reply at most 300 times 10 ms, and answers
/// other hosts for at most 300 times 100 ms, whatever comes of its actions.
pub proof fn lemma_ping_test_waits_bounded(events: Seq<PingTestEvent>)
    ensures
        waits_asked(ping_test_start().0, events, REPLY_POLL_MS) <= REPLY_POLLS,
        waits_asked(ping_test_start().0, events, RESPOND_POLL_MS) <= RESPOND_CYCLES,
{
    lemma_waits_bounded_from(ping_test_start().0, events);
}

/// The first step of the test.
pub fn ping_test_begin() -> (r: (PingTestPhase, PingTestAction))
    ensures
        r == ping_test_start(),
{
    (PingTestPhase::Init, PingTestAction::Init)
}

/// One step of the test: the next phase and action.
pub fn ping_test_step(phase: PingTestPhase, event: PingTestEvent) -> (r: (PingTestPhase, PingTestAction))
    requires
        phase_wf(phase),
    ensures
        r == ping_test_next(phase, event),
        phase_wf(r.0),
{
    let responding = (PingTestPhase::Responding { cycle: 0 }, PingTestAction::WaitMs(RESPOND_POLL_MS));
    match (phase, event) {
        (PingTestPhase::Init, PingTestEvent::Initialized(ok)) => if ok {
            (PingTestPhase::Sending, PingTestAction::SendPing)
        } else {
            (PingTestPhase::Done, PingTestAction::Stop)
        },
        (PingTestPhase::Sending, PingTestEvent::Sent(ok)) => if ok {
            (PingTestPhase::Awaiting { tries: 0 }, PingTestAction::WaitMs(REPLY_POLL_MS))
        } else {
            responding
        },
        (PingTestPhase::Awaiting { tries }, PingTestEvent::Waited) => (
            PingTestPhase::Awaiting { tries },
            PingTestAction::CheckReply,
        ),
        (PingTestPhase::Awaiting { tries }, PingTestEvent::ReplyChecked(found)) => if found {
            responding
        } else if tries + 1 < REPLY_POLLS {
            (PingTestPhase::Awaiting { tries: tries + 1 }, PingTestAction::WaitMs(REPLY_POLL_MS))
        } else {
            responding
        },
        (PingTestPhase::Awaiting { tries: _ }, PingTestEvent::ReplyError) => responding,
        (PingTestPhase::Responding { cycle }, PingTestEvent::Waited) => (
            PingTestPhase::Responding { cycle },
            PingTestAction::Poll,
        ),
        (PingTestPhase::Responding { cycle }, PingTestEvent::Polled) => if cycle + 1 < RESPOND_CYCLES {
            (PingTestPhase::Responding { cycle: cycle + 1 }, PingTestAction::WaitMs(RESPOND_POLL_MS))
        } else {
            (PingTestPhase::Done, PingTestAction::Stop)
        },
        _ => (PingTestPhase::Done, PingTestAction::Stop),
    }
}

} // verus!
