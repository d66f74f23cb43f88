use axdriver_net::ping_test::{
    ping_test_begin, ping_test_step, PingTestAction, PingTestEvent, PingTestPhase,
};

/// Runs the schedule with a reply found after `reply_after` checks
/// (never when `None`); returns the actions taken.
fn run(init_ok: bool, sent_ok: bool, reply_after: Option<u32>) -> Vec<PingTestAction> {
    let (mut phase, mut action) = ping_test_begin();
    let mut actions = vec![action];
    let mut checks = 0;
    while action != PingTestAction::Stop {
        let event = match action {
            PingTestAction::Init => PingTestEvent::Initialized(init_ok),
            PingTestAction::SendPing => PingTestEvent::Sent(sent_ok),
            PingTestAction::WaitMs(_) => PingTestEvent::Waited,
            PingTestAction::CheckReply => {
                checks += 1;
                PingTestEvent::ReplyChecked(reply_after == Some(checks))
            }
            PingTestAction::Poll => PingTestEvent::Polled,
            PingTestAction::Stop => unreachable!(),
        };
        let (p, a) = ping_test_step(phase, event);
        phase = p;
        action = a;
        actions.push(action);
    }
    assert_eq!(phase, PingTestPhase::Done);
    actions
}

fn count(actions: &[PingTestAction], a: PingTestAction) -> usize {
    actions.iter().filter(|x| **x == a).count()
}

#[test]
fn ping_test_init_failure_stops() {
    let actions = run(false, true, None);
    assert_eq!(actions, vec![PingTestAction::Init, PingTestAction::Stop]);
}

#[test]
fn ping_test_reply_found() {
    let actions = run(true, true, Some(3));
    assert_eq!(count(&actions, PingTestAction::CheckReply), 3);
    assert_eq!(count(&actions, PingTestAction::WaitMs(10)), 3);
    assert_eq!(count(&actions, PingTestAction::Poll), 300);
    assert_eq!(count(&actions, PingTestAction::WaitMs(100)), 300);
}

#[test]
fn ping_test_reply_timeout() {
    let actions = run(true, true, None);
    assert_eq!(count(&actions, PingTestAction::CheckReply), 300);
    assert_eq!(count(&actions, PingTestAction::WaitMs(10)), 300);
    assert_eq!(count(&actions, PingTestAction::Poll), 300);
}

#[test]
fn ping_test_send_failure_still_responds() {
    let actions = run(true, false, None);
    assert_eq!(count(&actions, PingTestAction::CheckReply), 0);
    assert_eq!(count(&actions, PingTestAction::Poll), 300);
}

#[test]
fn ping_test_reply_error_moves_on() {
    let (p, a) = ping_test_step(PingTestPhase::Awaiting { tries: 5 }, PingTestEvent::ReplyError);
    assert_eq!((p, a), (PingTestPhase::Responding { cycle: 0 }, PingTestAction::WaitMs(100)));
    let (p, a) = ping_test_step(PingTestPhase::Sending, PingTestEvent::Polled);
    assert_eq!((p, a), (PingTestPhase::Done, PingTestAction::Stop));
}
