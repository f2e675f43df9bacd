use two_mover_3_pos::transport::{Action, Dispatch, Phase, PAUSE_MILLIS};

/// Runs the sending of `total` commands, of which the one at `fails_at` cannot be sent, as
/// a caller would. Returns the positions of the commands that were sent, the number of
/// pauses, and the last action.
fn run(total: usize, opens: bool, fails_at: Option<usize>) -> (Vec<usize>, usize, Action) {
    let mut state = Dispatch::start(total);
    let mut sent: Vec<usize> = Vec::new();
    let mut pauses = 0;
    let mut steps = 0;
    while !state.is_done() {
        steps += 1;
        assert!(steps <= 2 * total + 1);
        let succeeded = match state.action() {
            Action::Open => opens,
            Action::Send(index) => {
                if Some(index) == fails_at {
                    false
                } else {
                    sent.push(index);
                    true
                }
            }
            Action::Pause(millis) => {
                assert_eq!(millis, 10);
                pauses += 1;
                true
            }
            _ => panic!("a final action while the sending is not done"),
        };
        state = state.advance(succeeded);
    }
    (sent, pauses, state.action())
}

#[test]
fn all_commands_are_sent_in_order() {
    let (sent, pauses, last) = run(5, true, None);
    assert_eq!(sent, vec![0, 1, 2, 3, 4]);
    assert_eq!(pauses, 5);
    assert_eq!(last, Action::Succeed);
}

#[test]
fn sending_stops_at_the_first_command_that_fails() {
    for failed in 0..5 {
        let (sent, pauses, last) = run(5, true, Some(failed));
        assert_eq!(sent, (0..failed).collect::<Vec<usize>>());
        assert_eq!(pauses, failed);
        assert_eq!(last, Action::FailAt(failed));
    }
}

#[test]
fn nothing_is_sent_without_a_connection() {
    let (sent, pauses, last) = run(5, false, None);
    assert!(sent.is_empty());
    assert_eq!(pauses, 0);
    assert_eq!(last, Action::FailToOpen);
}

#[test]
fn an_empty_list_only_opens_the_connection() {
    let (sent, pauses, last) = run(0, true, None);
    assert!(sent.is_empty());
    assert_eq!(pauses, 0);
    assert_eq!(last, Action::Succeed);
}

#[test]
fn the_states_of_a_short_run() {
    let state = Dispatch::start(1);
    assert_eq!(state, Dispatch { phase: Phase::Opening, sent: 0, total: 1 });
    assert_eq!(state.action(), Action::Open);
    let state = state.advance(true);
    assert_eq!(state, Dispatch { phase: Phase::Sending, sent: 0, total: 1 });
    assert_eq!(state.action(), Action::Send(0));
    let state = state.advance(true);
    assert_eq!(state, Dispatch { phase: Phase::Pausing, sent: 1, total: 1 });
    assert_eq!(state.action(), Action::Pause(PAUSE_MILLIS));
    // A pause cannot fail: its result does not matter.
    assert_eq!(state.advance(false), state.advance(true));
    let state = state.advance(true);
    assert_eq!(state, Dispatch { phase: Phase::Finished, sent: 1, total: 1 });
    assert_eq!(state.action(), Action::Succeed);
    assert!(state.is_done());
}

#[test]
fn nothing_changes_after_the_end() {
    let aborted = Dispatch::start(3).advance(true).advance(true).advance(true).advance(false);
    assert_eq!(aborted, Dispatch { phase: Phase::Aborted, sent: 1, total: 3 });
    assert_eq!(aborted.action(), Action::FailAt(1));
    assert_eq!(aborted.advance(true), aborted);
    assert_eq!(aborted.advance(false), aborted);

    let refused = Dispatch::start(3).advance(false);
    assert_eq!(refused.advance(true), refused);
    assert_eq!(refused.action(), Action::FailToOpen);

    let finished = Dispatch::start(0).advance(true);
    assert_eq!(finished.advance(false), finished);
    assert_eq!(finished.action(), Action::Succeed);
}
