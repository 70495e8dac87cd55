use wheel_bridge::axis::Axis;
use wheel_bridge::session::{
    controls, Action, Phase, Poll, Session, BRAKE_OFFSET, GAS_OFFSET, REPORT_LEN, STEERING_OFFSET,
};

fn report(steering: u8, brake: u8, gas: u8) -> [u8; REPORT_LEN] {
    let mut bytes = [0u8; REPORT_LEN];
    bytes[STEERING_OFFSET] = steering;
    bytes[BRAKE_OFFSET] = brake;
    bytes[GAS_OFFSET] = gas;
    bytes
}

fn poll(steering: u8, brake: u8, gas: u8) -> Poll {
    Poll { report: report(steering, brake, gas), cancel_requested: false }
}

fn cancelling(steering: u8, brake: u8, gas: u8) -> Poll {
    Poll { report: report(steering, brake, gas), cancel_requested: true }
}

fn sent(action: Action) -> Option<String> {
    match action {
        Action::Send(text) => Some(text),
        _ => None,
    }
}

fn after_sending(gas: u8, brake: u8) -> Session {
    let mut session = Session::new();
    let first = session.step(&poll(127, brake, gas));
    assert!(matches!(first, Action::Send(_)));
    session
}

#[test]
fn report_layout() {
    assert_eq!(REPORT_LEN, 29);
    assert_eq!(STEERING_OFFSET, 3);
    assert_eq!(BRAKE_OFFSET, 17);
    assert_eq!(GAS_OFFSET, 18);
}

#[test]
fn a_new_session_has_seen_and_sent_nothing() {
    let session = Session::new();
    assert_eq!(session.phase, Phase::Running);
    assert!(session.first_read);
    assert_eq!(session.last_report, [0u8; REPORT_LEN]);
    assert_eq!(session.last_gas, 0);
    assert_eq!(session.last_brake, 0);
    assert!(session.is_running());
}

#[test]
fn first_report_is_sent() {
    let mut session = Session::new();
    let action = session.step(&poll(127, 50, 100));
    assert_eq!(sent(action), Some("0.39 0.20".to_string()));
    assert!(!session.first_read);
    assert_eq!(session.last_gas, 100);
    assert_eq!(session.last_brake, 50);
    assert_eq!(session.last_report, report(127, 50, 100));
}

#[test]
fn first_report_is_sent_even_when_all_zero() {
    let mut session = Session::new();
    let action = session.step(&poll(0, 0, 0));
    assert_eq!(sent(action), Some("0.00 0.00".to_string()));
    assert!(!session.first_read);
}

#[test]
fn gas_step_of_25_is_sent() {
    let mut session = after_sending(100, 50);
    let action = session.step(&poll(127, 50, 125));
    assert_eq!(sent(action), Some("0.49 0.20".to_string()));
    assert_eq!(session.last_gas, 125);
}

#[test]
fn gas_step_of_15_is_held() {
    let mut session = after_sending(100, 50);
    let action = session.step(&poll(127, 50, 115));
    assert!(matches!(action, Action::Hold));
    assert_eq!(session.last_gas, 100);
    assert_eq!(session.last_brake, 50);
    assert_eq!(session.last_report, report(127, 50, 115));
}

#[test]
fn gas_release_from_10_is_sent() {
    let mut session = after_sending(10, 50);
    let action = session.step(&poll(127, 50, 0));
    assert_eq!(sent(action), Some("0.00 0.20".to_string()));
    assert_eq!(session.last_gas, 0);
}

#[test]
fn brake_to_full_scale_from_200_is_sent_by_threshold() {
    let mut session = after_sending(100, 200);
    let action = session.step(&poll(127, 255, 100));
    assert_eq!(sent(action), Some("0.39 1.00".to_string()));
    assert_eq!(session.last_brake, 255);
}

#[test]
fn brake_to_full_scale_from_240_is_held() {
    let mut session = after_sending(100, 240);
    let action = session.step(&poll(127, 255, 100));
    assert!(matches!(action, Action::Hold));
    assert_eq!(session.last_brake, 240);
}

#[test]
fn small_steps_add_up_against_the_last_sent_value() {
    let mut session = after_sending(100, 50);
    assert!(matches!(session.step(&poll(127, 50, 110)), Action::Hold));
    assert!(matches!(session.step(&poll(127, 50, 120)), Action::Hold));
    let action = session.step(&poll(127, 50, 121));
    assert_eq!(sent(action), Some("0.47 0.20".to_string()));
}

#[test]
fn repeated_report_is_skipped() {
    let mut session = after_sending(100, 50);
    let before = session;
    let action = session.step(&poll(127, 50, 100));
    assert!(matches!(action, Action::Skip));
    assert_eq!(session.last_report, before.last_report);
    assert_eq!(session.last_gas, before.last_gas);
    assert_eq!(session.last_brake, before.last_brake);
    assert_eq!(session.phase, Phase::Running);
}

#[test]
fn steering_alone_is_never_sent() {
    let mut session = after_sending(100, 50);
    let action = session.step(&poll(255, 50, 100));
    assert!(matches!(action, Action::Hold));
    assert_eq!(session.last_report, report(255, 50, 100));
}

#[test]
fn scripted_session_sends_the_expected_messages() {
    let script = vec![
        poll(127, 50, 100),
        poll(127, 50, 100),
        poll(127, 50, 115),
        poll(127, 50, 125),
        poll(127, 60, 125),
        poll(127, 0, 125),
        poll(127, 0, 10),
        poll(127, 0, 0),
        poll(127, 200, 0),
        poll(127, 255, 0),
        poll(0, 255, 0),
        poll(0, 255, 0),
        poll(0, 250, 5),
    ];
    let expected = vec![
        "0.39 0.20",
        "0.49 0.20",
        "0.49 0.00",
        "0.04 0.00",
        "0.00 0.00",
        "0.00 0.78",
        "0.00 1.00",
    ];
    let mut stepped = Session::new();
    let mut messages: Vec<String> = Vec::new();
    for p in script.iter() {
        if let Action::Send(text) = stepped.step(p) {
            messages.push(text);
        }
    }
    assert_eq!(messages, expected);

    let mut replayed = Session::new();
    assert_eq!(replayed.replay(&script), expected);
    assert_eq!(replayed.last_report, stepped.last_report);
    assert_eq!(replayed.last_gas, 0);
    assert_eq!(replayed.last_brake, 255);
    assert_eq!(replayed.phase, Phase::Running);
}

#[test]
fn replay_of_nothing_sends_nothing() {
    let mut session = Session::new();
    assert_eq!(session.replay(&Vec::new()), Vec::<String>::new());
    assert!(session.first_read);
}

#[test]
fn cancellation_stops_without_a_message() {
    let mut session = after_sending(100, 50);
    let action = session.step(&cancelling(127, 255, 255));
    assert!(matches!(action, Action::Stop));
    assert_eq!(session.phase, Phase::Cancelled);
    assert!(!session.is_running());
    assert_eq!(session.last_gas, 100);
    assert_eq!(session.last_report, report(127, 50, 100));
}

#[test]
fn cancellation_on_the_first_poll_sends_nothing() {
    let mut session = Session::new();
    assert!(matches!(session.step(&cancelling(127, 50, 100)), Action::Stop));
    assert!(matches!(session.step(&poll(127, 50, 100)), Action::Stop));
    assert!(session.first_read);
}

#[test]
fn nothing_is_sent_after_cancellation() {
    let script = vec![
        poll(127, 50, 100),
        poll(127, 50, 200),
        cancelling(127, 50, 0),
        poll(127, 50, 0),
        poll(127, 255, 255),
        poll(127, 0, 0),
    ];
    let mut session = Session::new();
    assert_eq!(session.replay(&script), vec!["0.39 0.20", "0.78 0.20"]);
    assert_eq!(session.phase, Phase::Cancelled);
    for p in script.iter() {
        assert!(matches!(session.step(p), Action::Stop));
    }
}

#[test]
fn cancel_marks_a_running_session() {
    let mut session = Session::new();
    session.cancel();
    assert_eq!(session.phase, Phase::Cancelled);
    assert!(matches!(session.step(&poll(127, 50, 100)), Action::Stop));
    session.fail();
    assert_eq!(session.phase, Phase::Cancelled);
}

#[test]
fn failure_ends_a_running_session() {
    let mut session = after_sending(100, 50);
    session.fail();
    assert_eq!(session.phase, Phase::Ended);
    assert!(!session.is_running());
    assert!(matches!(session.step(&poll(127, 0, 0)), Action::Stop));
    assert_eq!(session.last_gas, 100);
    session.cancel();
    assert_eq!(session.phase, Phase::Ended);
}

#[test]
fn highlights_are_empty_on_the_first_report() {
    let session = Session::new();
    assert_eq!(session.highlights(&report(127, 50, 100)), Vec::<usize>::new());
}

#[test]
fn highlights_are_the_changed_offsets_afterwards() {
    let session = after_sending(100, 50);
    assert_eq!(session.highlights(&report(127, 50, 100)), Vec::<usize>::new());
    assert_eq!(session.highlights(&report(130, 50, 101)), vec![3, 18]);
    assert_eq!(session.highlights(&report(127, 51, 100)), vec![17]);
}

#[test]
fn controls_are_read_at_their_offsets() {
    let c = controls(&report(255, 50, 100));
    assert_eq!(c.steering, Axis { numerator: 128, denominator: 127 });
    assert_eq!(c.brake, Axis { numerator: 50, denominator: 255 });
    assert_eq!(c.gas, Axis { numerator: 100, denominator: 255 });
    let centred = controls(&report(127, 0, 255));
    assert_eq!(centred.steering, Axis { numerator: 0, denominator: 127 });
    assert_eq!(centred.brake, Axis { numerator: 0, denominator: 255 });
    assert_eq!(centred.gas, Axis { numerator: 255, denominator: 255 });
}
