use muxdeck::engine::input_dispatch::{
    key_combo, media, perform, plan_key_combo, plan_key_sequence, plan_text, InputStep, MAX_TEXT_LEN,
};
use muxdeck::input::mock::{Call, MockBackend};
use muxdeck::protocol::envelope::ErrorCode;
use muxdeck::protocol::input::{Key, KeyCombo, KeySequence, MediaCommand, MediaRequest, SequenceStep, TextRequest};

/// Runs a plan the way the server does: each step handed to the backend, pauses waited out by
/// the caller (here, skipped).
fn run(backend: &mut MockBackend, plan: &[InputStep]) {
    for step in plan {
        perform(backend, step).expect("step");
    }
}

#[test]
fn input_dispatch_a_combo_presses_in_order_and_releases_in_reverse() {
    let mut mock = MockBackend::new();
    key_combo(&mut mock, &KeyCombo { keys: vec![Key::Control, Key::Shift, Key::Escape], hold_ms: None }).expect("combo");
    assert_eq!(
        mock.calls(),
        vec![
            Call::KeyDown(Key::Control),
            Call::KeyDown(Key::Shift),
            Call::KeyDown(Key::Escape),
            Call::KeyUp(Key::Escape),
            Call::KeyUp(Key::Shift),
            Call::KeyUp(Key::Control),
        ]
    );
}

#[test]
fn a_failed_press_still_releases_and_reports_injection_failed() {
    let mut mock = MockBackend::failing_at(2);
    let err = key_combo(&mut mock, &KeyCombo { keys: vec![Key::Control, Key::Shift, Key::A], hold_ms: None })
        .expect_err("must fail");
    assert_eq!(err.to_payload().code, ErrorCode::InjectionFailed);
    assert_eq!(
        mock.calls(),
        vec![
            Call::KeyDown(Key::Control),
            Call::KeyDown(Key::Shift),
            Call::KeyUp(Key::Shift),
            Call::KeyUp(Key::Control),
        ],
        "a latched modifier outlives the process, so release is unconditional"
    );
}

#[test]
fn two_non_modifiers_are_rejected_before_the_backend_is_touched() {
    let mut mock = MockBackend::new();
    let err = key_combo(&mut mock, &KeyCombo { keys: vec![Key::A, Key::B], hold_ms: None }).expect_err("must fail");
    assert_eq!(err.to_payload().code, ErrorCode::BadRequest);
    assert!(mock.calls().is_empty(), "nothing may reach the OS");
}

#[test]
fn a_sequence_runs_its_combos_in_order() {
    let mut mock = MockBackend::new();
    let plan = plan_key_sequence(&KeySequence {
        steps: vec![
            SequenceStep::Combo(KeyCombo { keys: vec![Key::Control, Key::C], hold_ms: None }),
            SequenceStep::Delay { delay_ms: 1 },
            SequenceStep::Combo(KeyCombo { keys: vec![Key::Control, Key::V], hold_ms: None }),
        ],
    })
    .expect("sequence");
    assert!(matches!(plan[1], InputStep::Pause { ms: 1 }));
    run(&mut mock, &plan);
    assert_eq!(
        mock.calls(),
        vec![
            Call::KeyDown(Key::Control),
            Call::KeyDown(Key::C),
            Call::KeyUp(Key::C),
            Call::KeyUp(Key::Control),
            Call::KeyDown(Key::Control),
            Call::KeyDown(Key::V),
            Call::KeyUp(Key::V),
            Call::KeyUp(Key::Control),
        ]
    );
}

#[test]
fn an_absurdly_long_sequence_is_refused() {
    let err = plan_key_sequence(&KeySequence { steps: vec![SequenceStep::Delay { delay_ms: 60 * 60 * 1000 }] })
        .expect_err("must fail");
    assert_eq!(err.to_payload().code, ErrorCode::BadRequest);
}

#[test]
fn text_reaches_the_backend_whole_when_there_is_no_delay() {
    let mut mock = MockBackend::new();
    let plan = plan_text(&TextRequest { text: "muxdeck".into(), delay_ms: None }).expect("text");
    run(&mut mock, &plan);
    assert_eq!(mock.calls(), vec![Call::Text("muxdeck".into())]);
}

#[test]
fn text_with_a_delay_is_split_per_character() {
    let mut mock = MockBackend::new();
    let plan = plan_text(&TextRequest { text: "ab".into(), delay_ms: Some(1) }).expect("text");
    run(&mut mock, &plan);
    assert_eq!(mock.calls(), vec![Call::Text("a".into()), Call::Text("b".into())]);
}

#[test]
fn an_oversized_text_is_refused() {
    let err = plan_text(&TextRequest { text: "x".repeat(MAX_TEXT_LEN + 1), delay_ms: None }).expect_err("must fail");
    assert_eq!(err.to_payload().code, ErrorCode::BadRequest);
    assert!(plan_text(&TextRequest { text: "x".repeat(MAX_TEXT_LEN), delay_ms: None }).is_ok());
}

#[test]
fn a_combo_plan_is_one_step_with_its_hold() {
    let plan = plan_key_combo(&KeyCombo { keys: vec![Key::Meta], hold_ms: Some(250) }).expect("plan");
    assert_eq!(plan.len(), 1);
    assert!(matches!(&plan[0], InputStep::Combo { keys, hold_ms: 250 } if keys == &vec![Key::Meta]));
    assert_eq!(
        plan_key_combo(&KeyCombo { keys: vec![], hold_ms: None }).expect_err("empty").to_payload().code,
        ErrorCode::BadRequest
    );
}

#[test]
fn a_media_key_reaches_the_backend() {
    let mut mock = MockBackend::new();
    media(&mut mock, &MediaRequest { command: MediaCommand::PlayPause }).expect("media");
    assert_eq!(mock.calls(), vec![Call::Media(MediaCommand::PlayPause)]);
}
