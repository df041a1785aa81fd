use muxdeck::input::linux::backend as linux;
use muxdeck::input::macos::backend::{
    accessibility_preflight, chunk_by_utf16, combo_plan, macos_capabilities, media_event, media_key as macos_media_key,
    resolve,
};
use muxdeck::input::macos::keymap::{key_code as macos_key_code, media_code, modifier_flag};
use muxdeck::input::mock::{Call, MockBackend};
use muxdeck::input::null::NullBackend;
use muxdeck::input::windows::{
    button_flags, combo_events, key_event, media_events, send_outcome, text_events, unicode_event,
    KEYEVENTF_EXTENDEDKEY, KEYEVENTF_KEYUP, KEYEVENTF_UNICODE,
};
use muxdeck::input::{InputBackend, InputError};
use muxdeck::protocol::input::{Key, MediaCommand, MouseButton};

// --- the recording backend ----------------------------------------------------------------

#[test]
fn mock_a_combo_presses_in_order_and_releases_in_reverse() {
    let mut backend = MockBackend::new();
    backend.key_combo(&[Key::Control, Key::Shift, Key::Escape], 0).expect("combo");
    assert_eq!(
        backend.calls(),
        vec![
            Call::KeyDown(Key::Control),
            Call::KeyDown(Key::Shift),
            Call::KeyDown(Key::Escape),
            Call::KeyUp(Key::Escape),
            Call::KeyUp(Key::Shift),
            Call::KeyUp(Key::Control),
        ]
    );
}

#[test]
fn a_failure_partway_still_releases_what_was_pressed() {
    let mut backend = MockBackend::failing_at(2);
    let error = backend.key_combo(&[Key::Control, Key::Shift, Key::A], 0).expect_err("the third press fails");
    assert!(matches!(error, InputError::Rejected(_)));
    assert_eq!(
        backend.calls(),
        vec![
            Call::KeyDown(Key::Control),
            Call::KeyDown(Key::Shift),
            Call::KeyUp(Key::Shift),
            Call::KeyUp(Key::Control),
        ],
        "everything pressed must be released, in reverse, even on failure"
    );
}

#[test]
fn a_lone_modifier_is_a_valid_combo() {
    let mut backend = MockBackend::new();
    backend.key_combo(&[Key::Meta], 0).expect("combo");
    assert_eq!(backend.calls(), vec![Call::KeyDown(Key::Meta), Call::KeyUp(Key::Meta)]);
}

#[test]
fn the_mock_records_text_and_media() {
    let mut backend = MockBackend::new();
    backend.text("hé").expect("text");
    backend.media(MediaCommand::Mute).expect("media");
    assert_eq!(backend.calls(), vec![Call::Text("hé".to_string()), Call::Media(MediaCommand::Mute)]);
}

#[test]
fn the_null_backend_refuses_everything_with_its_reason() {
    let mut backend = NullBackend::new("no input on this platform");
    let err = backend.key_combo(&[Key::A], 0).expect_err("refused");
    assert_eq!(err, InputError::Unsupported("no input on this platform".to_string()));
    assert_eq!(
        backend.preflight().expect_err("refused"),
        InputError::NotPermitted("no input on this platform".to_string())
    );
    let caps = backend.capabilities();
    assert!(!caps.text_unicode && !caps.media_keys && !caps.mouse);
}

#[test]
fn the_null_backend_refuses_pointer_input_with_its_reason() {
    let backend = NullBackend::new("no input on this platform");
    assert_eq!(backend.mouse_refusal(), InputError::Unsupported("no input on this platform".to_string()));
    assert_eq!(backend.name(), "none");
}

// --- macOS --------------------------------------------------------------------------------

#[test]
fn a_combo_splits_into_flags_and_key_codes() {
    let plan = combo_plan(&[Key::Meta, Key::Shift, Key::A]).expect("plan");
    assert_eq!(plan.codes, vec![0x00], "only the non-modifier becomes a key event");
    assert_eq!(plan.flags, (1 << 20) | (1 << 17));
    assert_eq!(modifier_flag(Key::Meta), Some(1 << 20));
}

#[test]
fn a_combo_of_modifiers_alone_posts_the_modifiers_as_keys() {
    let plan = combo_plan(&[Key::Shift, Key::Meta]).expect("plan");
    assert_eq!(plan.codes, vec![macos_key_code(Key::Shift).unwrap(), macos_key_code(Key::Meta).unwrap()]);
    assert_eq!(plan.flags, (1 << 17) | (1 << 20));
}

#[test]
fn a_combo_with_a_key_macos_lacks_is_refused_naming_it() {
    let err = combo_plan(&[Key::Control, Key::F22, Key::PrintScreen]).expect_err("refused");
    assert!(matches!(err, InputError::Unsupported(_)));
    assert!(err.message().contains("no F22 key"), "{}", err.message());
}

#[test]
fn keys_macos_lacks_are_refused_with_an_explanation() {
    let error = resolve(Key::PrintScreen).expect_err("must be refused");
    assert!(matches!(error, InputError::Unsupported(_)));
    assert!(error.message().contains("Print Screen"));
    assert!(error.message().starts_with("macOS has no PrintScreen key."));
}

#[test]
fn text_is_chunked_without_splitting_characters() {
    let chunks = chunk_by_utf16("abcdef", 2);
    assert_eq!(chunks, vec!["ab", "cd", "ef"]);
    assert_eq!(chunks.concat(), "abcdef");
}

#[test]
fn a_character_wider_than_the_limit_still_travels_whole() {
    let chunks = chunk_by_utf16("a😀b", 2);
    assert!(chunks.iter().all(|c| c.chars().count() >= 1));
    assert_eq!(chunks.concat(), "a😀b");
    assert!(chunks.contains(&"😀"), "the emoji must stay in one piece: {chunks:?}");
}

#[test]
fn chunking_fills_each_piece_up_to_the_limit() {
    assert_eq!(chunk_by_utf16("abcde", 20), vec!["abcde"]);
    assert_eq!(chunk_by_utf16("abcde", 3), vec!["abc", "de"]);
    assert!(chunk_by_utf16("", 20).is_empty());
    assert_eq!(chunk_by_utf16("😀a", 1), vec!["😀", "a"]);
    assert_eq!(chunk_by_utf16("😀😀", 1), vec!["😀", "😀"]);
}

#[test]
fn the_media_state_bits_are_packed_where_the_system_expects() {
    let code = media_code(MediaCommand::PlayPause).expect("play maps");
    let down = media_event(code, true);
    let up = media_event(code, false);
    assert_eq!(down.data1, 0x10_0A00);
    assert_eq!(up.data1, 0x10_0B00);
    assert_eq!(down.modifier_flags, 0xA00);
    assert_eq!(up.modifier_flags, 0xB00);
}

#[test]
fn macos_refuses_stop_and_suggests_play_pause() {
    let err = macos_media_key(MediaCommand::Stop).expect_err("no stop key");
    assert!(err.message().starts_with("macOS has no Stop key"));
    assert!(err.message().ends_with("Use PLAY_PAUSE instead."));
    assert_eq!(macos_media_key(MediaCommand::Next), Ok(17));
}

#[test]
fn accessibility_is_the_only_preflight_condition() {
    assert!(accessibility_preflight(true).is_ok());
    let err = accessibility_preflight(false).expect_err("untrusted");
    assert!(matches!(err, InputError::NotPermitted(_)));
    assert!(err.message().contains("System Settings > Privacy & Security > Accessibility"));
    assert!(macos_capabilities().text_unicode);
}

// --- Windows ------------------------------------------------------------------------------

#[test]
fn a_key_event_carries_both_the_virtual_key_and_a_scancode() {
    let event = key_event(Key::A, 0x1E, false);
    assert_eq!(event.vk, 0x41);
    assert_ne!(event.scan, 0, "games and raw-input apps read wScan, not wVk");
    assert_eq!(event.flags & KEYEVENTF_KEYUP, 0);
}

#[test]
fn extended_keys_carry_the_flag_and_ordinary_ones_do_not() {
    let delete = key_event(Key::Delete, 0x53, false);
    assert_eq!(delete.flags & KEYEVENTF_EXTENDEDKEY, KEYEVENTF_EXTENDEDKEY);
    let letter = key_event(Key::A, 0x1E, false);
    assert_eq!(letter.flags & KEYEVENTF_EXTENDEDKEY, 0);
}

#[test]
fn a_unicode_event_sends_the_code_unit_and_no_virtual_key() {
    let event = unicode_event(0x263A, false);
    assert_eq!(event.vk, 0, "wVk must be zero for a unicode event");
    assert_eq!(event.scan, 0x263A);
    assert_eq!(event.flags & KEYEVENTF_UNICODE, KEYEVENTF_UNICODE);
}

#[test]
fn a_windows_combo_releases_in_reverse_with_key_up() {
    let batches = combo_events(&[Key::Control, Key::Delete], &[0x1D, 0x53]);
    assert_eq!(batches.press.iter().map(|e| e.vk).collect::<Vec<_>>(), vec![0xA2, 0x2E]);
    assert_eq!(batches.release.iter().map(|e| e.vk).collect::<Vec<_>>(), vec![0x2E, 0xA2]);
    assert!(batches.release.iter().all(|e| e.flags & KEYEVENTF_KEYUP != 0));
    assert_eq!(batches.release[0].flags, KEYEVENTF_EXTENDEDKEY | KEYEVENTF_KEYUP);
}

#[test]
fn text_becomes_a_down_and_up_per_utf16_unit() {
    let events = text_events("a😀");
    assert_eq!(events.len(), 6);
    let units: Vec<u16> = events.iter().step_by(2).map(|e| e.scan).collect();
    assert_eq!(units, "a😀".encode_utf16().collect::<Vec<_>>());
    assert!(events.iter().skip(1).step_by(2).all(|e| e.flags == KEYEVENTF_UNICODE | KEYEVENTF_KEYUP));
}

#[test]
fn a_media_key_has_no_scancode() {
    let events = media_events(MediaCommand::VolumeUp);
    assert_eq!(events.len(), 2);
    assert_eq!(events[0].vk, 0xAF);
    assert_eq!(events[0].scan, 0);
    assert_eq!(events[1].flags, KEYEVENTF_KEYUP);
}

#[test]
fn a_short_batch_is_reported_with_the_counts() {
    assert!(send_outcome(4, 4, "").is_ok());
    let err = send_outcome(1, 4, "Access is denied. (0x80070005)").expect_err("short");
    assert_eq!(
        err.message(),
        "SendInput accepted 1 of 4 events: Access is denied. (0x80070005). A non-elevated daemon cannot inject into an elevated window."
    );
    assert_eq!(button_flags(MouseButton::Right), (0x0008, 0x0010));
}

// --- Linux --------------------------------------------------------------------------------

#[test]
fn a_combo_emits_the_right_codes_in_the_right_order() {
    let batches = linux::combo_events(&[Key::Control, Key::A]);
    let ctrl = muxdeck::input::linux::keymap::key_code(Key::Control);
    let a = muxdeck::input::linux::keymap::key_code(Key::A);
    let press: Vec<(u16, i32)> = batches.press.iter().map(|e| (e.code, e.value)).collect();
    let release: Vec<(u16, i32)> = batches.release.iter().map(|e| (e.code, e.value)).collect();
    assert_eq!(press, vec![(ctrl, 1), (a, 1)]);
    assert_eq!(release, vec![(a, 0), (ctrl, 0)]);
}

#[test]
fn text_is_refused_rather_than_half_working() {
    let error = linux::text_refusal();
    assert!(matches!(error, InputError::Unsupported(_)));
    assert!(!linux::linux_capabilities().text_unicode);
}

#[test]
fn opening_uinput_explains_the_remedy() {
    let denied = linux::describe_open_failure(linux::OpenFailure::PermissionDenied, "permission denied");
    assert!(matches!(denied, InputError::NotPermitted(_)));
    assert!(denied.message().contains("sudo usermod -aG input $USER"));
    let missing = linux::describe_open_failure(linux::OpenFailure::NotFound, "no such file");
    assert!(missing.message().contains("sudo modprobe uinput"));
    let other = linux::describe_open_failure(linux::OpenFailure::Other, "busy");
    assert_eq!(other.message(), "could not open /dev/uinput: busy");
    let media = linux::media_events(MediaCommand::PlayPause);
    assert_eq!(media.len(), 2);
    assert_eq!((media[0].value, media[1].value), (1, 0));
}
