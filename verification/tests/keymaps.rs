use std::collections::HashMap;

use muxdeck::input::keymap::{is_extended, media_key, virtual_key};
use muxdeck::input::linux::keymap as linux;
use muxdeck::input::macos::keymap as macos;
use muxdeck::protocol::input::{Key, MediaCommand};

// --- Windows virtual keys ---------------------------------------------------------------

#[test]
fn every_key_maps_to_a_real_virtual_key() {
    for key in Key::all() {
        let vk = virtual_key(key);
        assert!(vk > 0, "{key:?} maps to 0, which is not a virtual key");
        assert!(vk <= 0xFF, "{key:?} maps to {vk:#x}, outside the VK range");
    }
}

#[test]
fn letters_and_digits_are_their_ascii_values() {
    assert_eq!(virtual_key(Key::A), 0x41);
    assert_eq!(virtual_key(Key::Z), 0x5A);
    assert_eq!(virtual_key(Key::Digit0), 0x30);
    assert_eq!(virtual_key(Key::Digit9), 0x39);
}

#[test]
fn contiguous_ranges_line_up() {
    assert_eq!(virtual_key(Key::F1), 0x70);
    assert_eq!(virtual_key(Key::F12), 0x7B);
    assert_eq!(virtual_key(Key::F24), 0x87);
    assert_eq!(virtual_key(Key::Numpad0), 0x60);
    assert_eq!(virtual_key(Key::Numpad9), 0x69);
}

#[test]
fn only_enter_and_numpad_enter_share_a_virtual_key() {
    let all = Key::all();
    let mut collisions: Vec<(Key, Key)> = Vec::new();
    for (i, a) in all.iter().enumerate() {
        for b in &all[i + 1..] {
            if virtual_key(*a) == virtual_key(*b) {
                collisions.push((*a, *b));
            }
        }
    }
    assert_eq!(collisions, vec![(Key::Enter, Key::NumpadEnter)], "unexpected virtual-key collisions");
    assert!(!is_extended(Key::Enter));
    assert!(is_extended(Key::NumpadEnter));
}

#[test]
fn the_keys_that_would_otherwise_arrive_as_numpad_twins_are_extended() {
    for key in [
        Key::Delete,
        Key::Insert,
        Key::Home,
        Key::End,
        Key::PageUp,
        Key::PageDown,
        Key::Up,
        Key::Down,
        Key::Left,
        Key::Right,
    ] {
        assert!(is_extended(key), "{key:?} must carry KEYEVENTF_EXTENDEDKEY");
    }
}

#[test]
fn ordinary_keys_are_not_extended() {
    for key in [Key::A, Key::Space, Key::F1, Key::Numpad0, Key::Shift, Key::Comma] {
        assert!(!is_extended(key), "{key:?} must not be flagged extended");
    }
}

#[test]
fn every_media_command_maps_into_the_documented_range() {
    for command in MediaCommand::all() {
        let vk = media_key(command);
        assert!((0xAD..=0xB3).contains(&vk), "{command:?} maps to {vk:#x}, outside the media/volume VK block");
    }
}

// --- Linux key codes ----------------------------------------------------------------------

#[test]
fn every_key_maps_into_the_valid_range() {
    for key in Key::all() {
        let code = linux::key_code(key);
        assert!(code > 0, "{key:?} maps to 0, which is KEY_RESERVED");
        assert!(code < 0x300, "{key:?} maps to {code}, outside the key range");
    }
}

#[test]
fn keymap_no_two_keys_share_a_code() {
    let mut seen = HashMap::new();
    for key in Key::all() {
        let code = linux::key_code(key);
        if let Some(previous) = seen.insert(code, key) {
            panic!("{key:?} and {previous:?} both map to {code}");
        }
    }
}

#[test]
fn letters_follow_the_keyboard_rows_not_the_alphabet() {
    assert_eq!(linux::key_code(Key::A), 30);
    assert_eq!(linux::key_code(Key::Q), 16);
    assert_eq!(linux::key_code(Key::Z), 44);
    assert_ne!(
        linux::key_code(Key::B),
        linux::key_code(Key::A) + 1,
        "computing letters by offset would silently produce the wrong keys"
    );
}

#[test]
fn digits_run_one_to_nine_then_zero() {
    assert_eq!(linux::key_code(Key::Digit1), 2);
    assert_eq!(linux::key_code(Key::Digit9), 10);
    assert_eq!(linux::key_code(Key::Digit0), 11);
}

#[test]
fn function_key_runs_are_contiguous_where_the_kernel_says_they_are() {
    assert_eq!(linux::key_code(Key::F1), 59);
    assert_eq!(linux::key_code(Key::F9), 67);
    assert_eq!(linux::key_code(Key::F10), 68);
    assert_eq!(linux::key_code(Key::F11), 87);
    assert_eq!(linux::key_code(Key::F12), 88);
    assert_eq!(linux::key_code(Key::F13), 183);
    assert_eq!(linux::key_code(Key::F24), 194);
}

#[test]
fn the_numpad_follows_keypad_layout_order() {
    assert_eq!(linux::key_code(Key::Numpad7), 71);
    assert_eq!(linux::key_code(Key::Numpad0), 82);
    assert_eq!(linux::key_code(Key::NumpadEnter), 96);
    assert_ne!(
        linux::key_code(Key::NumpadEnter),
        linux::key_code(Key::Enter),
        "Linux gives the numpad Enter its own code, unlike Windows"
    );
}

#[test]
fn every_media_command_maps_into_the_media_block() {
    for command in MediaCommand::all() {
        let code = linux::media_code(command);
        assert!((113..=166).contains(&code), "{command:?} maps to {code}, outside the volume and media block");
    }
}

#[test]
fn the_registration_list_covers_everything_the_backend_can_send() {
    let codes = linux::all_codes();
    for key in Key::all() {
        assert!(codes.contains(&linux::key_code(key)), "{key:?} would not be registered");
    }
    for command in MediaCommand::all() {
        assert!(codes.contains(&linux::media_code(command)), "{command:?} would not be registered");
    }
}

#[test]
fn the_registration_list_is_sorted_without_repeats() {
    let codes = linux::all_codes();
    assert!(codes.windows(2).all(|w| w[0] < w[1]));
    assert_eq!(codes.len(), 112 + 7);
}

// --- macOS key codes ----------------------------------------------------------------------

const UNMAPPED: &[Key] = &[
    Key::F21,
    Key::F22,
    Key::F23,
    Key::F24,
    Key::PrintScreen,
    Key::ScrollLock,
    Key::Pause,
    Key::Menu,
];

#[test]
fn every_key_either_maps_or_is_a_known_gap() {
    for key in Key::all() {
        let mapped = macos::key_code(key).is_some();
        let expected = !UNMAPPED.contains(&key);
        assert_eq!(mapped, expected, "{key:?} is on the wrong side of the gap list");
    }
}

#[test]
fn every_mapped_key_is_a_real_virtual_key_code() {
    for key in Key::all() {
        if let Some(code) = macos::key_code(key) {
            assert!(code < 0x80, "{key:?} maps to {code:#x}, outside the 7-bit range");
        }
    }
}

#[test]
fn no_two_keys_share_a_code() {
    let mut seen = HashMap::new();
    for key in Key::all() {
        let Some(code) = macos::key_code(key) else { continue };
        if let Some(previous) = seen.insert(code, key) {
            panic!("{key:?} and {previous:?} both map to {code:#x}");
        }
    }
}

#[test]
fn backspace_and_delete_are_not_swapped() {
    assert_eq!(macos::key_code(Key::Backspace), Some(0x33));
    assert_eq!(macos::key_code(Key::Delete), Some(0x75));
}

#[test]
fn letters_and_digits_follow_key_positions_not_order() {
    assert_eq!(macos::key_code(Key::A), Some(0x00));
    assert_eq!(macos::key_code(Key::B), Some(0x0B));
    assert_ne!(macos::key_code(Key::B), macos::key_code(Key::A).map(|c| c + 1));
    assert_eq!(macos::key_code(Key::Digit5), Some(0x17));
    assert_eq!(macos::key_code(Key::Digit6), Some(0x16));
}

#[test]
fn function_keys_are_in_no_order_at_all() {
    assert_eq!(macos::key_code(Key::F1), Some(0x7A));
    assert_eq!(macos::key_code(Key::F2), Some(0x78));
    assert_eq!(macos::key_code(Key::F13), Some(0x69));
    assert_eq!(macos::key_code(Key::F20), Some(0x5A));
}

#[test]
fn exactly_the_four_protocol_modifiers_carry_a_flag() {
    for key in Key::all() {
        assert_eq!(
            macos::modifier_flag(key).is_some(),
            key.is_modifier(),
            "{key:?} is on the wrong side of the modifier split"
        );
    }
}

#[test]
fn modifier_flags_do_not_overlap() {
    let mut combined = 0u64;
    for key in [Key::Control, Key::Shift, Key::Alt, Key::Meta] {
        let flag = macos::modifier_flag(key).expect("modifier");
        assert_eq!(combined & flag, 0, "{key:?} reuses a bit");
        combined |= flag;
    }
}

#[test]
fn every_media_command_maps_except_stop() {
    for command in MediaCommand::all() {
        let mapped = macos::media_code(command);
        if matches!(command, MediaCommand::Stop) {
            assert!(mapped.is_none(), "macOS has no stop key");
        } else {
            assert!(mapped.is_some(), "{command:?} must map");
        }
    }
}
