//! Canonical key names to Linux input event codes: the `KEY_*` values of
//! `<linux/input-event-codes.h>`, which are stable userspace ABI.
use vstd::prelude::*;

use crate::protocol::input::{all_keys_spec, all_media_spec, Key, MediaCommand};

verus! {

/// The `KEY_*` code of each canonical key. Letters follow the keyboard rows, digits run 1..9
/// then 0, F11 and F12 sit apart from F1..F10, and the numpad follows its layout.
pub open spec fn key_code_spec(key: Key) -> u16 {
    match key {
        Key::Control => 29,
        Key::Shift => 42,
        Key::Alt => 56,
        Key::Meta => 125,
        Key::A => 30,
        Key::B => 48,
        Key::C => 46,
        Key::D => 32,
        Key::E => 18,
        Key::F => 33,
        Key::G => 34,
        Key::H => 35,
        Key::I => 23,
        Key::J => 36,
        Key::K => 37,
        Key::L => 38,
        Key::M => 50,
        Key::N => 49,
        Key::O => 24,
        Key::P => 25,
        Key::Q => 16,
        Key::R => 19,
        Key::S => 31,
        Key::T => 20,
        Key::U => 22,
        Key::V => 47,
        Key::W => 17,
        Key::X => 45,
        Key::Y => 21,
        Key::Z => 44,
        Key::Digit0 => 11,
        Key::Digit1 => 2,
        Key::Digit2 => 3,
        Key::Digit3 => 4,
        Key::Digit4 => 5,
        Key::Digit5 => 6,
        Key::Digit6 => 7,
        Key::Digit7 => 8,
        Key::Digit8 => 9,
        Key::Digit9 => 10,
        Key::F1 => 59,
        Key::F2 => 60,
        Key::F3 => 61,
        Key::F4 => 62,
        Key::F5 => 63,
        Key::F6 => 64,
        Key::F7 => 65,
        Key::F8 => 66,
        Key::F9 => 67,
        Key::F10 => 68,
        Key::F11 => 87,
        Key::F12 => 88,
        Key::F13 => 183,
        Key::F14 => 184,
        Key::F15 => 185,
        Key::F16 => 186,
        Key::F17 => 187,
        Key::F18 => 188,
        Key::F19 => 189,
        Key::F20 => 190,
        Key::F21 => 191,
        Key::F22 => 192,
        Key::F23 => 193,
        Key::F24 => 194,
        Key::Escape => 1,
        Key::Tab => 15,
        Key::CapsLock => 58,
        Key::Space => 57,
        Key::Enter => 28,
        Key::Backspace => 14,
        Key::Delete => 111,
        Key::Insert => 110,
        Key::Home => 102,
        Key::End => 107,
        Key::PageUp => 104,
        Key::PageDown => 109,
        Key::Left => 105,
        Key::Right => 106,
        Key::Up => 103,
        Key::Down => 108,
        Key::Numpad0 => 82,
        Key::Numpad1 => 79,
        Key::Numpad2 => 80,
        Key::Numpad3 => 81,
        Key::Numpad4 => 75,
        Key::Numpad5 => 76,
        Key::Numpad6 => 77,
        Key::Numpad7 => 71,
        Key::Numpad8 => 72,
        Key::Numpad9 => 73,
        Key::NumpadAdd => 78,
        Key::NumpadSub => 74,
        Key::NumpadMul => 55,
        Key::NumpadDiv => 98,
        Key::NumpadDecimal => 83,
        Key::NumpadEnter => 96,
        Key::Minus => 12,
        Key::Equal => 13,
        Key::BracketLeft => 26,
        Key::BracketRight => 27,
        Key::Backslash => 43,
        Key::Semicolon => 39,
        Key::Quote => 40,
        Key::Backquote => 41,
        Key::Comma => 51,
        Key::Period => 52,
        Key::Slash => 53,
        Key::PrintScreen => 99,
        Key::ScrollLock => 70,
        Key::Pause => 119,
        Key::NumLock => 69,
        Key::Menu => 127,
    }
}

/// The `KEY_*` code for a canonical key name.
pub fn key_code(key: Key) -> (r: u16)
    ensures
        r == key_code_spec(key),
        0 < r < 0x300,
{
    match key {
        Key::Control => 29,
        Key::Shift => 42,
        Key::Alt => 56,
        Key::Meta => 125,
        Key::A => 30,
        Key::B => 48,
        Key::C => 46,
        Key::D => 32,
        Key::E => 18,
        Key::F => 33,
        Key::G => 34,
        Key::H => 35,
        Key::I => 23,
        Key::J => 36,
        Key::K => 37,
        Key::L => 38,
        Key::M => 50,
        Key::N => 49,
        Key::O => 24,
        Key::P => 25,
        Key::Q => 16,
        Key::R => 19,
        Key::S => 31,
        Key::T => 20,
        Key::U => 22,
        Key::V => 47,
        Key::W => 17,
        Key::X => 45,
        Key::Y => 21,
        Key::Z => 44,
        Key::Digit0 => 11,
        Key::Digit1 => 2,
        Key::Digit2 => 3,
        Key::Digit3 => 4,
        Key::Digit4 => 5,
        Key::Digit5 => 6,
        Key::Digit6 => 7,
        Key::Digit7 => 8,
        Key::Digit8 => 9,
        Key::Digit9 => 10,
        Key::F1 => 59,
        Key::F2 => 60,
        Key::F3 => 61,
        Key::F4 => 62,
        Key::F5 => 63,
        Key::F6 => 64,
        Key::F7 => 65,
        Key::F8 => 66,
        Key::F9 => 67,
        Key::F10 => 68,
        Key::F11 => 87,
        Key::F12 => 88,
        Key::F13 => 183,
        Key::F14 => 184,
        Key::F15 => 185,
        Key::F16 => 186,
        Key::F17 => 187,
        Key::F18 => 188,
        Key::F19 => 189,
        Key::F20 => 190,
        Key::F21 => 191,
        Key::F22 => 192,
        Key::F23 => 193,
        Key::F24 => 194,
        Key::Escape => 1,
        Key::Tab => 15,
        Key::CapsLock => 58,
        Key::Space => 57,
        Key::Enter => 28,
        Key::Backspace => 14,
        Key::Delete => 111,
        Key::Insert => 110,
        Key::Home => 102,
        Key::End => 107,
        Key::PageUp => 104,
        Key::PageDown => 109,
        Key::Left => 105,
        Key::Right => 106,
        Key::Up => 103,
        Key::Down => 108,
        Key::Numpad0 => 82,
        Key::Numpad1 => 79,
        Key::Numpad2 => 80,
        Key::Numpad3 => 81,
        Key::Numpad4 => 75,
        Key::Numpad5 => 76,
        Key::Numpad6 => 77,
        Key::Numpad7 => 71,
        Key::Numpad8 => 72,
        Key::Numpad9 => 73,
        Key::NumpadAdd => 78,
        Key::NumpadSub => 74,
        Key::NumpadMul => 55,
        Key::NumpadDiv => 98,
        Key::NumpadDecimal => 83,
        Key::NumpadEnter => 96,
        Key::Minus => 12,
        Key::Equal => 13,
        Key::BracketLeft => 26,
        Key::BracketRight => 27,
        Key::Backslash => 43,
        Key::Semicolon => 39,
        Key::Quote => 40,
        Key::Backquote => 41,
        Key::Comma => 51,
        Key::Period => 52,
        Key::Slash => 53,
        Key::PrintScreen => 99,
        Key::ScrollLock => 70,
        Key::Pause => 119,
        Key::NumLock => 69,
        Key::Menu => 127,
    }
}

/// The `KEY_*` code of each media command.
pub open spec fn media_code_spec(command: MediaCommand) -> u16 {
    match command {
        MediaCommand::PlayPause => 164,
        MediaCommand::Next => 163,
        MediaCommand::Prev => 165,
        MediaCommand::Stop => 166,
        MediaCommand::VolumeUp => 115,
        MediaCommand::VolumeDown => 114,
        MediaCommand::Mute => 113,
    }
}

pub fn media_code(command: MediaCommand) -> (r: u16)
    ensures
        r == media_code_spec(command),
        113 <= r <= 166,
{
    match command {
        MediaCommand::PlayPause => 164,
        MediaCommand::Next => 163,
        MediaCommand::Prev => 165,
        MediaCommand::Stop => 166,
        MediaCommand::VolumeUp => 115,
        MediaCommand::VolumeDown => 114,
        MediaCommand::Mute => 113,
    }
}

/// The key a code stands for.
pub open spec fn key_for_code(code: u16) -> Option<Key> {
    if code == 29 {
        Some(Key::Control)
    } else if code == 42 {
        Some(Key::Shift)
    } else if code == 56 {
        Some(Key::Alt)
    } else if code == 125 {
        Some(Key::Meta)
    } else if code == 30 {
        Some(Key::A)
    } else if code == 48 {
        Some(Key::B)
    } else if code == 46 {
        Some(Key::C)
    } else if code == 32 {
        Some(Key::D)
    } else if code == 18 {
        Some(Key::E)
    } else if code == 33 {
        Some(Key::F)
    } else if code == 34 {
        Some(Key::G)
    } else if code == 35 {
        Some(Key::H)
    } else if code == 23 {
        Some(Key::I)
    } else if code == 36 {
        Some(Key::J)
    } else if code == 37 {
        Some(Key::K)
    } else if code == 38 {
        Some(Key::L)
    } else if code == 50 {
        Some(Key::M)
    } else if code == 49 {
        Some(Key::N)
    } else if code == 24 {
        Some(Key::O)
    } else if code == 25 {
        Some(Key::P)
    } else if code == 16 {
        Some(Key::Q)
    } else if code == 19 {
        Some(Key::R)
    } else if code == 31 {
        Some(Key::S)
    } else if code == 20 {
        Some(Key::T)
    } else if code == 22 {
        Some(Key::U)
    } else if code == 47 {
        Some(Key::V)
    } else if code == 17 {
        Some(Key::W)
    } else if code == 45 {
        Some(Key::X)
    } else if code == 21 {
        Some(Key::Y)
    } else if code == 44 {
        Some(Key::Z)
    } else if code == 11 {
        Some(Key::Digit0)
    } else if code == 2 {
        Some(Key::Digit1)
    } else if code == 3 {
        Some(Key::Digit2)
    } else if code == 4 {
        Some(Key::Digit3)
    } else if code == 5 {
        Some(Key::Digit4)
    } else if code == 6 {
        Some(Key::Digit5)
    } else if code == 7 {
        Some(Key::Digit6)
    } else if code == 8 {
        Some(Key::Digit7)
    } else if code == 9 {
        Some(Key::Digit8)
    } else if code == 10 {
        Some(Key::Digit9)
    } else if code == 59 {
        Some(Key::F1)
    } else if code == 60 {
        Some(Key::F2)
    } else if code == 61 {
        Some(Key::F3)
    } else if code == 62 {
        Some(Key::F4)
    } else if code == 63 {
        Some(Key::F5)
    } else if code == 64 {
        Some(Key::F6)
    } else if code == 65 {
        Some(Key::F7)
    } else if code == 66 {
        Some(Key::F8)
    } else if code == 67 {
        Some(Key::F9)
    } else if code == 68 {
        Some(Key::F10)
    } else if code == 87 {
        Some(Key::F11)
    } else if code == 88 {
        Some(Key::F12)
    } else if code == 183 {
        Some(Key::F13)
    } else if code == 184 {
        Some(Key::F14)
    } else if code == 185 {
        Some(Key::F15)
    } else if code == 186 {
        Some(Key::F16)
    } else if code == 187 {
        Some(Key::F17)
    } else if code == 188 {
        Some(Key::F18)
    } else if code == 189 {
        Some(Key::F19)
    } else if code == 190 {
        Some(Key::F20)
    } else if code == 191 {
        Some(Key::F21)
    } else if code == 192 {
        Some(Key::F22)
    } else if code == 193 {
        Some(Key::F23)
    } else if code == 194 {
        Some(Key::F24)
    } else if code == 1 {
        Some(Key::Escape)
    } else if code == 15 {
        Some(Key::Tab)
    } else if code == 58 {
        Some(Key::CapsLock)
    } else if code == 57 {
        Some(Key::Space)
    } else if code == 28 {
        Some(Key::Enter)
    } else if code == 14 {
        Some(Key::Backspace)
    } else if code == 111 {
        Some(Key::Delete)
    } else if code == 110 {
        Some(Key::Insert)
    } else if code == 102 {
        Some(Key::Home)
    } else if code == 107 {
        Some(Key::End)
    } else if code == 104 {
        Some(Key::PageUp)
    } else if code == 109 {
        Some(Key::PageDown)
    } else if code == 105 {
        Some(Key::Left)
    } else if code == 106 {
        Some(Key::Right)
    } else if code == 103 {
        Some(Key::Up)
    } else if code == 108 {
        Some(Key::Down)
    } else if code == 82 {
        Some(Key::Numpad0)
    } else if code == 79 {
        Some(Key::Numpad1)
    } else if code == 80 {
        Some(Key::Numpad2)
    } else if code == 81 {
        Some(Key::Numpad3)
    } else if code == 75 {
        Some(Key::Numpad4)
    } else if code == 76 {
        Some(Key::Numpad5)
    } else if code == 77 {
        Some(Key::Numpad6)
    } else if code == 71 {
        Some(Key::Numpad7)
    } else if code == 72 {
        Some(Key::Numpad8)
    } else if code == 73 {
        Some(Key::Numpad9)
    } else if code == 78 {
        Some(Key::NumpadAdd)
    } else if code == 74 {
        Some(Key::NumpadSub)
    } else if code == 55 {
        Some(Key::NumpadMul)
    } else if code == 98 {
        Some(Key::NumpadDiv)
    } else if code == 83 {
        Some(Key::NumpadDecimal)
    } else if code == 96 {
        Some(Key::NumpadEnter)
    } else if code == 12 {
        Some(Key::Minus)
    } else if code == 13 {
        Some(Key::Equal)
    } else if code == 26 {
        Some(Key::BracketLeft)
    } else if code == 27 {
        Some(Key::BracketRight)
    } else if code == 43 {
        Some(Key::Backslash)
    } else if code == 39 {
        Some(Key::Semicolon)
    } else if code == 40 {
        Some(Key::Quote)
    } else if code == 41 {
        Some(Key::Backquote)
    } else if code == 51 {
        Some(Key::Comma)
    } else if code == 52 {
        Some(Key::Period)
    } else if code == 53 {
        Some(Key::Slash)
    } else if code == 99 {
        Some(Key::PrintScreen)
    } else if code == 70 {
        Some(Key::ScrollLock)
    } else if code == 119 {
        Some(Key::Pause)
    } else if code == 69 {
        Some(Key::NumLock)
    } else if code == 127 {
        Some(Key::Menu)
    } else {
        None
    }
}

proof fn lemma_key_code_inverse(key: Key)
    ensures
        key_for_code(key_code_spec(key)) == Some(key),
{
    match key {
        Key::Control => {},
        Key::Shift => {},
        Key::Alt => {},
        Key::Meta => {},
        Key::A => {},
        Key::B => {},
        Key::C => {},
        Key::D => {},
        Key::E => {},
        Key::F => {},
        Key::G => {},
        Key::H => {},
        Key::I => {},
        Key::J => {},
        Key::K => {},
        Key::L => {},
        Key::M => {},
        Key::N => {},
        Key::O => {},
        Key::P => {},
        Key::Q => {},
        Key::R => {},
        Key::S => {},
        Key::T => {},
        Key::U => {},
        Key::V => {},
        Key::W => {},
        Key::X => {},
        Key::Y => {},
        Key::Z => {},
        Key::Digit0 => {},
        Key::Digit1 => {},
        Key::Digit2 => {},
        Key::Digit3 => {},
        Key::Digit4 => {},
        Key::Digit5 => {},
        Key::Digit6 => {},
        Key::Digit7 => {},
        Key::Digit8 => {},
        Key::Digit9 => {},
        Key::F1 => {},
        Key::F2 => {},
        Key::F3 => {},
        Key::F4 => {},
        Key::F5 => {},
        Key::F6 => {},
        Key::F7 => {},
        Key::F8 => {},
        Key::F9 => {},
        Key::F10 => {},
        Key::F11 => {},
        Key::F12 => {},
        Key::F13 => {},
        Key::F14 => {},
        Key::F15 => {},
        Key::F16 => {},
        Key::F17 => {},
        Key::F18 => {},
        Key::F19 => {},
        Key::F20 => {},
        Key::F21 => {},
        Key::F22 => {},
        Key::F23 => {},
        Key::F24 => {},
        Key::Escape => {},
        Key::Tab => {},
        Key::CapsLock => {},
        Key::Space => {},
        Key::Enter => {},
        Key::Backspace => {},
        Key::Delete => {},
        Key::Insert => {},
        Key::Home => {},
        Key::End => {},
        Key::PageUp => {},
        Key::PageDown => {},
        Key::Left => {},
        Key::Right => {},
        Key::Up => {},
        Key::Down => {},
        Key::Numpad0 => {},
        Key::Numpad1 => {},
        Key::Numpad2 => {},
        Key::Numpad3 => {},
        Key::Numpad4 => {},
        Key::Numpad5 => {},
        Key::Numpad6 => {},
        Key::Numpad7 => {},
        Key::Numpad8 => {},
        Key::Numpad9 => {},
        Key::NumpadAdd => {},
        Key::NumpadSub => {},
        Key::NumpadMul => {},
        Key::NumpadDiv => {},
        Key::NumpadDecimal => {},
        Key::NumpadEnter => {},
        Key::Minus => {},
        Key::Equal => {},
        Key::BracketLeft => {},
        Key::BracketRight => {},
        Key::Backslash => {},
        Key::Semicolon => {},
        Key::Quote => {},
        Key::Backquote => {},
        Key::Comma => {},
        Key::Period => {},
        Key::Slash => {},
        Key::PrintScreen => {},
        Key::ScrollLock => {},
        Key::Pause => {},
        Key::NumLock => {},
        Key::Menu => {},
    }
}

/// No two keys share a code: unlike Windows, Linux gives the numpad Enter a code of its own.
pub proof fn law_no_two_keys_share_a_code(a: Key, b: Key)
    ensures
        key_code_spec(a) == key_code_spec(b) ==> a == b,
{
    lemma_key_code_inverse(a);
    lemma_key_code_inverse(b);
}

/// A code the backend may emit: that of some key or some media command.
pub open spec fn is_emitted_code(c: u16) -> bool {
    (exists|k: Key| #[trigger] key_code_spec(k) == c) || (exists|m: MediaCommand|
        #[trigger] media_code_spec(m) == c)
}

/// Where an emitted code sits among the keys (at the key's index) and then the media commands
/// (from 112 on): one place per code, which shows that no two keys, no two media commands, and
/// no key and media command share a code.
spec fn code_slot(c: u16) -> int {
    match c {
        1 => 64,
        2 => 31,
        3 => 32,
        4 => 33,
        5 => 34,
        6 => 35,
        7 => 36,
        8 => 37,
        9 => 38,
        10 => 39,
        11 => 30,
        12 => 96,
        13 => 97,
        14 => 69,
        15 => 65,
        16 => 20,
        17 => 26,
        18 => 8,
        19 => 21,
        20 => 23,
        21 => 28,
        22 => 24,
        23 => 12,
        24 => 18,
        25 => 19,
        26 => 98,
        27 => 99,
        28 => 68,
        29 => 0,
        30 => 4,
        31 => 22,
        32 => 7,
        33 => 9,
        34 => 10,
        35 => 11,
        36 => 13,
        37 => 14,
        38 => 15,
        39 => 101,
        40 => 102,
        41 => 103,
        42 => 1,
        43 => 100,
        44 => 29,
        45 => 27,
        46 => 6,
        47 => 25,
        48 => 5,
        49 => 17,
        50 => 16,
        51 => 104,
        52 => 105,
        53 => 106,
        55 => 92,
        56 => 2,
        57 => 67,
        58 => 66,
        59 => 40,
        60 => 41,
        61 => 42,
        62 => 43,
        63 => 44,
        64 => 45,
        65 => 46,
        66 => 47,
        67 => 48,
        68 => 49,
        69 => 110,
        70 => 108,
        71 => 87,
        72 => 88,
        73 => 89,
        74 => 91,
        75 => 84,
        76 => 85,
        77 => 86,
        78 => 90,
        79 => 81,
        80 => 82,
        81 => 83,
        82 => 80,
        83 => 94,
        87 => 50,
        88 => 51,
        96 => 95,
        98 => 93,
        99 => 107,
        102 => 72,
        103 => 78,
        104 => 74,
        105 => 76,
        106 => 77,
        107 => 73,
        108 => 79,
        109 => 75,
        110 => 71,
        111 => 70,
        113 => 118,
        114 => 117,
        115 => 116,
        119 => 109,
        125 => 3,
        127 => 111,
        163 => 113,
        164 => 112,
        165 => 114,
        166 => 115,
        183 => 52,
        184 => 53,
        185 => 54,
        186 => 55,
        187 => 56,
        188 => 57,
        189 => 58,
        190 => 59,
        191 => 60,
        192 => 61,
        193 => 62,
        194 => 63,
        _ => -1,
    }
}

proof fn lemma_code_slots(k: Key)
    ensures
        code_slot(key_code_spec(k)) == crate::protocol::input::key_index(k),
        forall|j: int| 0 <= j < 7 ==> code_slot(media_code_spec(#[trigger] all_media_spec()[j])) == 112 + j,
{
}

/// `v` strictly increases.
pub open spec fn strictly_increasing(v: Seq<u16>) -> bool {
    forall|i: int, j: int| 0 <= i < j < v.len() ==> v[i] < v[j]
}

/// Puts `x` in its place in a strictly increasing list, unless it is already there.
fn insert_sorted(v: &mut Vec<u16>, x: u16)
    requires
        strictly_increasing(old(v)@),
    ensures
        strictly_increasing(final(v)@),
        forall|y: u16| #[trigger] final(v)@.contains(y) <==> (old(v)@.contains(y) || y == x),
        !old(v)@.contains(x) ==> final(v)@.len() == old(v)@.len() + 1,
{
    let mut i: usize = 0;
    while i < v.len() && v[i] < x
        invariant
            i <= v@.len(),
            forall|j: int| 0 <= j < i ==> v@[j] < x,
        decreases v@.len() - i,
    {
        i = i + 1;
    }
    if i < v.len() && v[i] == x {
        assert(v@.contains(x));
        return;
    }
    let ghost before = v@;
    v.insert(i, x);
    proof {
        before.insert_ensures(i as int, x);
        assert forall|y: u16| #[trigger] v@.contains(y) <==> (before.contains(y) || y == x) by {
            if v@.contains(y) {
                let j = choose|j: int| 0 <= j < v@.len() && v@[j] == y;
                if j < i {
                    assert(before[j] == y);
                } else if j > i {
                    assert(before[j - 1] == y);
                }
            }
            if before.contains(y) {
                let j = choose|j: int| 0 <= j < before.len() && before[j] == y;
                if j < i {
                    assert(v@[j] == y);
                } else {
                    assert(v@[j + 1] == y);
                }
            }
            if y == x {
                assert(v@[i as int] == x);
            }
        }
        assert forall|a: int, b: int| 0 <= a < b < v@.len() implies v@[a] < v@[b] by {
            if b < i {
            } else if a < i && b == i {
            } else if a < i && b > i {
                assert(v@[b] == before[b - 1]);
            } else if a == i {
                assert(v@[b] == before[b - 1]);
            } else {
                assert(v@[a] == before[a - 1]);
                assert(v@[b] == before[b - 1]);
            }
        }
    }
}

/// Every code the backend may ever emit, each once, in increasing order. A uinput device must
/// declare each key at creation time, and one not declared is silently dropped, so this list
/// must cover every key and every media command.
pub fn all_codes() -> (r: Vec<u16>)
    ensures
        strictly_increasing(r@),
        forall|c: u16| #[trigger] r@.contains(c) <==> is_emitted_code(c),
        r@.len() == 119,
{
    let keys = Key::all();
    let media = MediaCommand::all();
    let mut codes: Vec<u16> = Vec::new();
    let mut i: usize = 0;
    while i < keys.len()
        invariant
            keys@ == all_keys_spec(),
            i <= keys@.len(),
            codes@.len() == i,
            strictly_increasing(codes@),
            forall|c: u16|
                #[trigger] codes@.contains(c) <==> exists|j: int|
                    0 <= j < i && #[trigger] key_code_spec(keys@[j]) == c,
        decreases keys@.len() - i,
    {
        let ghost before = codes@;
        proof {
            crate::protocol::input::lemma_all_keys_complete_and_distinct();
            if before.contains(key_code_spec(keys@[i as int])) {
                let j = choose|j: int| 0 <= j < i && #[trigger] key_code_spec(keys@[j]) == key_code_spec(
                    keys@[i as int],
                );
                lemma_code_slots(keys@[j]);
                lemma_code_slots(keys@[i as int]);
            }
        }
        insert_sorted(&mut codes, key_code(keys[i]));
        proof {
            assert forall|c: u16| #[trigger] codes@.contains(c) <==> exists|j: int|
                0 <= j < i + 1 && #[trigger] key_code_spec(keys@[j]) == c by {
                if codes@.contains(c) && c != key_code_spec(keys@[i as int]) {
                    assert(before.contains(c));
                }
            }
        }
        i = i + 1;
    }
    let mut m: usize = 0;
    while m < media.len()
        invariant
            keys@ == all_keys_spec(),
            media@ == all_media_spec(),
            m <= media@.len(),
            codes@.len() == 112 + m,
            strictly_increasing(codes@),
            forall|c: u16|
                #[trigger] codes@.contains(c) <==> (exists|j: int|
                    0 <= j < keys@.len() && #[trigger] key_code_spec(keys@[j]) == c) || (exists|j: int|
                    0 <= j < m && #[trigger] media_code_spec(media@[j]) == c),
        decreases media@.len() - m,
    {
        let ghost before = codes@;
        proof {
            crate::protocol::input::lemma_all_keys_complete_and_distinct();
            crate::protocol::input::lemma_all_media_complete_and_distinct();
            let c = media_code_spec(media@[m as int]);
            lemma_code_slots(Key::A);
            assert(code_slot(c) == 112 + m);
            if before.contains(c) {
                if exists|j: int| 0 <= j < keys@.len() && #[trigger] key_code_spec(keys@[j]) == c {
                    let j = choose|j: int| 0 <= j < keys@.len() && #[trigger] key_code_spec(keys@[j]) == c;
                    lemma_code_slots(keys@[j]);
                } else {
                    let j = choose|j: int| 0 <= j < m && #[trigger] media_code_spec(media@[j]) == c;
                    assert(code_slot(media_code_spec(all_media_spec()[j])) == 112 + j);
                }
            }
        }
        insert_sorted(&mut codes, media_code(media[m]));
        proof {
            assert forall|c: u16| #[trigger] codes@.contains(c) <==> (exists|j: int|
                0 <= j < keys@.len() && #[trigger] key_code_spec(keys@[j]) == c) || (exists|j: int|
                0 <= j < m + 1 && #[trigger] media_code_spec(media@[j]) == c) by {
                if codes@.contains(c) && c != media_code_spec(media@[m as int]) {
                    assert(before.contains(c));
                }
            }
        }
        m = m + 1;
    }
    proof {
        crate::protocol::input::lemma_all_keys_complete_and_distinct();
        crate::protocol::input::lemma_all_media_complete_and_distinct();
        assert forall|c: u16| #[trigger] codes@.contains(c) <==> is_emitted_code(c) by {
            if is_emitted_code(c) {
                if exists|k: Key| #[trigger] key_code_spec(k) == c {
                    let k = choose|k: Key| #[trigger] key_code_spec(k) == c;
                    crate::protocol::input::lemma_key_index(k);
                    let j = crate::protocol::input::key_index(k) as int;
                    assert(keys@[j] == k);
                } else {
                    let mc = choose|mc: MediaCommand| #[trigger] media_code_spec(mc) == c;
                    assert(all_media_spec().contains(mc));
                    let j = choose|j: int| 0 <= j < media@.len() && media@[j] == mc;
                    assert(media_code_spec(media@[j]) == c);
                }
            }
        }
    }
    codes
}

/// Each key emits the `KEY_*` code of `<linux/input-event-codes.h>` named for it.
pub proof fn law_key_codes_are_the_linux_key_codes(key: Key)
    ensures
        key == Key::Control ==> key_code_spec(key) == 0x1du16,
        key == Key::Shift ==> key_code_spec(key) == 0x2au16,
        key == Key::Alt ==> key_code_spec(key) == 0x38u16,
        key == Key::Meta ==> key_code_spec(key) == 0x7du16,
        key == Key::A ==> key_code_spec(key) == 0x1eu16,
        key == Key::B ==> key_code_spec(key) == 0x30u16,
        key == Key::C ==> key_code_spec(key) == 0x2eu16,
        key == Key::D ==> key_code_spec(key) == 0x20u16,
        key == Key::E ==> key_code_spec(key) == 0x12u16,
        key == Key::F ==> key_code_spec(key) == 0x21u16,
        key == Key::G ==> key_code_spec(key) == 0x22u16,
        key == Key::H ==> key_code_spec(key) == 0x23u16,
        key == Key::I ==> key_code_spec(key) == 0x17u16,
        key == Key::J ==> key_code_spec(key) == 0x24u16,
        key == Key::K ==> key_code_spec(key) == 0x25u16,
        key == Key::L ==> key_code_spec(key) == 0x26u16,
        key == Key::M ==> key_code_spec(key) == 0x32u16,
        key == Key::N ==> key_code_spec(key) == 0x31u16,
        key == Key::O ==> key_code_spec(key) == 0x18u16,
        key == Key::P ==> key_code_spec(key) == 0x19u16,
        key == Key::Q ==> key_code_spec(key) == 0x10u16,
        key == Key::R ==> key_code_spec(key) == 0x13u16,
        key == Key::S ==> key_code_spec(key) == 0x1fu16,
        key == Key::T ==> key_code_spec(key) == 0x14u16,
        key == Key::U ==> key_code_spec(key) == 0x16u16,
        key == Key::V ==> key_code_spec(key) == 0x2fu16,
        key == Key::W ==> key_code_spec(key) == 0x11u16,
        key == Key::X ==> key_code_spec(key) == 0x2du16,
        key == Key::Y ==> key_code_spec(key) == 0x15u16,
        key == Key::Z ==> key_code_spec(key) == 0x2cu16,
        key == Key::Digit0 ==> key_code_spec(key) == 0xbu16,
        key == Key::Digit1 ==> key_code_spec(key) == 0x2u16,
        key == Key::Digit2 ==> key_code_spec(key) == 0x3u16,
        key == Key::Digit3 ==> key_code_spec(key) == 0x4u16,
        key == Key::Digit4 ==> key_code_spec(key) == 0x5u16,
        key == Key::Digit5 ==> key_code_spec(key) == 0x6u16,
        key == Key::Digit6 ==> key_code_spec(key) == 0x7u16,
        key == Key::Digit7 ==> key_code_spec(key) == 0x8u16,
        key == Key::Digit8 ==> key_code_spec(key) == 0x9u16,
        key == Key::Digit9 ==> key_code_spec(key) == 0xau16,
        key == Key::F1 ==> key_code_spec(key) == 0x3bu16,
        key == Key::F2 ==> key_code_spec(key) == 0x3cu16,
        key == Key::F3 ==> key_code_spec(key) == 0x3du16,
        key == Key::F4 ==> key_code_spec(key) == 0x3eu16,
        key == Key::F5 ==> key_code_spec(key) == 0x3fu16,
        key == Key::F6 ==> key_code_spec(key) == 0x40u16,
        key == Key::F7 ==> key_code_spec(key) == 0x41u16,
        key == Key::F8 ==> key_code_spec(key) == 0x42u16,
        key == Key::F9 ==> key_code_spec(key) == 0x43u16,
        key == Key::F10 ==> key_code_spec(key) == 0x44u16,
        key == Key::F11 ==> key_code_spec(key) == 0x57u16,
        key == Key::F12 ==> key_code_spec(key) == 0x58u16,
        key == Key::F13 ==> key_code_spec(key) == 0xb7u16,
        key == Key::F14 ==> key_code_spec(key) == 0xb8u16,
        key == Key::F15 ==> key_code_spec(key) == 0xb9u16,
        key == Key::F16 ==> key_code_spec(key) == 0xbau16,
        key == Key::F17 ==> key_code_spec(key) == 0xbbu16,
        key == Key::F18 ==> key_code_spec(key) == 0xbcu16,
        key == Key::F19 ==> key_code_spec(key) == 0xbdu16,
        key == Key::F20 ==> key_code_spec(key) == 0xbeu16,
        key == Key::F21 ==> key_code_spec(key) == 0xbfu16,
        key == Key::F22 ==> key_code_spec(key) == 0xc0u16,
        key == Key::F23 ==> key_code_spec(key) == 0xc1u16,
        key == Key::F24 ==> key_code_spec(key) == 0xc2u16,
        key == Key::Escape ==> key_code_spec(key) == 0x1u16,
        key == Key::Tab ==> key_code_spec(key) == 0xfu16,
        key == Key::CapsLock ==> key_code_spec(key) == 0x3au16,
        key == Key::Space ==> key_code_spec(key) == 0x39u16,
        key == Key::Enter ==> key_code_spec(key) == 0x1cu16,
        key == Key::Backspace ==> key_code_spec(key) == 0xeu16,
        key == Key::Delete ==> key_code_spec(key) == 0x6fu16,
        key == Key::Insert ==> key_code_spec(key) == 0x6eu16,
        key == Key::Home ==> key_code_spec(key) == 0x66u16,
        key == Key::End ==> key_code_spec(key) == 0x6bu16,
        key == Key::PageUp ==> key_code_spec(key) == 0x68u16,
        key == Key::PageDown ==> key_code_spec(key) == 0x6du16,
        key == Key::Left ==> key_code_spec(key) == 0x69u16,
        key == Key::Right ==> key_code_spec(key) == 0x6au16,
        key == Key::Up ==> key_code_spec(key) == 0x67u16,
        key == Key::Down ==> key_code_spec(key) == 0x6cu16,
        key == Key::Numpad0 ==> key_code_spec(key) == 0x52u16,
        key == Key::Numpad1 ==> key_code_spec(key) == 0x4fu16,
        key == Key::Numpad2 ==> key_code_spec(key) == 0x50u16,
        key == Key::Numpad3 ==> key_code_spec(key) == 0x51u16,
        key == Key::Numpad4 ==> key_code_spec(key) == 0x4bu16,
        key == Key::Numpad5 ==> key_code_spec(key) == 0x4cu16,
        key == Key::Numpad6 ==> key_code_spec(key) == 0x4du16,
        key == Key::Numpad7 ==> key_code_spec(key) == 0x47u16,
        key == Key::Numpad8 ==> key_code_spec(key) == 0x48u16,
        key == Key::Numpad9 ==> key_code_spec(key) == 0x49u16,
        key == Key::NumpadAdd ==> key_code_spec(key) == 0x4eu16,
        key == Key::NumpadSub ==> key_code_spec(key) == 0x4au16,
        key == Key::NumpadMul ==> key_code_spec(key) == 0x37u16,
        key == Key::NumpadDiv ==> key_code_spec(key) == 0x62u16,
        key == Key::NumpadDecimal ==> key_code_spec(key) == 0x53u16,
        key == Key::NumpadEnter ==> key_code_spec(key) == 0x60u16,
        key == Key::Minus ==> key_code_spec(key) == 0xcu16,
        key == Key::Equal ==> key_code_spec(key) == 0xdu16,
        key == Key::BracketLeft ==> key_code_spec(key) == 0x1au16,
        key == Key::BracketRight ==> key_code_spec(key) == 0x1bu16,
        key == Key::Backslash ==> key_code_spec(key) == 0x2bu16,
        key == Key::Semicolon ==> key_code_spec(key) == 0x27u16,
        key == Key::Quote ==> key_code_spec(key) == 0x28u16,
        key == Key::Backquote ==> key_code_spec(key) == 0x29u16,
        key == Key::Comma ==> key_code_spec(key) == 0x33u16,
        key == Key::Period ==> key_code_spec(key) == 0x34u16,
        key == Key::Slash ==> key_code_spec(key) == 0x35u16,
        key == Key::PrintScreen ==> key_code_spec(key) == 0x63u16,
        key == Key::ScrollLock ==> key_code_spec(key) == 0x46u16,
        key == Key::Pause ==> key_code_spec(key) == 0x77u16,
        key == Key::NumLock ==> key_code_spec(key) == 0x45u16,
        key == Key::Menu ==> key_code_spec(key) == 0x7fu16,
{
}

/// Each media command emits the `<linux/input-event-codes.h>` key named for it: `KEY_PLAYPAUSE`
/// (164), `KEY_NEXTSONG` (163), `KEY_PREVIOUSSONG` (165), `KEY_STOPCD` (166), `KEY_VOLUMEUP`
/// (115), `KEY_VOLUMEDOWN` (114) and `KEY_MUTE` (113).
pub proof fn law_media_codes_are_the_linux_key_codes(command: MediaCommand)
    ensures
        command == MediaCommand::PlayPause ==> media_code_spec(command) == 164,
        command == MediaCommand::Next ==> media_code_spec(command) == 163,
        command == MediaCommand::Prev ==> media_code_spec(command) == 165,
        command == MediaCommand::Stop ==> media_code_spec(command) == 166,
        command == MediaCommand::VolumeUp ==> media_code_spec(command) == 115,
        command == MediaCommand::VolumeDown ==> media_code_spec(command) == 114,
        command == MediaCommand::Mute ==> media_code_spec(command) == 113,
{
}

} // verus!
