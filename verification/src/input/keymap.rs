//! Canonical key names to Win32 virtual-key codes, transcribed from `winuser.h`. Kept apart
//! from any Windows-only code so the table can be checked anywhere.
use vstd::prelude::*;

use crate::protocol::input::{Key, MediaCommand};

verus! {

/// The virtual-key code of each canonical key. Modifiers map to their left variant; letters
/// and digits are their ASCII values; F1..F24 and the numpad digits are contiguous runs; the
/// numpad Enter shares `VK_RETURN` and is told apart only by the extended flag.
pub open spec fn virtual_key_spec(key: Key) -> u16 {
    match key {
        Key::Control => 0xA2,
        Key::Shift => 0xA0,
        Key::Alt => 0xA4,
        Key::Meta => 0x5B,
        Key::A => 0x41,
        Key::B => 0x42,
        Key::C => 0x43,
        Key::D => 0x44,
        Key::E => 0x45,
        Key::F => 0x46,
        Key::G => 0x47,
        Key::H => 0x48,
        Key::I => 0x49,
        Key::J => 0x4A,
        Key::K => 0x4B,
        Key::L => 0x4C,
        Key::M => 0x4D,
        Key::N => 0x4E,
        Key::O => 0x4F,
        Key::P => 0x50,
        Key::Q => 0x51,
        Key::R => 0x52,
        Key::S => 0x53,
        Key::T => 0x54,
        Key::U => 0x55,
        Key::V => 0x56,
        Key::W => 0x57,
        Key::X => 0x58,
        Key::Y => 0x59,
        Key::Z => 0x5A,
        Key::Digit0 => 0x30,
        Key::Digit1 => 0x31,
        Key::Digit2 => 0x32,
        Key::Digit3 => 0x33,
        Key::Digit4 => 0x34,
        Key::Digit5 => 0x35,
        Key::Digit6 => 0x36,
        Key::Digit7 => 0x37,
        Key::Digit8 => 0x38,
        Key::Digit9 => 0x39,
        Key::F1 => 0x70,
        Key::F2 => 0x71,
        Key::F3 => 0x72,
        Key::F4 => 0x73,
        Key::F5 => 0x74,
        Key::F6 => 0x75,
        Key::F7 => 0x76,
        Key::F8 => 0x77,
        Key::F9 => 0x78,
        Key::F10 => 0x79,
        Key::F11 => 0x7A,
        Key::F12 => 0x7B,
        Key::F13 => 0x7C,
        Key::F14 => 0x7D,
        Key::F15 => 0x7E,
        Key::F16 => 0x7F,
        Key::F17 => 0x80,
        Key::F18 => 0x81,
        Key::F19 => 0x82,
        Key::F20 => 0x83,
        Key::F21 => 0x84,
        Key::F22 => 0x85,
        Key::F23 => 0x86,
        Key::F24 => 0x87,
        Key::Escape => 0x1B,
        Key::Tab => 0x09,
        Key::CapsLock => 0x14,
        Key::Space => 0x20,
        Key::Enter => 0x0D,
        Key::Backspace => 0x08,
        Key::Delete => 0x2E,
        Key::Insert => 0x2D,
        Key::Home => 0x24,
        Key::End => 0x23,
        Key::PageUp => 0x21,
        Key::PageDown => 0x22,
        Key::Left => 0x25,
        Key::Right => 0x27,
        Key::Up => 0x26,
        Key::Down => 0x28,
        Key::Numpad0 => 0x60,
        Key::Numpad1 => 0x61,
        Key::Numpad2 => 0x62,
        Key::Numpad3 => 0x63,
        Key::Numpad4 => 0x64,
        Key::Numpad5 => 0x65,
        Key::Numpad6 => 0x66,
        Key::Numpad7 => 0x67,
        Key::Numpad8 => 0x68,
        Key::Numpad9 => 0x69,
        Key::NumpadAdd => 0x6B,
        Key::NumpadSub => 0x6D,
        Key::NumpadMul => 0x6A,
        Key::NumpadDiv => 0x6F,
        Key::NumpadDecimal => 0x6E,
        Key::NumpadEnter => 0x0D,
        Key::Minus => 0xBD,
        Key::Equal => 0xBB,
        Key::BracketLeft => 0xDB,
        Key::BracketRight => 0xDD,
        Key::Backslash => 0xDC,
        Key::Semicolon => 0xBA,
        Key::Quote => 0xDE,
        Key::Backquote => 0xC0,
        Key::Comma => 0xBC,
        Key::Period => 0xBE,
        Key::Slash => 0xBF,
        Key::PrintScreen => 0x2C,
        Key::ScrollLock => 0x91,
        Key::Pause => 0x13,
        Key::NumLock => 0x90,
        Key::Menu => 0x5D,
    }
}

/// The virtual-key code for a canonical key name. Total: there is no unsupported key on
/// Windows.
pub fn virtual_key(key: Key) -> (r: u16)
    ensures
        r == virtual_key_spec(key),
        0 < r <= 0xFF,
{
    match key {
        Key::Control => 0xA2,
        Key::Shift => 0xA0,
        Key::Alt => 0xA4,
        Key::Meta => 0x5B,
        Key::A => 0x41,
        Key::B => 0x42,
        Key::C => 0x43,
        Key::D => 0x44,
        Key::E => 0x45,
        Key::F => 0x46,
        Key::G => 0x47,
        Key::H => 0x48,
        Key::I => 0x49,
        Key::J => 0x4A,
        Key::K => 0x4B,
        Key::L => 0x4C,
        Key::M => 0x4D,
        Key::N => 0x4E,
        Key::O => 0x4F,
        Key::P => 0x50,
        Key::Q => 0x51,
        Key::R => 0x52,
        Key::S => 0x53,
        Key::T => 0x54,
        Key::U => 0x55,
        Key::V => 0x56,
        Key::W => 0x57,
        Key::X => 0x58,
        Key::Y => 0x59,
        Key::Z => 0x5A,
        Key::Digit0 => 0x30,
        Key::Digit1 => 0x31,
        Key::Digit2 => 0x32,
        Key::Digit3 => 0x33,
        Key::Digit4 => 0x34,
        Key::Digit5 => 0x35,
        Key::Digit6 => 0x36,
        Key::Digit7 => 0x37,
        Key::Digit8 => 0x38,
        Key::Digit9 => 0x39,
        Key::F1 => 0x70,
        Key::F2 => 0x71,
        Key::F3 => 0x72,
        Key::F4 => 0x73,
        Key::F5 => 0x74,
        Key::F6 => 0x75,
        Key::F7 => 0x76,
        Key::F8 => 0x77,
        Key::F9 => 0x78,
        Key::F10 => 0x79,
        Key::F11 => 0x7A,
        Key::F12 => 0x7B,
        Key::F13 => 0x7C,
        Key::F14 => 0x7D,
        Key::F15 => 0x7E,
        Key::F16 => 0x7F,
        Key::F17 => 0x80,
        Key::F18 => 0x81,
        Key::F19 => 0x82,
        Key::F20 => 0x83,
        Key::F21 => 0x84,
        Key::F22 => 0x85,
        Key::F23 => 0x86,
        Key::F24 => 0x87,
        Key::Escape => 0x1B,
        Key::Tab => 0x09,
        Key::CapsLock => 0x14,
        Key::Space => 0x20,
        Key::Enter => 0x0D,
        Key::Backspace => 0x08,
        Key::Delete => 0x2E,
        Key::Insert => 0x2D,
        Key::Home => 0x24,
        Key::End => 0x23,
        Key::PageUp => 0x21,
        Key::PageDown => 0x22,
        Key::Left => 0x25,
        Key::Right => 0x27,
        Key::Up => 0x26,
        Key::Down => 0x28,
        Key::Numpad0 => 0x60,
        Key::Numpad1 => 0x61,
        Key::Numpad2 => 0x62,
        Key::Numpad3 => 0x63,
        Key::Numpad4 => 0x64,
        Key::Numpad5 => 0x65,
        Key::Numpad6 => 0x66,
        Key::Numpad7 => 0x67,
        Key::Numpad8 => 0x68,
        Key::Numpad9 => 0x69,
        Key::NumpadAdd => 0x6B,
        Key::NumpadSub => 0x6D,
        Key::NumpadMul => 0x6A,
        Key::NumpadDiv => 0x6F,
        Key::NumpadDecimal => 0x6E,
        Key::NumpadEnter => 0x0D,
        Key::Minus => 0xBD,
        Key::Equal => 0xBB,
        Key::BracketLeft => 0xDB,
        Key::BracketRight => 0xDD,
        Key::Backslash => 0xDC,
        Key::Semicolon => 0xBA,
        Key::Quote => 0xDE,
        Key::Backquote => 0xC0,
        Key::Comma => 0xBC,
        Key::Period => 0xBE,
        Key::Slash => 0xBF,
        Key::PrintScreen => 0x2C,
        Key::ScrollLock => 0x91,
        Key::Pause => 0x13,
        Key::NumLock => 0x90,
        Key::Menu => 0x5D,
    }
}

/// Keys on the extended scan-code page, which need `KEYEVENTF_EXTENDEDKEY`. Without it the OS
/// delivers the numpad twin instead: Delete arrives as numpad `.`, Home as numpad `7`.
pub open spec fn is_extended_spec(key: Key) -> bool {
    match key {
        Key::Insert
        | Key::Delete
        | Key::Home
        | Key::End
        | Key::PageUp
        | Key::PageDown
        | Key::Left
        | Key::Right
        | Key::Up
        | Key::Down
        | Key::NumLock
        | Key::PrintScreen
        | Key::NumpadDiv
        | Key::NumpadEnter
        | Key::Menu => true,
        _ => false,
    }
}

pub fn is_extended(key: Key) -> (r: bool)
    ensures
        r == is_extended_spec(key),
{
    match key {
        Key::Insert
        | Key::Delete
        | Key::Home
        | Key::End
        | Key::PageUp
        | Key::PageDown
        | Key::Left
        | Key::Right
        | Key::Up
        | Key::Down
        | Key::NumLock
        | Key::PrintScreen
        | Key::NumpadDiv
        | Key::NumpadEnter
        | Key::Menu => true,
        _ => false,
    }
}

/// The virtual-key code for a media command. Media keys are virtual-key only: there is no
/// meaningful scancode for them.
pub open spec fn media_key_spec(command: MediaCommand) -> u16 {
    match command {
        MediaCommand::PlayPause => 0xB3,
        MediaCommand::Next => 0xB0,
        MediaCommand::Prev => 0xB1,
        MediaCommand::Stop => 0xB2,
        MediaCommand::VolumeUp => 0xAF,
        MediaCommand::VolumeDown => 0xAE,
        MediaCommand::Mute => 0xAD,
    }
}

pub fn media_key(command: MediaCommand) -> (r: u16)
    ensures
        r == media_key_spec(command),
        0xAD <= r <= 0xB3,
{
    match command {
        MediaCommand::PlayPause => 0xB3,
        MediaCommand::Next => 0xB0,
        MediaCommand::Prev => 0xB1,
        MediaCommand::Stop => 0xB2,
        MediaCommand::VolumeUp => 0xAF,
        MediaCommand::VolumeDown => 0xAE,
        MediaCommand::Mute => 0xAD,
    }
}

/// The key a virtual-key code stands for, `Enter` for the code it shares with `NumpadEnter`.
pub open spec fn key_for_virtual_key(code: u16) -> Option<Key> {
    if code == 0xA2 {
        Some(Key::Control)
    } else if code == 0xA0 {
        Some(Key::Shift)
    } else if code == 0xA4 {
        Some(Key::Alt)
    } else if code == 0x5B {
        Some(Key::Meta)
    } else if code == 0x41 {
        Some(Key::A)
    } else if code == 0x42 {
        Some(Key::B)
    } else if code == 0x43 {
        Some(Key::C)
    } else if code == 0x44 {
        Some(Key::D)
    } else if code == 0x45 {
        Some(Key::E)
    } else if code == 0x46 {
        Some(Key::F)
    } else if code == 0x47 {
        Some(Key::G)
    } else if code == 0x48 {
        Some(Key::H)
    } else if code == 0x49 {
        Some(Key::I)
    } else if code == 0x4A {
        Some(Key::J)
    } else if code == 0x4B {
        Some(Key::K)
    } else if code == 0x4C {
        Some(Key::L)
    } else if code == 0x4D {
        Some(Key::M)
    } else if code == 0x4E {
        Some(Key::N)
    } else if code == 0x4F {
        Some(Key::O)
    } else if code == 0x50 {
        Some(Key::P)
    } else if code == 0x51 {
        Some(Key::Q)
    } else if code == 0x52 {
        Some(Key::R)
    } else if code == 0x53 {
        Some(Key::S)
    } else if code == 0x54 {
        Some(Key::T)
    } else if code == 0x55 {
        Some(Key::U)
    } else if code == 0x56 {
        Some(Key::V)
    } else if code == 0x57 {
        Some(Key::W)
    } else if code == 0x58 {
        Some(Key::X)
    } else if code == 0x59 {
        Some(Key::Y)
    } else if code == 0x5A {
        Some(Key::Z)
    } else if code == 0x30 {
        Some(Key::Digit0)
    } else if code == 0x31 {
        Some(Key::Digit1)
    } else if code == 0x32 {
        Some(Key::Digit2)
    } else if code == 0x33 {
        Some(Key::Digit3)
    } else if code == 0x34 {
        Some(Key::Digit4)
    } else if code == 0x35 {
        Some(Key::Digit5)
    } else if code == 0x36 {
        Some(Key::Digit6)
    } else if code == 0x37 {
        Some(Key::Digit7)
    } else if code == 0x38 {
        Some(Key::Digit8)
    } else if code == 0x39 {
        Some(Key::Digit9)
    } else if code == 0x70 {
        Some(Key::F1)
    } else if code == 0x71 {
        Some(Key::F2)
    } else if code == 0x72 {
        Some(Key::F3)
    } else if code == 0x73 {
        Some(Key::F4)
    } else if code == 0x74 {
        Some(Key::F5)
    } else if code == 0x75 {
        Some(Key::F6)
    } else if code == 0x76 {
        Some(Key::F7)
    } else if code == 0x77 {
        Some(Key::F8)
    } else if code == 0x78 {
        Some(Key::F9)
    } else if code == 0x79 {
        Some(Key::F10)
    } else if code == 0x7A {
        Some(Key::F11)
    } else if code == 0x7B {
        Some(Key::F12)
    } else if code == 0x7C {
        Some(Key::F13)
    } else if code == 0x7D {
        Some(Key::F14)
    } else if code == 0x7E {
        Some(Key::F15)
    } else if code == 0x7F {
        Some(Key::F16)
    } else if code == 0x80 {
        Some(Key::F17)
    } else if code == 0x81 {
        Some(Key::F18)
    } else if code == 0x82 {
        Some(Key::F19)
    } else if code == 0x83 {
        Some(Key::F20)
    } else if code == 0x84 {
        Some(Key::F21)
    } else if code == 0x85 {
        Some(Key::F22)
    } else if code == 0x86 {
        Some(Key::F23)
    } else if code == 0x87 {
        Some(Key::F24)
    } else if code == 0x1B {
        Some(Key::Escape)
    } else if code == 0x09 {
        Some(Key::Tab)
    } else if code == 0x14 {
        Some(Key::CapsLock)
    } else if code == 0x20 {
        Some(Key::Space)
    } else if code == 0x0D {
        Some(Key::Enter)
    } else if code == 0x08 {
        Some(Key::Backspace)
    } else if code == 0x2E {
        Some(Key::Delete)
    } else if code == 0x2D {
        Some(Key::Insert)
    } else if code == 0x24 {
        Some(Key::Home)
    } else if code == 0x23 {
        Some(Key::End)
    } else if code == 0x21 {
        Some(Key::PageUp)
    } else if code == 0x22 {
        Some(Key::PageDown)
    } else if code == 0x25 {
        Some(Key::Left)
    } else if code == 0x27 {
        Some(Key::Right)
    } else if code == 0x26 {
        Some(Key::Up)
    } else if code == 0x28 {
        Some(Key::Down)
    } else if code == 0x60 {
        Some(Key::Numpad0)
    } else if code == 0x61 {
        Some(Key::Numpad1)
    } else if code == 0x62 {
        Some(Key::Numpad2)
    } else if code == 0x63 {
        Some(Key::Numpad3)
    } else if code == 0x64 {
        Some(Key::Numpad4)
    } else if code == 0x65 {
        Some(Key::Numpad5)
    } else if code == 0x66 {
        Some(Key::Numpad6)
    } else if code == 0x67 {
        Some(Key::Numpad7)
    } else if code == 0x68 {
        Some(Key::Numpad8)
    } else if code == 0x69 {
        Some(Key::Numpad9)
    } else if code == 0x6B {
        Some(Key::NumpadAdd)
    } else if code == 0x6D {
        Some(Key::NumpadSub)
    } else if code == 0x6A {
        Some(Key::NumpadMul)
    } else if code == 0x6F {
        Some(Key::NumpadDiv)
    } else if code == 0x6E {
        Some(Key::NumpadDecimal)
    } else if code == 0xBD {
        Some(Key::Minus)
    } else if code == 0xBB {
        Some(Key::Equal)
    } else if code == 0xDB {
        Some(Key::BracketLeft)
    } else if code == 0xDD {
        Some(Key::BracketRight)
    } else if code == 0xDC {
        Some(Key::Backslash)
    } else if code == 0xBA {
        Some(Key::Semicolon)
    } else if code == 0xDE {
        Some(Key::Quote)
    } else if code == 0xC0 {
        Some(Key::Backquote)
    } else if code == 0xBC {
        Some(Key::Comma)
    } else if code == 0xBE {
        Some(Key::Period)
    } else if code == 0xBF {
        Some(Key::Slash)
    } else if code == 0x2C {
        Some(Key::PrintScreen)
    } else if code == 0x91 {
        Some(Key::ScrollLock)
    } else if code == 0x13 {
        Some(Key::Pause)
    } else if code == 0x90 {
        Some(Key::NumLock)
    } else if code == 0x5D {
        Some(Key::Menu)
    } else {
        None
    }
}

proof fn lemma_virtual_key_inverse(key: Key)
    ensures
        key != Key::NumpadEnter ==> key_for_virtual_key(virtual_key_spec(key)) == Some(key),
        key == Key::NumpadEnter ==> key_for_virtual_key(virtual_key_spec(key)) == Some(Key::Enter),
{
    match key {
        Key::Control => {},
        Key::Shift => {},
        Key::Alt => {},
        Key::Meta => {},
        Key::A => {},
        Key::B => {},
        Key::C => {},
        Key::D => {},
        Key::E => {},
        Key::F => {},
        Key::G => {},
        Key::H => {},
        Key::I => {},
        Key::J => {},
        Key::K => {},
        Key::L => {},
        Key::M => {},
        Key::N => {},
        Key::O => {},
        Key::P => {},
        Key::Q => {},
        Key::R => {},
        Key::S => {},
        Key::T => {},
        Key::U => {},
        Key::V => {},
        Key::W => {},
        Key::X => {},
        Key::Y => {},
        Key::Z => {},
        Key::Digit0 => {},
        Key::Digit1 => {},
        Key::Digit2 => {},
        Key::Digit3 => {},
        Key::Digit4 => {},
        Key::Digit5 => {},
        Key::Digit6 => {},
        Key::Digit7 => {},
        Key::Digit8 => {},
        Key::Digit9 => {},
        Key::F1 => {},
        Key::F2 => {},
        Key::F3 => {},
        Key::F4 => {},
        Key::F5 => {},
        Key::F6 => {},
        Key::F7 => {},
        Key::F8 => {},
        Key::F9 => {},
        Key::F10 => {},
        Key::F11 => {},
        Key::F12 => {},
        Key::F13 => {},
        Key::F14 => {},
        Key::F15 => {},
        Key::F16 => {},
        Key::F17 => {},
        Key::F18 => {},
        Key::F19 => {},
        Key::F20 => {},
        Key::F21 => {},
        Key::F22 => {},
        Key::F23 => {},
        Key::F24 => {},
        Key::Escape => {},
        Key::Tab => {},
        Key::CapsLock => {},
        Key::Space => {},
        Key::Enter => {},
        Key::Backspace => {},
        Key::Delete => {},
        Key::Insert => {},
        Key::Home => {},
        Key::End => {},
        Key::PageUp => {},
        Key::PageDown => {},
        Key::Left => {},
        Key::Right => {},
        Key::Up => {},
        Key::Down => {},
        Key::Numpad0 => {},
        Key::Numpad1 => {},
        Key::Numpad2 => {},
        Key::Numpad3 => {},
        Key::Numpad4 => {},
        Key::Numpad5 => {},
        Key::Numpad6 => {},
        Key::Numpad7 => {},
        Key::Numpad8 => {},
        Key::Numpad9 => {},
        Key::NumpadAdd => {},
        Key::NumpadSub => {},
        Key::NumpadMul => {},
        Key::NumpadDiv => {},
        Key::NumpadDecimal => {},
        Key::NumpadEnter => {},
        Key::Minus => {},
        Key::Equal => {},
        Key::BracketLeft => {},
        Key::BracketRight => {},
        Key::Backslash => {},
        Key::Semicolon => {},
        Key::Quote => {},
        Key::Backquote => {},
        Key::Comma => {},
        Key::Period => {},
        Key::Slash => {},
        Key::PrintScreen => {},
        Key::ScrollLock => {},
        Key::Pause => {},
        Key::NumLock => {},
        Key::Menu => {},
    }
}

/// Exactly one pair of keys shares a virtual key: `Enter` and `NumpadEnter`, told apart by the
/// extended flag, which only the numpad one carries. Any other collision would mean two names
/// mapped to one physical key.
pub proof fn law_only_enter_keys_share_a_virtual_key(a: Key, b: Key)
    ensures
        a != b && virtual_key_spec(a) == virtual_key_spec(b) ==> (a == Key::Enter && b
            == Key::NumpadEnter) || (a == Key::NumpadEnter && b == Key::Enter),
        !is_extended_spec(Key::Enter),
        is_extended_spec(Key::NumpadEnter),
{
    lemma_virtual_key_inverse(a);
    lemma_virtual_key_inverse(b);
}

/// Each media command presses the `winuser.h` virtual key named for it: `VK_MEDIA_PLAY_PAUSE`
/// (0xB3), `VK_MEDIA_NEXT_TRACK` (0xB0), `VK_MEDIA_PREV_TRACK` (0xB1), `VK_MEDIA_STOP` (0xB2),
/// `VK_VOLUME_UP` (0xAF), `VK_VOLUME_DOWN` (0xAE) and `VK_VOLUME_MUTE` (0xAD).
pub proof fn law_media_keys_are_the_winuser_keys(command: MediaCommand)
    ensures
        command == MediaCommand::PlayPause ==> media_key_spec(command) == 0xB3,
        command == MediaCommand::Next ==> media_key_spec(command) == 0xB0,
        command == MediaCommand::Prev ==> media_key_spec(command) == 0xB1,
        command == MediaCommand::Stop ==> media_key_spec(command) == 0xB2,
        command == MediaCommand::VolumeUp ==> media_key_spec(command) == 0xAF,
        command == MediaCommand::VolumeDown ==> media_key_spec(command) == 0xAE,
        command == MediaCommand::Mute ==> media_key_spec(command) == 0xAD,
{
}

/// Each key presses the `winuser.h` virtual key named for it: the left variant of each
/// modifier, the ASCII code of each letter and digit, `VK_F1` (0x70) onwards for the function
/// keys, and the `VK_*` and `VK_OEM_*` constants for the rest.
pub proof fn law_virtual_keys_are_the_winuser_keys(key: Key)
    ensures
        key == Key::Control ==> virtual_key_spec(key) == 0xa2u16,
        key == Key::Shift ==> virtual_key_spec(key) == 0xa0u16,
        key == Key::Alt ==> virtual_key_spec(key) == 0xa4u16,
        key == Key::Meta ==> virtual_key_spec(key) == 0x5bu16,
        key == Key::A ==> virtual_key_spec(key) == 0x41u16,
        key == Key::B ==> virtual_key_spec(key) == 0x42u16,
        key == Key::C ==> virtual_key_spec(key) == 0x43u16,
        key == Key::D ==> virtual_key_spec(key) == 0x44u16,
        key == Key::E ==> virtual_key_spec(key) == 0x45u16,
        key == Key::F ==> virtual_key_spec(key) == 0x46u16,
        key == Key::G ==> virtual_key_spec(key) == 0x47u16,
        key == Key::H ==> virtual_key_spec(key) == 0x48u16,
        key == Key::I ==> virtual_key_spec(key) == 0x49u16,
        key == Key::J ==> virtual_key_spec(key) == 0x4au16,
        key == Key::K ==> virtual_key_spec(key) == 0x4bu16,
        key == Key::L ==> virtual_key_spec(key) == 0x4cu16,
        key == Key::M ==> virtual_key_spec(key) == 0x4du16,
        key == Key::N ==> virtual_key_spec(key) == 0x4eu16,
        key == Key::O ==> virtual_key_spec(key) == 0x4fu16,
        key == Key::P ==> virtual_key_spec(key) == 0x50u16,
        key == Key::Q ==> virtual_key_spec(key) == 0x51u16,
        key == Key::R ==> virtual_key_spec(key) == 0x52u16,
        key == Key::S ==> virtual_key_spec(key) == 0x53u16,
        key == Key::T ==> virtual_key_spec(key) == 0x54u16,
        key == Key::U ==> virtual_key_spec(key) == 0x55u16,
        key == Key::V ==> virtual_key_spec(key) == 0x56u16,
        key == Key::W ==> virtual_key_spec(key) == 0x57u16,
        key == Key::X ==> virtual_key_spec(key) == 0x58u16,
        key == Key::Y ==> virtual_key_spec(key) == 0x59u16,
        key == Key::Z ==> virtual_key_spec(key) == 0x5au16,
        key == Key::Digit0 ==> virtual_key_spec(key) == 0x30u16,
        key == Key::Digit1 ==> virtual_key_spec(key) == 0x31u16,
        key == Key::Digit2 ==> virtual_key_spec(key) == 0x32u16,
        key == Key::Digit3 ==> virtual_key_spec(key) == 0x33u16,
        key == Key::Digit4 ==> virtual_key_spec(key) == 0x34u16,
        key == Key::Digit5 ==> virtual_key_spec(key) == 0x35u16,
        key == Key::Digit6 ==> virtual_key_spec(key) == 0x36u16,
        key == Key::Digit7 ==> virtual_key_spec(key) == 0x37u16,
        key == Key::Digit8 ==> virtual_key_spec(key) == 0x38u16,
        key == Key::Digit9 ==> virtual_key_spec(key) == 0x39u16,
        key == Key::F1 ==> virtual_key_spec(key) == 0x70u16,
        key == Key::F2 ==> virtual_key_spec(key) == 0x71u16,
        key == Key::F3 ==> virtual_key_spec(key) == 0x72u16,
        key == Key::F4 ==> virtual_key_spec(key) == 0x73u16,
        key == Key::F5 ==> virtual_key_spec(key) == 0x74u16,
        key == Key::F6 ==> virtual_key_spec(key) == 0x75u16,
        key == Key::F7 ==> virtual_key_spec(key) == 0x76u16,
        key == Key::F8 ==> virtual_key_spec(key) == 0x77u16,
        key == Key::F9 ==> virtual_key_spec(key) == 0x78u16,
        key == Key::F10 ==> virtual_key_spec(key) == 0x79u16,
        key == Key::F11 ==> virtual_key_spec(key) == 0x7au16,
        key == Key::F12 ==> virtual_key_spec(key) == 0x7bu16,
        key == Key::F13 ==> virtual_key_spec(key) == 0x7cu16,
        key == Key::F14 ==> virtual_key_spec(key) == 0x7du16,
        key == Key::F15 ==> virtual_key_spec(key) == 0x7eu16,
        key == Key::F16 ==> virtual_key_spec(key) == 0x7fu16,
        key == Key::F17 ==> virtual_key_spec(key) == 0x80u16,
        key == Key::F18 ==> virtual_key_spec(key) == 0x81u16,
        key == Key::F19 ==> virtual_key_spec(key) == 0x82u16,
        key == Key::F20 ==> virtual_key_spec(key) == 0x83u16,
        key == Key::F21 ==> virtual_key_spec(key) == 0x84u16,
        key == Key::F22 ==> virtual_key_spec(key) == 0x85u16,
        key == Key::F23 ==> virtual_key_spec(key) == 0x86u16,
        key == Key::F24 ==> virtual_key_spec(key) == 0x87u16,
        key == Key::Escape ==> virtual_key_spec(key) == 0x1bu16,
        key == Key::Tab ==> virtual_key_spec(key) == 0x9u16,
        key == Key::CapsLock ==> virtual_key_spec(key) == 0x14u16,
        key == Key::Space ==> virtual_key_spec(key) == 0x20u16,
        key == Key::Enter ==> virtual_key_spec(key) == 0xdu16,
        key == Key::Backspace ==> virtual_key_spec(key) == 0x8u16,
        key == Key::Delete ==> virtual_key_spec(key) == 0x2eu16,
        key == Key::Insert ==> virtual_key_spec(key) == 0x2du16,
        key == Key::Home ==> virtual_key_spec(key) == 0x24u16,
        key == Key::End ==> virtual_key_spec(key) == 0x23u16,
        key == Key::PageUp ==> virtual_key_spec(key) == 0x21u16,
        key == Key::PageDown ==> virtual_key_spec(key) == 0x22u16,
        key == Key::Left ==> virtual_key_spec(key) == 0x25u16,
        key == Key::Right ==> virtual_key_spec(key) == 0x27u16,
        key == Key::Up ==> virtual_key_spec(key) == 0x26u16,
        key == Key::Down ==> virtual_key_spec(key) == 0x28u16,
        key == Key::Numpad0 ==> virtual_key_spec(key) == 0x60u16,
        key == Key::Numpad1 ==> virtual_key_spec(key) == 0x61u16,
        key == Key::Numpad2 ==> virtual_key_spec(key) == 0x62u16,
        key == Key::Numpad3 ==> virtual_key_spec(key) == 0x63u16,
        key == Key::Numpad4 ==> virtual_key_spec(key) == 0x64u16,
        key == Key::Numpad5 ==> virtual_key_spec(key) == 0x65u16,
        key == Key::Numpad6 ==> virtual_key_spec(key) == 0x66u16,
        key == Key::Numpad7 ==> virtual_key_spec(key) == 0x67u16,
        key == Key::Numpad8 ==> virtual_key_spec(key) == 0x68u16,
        key == Key::Numpad9 ==> virtual_key_spec(key) == 0x69u16,
        key == Key::NumpadAdd ==> virtual_key_spec(key) == 0x6bu16,
        key == Key::NumpadSub ==> virtual_key_spec(key) == 0x6du16,
        key == Key::NumpadMul ==> virtual_key_spec(key) == 0x6au16,
        key == Key::NumpadDiv ==> virtual_key_spec(key) == 0x6fu16,
        key == Key::NumpadDecimal ==> virtual_key_spec(key) == 0x6eu16,
        key == Key::NumpadEnter ==> virtual_key_spec(key) == 0xdu16,
        key == Key::Minus ==> virtual_key_spec(key) == 0xbdu16,
        key == Key::Equal ==> virtual_key_spec(key) == 0xbbu16,
        key == Key::BracketLeft ==> virtual_key_spec(key) == 0xdbu16,
        key == Key::BracketRight ==> virtual_key_spec(key) == 0xddu16,
        key == Key::Backslash ==> virtual_key_spec(key) == 0xdcu16,
        key == Key::Semicolon ==> virtual_key_spec(key) == 0xbau16,
        key == Key::Quote ==> virtual_key_spec(key) == 0xdeu16,
        key == Key::Backquote ==> virtual_key_spec(key) == 0xc0u16,
        key == Key::Comma ==> virtual_key_spec(key) == 0xbcu16,
        key == Key::Period ==> virtual_key_spec(key) == 0xbeu16,
        key == Key::Slash ==> virtual_key_spec(key) == 0xbfu16,
        key == Key::PrintScreen ==> virtual_key_spec(key) == 0x2cu16,
        key == Key::ScrollLock ==> virtual_key_spec(key) == 0x91u16,
        key == Key::Pause ==> virtual_key_spec(key) == 0x13u16,
        key == Key::NumLock ==> virtual_key_spec(key) == 0x90u16,
        key == Key::Menu ==> virtual_key_spec(key) == 0x5du16,
{
}

/// The keys that need `KEYEVENTF_EXTENDEDKEY` are exactly those of the extended scan-code
/// page: the navigation block (Insert, Delete, Home, End, Page Up, Page Down), the four arrows,
/// Num Lock, Print Screen, numpad `/`, numpad Enter and Menu. Without the flag the system
/// delivers the numpad twin instead, so no other key may carry it and none of these may lack it.
pub proof fn law_extended_keys_are_the_extended_page(key: Key)
    ensures
        is_extended_spec(key) <==> (key == Key::Insert || key == Key::Delete || key == Key::Home || key == Key::End || key == Key::PageUp || key == Key::PageDown || key == Key::Left || key == Key::Right || key == Key::Up || key == Key::Down || key == Key::NumLock || key == Key::PrintScreen || key == Key::NumpadDiv || key == Key::NumpadEnter || key == Key::Menu),
{
}

} // verus!
