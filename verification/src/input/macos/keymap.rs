//! Canonical key names to macOS virtual key codes: the `kVK_*` constants of Carbon's
//! `<HIToolbox/Events.h>`. These are key positions, not characters.
use vstd::prelude::*;

use crate::protocol::input::{Key, MediaCommand};

verus! {

/// The virtual key code of each canonical key, or `None` where macOS has no such key: no Mac
/// keyboard has had Print Screen, Scroll Lock, Pause, a Menu key, or F21..F24, and sending an
/// approximation would fire whatever sits at that code instead.
pub open spec fn key_code_spec(key: Key) -> Option<u16> {
    match key {
        Key::Control => Some(0x3B),
        Key::Shift => Some(0x38),
        Key::Alt => Some(0x3A),
        Key::Meta => Some(0x37),
        Key::A => Some(0x00),
        Key::B => Some(0x0B),
        Key::C => Some(0x08),
        Key::D => Some(0x02),
        Key::E => Some(0x0E),
        Key::F => Some(0x03),
        Key::G => Some(0x05),
        Key::H => Some(0x04),
        Key::I => Some(0x22),
        Key::J => Some(0x26),
        Key::K => Some(0x28),
        Key::L => Some(0x25),
        Key::M => Some(0x2E),
        Key::N => Some(0x2D),
        Key::O => Some(0x1F),
        Key::P => Some(0x23),
        Key::Q => Some(0x0C),
        Key::R => Some(0x0F),
        Key::S => Some(0x01),
        Key::T => Some(0x11),
        Key::U => Some(0x20),
        Key::V => Some(0x09),
        Key::W => Some(0x0D),
        Key::X => Some(0x07),
        Key::Y => Some(0x10),
        Key::Z => Some(0x06),
        Key::Digit0 => Some(0x1D),
        Key::Digit1 => Some(0x12),
        Key::Digit2 => Some(0x13),
        Key::Digit3 => Some(0x14),
        Key::Digit4 => Some(0x15),
        Key::Digit5 => Some(0x17),
        Key::Digit6 => Some(0x16),
        Key::Digit7 => Some(0x1A),
        Key::Digit8 => Some(0x1C),
        Key::Digit9 => Some(0x19),
        Key::F1 => Some(0x7A),
        Key::F2 => Some(0x78),
        Key::F3 => Some(0x63),
        Key::F4 => Some(0x76),
        Key::F5 => Some(0x60),
        Key::F6 => Some(0x61),
        Key::F7 => Some(0x62),
        Key::F8 => Some(0x64),
        Key::F9 => Some(0x65),
        Key::F10 => Some(0x6D),
        Key::F11 => Some(0x67),
        Key::F12 => Some(0x6F),
        Key::F13 => Some(0x69),
        Key::F14 => Some(0x6B),
        Key::F15 => Some(0x71),
        Key::F16 => Some(0x6A),
        Key::F17 => Some(0x40),
        Key::F18 => Some(0x4F),
        Key::F19 => Some(0x50),
        Key::F20 => Some(0x5A),
        Key::F21 => None,
        Key::F22 => None,
        Key::F23 => None,
        Key::F24 => None,
        Key::Escape => Some(0x35),
        Key::Tab => Some(0x30),
        Key::CapsLock => Some(0x39),
        Key::Space => Some(0x31),
        Key::Enter => Some(0x24),
        Key::Backspace => Some(0x33),
        Key::Delete => Some(0x75),
        Key::Insert => Some(0x72),
        Key::Home => Some(0x73),
        Key::End => Some(0x77),
        Key::PageUp => Some(0x74),
        Key::PageDown => Some(0x79),
        Key::Left => Some(0x7B),
        Key::Right => Some(0x7C),
        Key::Up => Some(0x7E),
        Key::Down => Some(0x7D),
        Key::Numpad0 => Some(0x52),
        Key::Numpad1 => Some(0x53),
        Key::Numpad2 => Some(0x54),
        Key::Numpad3 => Some(0x55),
        Key::Numpad4 => Some(0x56),
        Key::Numpad5 => Some(0x57),
        Key::Numpad6 => Some(0x58),
        Key::Numpad7 => Some(0x59),
        Key::Numpad8 => Some(0x5B),
        Key::Numpad9 => Some(0x5C),
        Key::NumpadAdd => Some(0x45),
        Key::NumpadSub => Some(0x4E),
        Key::NumpadMul => Some(0x43),
        Key::NumpadDiv => Some(0x4B),
        Key::NumpadDecimal => Some(0x41),
        Key::NumpadEnter => Some(0x4C),
        Key::Minus => Some(0x1B),
        Key::Equal => Some(0x18),
        Key::BracketLeft => Some(0x21),
        Key::BracketRight => Some(0x1E),
        Key::Backslash => Some(0x2A),
        Key::Semicolon => Some(0x29),
        Key::Quote => Some(0x27),
        Key::Backquote => Some(0x32),
        Key::Comma => Some(0x2B),
        Key::Period => Some(0x2F),
        Key::Slash => Some(0x2C),
        Key::PrintScreen => None,
        Key::ScrollLock => None,
        Key::Pause => None,
        Key::NumLock => Some(0x47),
        Key::Menu => None,
    }
}

/// The virtual key code for a canonical key name, or `None` if macOS has no such key.
pub fn key_code(key: Key) -> (r: Option<u16>)
    ensures
        r == key_code_spec(key),
        r matches Some(c) ==> c < 0x80,
{
    match key {
        Key::Control => Some(0x3B),
        Key::Shift => Some(0x38),
        Key::Alt => Some(0x3A),
        Key::Meta => Some(0x37),
        Key::A => Some(0x00),
        Key::B => Some(0x0B),
        Key::C => Some(0x08),
        Key::D => Some(0x02),
        Key::E => Some(0x0E),
        Key::F => Some(0x03),
        Key::G => Some(0x05),
        Key::H => Some(0x04),
        Key::I => Some(0x22),
        Key::J => Some(0x26),
        Key::K => Some(0x28),
        Key::L => Some(0x25),
        Key::M => Some(0x2E),
        Key::N => Some(0x2D),
        Key::O => Some(0x1F),
        Key::P => Some(0x23),
        Key::Q => Some(0x0C),
        Key::R => Some(0x0F),
        Key::S => Some(0x01),
        Key::T => Some(0x11),
        Key::U => Some(0x20),
        Key::V => Some(0x09),
        Key::W => Some(0x0D),
        Key::X => Some(0x07),
        Key::Y => Some(0x10),
        Key::Z => Some(0x06),
        Key::Digit0 => Some(0x1D),
        Key::Digit1 => Some(0x12),
        Key::Digit2 => Some(0x13),
        Key::Digit3 => Some(0x14),
        Key::Digit4 => Some(0x15),
        Key::Digit5 => Some(0x17),
        Key::Digit6 => Some(0x16),
        Key::Digit7 => Some(0x1A),
        Key::Digit8 => Some(0x1C),
        Key::Digit9 => Some(0x19),
        Key::F1 => Some(0x7A),
        Key::F2 => Some(0x78),
        Key::F3 => Some(0x63),
        Key::F4 => Some(0x76),
        Key::F5 => Some(0x60),
        Key::F6 => Some(0x61),
        Key::F7 => Some(0x62),
        Key::F8 => Some(0x64),
        Key::F9 => Some(0x65),
        Key::F10 => Some(0x6D),
        Key::F11 => Some(0x67),
        Key::F12 => Some(0x6F),
        Key::F13 => Some(0x69),
        Key::F14 => Some(0x6B),
        Key::F15 => Some(0x71),
        Key::F16 => Some(0x6A),
        Key::F17 => Some(0x40),
        Key::F18 => Some(0x4F),
        Key::F19 => Some(0x50),
        Key::F20 => Some(0x5A),
        Key::F21 => None,
        Key::F22 => None,
        Key::F23 => None,
        Key::F24 => None,
        Key::Escape => Some(0x35),
        Key::Tab => Some(0x30),
        Key::CapsLock => Some(0x39),
        Key::Space => Some(0x31),
        Key::Enter => Some(0x24),
        Key::Backspace => Some(0x33),
        Key::Delete => Some(0x75),
        Key::Insert => Some(0x72),
        Key::Home => Some(0x73),
        Key::End => Some(0x77),
        Key::PageUp => Some(0x74),
        Key::PageDown => Some(0x79),
        Key::Left => Some(0x7B),
        Key::Right => Some(0x7C),
        Key::Up => Some(0x7E),
        Key::Down => Some(0x7D),
        Key::Numpad0 => Some(0x52),
        Key::Numpad1 => Some(0x53),
        Key::Numpad2 => Some(0x54),
        Key::Numpad3 => Some(0x55),
        Key::Numpad4 => Some(0x56),
        Key::Numpad5 => Some(0x57),
        Key::Numpad6 => Some(0x58),
        Key::Numpad7 => Some(0x59),
        Key::Numpad8 => Some(0x5B),
        Key::Numpad9 => Some(0x5C),
        Key::NumpadAdd => Some(0x45),
        Key::NumpadSub => Some(0x4E),
        Key::NumpadMul => Some(0x43),
        Key::NumpadDiv => Some(0x4B),
        Key::NumpadDecimal => Some(0x41),
        Key::NumpadEnter => Some(0x4C),
        Key::Minus => Some(0x1B),
        Key::Equal => Some(0x18),
        Key::BracketLeft => Some(0x21),
        Key::BracketRight => Some(0x1E),
        Key::Backslash => Some(0x2A),
        Key::Semicolon => Some(0x29),
        Key::Quote => Some(0x27),
        Key::Backquote => Some(0x32),
        Key::Comma => Some(0x2B),
        Key::Period => Some(0x2F),
        Key::Slash => Some(0x2C),
        Key::PrintScreen => None,
        Key::ScrollLock => None,
        Key::Pause => None,
        Key::NumLock => Some(0x47),
        Key::Menu => None,
    }
}

/// The `CGEventFlags` bit each modifier sets; macOS expresses modifiers as flags on the key
/// event rather than as separate presses.
pub open spec fn modifier_flag_spec(key: Key) -> Option<u64> {
    match key {
        Key::Shift => Some(0x20000),
        Key::Control => Some(0x40000),
        Key::Alt => Some(0x80000),
        Key::Meta => Some(0x100000),
        _ => None,
    }
}

pub fn modifier_flag(key: Key) -> (r: Option<u64>)
    ensures
        r == modifier_flag_spec(key),
        r is Some <==> key.is_modifier_spec(),
{
    match key {
        Key::Shift => Some(0x20000),
        Key::Control => Some(0x40000),
        Key::Alt => Some(0x80000),
        Key::Meta => Some(0x100000),
        _ => None,
    }
}

/// The `NX_KEYTYPE_*` code of each media command, from IOKit's `<ev_keymap.h>`; macOS never
/// shipped a stop key, so there is none for `Stop`.
pub open spec fn media_code_spec(command: MediaCommand) -> Option<u8> {
    match command {
        MediaCommand::PlayPause => Some(16),
        MediaCommand::Next => Some(17),
        MediaCommand::Prev => Some(18),
        MediaCommand::Stop => None,
        MediaCommand::VolumeUp => Some(0),
        MediaCommand::VolumeDown => Some(1),
        MediaCommand::Mute => Some(7),
    }
}

pub fn media_code(command: MediaCommand) -> (r: Option<u8>)
    ensures
        r == media_code_spec(command),
{
    match command {
        MediaCommand::PlayPause => Some(16),
        MediaCommand::Next => Some(17),
        MediaCommand::Prev => Some(18),
        MediaCommand::Stop => None,
        MediaCommand::VolumeUp => Some(0),
        MediaCommand::VolumeDown => Some(1),
        MediaCommand::Mute => Some(7),
    }
}

/// The key a virtual key code stands for.
pub open spec fn key_for_code(code: u16) -> Option<Key> {
    if code == 0x3B {
        Some(Key::Control)
    } else if code == 0x38 {
        Some(Key::Shift)
    } else if code == 0x3A {
        Some(Key::Alt)
    } else if code == 0x37 {
        Some(Key::Meta)
    } else if code == 0x00 {
        Some(Key::A)
    } else if code == 0x0B {
        Some(Key::B)
    } else if code == 0x08 {
        Some(Key::C)
    } else if code == 0x02 {
        Some(Key::D)
    } else if code == 0x0E {
        Some(Key::E)
    } else if code == 0x03 {
        Some(Key::F)
    } else if code == 0x05 {
        Some(Key::G)
    } else if code == 0x04 {
        Some(Key::H)
    } else if code == 0x22 {
        Some(Key::I)
    } else if code == 0x26 {
        Some(Key::J)
    } else if code == 0x28 {
        Some(Key::K)
    } else if code == 0x25 {
        Some(Key::L)
    } else if code == 0x2E {
        Some(Key::M)
    } else if code == 0x2D {
        Some(Key::N)
    } else if code == 0x1F {
        Some(Key::O)
    } else if code == 0x23 {
        Some(Key::P)
    } else if code == 0x0C {
        Some(Key::Q)
    } else if code == 0x0F {
        Some(Key::R)
    } else if code == 0x01 {
        Some(Key::S)
    } else if code == 0x11 {
        Some(Key::T)
    } else if code == 0x20 {
        Some(Key::U)
    } else if code == 0x09 {
        Some(Key::V)
    } else if code == 0x0D {
        Some(Key::W)
    } else if code == 0x07 {
        Some(Key::X)
    } else if code == 0x10 {
        Some(Key::Y)
    } else if code == 0x06 {
        Some(Key::Z)
    } else if code == 0x1D {
        Some(Key::Digit0)
    } else if code == 0x12 {
        Some(Key::Digit1)
    } else if code == 0x13 {
        Some(Key::Digit2)
    } else if code == 0x14 {
        Some(Key::Digit3)
    } else if code == 0x15 {
        Some(Key::Digit4)
    } else if code == 0x17 {
        Some(Key::Digit5)
    } else if code == 0x16 {
        Some(Key::Digit6)
    } else if code == 0x1A {
        Some(Key::Digit7)
    } else if code == 0x1C {
        Some(Key::Digit8)
    } else if code == 0x19 {
        Some(Key::Digit9)
    } else if code == 0x7A {
        Some(Key::F1)
    } else if code == 0x78 {
        Some(Key::F2)
    } else if code == 0x63 {
        Some(Key::F3)
    } else if code == 0x76 {
        Some(Key::F4)
    } else if code == 0x60 {
        Some(Key::F5)
    } else if code == 0x61 {
        Some(Key::F6)
    } else if code == 0x62 {
        Some(Key::F7)
    } else if code == 0x64 {
        Some(Key::F8)
    } else if code == 0x65 {
        Some(Key::F9)
    } else if code == 0x6D {
        Some(Key::F10)
    } else if code == 0x67 {
        Some(Key::F11)
    } else if code == 0x6F {
        Some(Key::F12)
    } else if code == 0x69 {
        Some(Key::F13)
    } else if code == 0x6B {
        Some(Key::F14)
    } else if code == 0x71 {
        Some(Key::F15)
    } else if code == 0x6A {
        Some(Key::F16)
    } else if code == 0x40 {
        Some(Key::F17)
    } else if code == 0x4F {
        Some(Key::F18)
    } else if code == 0x50 {
        Some(Key::F19)
    } else if code == 0x5A {
        Some(Key::F20)
    } else if code == 0x35 {
        Some(Key::Escape)
    } else if code == 0x30 {
        Some(Key::Tab)
    } else if code == 0x39 {
        Some(Key::CapsLock)
    } else if code == 0x31 {
        Some(Key::Space)
    } else if code == 0x24 {
        Some(Key::Enter)
    } else if code == 0x33 {
        Some(Key::Backspace)
    } else if code == 0x75 {
        Some(Key::Delete)
    } else if code == 0x72 {
        Some(Key::Insert)
    } else if code == 0x73 {
        Some(Key::Home)
    } else if code == 0x77 {
        Some(Key::End)
    } else if code == 0x74 {
        Some(Key::PageUp)
    } else if code == 0x79 {
        Some(Key::PageDown)
    } else if code == 0x7B {
        Some(Key::Left)
    } else if code == 0x7C {
        Some(Key::Right)
    } else if code == 0x7E {
        Some(Key::Up)
    } else if code == 0x7D {
        Some(Key::Down)
    } else if code == 0x52 {
        Some(Key::Numpad0)
    } else if code == 0x53 {
        Some(Key::Numpad1)
    } else if code == 0x54 {
        Some(Key::Numpad2)
    } else if code == 0x55 {
        Some(Key::Numpad3)
    } else if code == 0x56 {
        Some(Key::Numpad4)
    } else if code == 0x57 {
        Some(Key::Numpad5)
    } else if code == 0x58 {
        Some(Key::Numpad6)
    } else if code == 0x59 {
        Some(Key::Numpad7)
    } else if code == 0x5B {
        Some(Key::Numpad8)
    } else if code == 0x5C {
        Some(Key::Numpad9)
    } else if code == 0x45 {
        Some(Key::NumpadAdd)
    } else if code == 0x4E {
        Some(Key::NumpadSub)
    } else if code == 0x43 {
        Some(Key::NumpadMul)
    } else if code == 0x4B {
        Some(Key::NumpadDiv)
    } else if code == 0x41 {
        Some(Key::NumpadDecimal)
    } else if code == 0x4C {
        Some(Key::NumpadEnter)
    } else if code == 0x1B {
        Some(Key::Minus)
    } else if code == 0x18 {
        Some(Key::Equal)
    } else if code == 0x21 {
        Some(Key::BracketLeft)
    } else if code == 0x1E {
        Some(Key::BracketRight)
    } else if code == 0x2A {
        Some(Key::Backslash)
    } else if code == 0x29 {
        Some(Key::Semicolon)
    } else if code == 0x27 {
        Some(Key::Quote)
    } else if code == 0x32 {
        Some(Key::Backquote)
    } else if code == 0x2B {
        Some(Key::Comma)
    } else if code == 0x2F {
        Some(Key::Period)
    } else if code == 0x2C {
        Some(Key::Slash)
    } else if code == 0x47 {
        Some(Key::NumLock)
    } else {
        None
    }
}

proof fn lemma_key_code_inverse(key: Key)
    ensures
        key_code_spec(key) matches Some(c) ==> key_for_code(c) == Some(key),
{
    match key {
        Key::Control => {},
        Key::Shift => {},
        Key::Alt => {},
        Key::Meta => {},
        Key::A => {},
        Key::B => {},
        Key::C => {},
        Key::D => {},
        Key::E => {},
        Key::F => {},
        Key::G => {},
        Key::H => {},
        Key::I => {},
        Key::J => {},
        Key::K => {},
        Key::L => {},
        Key::M => {},
        Key::N => {},
        Key::O => {},
        Key::P => {},
        Key::Q => {},
        Key::R => {},
        Key::S => {},
        Key::T => {},
        Key::U => {},
        Key::V => {},
        Key::W => {},
        Key::X => {},
        Key::Y => {},
        Key::Z => {},
        Key::Digit0 => {},
        Key::Digit1 => {},
        Key::Digit2 => {},
        Key::Digit3 => {},
        Key::Digit4 => {},
        Key::Digit5 => {},
        Key::Digit6 => {},
        Key::Digit7 => {},
        Key::Digit8 => {},
        Key::Digit9 => {},
        Key::F1 => {},
        Key::F2 => {},
        Key::F3 => {},
        Key::F4 => {},
        Key::F5 => {},
        Key::F6 => {},
        Key::F7 => {},
        Key::F8 => {},
        Key::F9 => {},
        Key::F10 => {},
        Key::F11 => {},
        Key::F12 => {},
        Key::F13 => {},
        Key::F14 => {},
        Key::F15 => {},
        Key::F16 => {},
        Key::F17 => {},
        Key::F18 => {},
        Key::F19 => {},
        Key::F20 => {},
        Key::F21 => {},
        Key::F22 => {},
        Key::F23 => {},
        Key::F24 => {},
        Key::Escape => {},
        Key::Tab => {},
        Key::CapsLock => {},
        Key::Space => {},
        Key::Enter => {},
        Key::Backspace => {},
        Key::Delete => {},
        Key::Insert => {},
        Key::Home => {},
        Key::End => {},
        Key::PageUp => {},
        Key::PageDown => {},
        Key::Left => {},
        Key::Right => {},
        Key::Up => {},
        Key::Down => {},
        Key::Numpad0 => {},
        Key::Numpad1 => {},
        Key::Numpad2 => {},
        Key::Numpad3 => {},
        Key::Numpad4 => {},
        Key::Numpad5 => {},
        Key::Numpad6 => {},
        Key::Numpad7 => {},
        Key::Numpad8 => {},
        Key::Numpad9 => {},
        Key::NumpadAdd => {},
        Key::NumpadSub => {},
        Key::NumpadMul => {},
        Key::NumpadDiv => {},
        Key::NumpadDecimal => {},
        Key::NumpadEnter => {},
        Key::Minus => {},
        Key::Equal => {},
        Key::BracketLeft => {},
        Key::BracketRight => {},
        Key::Backslash => {},
        Key::Semicolon => {},
        Key::Quote => {},
        Key::Backquote => {},
        Key::Comma => {},
        Key::Period => {},
        Key::Slash => {},
        Key::PrintScreen => {},
        Key::ScrollLock => {},
        Key::Pause => {},
        Key::NumLock => {},
        Key::Menu => {},
    }
}

/// No two keys share a code.
pub proof fn law_no_two_keys_share_a_code(a: Key, b: Key)
    ensures
        key_code_spec(a) is Some && key_code_spec(a) == key_code_spec(b) ==> a == b,
{
    lemma_key_code_inverse(a);
    lemma_key_code_inverse(b);
}

/// The four modifier flags are distinct single bits.
pub proof fn law_modifier_flags_do_not_overlap(a: Key, b: Key)
    ensures
        a != b && modifier_flag_spec(a) is Some && modifier_flag_spec(b) is Some ==> modifier_flag_spec(
            a,
        )->Some_0 & modifier_flag_spec(b)->Some_0 == 0,
{
    assert(0x20000u64 & 0x40000u64 == 0) by (bit_vector);
    assert(0x20000u64 & 0x80000u64 == 0) by (bit_vector);
    assert(0x20000u64 & 0x100000u64 == 0) by (bit_vector);
    assert(0x40000u64 & 0x80000u64 == 0) by (bit_vector);
    assert(0x40000u64 & 0x100000u64 == 0) by (bit_vector);
    assert(0x80000u64 & 0x100000u64 == 0) by (bit_vector);
    assert(0x40000u64 & 0x20000u64 == 0) by (bit_vector);
    assert(0x80000u64 & 0x20000u64 == 0) by (bit_vector);
    assert(0x100000u64 & 0x20000u64 == 0) by (bit_vector);
    assert(0x80000u64 & 0x40000u64 == 0) by (bit_vector);
    assert(0x100000u64 & 0x40000u64 == 0) by (bit_vector);
    assert(0x100000u64 & 0x80000u64 == 0) by (bit_vector);
}

/// Each modifier sets the `CGEventFlags` mask named for it: `kCGEventFlagMaskShift` (0x20000),
/// `kCGEventFlagMaskControl` (0x40000), `kCGEventFlagMaskAlternate` (0x80000) and
/// `kCGEventFlagMaskCommand` (0x100000); every other key sets none.
pub proof fn law_modifier_flags_are_the_cg_masks(key: Key)
    ensures
        key == Key::Shift ==> modifier_flag_spec(key) == Some(0x20000u64),
        key == Key::Control ==> modifier_flag_spec(key) == Some(0x40000u64),
        key == Key::Alt ==> modifier_flag_spec(key) == Some(0x80000u64),
        key == Key::Meta ==> modifier_flag_spec(key) == Some(0x100000u64),
        !(key == Key::Shift || key == Key::Control || key == Key::Alt || key == Key::Meta)
            ==> modifier_flag_spec(key) is None,
{
}

/// Each media command posts the `NX_KEYTYPE_*` code of IOKit's `<ev_keymap.h>` named for it:
/// `NX_KEYTYPE_PLAY` (16), `NX_KEYTYPE_NEXT` (17), `NX_KEYTYPE_PREVIOUS` (18),
/// `NX_KEYTYPE_SOUND_UP` (0), `NX_KEYTYPE_SOUND_DOWN` (1) and `NX_KEYTYPE_MUTE` (7); there is no
/// stop key.
pub proof fn law_media_codes_are_the_nx_keytypes(command: MediaCommand)
    ensures
        command == MediaCommand::PlayPause ==> media_code_spec(command) == Some(16u8),
        command == MediaCommand::Next ==> media_code_spec(command) == Some(17u8),
        command == MediaCommand::Prev ==> media_code_spec(command) == Some(18u8),
        command == MediaCommand::Stop ==> media_code_spec(command) is None,
        command == MediaCommand::VolumeUp ==> media_code_spec(command) == Some(0u8),
        command == MediaCommand::VolumeDown ==> media_code_spec(command) == Some(1u8),
        command == MediaCommand::Mute ==> media_code_spec(command) == Some(7u8),
{
}

/// Each key posts the `kVK_*` code of Carbon's `<HIToolbox/Events.h>` named for it; F21 to F24,
/// Print Screen, Scroll Lock, Pause and Menu have none.
pub proof fn law_key_codes_are_the_carbon_key_codes(key: Key)
    ensures
        key == Key::Control ==> key_code_spec(key) == Some(0x3bu16),
        key == Key::Shift ==> key_code_spec(key) == Some(0x38u16),
        key == Key::Alt ==> key_code_spec(key) == Some(0x3au16),
        key == Key::Meta ==> key_code_spec(key) == Some(0x37u16),
        key == Key::A ==> key_code_spec(key) == Some(0x0u16),
        key == Key::B ==> key_code_spec(key) == Some(0xbu16),
        key == Key::C ==> key_code_spec(key) == Some(0x8u16),
        key == Key::D ==> key_code_spec(key) == Some(0x2u16),
        key == Key::E ==> key_code_spec(key) == Some(0xeu16),
        key == Key::F ==> key_code_spec(key) == Some(0x3u16),
        key == Key::G ==> key_code_spec(key) == Some(0x5u16),
        key == Key::H ==> key_code_spec(key) == Some(0x4u16),
        key == Key::I ==> key_code_spec(key) == Some(0x22u16),
        key == Key::J ==> key_code_spec(key) == Some(0x26u16),
        key == Key::K ==> key_code_spec(key) == Some(0x28u16),
        key == Key::L ==> key_code_spec(key) == Some(0x25u16),
        key == Key::M ==> key_code_spec(key) == Some(0x2eu16),
        key == Key::N ==> key_code_spec(key) == Some(0x2du16),
        key == Key::O ==> key_code_spec(key) == Some(0x1fu16),
        key == Key::P ==> key_code_spec(key) == Some(0x23u16),
        key == Key::Q ==> key_code_spec(key) == Some(0xcu16),
        key == Key::R ==> key_code_spec(key) == Some(0xfu16),
        key == Key::S ==> key_code_spec(key) == Some(0x1u16),
        key == Key::T ==> key_code_spec(key) == Some(0x11u16),
        key == Key::U ==> key_code_spec(key) == Some(0x20u16),
        key == Key::V ==> key_code_spec(key) == Some(0x9u16),
        key == Key::W ==> key_code_spec(key) == Some(0xdu16),
        key == Key::X ==> key_code_spec(key) == Some(0x7u16),
        key == Key::Y ==> key_code_spec(key) == Some(0x10u16),
        key == Key::Z ==> key_code_spec(key) == Some(0x6u16),
        key == Key::Digit0 ==> key_code_spec(key) == Some(0x1du16),
        key == Key::Digit1 ==> key_code_spec(key) == Some(0x12u16),
        key == Key::Digit2 ==> key_code_spec(key) == Some(0x13u16),
        key == Key::Digit3 ==> key_code_spec(key) == Some(0x14u16),
        key == Key::Digit4 ==> key_code_spec(key) == Some(0x15u16),
        key == Key::Digit5 ==> key_code_spec(key) == Some(0x17u16),
        key == Key::Digit6 ==> key_code_spec(key) == Some(0x16u16),
        key == Key::Digit7 ==> key_code_spec(key) == Some(0x1au16),
        key == Key::Digit8 ==> key_code_spec(key) == Some(0x1cu16),
        key == Key::Digit9 ==> key_code_spec(key) == Some(0x19u16),
        key == Key::F1 ==> key_code_spec(key) == Some(0x7au16),
        key == Key::F2 ==> key_code_spec(key) == Some(0x78u16),
        key == Key::F3 ==> key_code_spec(key) == Some(0x63u16),
        key == Key::F4 ==> key_code_spec(key) == Some(0x76u16),
        key == Key::F5 ==> key_code_spec(key) == Some(0x60u16),
        key == Key::F6 ==> key_code_spec(key) == Some(0x61u16),
        key == Key::F7 ==> key_code_spec(key) == Some(0x62u16),
        key == Key::F8 ==> key_code_spec(key) == Some(0x64u16),
        key == Key::F9 ==> key_code_spec(key) == Some(0x65u16),
        key == Key::F10 ==> key_code_spec(key) == Some(0x6du16),
        key == Key::F11 ==> key_code_spec(key) == Some(0x67u16),
        key == Key::F12 ==> key_code_spec(key) == Some(0x6fu16),
        key == Key::F13 ==> key_code_spec(key) == Some(0x69u16),
        key == Key::F14 ==> key_code_spec(key) == Some(0x6bu16),
        key == Key::F15 ==> key_code_spec(key) == Some(0x71u16),
        key == Key::F16 ==> key_code_spec(key) == Some(0x6au16),
        key == Key::F17 ==> key_code_spec(key) == Some(0x40u16),
        key == Key::F18 ==> key_code_spec(key) == Some(0x4fu16),
        key == Key::F19 ==> key_code_spec(key) == Some(0x50u16),
        key == Key::F20 ==> key_code_spec(key) == Some(0x5au16),
        key == Key::F21 ==> key_code_spec(key) is None,
        key == Key::F22 ==> key_code_spec(key) is None,
        key == Key::F23 ==> key_code_spec(key) is None,
        key == Key::F24 ==> key_code_spec(key) is None,
        key == Key::Escape ==> key_code_spec(key) == Some(0x35u16),
        key == Key::Tab ==> key_code_spec(key) == Some(0x30u16),
        key == Key::CapsLock ==> key_code_spec(key) == Some(0x39u16),
        key == Key::Space ==> key_code_spec(key) == Some(0x31u16),
        key == Key::Enter ==> key_code_spec(key) == Some(0x24u16),
        key == Key::Backspace ==> key_code_spec(key) == Some(0x33u16),
        key == Key::Delete ==> key_code_spec(key) == Some(0x75u16),
        key == Key::Insert ==> key_code_spec(key) == Some(0x72u16),
        key == Key::Home ==> key_code_spec(key) == Some(0x73u16),
        key == Key::End ==> key_code_spec(key) == Some(0x77u16),
        key == Key::PageUp ==> key_code_spec(key) == Some(0x74u16),
        key == Key::PageDown ==> key_code_spec(key) == Some(0x79u16),
        key == Key::Left ==> key_code_spec(key) == Some(0x7bu16),
        key == Key::Right ==> key_code_spec(key) == Some(0x7cu16),
        key == Key::Up ==> key_code_spec(key) == Some(0x7eu16),
        key == Key::Down ==> key_code_spec(key) == Some(0x7du16),
        key == Key::Numpad0 ==> key_code_spec(key) == Some(0x52u16),
        key == Key::Numpad1 ==> key_code_spec(key) == Some(0x53u16),
        key == Key::Numpad2 ==> key_code_spec(key) == Some(0x54u16),
        key == Key::Numpad3 ==> key_code_spec(key) == Some(0x55u16),
        key == Key::Numpad4 ==> key_code_spec(key) == Some(0x56u16),
        key == Key::Numpad5 ==> key_code_spec(key) == Some(0x57u16),
        key == Key::Numpad6 ==> key_code_spec(key) == Some(0x58u16),
        key == Key::Numpad7 ==> key_code_spec(key) == Some(0x59u16),
        key == Key::Numpad8 ==> key_code_spec(key) == Some(0x5bu16),
        key == Key::Numpad9 ==> key_code_spec(key) == Some(0x5cu16),
        key == Key::NumpadAdd ==> key_code_spec(key) == Some(0x45u16),
        key == Key::NumpadSub ==> key_code_spec(key) == Some(0x4eu16),
        key == Key::NumpadMul ==> key_code_spec(key) == Some(0x43u16),
        key == Key::NumpadDiv ==> key_code_spec(key) == Some(0x4bu16),
        key == Key::NumpadDecimal ==> key_code_spec(key) == Some(0x41u16),
        key == Key::NumpadEnter ==> key_code_spec(key) == Some(0x4cu16),
        key == Key::NumLock ==> key_code_spec(key) == Some(0x47u16),
        key == Key::Minus ==> key_code_spec(key) == Some(0x1bu16),
        key == Key::Equal ==> key_code_spec(key) == Some(0x18u16),
        key == Key::BracketLeft ==> key_code_spec(key) == Some(0x21u16),
        key == Key::BracketRight ==> key_code_spec(key) == Some(0x1eu16),
        key == Key::Backslash ==> key_code_spec(key) == Some(0x2au16),
        key == Key::Semicolon ==> key_code_spec(key) == Some(0x29u16),
        key == Key::Quote ==> key_code_spec(key) == Some(0x27u16),
        key == Key::Backquote ==> key_code_spec(key) == Some(0x32u16),
        key == Key::Comma ==> key_code_spec(key) == Some(0x2bu16),
        key == Key::Period ==> key_code_spec(key) == Some(0x2fu16),
        key == Key::Slash ==> key_code_spec(key) == Some(0x2cu16),
        key == Key::PrintScreen ==> key_code_spec(key) is None,
        key == Key::ScrollLock ==> key_code_spec(key) is None,
        key == Key::Pause ==> key_code_spec(key) is None,
        key == Key::Menu ==> key_code_spec(key) is None,
{
}

} // verus!
