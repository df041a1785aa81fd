//! Input injection payloads and the canonical key table.
use vstd::prelude::*;

use crate::protocol::envelope::{ErrorCode, ErrorPayload};

verus! {

/// `input.key_combo`: modifiers pressed in listed order, the final non-modifier tapped, then
/// everything released in reverse order.
#[derive(Debug, Clone, PartialEq, Eq)]
pub struct KeyCombo {
    pub keys: Vec<Key>,
    /// How long the whole combo is held, every key down, before release. Absent means zero.
    pub hold_ms: Option<u32>,
}

/// How many of `keys` are not modifiers.
pub open spec fn non_modifier_count(keys: Seq<Key>) -> nat
    decreases keys.len(),
{
    if keys.len() == 0 {
        0
    } else {
        non_modifier_count(keys.drop_last()) + if keys.last().is_modifier_spec() {
            0nat
        } else {
            1nat
        }
    }
}

pub open spec fn empty_combo_message() -> Seq<char> {
    "input.key_combo requires at least one key"@
}

pub open spec fn two_non_modifiers_message() -> Seq<char> {
    "input.key_combo accepts at most one non-modifier key; use input.key_sequence"@
}

/// What is wrong with a combo, if anything: no keys, or more than one non-modifier.
pub open spec fn combo_problem(keys: Seq<Key>) -> Option<Seq<char>> {
    if keys.len() == 0 {
        Some(empty_combo_message())
    } else if non_modifier_count(keys) > 1 {
        Some(two_non_modifiers_message())
    } else {
        None
    }
}

/// `r` answers a check whose outcome is `problem`: `Ok` when there is none, otherwise
/// `BAD_REQUEST` with that message.
pub open spec fn answers_problem(r: Result<(), ErrorPayload>, problem: Option<Seq<char>>) -> bool {
    match problem {
        None => r is Ok,
        Some(message) => r matches Err(e) && e.code == ErrorCode::BadRequest && e.message@
            == message,
    }
}

impl KeyCombo {
    pub fn hold_ms_or_default(&self) -> (r: u32)
        ensures
            r == (match self.hold_ms {
                Some(h) => h,
                None => 0,
            }),
    {
        match self.hold_ms {
            Some(h) => h,
            None => 0,
        }
    }

    /// Zero non-modifiers is valid (`["META"]` alone is a real macro); two or more is refused.
    pub fn validate(&self) -> (r: Result<(), ErrorPayload>)
        ensures
            answers_problem(r, combo_problem(self.keys@)),
    {
        if self.keys.len() == 0 {
            return Err(
                ErrorPayload::new(
                    ErrorCode::BadRequest,
                    String::from_str("input.key_combo requires at least one key"),
                ),
            );
        }
        let mut count: usize = 0;
        let mut i: usize = 0;
        while i < self.keys.len()
            invariant
                i <= self.keys@.len(),
                count == non_modifier_count(self.keys@.take(i as int)),
                count <= i,
            decreases self.keys@.len() - i,
        {
            assert(self.keys@.take(i + 1).drop_last() =~= self.keys@.take(i as int));
            if !self.keys[i].is_modifier() {
                count = count + 1;
            }
            i = i + 1;
        }
        assert(self.keys@.take(self.keys@.len() as int) =~= self.keys@);
        if count > 1 {
            return Err(
                ErrorPayload::new(
                    ErrorCode::BadRequest,
                    String::from_str(
                        "input.key_combo accepts at most one non-modifier key; use input.key_sequence",
                    ),
                ),
            );
        }
        Ok(())
    }
}

/// `input.key_sequence`: several combos in order.
#[derive(Debug, Clone, PartialEq, Eq)]
pub struct KeySequence {
    pub steps: Vec<SequenceStep>,
}

/// The problem of the first step that has one.
pub open spec fn sequence_problem(steps: Seq<SequenceStep>) -> Option<Seq<char>>
    decreases steps.len(),
{
    if steps.len() == 0 {
        None
    } else {
        match steps[0] {
            SequenceStep::Combo(c) => if combo_problem(c.keys@) is Some {
                combo_problem(c.keys@)
            } else {
                sequence_problem(steps.drop_first())
            },
            SequenceStep::Delay { .. } => sequence_problem(steps.drop_first()),
        }
    }
}

impl KeySequence {
    /// Every combo step must itself be a valid combo; the first failure is reported.
    pub fn validate(&self) -> (r: Result<(), ErrorPayload>)
        ensures
            answers_problem(r, sequence_problem(self.steps@)),
    {
        let mut i: usize = 0;
        assert(self.steps@.skip(0) =~= self.steps@);
        while i < self.steps.len()
            invariant
                i <= self.steps@.len(),
                sequence_problem(self.steps@) == sequence_problem(self.steps@.skip(i as int)),
            decreases self.steps@.len() - i,
        {
            assert(self.steps@.skip(i as int).drop_first() =~= self.steps@.skip(i + 1));
            match &self.steps[i] {
                SequenceStep::Combo(combo) => {
                    let checked = combo.validate();
                    if checked.is_err() {
                        return checked;
                    }
                },
                SequenceStep::Delay { .. } => {},
            }
            i = i + 1;
        }
        Ok(())
    }
}

/// One step of a sequence: a combo, or a pause.
#[derive(Debug, Clone, PartialEq, Eq)]
pub enum SequenceStep {
    Combo(KeyCombo),
    Delay { delay_ms: u32 },
}

/// `input.text` — type a literal string.
#[derive(Debug, Clone, PartialEq, Eq)]
pub struct TextRequest {
    pub text: String,
    /// Pause between characters, milliseconds. Absent or `0` means as fast as the OS allows.
    pub delay_ms: Option<u32>,
}

impl TextRequest {
    pub fn delay_ms_or_default(&self) -> (r: u32)
        ensures
            r == (match self.delay_ms {
                Some(d) => d,
                None => 0,
            }),
    {
        match self.delay_ms {
            Some(d) => d,
            None => 0,
        }
    }
}

/// `input.media`.
#[derive(Debug, Clone, Copy, PartialEq, Eq)]
pub struct MediaRequest {
    pub command: MediaCommand,
}

#[derive(Debug, Clone, Copy, PartialEq, Eq, Hash, Structural)]
pub enum MediaCommand {
    PlayPause,
    Next,
    Prev,
    Stop,
    VolumeUp,
    VolumeDown,
    Mute,
}

/// Every media command, in declaration order.
pub open spec fn all_media_spec() -> Seq<MediaCommand> {
    seq![
        MediaCommand::PlayPause,
        MediaCommand::Next,
        MediaCommand::Prev,
        MediaCommand::Stop,
        MediaCommand::VolumeUp,
        MediaCommand::VolumeDown,
        MediaCommand::Mute,
    ]
}

impl MediaCommand {
    pub open spec fn wire_name(self) -> Seq<char> {
        match self {
            MediaCommand::PlayPause => "PLAY_PAUSE"@,
            MediaCommand::Next => "NEXT"@,
            MediaCommand::Prev => "PREV"@,
            MediaCommand::Stop => "STOP"@,
            MediaCommand::VolumeUp => "VOLUME_UP"@,
            MediaCommand::VolumeDown => "VOLUME_DOWN"@,
            MediaCommand::Mute => "MUTE"@,
        }
    }

    /// The wire name.
    pub fn as_str(&self) -> (r: &'static str)
        ensures
            r@ == self.wire_name(),
    {
        match self {
            MediaCommand::PlayPause => "PLAY_PAUSE",
            MediaCommand::Next => "NEXT",
            MediaCommand::Prev => "PREV",
            MediaCommand::Stop => "STOP",
            MediaCommand::VolumeUp => "VOLUME_UP",
            MediaCommand::VolumeDown => "VOLUME_DOWN",
            MediaCommand::Mute => "MUTE",
        }
    }

    /// The variant's own name, e.g. `PlayPause`, as `{:?}` prints it.
    pub open spec fn variant_name(self) -> Seq<char> {
        match self {
            MediaCommand::PlayPause => "PlayPause"@,
            MediaCommand::Next => "Next"@,
            MediaCommand::Prev => "Prev"@,
            MediaCommand::Stop => "Stop"@,
            MediaCommand::VolumeUp => "VolumeUp"@,
            MediaCommand::VolumeDown => "VolumeDown"@,
            MediaCommand::Mute => "Mute"@,
        }
    }

    pub fn debug_name(&self) -> (r: &'static str)
        ensures
            r@ == self.variant_name(),
    {
        match self {
            MediaCommand::PlayPause => "PlayPause",
            MediaCommand::Next => "Next",
            MediaCommand::Prev => "Prev",
            MediaCommand::Stop => "Stop",
            MediaCommand::VolumeUp => "VolumeUp",
            MediaCommand::VolumeDown => "VolumeDown",
            MediaCommand::Mute => "Mute",
        }
    }

    /// The media command with this wire name, if any.
    pub fn from_wire(wire: &str) -> (r: Option<MediaCommand>)
        ensures
            r matches Some(c) ==> c.wire_name() == wire@,
            r is None ==> forall|c: MediaCommand| #[trigger] c.wire_name() != wire@,
    {
        let all = MediaCommand::all();
        let mut i: usize = 0;
        while i < all.len()
            invariant
                all@ == all_media_spec(),
                i <= all@.len(),
                forall|j: int| 0 <= j < i ==> (#[trigger] all@[j]).wire_name() != wire@,
            decreases all@.len() - i,
        {
            let candidate = all[i];
            if crate::text::str_eq(candidate.as_str(), wire) {
                return Some(candidate);
            }
            i = i + 1;
        }
        proof {
            assert forall|c: MediaCommand| #[trigger] c.wire_name() != wire@ by {
                let s = all_media_spec();
                match c {
                    MediaCommand::PlayPause => assert(s[0] == c),
                    MediaCommand::Next => assert(s[1] == c),
                    MediaCommand::Prev => assert(s[2] == c),
                    MediaCommand::Stop => assert(s[3] == c),
                    MediaCommand::VolumeUp => assert(s[4] == c),
                    MediaCommand::VolumeDown => assert(s[5] == c),
                    MediaCommand::Mute => assert(s[6] == c),
                }
            }
        }
        None
    }

    /// Every media command, once each.
    pub fn all() -> (v: Vec<MediaCommand>)
        ensures
            v@ == all_media_spec(),
    {
        let mut v: Vec<MediaCommand> = Vec::new();
        v.push(MediaCommand::PlayPause);
        v.push(MediaCommand::Next);
        v.push(MediaCommand::Prev);
        v.push(MediaCommand::Stop);
        v.push(MediaCommand::VolumeUp);
        v.push(MediaCommand::VolumeDown);
        v.push(MediaCommand::Mute);
        assert(v@ =~= all_media_spec());
        v
    }
}

/// Every media command appears in [`all_media_spec`], which has no repeats.
pub proof fn lemma_all_media_complete_and_distinct()
    ensures
        all_media_spec().len() == 7,
        forall|c: MediaCommand| #[trigger] all_media_spec().contains(c),
        forall|i: int, j: int|
            0 <= i < j < 7 ==> #[trigger] all_media_spec()[i] != #[trigger] all_media_spec()[j],
{
    let s = all_media_spec();
    assert forall|c: MediaCommand| #[trigger] s.contains(c) by {
        match c {
            MediaCommand::PlayPause => assert(s[0] == c),
            MediaCommand::Next => assert(s[1] == c),
            MediaCommand::Prev => assert(s[2] == c),
            MediaCommand::Stop => assert(s[3] == c),
            MediaCommand::VolumeUp => assert(s[4] == c),
            MediaCommand::VolumeDown => assert(s[5] == c),
            MediaCommand::Mute => assert(s[6] == c),
        }
    }
}

#[derive(Debug, Clone, Copy, PartialEq, Eq, Hash, Structural)]
pub enum MouseButton {
    Left,
    Right,
    Middle,
}

/// A canonical key name: uppercase, ASCII, no aliases. `META` is the Windows key on Windows and
/// Linux, and Command on macOS.
#[derive(Debug, Clone, Copy, PartialEq, Eq, Hash, Structural)]
pub enum Key {
    Control,
    Shift,
    Alt,
    Meta,
    A,
    B,
    C,
    D,
    E,
    F,
    G,
    H,
    I,
    J,
    K,
    L,
    M,
    N,
    O,
    P,
    Q,
    R,
    S,
    T,
    U,
    V,
    W,
    X,
    Y,
    Z,
    Digit0,
    Digit1,
    Digit2,
    Digit3,
    Digit4,
    Digit5,
    Digit6,
    Digit7,
    Digit8,
    Digit9,
    F1,
    F2,
    F3,
    F4,
    F5,
    F6,
    F7,
    F8,
    F9,
    F10,
    F11,
    F12,
    F13,
    F14,
    F15,
    F16,
    F17,
    F18,
    F19,
    F20,
    F21,
    F22,
    F23,
    F24,
    Escape,
    Tab,
    CapsLock,
    Space,
    Enter,
    Backspace,
    Delete,
    Insert,
    Home,
    End,
    PageUp,
    PageDown,
    Left,
    Right,
    Up,
    Down,
    Numpad0,
    Numpad1,
    Numpad2,
    Numpad3,
    Numpad4,
    Numpad5,
    Numpad6,
    Numpad7,
    Numpad8,
    Numpad9,
    NumpadAdd,
    NumpadSub,
    NumpadMul,
    NumpadDiv,
    NumpadDecimal,
    NumpadEnter,
    Minus,
    Equal,
    BracketLeft,
    BracketRight,
    Backslash,
    Semicolon,
    Quote,
    Backquote,
    Comma,
    Period,
    Slash,
    PrintScreen,
    ScrollLock,
    Pause,
    NumLock,
    Menu,
}

/// The key at position `i` of the canonical list.
pub open spec fn key_at(i: int) -> Key {
    if i == 0 { Key::Control } else
    if i == 1 { Key::Shift } else
    if i == 2 { Key::Alt } else
    if i == 3 { Key::Meta } else
    if i == 4 { Key::A } else
    if i == 5 { Key::B } else
    if i == 6 { Key::C } else
    if i == 7 { Key::D } else
    if i == 8 { Key::E } else
    if i == 9 { Key::F } else
    if i == 10 { Key::G } else
    if i == 11 { Key::H } else
    if i == 12 { Key::I } else
    if i == 13 { Key::J } else
    if i == 14 { Key::K } else
    if i == 15 { Key::L } else
    if i == 16 { Key::M } else
    if i == 17 { Key::N } else
    if i == 18 { Key::O } else
    if i == 19 { Key::P } else
    if i == 20 { Key::Q } else
    if i == 21 { Key::R } else
    if i == 22 { Key::S } else
    if i == 23 { Key::T } else
    if i == 24 { Key::U } else
    if i == 25 { Key::V } else
    if i == 26 { Key::W } else
    if i == 27 { Key::X } else
    if i == 28 { Key::Y } else
    if i == 29 { Key::Z } else
    if i == 30 { Key::Digit0 } else
    if i == 31 { Key::Digit1 } else
    if i == 32 { Key::Digit2 } else
    if i == 33 { Key::Digit3 } else
    if i == 34 { Key::Digit4 } else
    if i == 35 { Key::Digit5 } else
    if i == 36 { Key::Digit6 } else
    if i == 37 { Key::Digit7 } else
    if i == 38 { Key::Digit8 } else
    if i == 39 { Key::Digit9 } else
    if i == 40 { Key::F1 } else
    if i == 41 { Key::F2 } else
    if i == 42 { Key::F3 } else
    if i == 43 { Key::F4 } else
    if i == 44 { Key::F5 } else
    if i == 45 { Key::F6 } else
    if i == 46 { Key::F7 } else
    if i == 47 { Key::F8 } else
    if i == 48 { Key::F9 } else
    if i == 49 { Key::F10 } else
    if i == 50 { Key::F11 } else
    if i == 51 { Key::F12 } else
    if i == 52 { Key::F13 } else
    if i == 53 { Key::F14 } else
    if i == 54 { Key::F15 } else
    if i == 55 { Key::F16 } else
    if i == 56 { Key::F17 } else
    if i == 57 { Key::F18 } else
    if i == 58 { Key::F19 } else
    if i == 59 { Key::F20 } else
    if i == 60 { Key::F21 } else
    if i == 61 { Key::F22 } else
    if i == 62 { Key::F23 } else
    if i == 63 { Key::F24 } else
    if i == 64 { Key::Escape } else
    if i == 65 { Key::Tab } else
    if i == 66 { Key::CapsLock } else
    if i == 67 { Key::Space } else
    if i == 68 { Key::Enter } else
    if i == 69 { Key::Backspace } else
    if i == 70 { Key::Delete } else
    if i == 71 { Key::Insert } else
    if i == 72 { Key::Home } else
    if i == 73 { Key::End } else
    if i == 74 { Key::PageUp } else
    if i == 75 { Key::PageDown } else
    if i == 76 { Key::Left } else
    if i == 77 { Key::Right } else
    if i == 78 { Key::Up } else
    if i == 79 { Key::Down } else
    if i == 80 { Key::Numpad0 } else
    if i == 81 { Key::Numpad1 } else
    if i == 82 { Key::Numpad2 } else
    if i == 83 { Key::Numpad3 } else
    if i == 84 { Key::Numpad4 } else
    if i == 85 { Key::Numpad5 } else
    if i == 86 { Key::Numpad6 } else
    if i == 87 { Key::Numpad7 } else
    if i == 88 { Key::Numpad8 } else
    if i == 89 { Key::Numpad9 } else
    if i == 90 { Key::NumpadAdd } else
    if i == 91 { Key::NumpadSub } else
    if i == 92 { Key::NumpadMul } else
    if i == 93 { Key::NumpadDiv } else
    if i == 94 { Key::NumpadDecimal } else
    if i == 95 { Key::NumpadEnter } else
    if i == 96 { Key::Minus } else
    if i == 97 { Key::Equal } else
    if i == 98 { Key::BracketLeft } else
    if i == 99 { Key::BracketRight } else
    if i == 100 { Key::Backslash } else
    if i == 101 { Key::Semicolon } else
    if i == 102 { Key::Quote } else
    if i == 103 { Key::Backquote } else
    if i == 104 { Key::Comma } else
    if i == 105 { Key::Period } else
    if i == 106 { Key::Slash } else
    if i == 107 { Key::PrintScreen } else
    if i == 108 { Key::ScrollLock } else
    if i == 109 { Key::Pause } else
    if i == 110 { Key::NumLock } else
    { Key::Menu }
}

fn key_at_exec(i: usize) -> (k: Key)
    ensures
        k == key_at(i as int),
{
    match i {
        0 => Key::Control,
        1 => Key::Shift,
        2 => Key::Alt,
        3 => Key::Meta,
        4 => Key::A,
        5 => Key::B,
        6 => Key::C,
        7 => Key::D,
        8 => Key::E,
        9 => Key::F,
        10 => Key::G,
        11 => Key::H,
        12 => Key::I,
        13 => Key::J,
        14 => Key::K,
        15 => Key::L,
        16 => Key::M,
        17 => Key::N,
        18 => Key::O,
        19 => Key::P,
        20 => Key::Q,
        21 => Key::R,
        22 => Key::S,
        23 => Key::T,
        24 => Key::U,
        25 => Key::V,
        26 => Key::W,
        27 => Key::X,
        28 => Key::Y,
        29 => Key::Z,
        30 => Key::Digit0,
        31 => Key::Digit1,
        32 => Key::Digit2,
        33 => Key::Digit3,
        34 => Key::Digit4,
        35 => Key::Digit5,
        36 => Key::Digit6,
        37 => Key::Digit7,
        38 => Key::Digit8,
        39 => Key::Digit9,
        40 => Key::F1,
        41 => Key::F2,
        42 => Key::F3,
        43 => Key::F4,
        44 => Key::F5,
        45 => Key::F6,
        46 => Key::F7,
        47 => Key::F8,
        48 => Key::F9,
        49 => Key::F10,
        50 => Key::F11,
        51 => Key::F12,
        52 => Key::F13,
        53 => Key::F14,
        54 => Key::F15,
        55 => Key::F16,
        56 => Key::F17,
        57 => Key::F18,
        58 => Key::F19,
        59 => Key::F20,
        60 => Key::F21,
        61 => Key::F22,
        62 => Key::F23,
        63 => Key::F24,
        64 => Key::Escape,
        65 => Key::Tab,
        66 => Key::CapsLock,
        67 => Key::Space,
        68 => Key::Enter,
        69 => Key::Backspace,
        70 => Key::Delete,
        71 => Key::Insert,
        72 => Key::Home,
        73 => Key::End,
        74 => Key::PageUp,
        75 => Key::PageDown,
        76 => Key::Left,
        77 => Key::Right,
        78 => Key::Up,
        79 => Key::Down,
        80 => Key::Numpad0,
        81 => Key::Numpad1,
        82 => Key::Numpad2,
        83 => Key::Numpad3,
        84 => Key::Numpad4,
        85 => Key::Numpad5,
        86 => Key::Numpad6,
        87 => Key::Numpad7,
        88 => Key::Numpad8,
        89 => Key::Numpad9,
        90 => Key::NumpadAdd,
        91 => Key::NumpadSub,
        92 => Key::NumpadMul,
        93 => Key::NumpadDiv,
        94 => Key::NumpadDecimal,
        95 => Key::NumpadEnter,
        96 => Key::Minus,
        97 => Key::Equal,
        98 => Key::BracketLeft,
        99 => Key::BracketRight,
        100 => Key::Backslash,
        101 => Key::Semicolon,
        102 => Key::Quote,
        103 => Key::Backquote,
        104 => Key::Comma,
        105 => Key::Period,
        106 => Key::Slash,
        107 => Key::PrintScreen,
        108 => Key::ScrollLock,
        109 => Key::Pause,
        110 => Key::NumLock,
        _ => Key::Menu,
    }
}

/// Every canonical key, in declaration order.
pub open spec fn all_keys_spec() -> Seq<Key> {
    Seq::new(112, |i: int| key_at(i))
}

/// The position of a key in [`all_keys_spec`].
pub open spec fn key_index(key: Key) -> nat {
    match key {
        Key::Control => 0,
        Key::Shift => 1,
        Key::Alt => 2,
        Key::Meta => 3,
        Key::A => 4,
        Key::B => 5,
        Key::C => 6,
        Key::D => 7,
        Key::E => 8,
        Key::F => 9,
        Key::G => 10,
        Key::H => 11,
        Key::I => 12,
        Key::J => 13,
        Key::K => 14,
        Key::L => 15,
        Key::M => 16,
        Key::N => 17,
        Key::O => 18,
        Key::P => 19,
        Key::Q => 20,
        Key::R => 21,
        Key::S => 22,
        Key::T => 23,
        Key::U => 24,
        Key::V => 25,
        Key::W => 26,
        Key::X => 27,
        Key::Y => 28,
        Key::Z => 29,
        Key::Digit0 => 30,
        Key::Digit1 => 31,
        Key::Digit2 => 32,
        Key::Digit3 => 33,
        Key::Digit4 => 34,
        Key::Digit5 => 35,
        Key::Digit6 => 36,
        Key::Digit7 => 37,
        Key::Digit8 => 38,
        Key::Digit9 => 39,
        Key::F1 => 40,
        Key::F2 => 41,
        Key::F3 => 42,
        Key::F4 => 43,
        Key::F5 => 44,
        Key::F6 => 45,
        Key::F7 => 46,
        Key::F8 => 47,
        Key::F9 => 48,
        Key::F10 => 49,
        Key::F11 => 50,
        Key::F12 => 51,
        Key::F13 => 52,
        Key::F14 => 53,
        Key::F15 => 54,
        Key::F16 => 55,
        Key::F17 => 56,
        Key::F18 => 57,
        Key::F19 => 58,
        Key::F20 => 59,
        Key::F21 => 60,
        Key::F22 => 61,
        Key::F23 => 62,
        Key::F24 => 63,
        Key::Escape => 64,
        Key::Tab => 65,
        Key::CapsLock => 66,
        Key::Space => 67,
        Key::Enter => 68,
        Key::Backspace => 69,
        Key::Delete => 70,
        Key::Insert => 71,
        Key::Home => 72,
        Key::End => 73,
        Key::PageUp => 74,
        Key::PageDown => 75,
        Key::Left => 76,
        Key::Right => 77,
        Key::Up => 78,
        Key::Down => 79,
        Key::Numpad0 => 80,
        Key::Numpad1 => 81,
        Key::Numpad2 => 82,
        Key::Numpad3 => 83,
        Key::Numpad4 => 84,
        Key::Numpad5 => 85,
        Key::Numpad6 => 86,
        Key::Numpad7 => 87,
        Key::Numpad8 => 88,
        Key::Numpad9 => 89,
        Key::NumpadAdd => 90,
        Key::NumpadSub => 91,
        Key::NumpadMul => 92,
        Key::NumpadDiv => 93,
        Key::NumpadDecimal => 94,
        Key::NumpadEnter => 95,
        Key::Minus => 96,
        Key::Equal => 97,
        Key::BracketLeft => 98,
        Key::BracketRight => 99,
        Key::Backslash => 100,
        Key::Semicolon => 101,
        Key::Quote => 102,
        Key::Backquote => 103,
        Key::Comma => 104,
        Key::Period => 105,
        Key::Slash => 106,
        Key::PrintScreen => 107,
        Key::ScrollLock => 108,
        Key::Pause => 109,
        Key::NumLock => 110,
        Key::Menu => 111,
    }
}

/// Each key sits at its own index of the list.
pub proof fn lemma_key_index(key: Key)
    ensures
        key_index(key) < 112,
        all_keys_spec()[key_index(key) as int] == key,
{
    let s = all_keys_spec();
    match key {
        Key::Control => assert(s[0] == key),
        Key::Shift => assert(s[1] == key),
        Key::Alt => assert(s[2] == key),
        Key::Meta => assert(s[3] == key),
        Key::A => assert(s[4] == key),
        Key::B => assert(s[5] == key),
        Key::C => assert(s[6] == key),
        Key::D => assert(s[7] == key),
        Key::E => assert(s[8] == key),
        Key::F => assert(s[9] == key),
        Key::G => assert(s[10] == key),
        Key::H => assert(s[11] == key),
        Key::I => assert(s[12] == key),
        Key::J => assert(s[13] == key),
        Key::K => assert(s[14] == key),
        Key::L => assert(s[15] == key),
        Key::M => assert(s[16] == key),
        Key::N => assert(s[17] == key),
        Key::O => assert(s[18] == key),
        Key::P => assert(s[19] == key),
        Key::Q => assert(s[20] == key),
        Key::R => assert(s[21] == key),
        Key::S => assert(s[22] == key),
        Key::T => assert(s[23] == key),
        Key::U => assert(s[24] == key),
        Key::V => assert(s[25] == key),
        Key::W => assert(s[26] == key),
        Key::X => assert(s[27] == key),
        Key::Y => assert(s[28] == key),
        Key::Z => assert(s[29] == key),
        Key::Digit0 => assert(s[30] == key),
        Key::Digit1 => assert(s[31] == key),
        Key::Digit2 => assert(s[32] == key),
        Key::Digit3 => assert(s[33] == key),
        Key::Digit4 => assert(s[34] == key),
        Key::Digit5 => assert(s[35] == key),
        Key::Digit6 => assert(s[36] == key),
        Key::Digit7 => assert(s[37] == key),
        Key::Digit8 => assert(s[38] == key),
        Key::Digit9 => assert(s[39] == key),
        Key::F1 => assert(s[40] == key),
        Key::F2 => assert(s[41] == key),
        Key::F3 => assert(s[42] == key),
        Key::F4 => assert(s[43] == key),
        Key::F5 => assert(s[44] == key),
        Key::F6 => assert(s[45] == key),
        Key::F7 => assert(s[46] == key),
        Key::F8 => assert(s[47] == key),
        Key::F9 => assert(s[48] == key),
        Key::F10 => assert(s[49] == key),
        Key::F11 => assert(s[50] == key),
        Key::F12 => assert(s[51] == key),
        Key::F13 => assert(s[52] == key),
        Key::F14 => assert(s[53] == key),
        Key::F15 => assert(s[54] == key),
        Key::F16 => assert(s[55] == key),
        Key::F17 => assert(s[56] == key),
        Key::F18 => assert(s[57] == key),
        Key::F19 => assert(s[58] == key),
        Key::F20 => assert(s[59] == key),
        Key::F21 => assert(s[60] == key),
        Key::F22 => assert(s[61] == key),
        Key::F23 => assert(s[62] == key),
        Key::F24 => assert(s[63] == key),
        Key::Escape => assert(s[64] == key),
        Key::Tab => assert(s[65] == key),
        Key::CapsLock => assert(s[66] == key),
        Key::Space => assert(s[67] == key),
        Key::Enter => assert(s[68] == key),
        Key::Backspace => assert(s[69] == key),
        Key::Delete => assert(s[70] == key),
        Key::Insert => assert(s[71] == key),
        Key::Home => assert(s[72] == key),
        Key::End => assert(s[73] == key),
        Key::PageUp => assert(s[74] == key),
        Key::PageDown => assert(s[75] == key),
        Key::Left => assert(s[76] == key),
        Key::Right => assert(s[77] == key),
        Key::Up => assert(s[78] == key),
        Key::Down => assert(s[79] == key),
        Key::Numpad0 => assert(s[80] == key),
        Key::Numpad1 => assert(s[81] == key),
        Key::Numpad2 => assert(s[82] == key),
        Key::Numpad3 => assert(s[83] == key),
        Key::Numpad4 => assert(s[84] == key),
        Key::Numpad5 => assert(s[85] == key),
        Key::Numpad6 => assert(s[86] == key),
        Key::Numpad7 => assert(s[87] == key),
        Key::Numpad8 => assert(s[88] == key),
        Key::Numpad9 => assert(s[89] == key),
        Key::NumpadAdd => assert(s[90] == key),
        Key::NumpadSub => assert(s[91] == key),
        Key::NumpadMul => assert(s[92] == key),
        Key::NumpadDiv => assert(s[93] == key),
        Key::NumpadDecimal => assert(s[94] == key),
        Key::NumpadEnter => assert(s[95] == key),
        Key::Minus => assert(s[96] == key),
        Key::Equal => assert(s[97] == key),
        Key::BracketLeft => assert(s[98] == key),
        Key::BracketRight => assert(s[99] == key),
        Key::Backslash => assert(s[100] == key),
        Key::Semicolon => assert(s[101] == key),
        Key::Quote => assert(s[102] == key),
        Key::Backquote => assert(s[103] == key),
        Key::Comma => assert(s[104] == key),
        Key::Period => assert(s[105] == key),
        Key::Slash => assert(s[106] == key),
        Key::PrintScreen => assert(s[107] == key),
        Key::ScrollLock => assert(s[108] == key),
        Key::Pause => assert(s[109] == key),
        Key::NumLock => assert(s[110] == key),
        Key::Menu => assert(s[111] == key),
    }
}

/// The canonical list has 112 entries, holds every key, and holds none twice.
pub proof fn lemma_all_keys_complete_and_distinct()
    ensures
        all_keys_spec().len() == 112,
        forall|k: Key| #[trigger] all_keys_spec().contains(k),
        forall|i: int| 0 <= i < 112 ==> key_index(#[trigger] all_keys_spec()[i]) == i,
        forall|i: int, j: int|
            0 <= i < j < 112 ==> #[trigger] all_keys_spec()[i] != #[trigger] all_keys_spec()[j],
{
    let s = all_keys_spec();
    assert forall|k: Key| #[trigger] s.contains(k) by {
        lemma_key_index(k);
    }
    assert(key_index(s[0]) == 0);
    assert(key_index(s[1]) == 1);
    assert(key_index(s[2]) == 2);
    assert(key_index(s[3]) == 3);
    assert(key_index(s[4]) == 4);
    assert(key_index(s[5]) == 5);
    assert(key_index(s[6]) == 6);
    assert(key_index(s[7]) == 7);
    assert(key_index(s[8]) == 8);
    assert(key_index(s[9]) == 9);
    assert(key_index(s[10]) == 10);
    assert(key_index(s[11]) == 11);
    assert(key_index(s[12]) == 12);
    assert(key_index(s[13]) == 13);
    assert(key_index(s[14]) == 14);
    assert(key_index(s[15]) == 15);
    assert(key_index(s[16]) == 16);
    assert(key_index(s[17]) == 17);
    assert(key_index(s[18]) == 18);
    assert(key_index(s[19]) == 19);
    assert(key_index(s[20]) == 20);
    assert(key_index(s[21]) == 21);
    assert(key_index(s[22]) == 22);
    assert(key_index(s[23]) == 23);
    assert(key_index(s[24]) == 24);
    assert(key_index(s[25]) == 25);
    assert(key_index(s[26]) == 26);
    assert(key_index(s[27]) == 27);
    assert(key_index(s[28]) == 28);
    assert(key_index(s[29]) == 29);
    assert(key_index(s[30]) == 30);
    assert(key_index(s[31]) == 31);
    assert(key_index(s[32]) == 32);
    assert(key_index(s[33]) == 33);
    assert(key_index(s[34]) == 34);
    assert(key_index(s[35]) == 35);
    assert(key_index(s[36]) == 36);
    assert(key_index(s[37]) == 37);
    assert(key_index(s[38]) == 38);
    assert(key_index(s[39]) == 39);
    assert(key_index(s[40]) == 40);
    assert(key_index(s[41]) == 41);
    assert(key_index(s[42]) == 42);
    assert(key_index(s[43]) == 43);
    assert(key_index(s[44]) == 44);
    assert(key_index(s[45]) == 45);
    assert(key_index(s[46]) == 46);
    assert(key_index(s[47]) == 47);
    assert(key_index(s[48]) == 48);
    assert(key_index(s[49]) == 49);
    assert(key_index(s[50]) == 50);
    assert(key_index(s[51]) == 51);
    assert(key_index(s[52]) == 52);
    assert(key_index(s[53]) == 53);
    assert(key_index(s[54]) == 54);
    assert(key_index(s[55]) == 55);
    assert(key_index(s[56]) == 56);
    assert(key_index(s[57]) == 57);
    assert(key_index(s[58]) == 58);
    assert(key_index(s[59]) == 59);
    assert(key_index(s[60]) == 60);
    assert(key_index(s[61]) == 61);
    assert(key_index(s[62]) == 62);
    assert(key_index(s[63]) == 63);
    assert(key_index(s[64]) == 64);
    assert(key_index(s[65]) == 65);
    assert(key_index(s[66]) == 66);
    assert(key_index(s[67]) == 67);
    assert(key_index(s[68]) == 68);
    assert(key_index(s[69]) == 69);
    assert(key_index(s[70]) == 70);
    assert(key_index(s[71]) == 71);
    assert(key_index(s[72]) == 72);
    assert(key_index(s[73]) == 73);
    assert(key_index(s[74]) == 74);
    assert(key_index(s[75]) == 75);
    assert(key_index(s[76]) == 76);
    assert(key_index(s[77]) == 77);
    assert(key_index(s[78]) == 78);
    assert(key_index(s[79]) == 79);
    assert(key_index(s[80]) == 80);
    assert(key_index(s[81]) == 81);
    assert(key_index(s[82]) == 82);
    assert(key_index(s[83]) == 83);
    assert(key_index(s[84]) == 84);
    assert(key_index(s[85]) == 85);
    assert(key_index(s[86]) == 86);
    assert(key_index(s[87]) == 87);
    assert(key_index(s[88]) == 88);
    assert(key_index(s[89]) == 89);
    assert(key_index(s[90]) == 90);
    assert(key_index(s[91]) == 91);
    assert(key_index(s[92]) == 92);
    assert(key_index(s[93]) == 93);
    assert(key_index(s[94]) == 94);
    assert(key_index(s[95]) == 95);
    assert(key_index(s[96]) == 96);
    assert(key_index(s[97]) == 97);
    assert(key_index(s[98]) == 98);
    assert(key_index(s[99]) == 99);
    assert(key_index(s[100]) == 100);
    assert(key_index(s[101]) == 101);
    assert(key_index(s[102]) == 102);
    assert(key_index(s[103]) == 103);
    assert(key_index(s[104]) == 104);
    assert(key_index(s[105]) == 105);
    assert(key_index(s[106]) == 106);
    assert(key_index(s[107]) == 107);
    assert(key_index(s[108]) == 108);
    assert(key_index(s[109]) == 109);
    assert(key_index(s[110]) == 110);
    assert(key_index(s[111]) == 111);
    assert forall|i: int| 0 <= i < 112 implies key_index(#[trigger] s[i]) == i by {
    }
}

impl Key {
    /// `CONTROL`, `SHIFT`, `ALT` and `META` are the modifiers; everything else is not.
    pub open spec fn is_modifier_spec(self) -> bool {
        match self {
            Key::Control | Key::Shift | Key::Alt | Key::Meta => true,
            _ => false,
        }
    }

    pub fn is_modifier(&self) -> (r: bool)
        ensures
            r == self.is_modifier_spec(),
    {
        match self {
            Key::Control | Key::Shift | Key::Alt | Key::Meta => true,
            _ => false,
        }
    }

    /// The canonical wire name, e.g. `PAGEUP` or `NUMPAD_ADD`.
    pub open spec fn wire_name(self) -> Seq<char> {
        match self {
            Key::Control => "CONTROL"@,
            Key::Shift => "SHIFT"@,
            Key::Alt => "ALT"@,
            Key::Meta => "META"@,
            Key::A => "A"@,
            Key::B => "B"@,
            Key::C => "C"@,
            Key::D => "D"@,
            Key::E => "E"@,
            Key::F => "F"@,
            Key::G => "G"@,
            Key::H => "H"@,
            Key::I => "I"@,
            Key::J => "J"@,
            Key::K => "K"@,
            Key::L => "L"@,
            Key::M => "M"@,
            Key::N => "N"@,
            Key::O => "O"@,
            Key::P => "P"@,
            Key::Q => "Q"@,
            Key::R => "R"@,
            Key::S => "S"@,
            Key::T => "T"@,
            Key::U => "U"@,
            Key::V => "V"@,
            Key::W => "W"@,
            Key::X => "X"@,
            Key::Y => "Y"@,
            Key::Z => "Z"@,
            Key::Digit0 => "DIGIT0"@,
            Key::Digit1 => "DIGIT1"@,
            Key::Digit2 => "DIGIT2"@,
            Key::Digit3 => "DIGIT3"@,
            Key::Digit4 => "DIGIT4"@,
            Key::Digit5 => "DIGIT5"@,
            Key::Digit6 => "DIGIT6"@,
            Key::Digit7 => "DIGIT7"@,
            Key::Digit8 => "DIGIT8"@,
            Key::Digit9 => "DIGIT9"@,
            Key::F1 => "F1"@,
            Key::F2 => "F2"@,
            Key::F3 => "F3"@,
            Key::F4 => "F4"@,
            Key::F5 => "F5"@,
            Key::F6 => "F6"@,
            Key::F7 => "F7"@,
            Key::F8 => "F8"@,
            Key::F9 => "F9"@,
            Key::F10 => "F10"@,
            Key::F11 => "F11"@,
            Key::F12 => "F12"@,
            Key::F13 => "F13"@,
            Key::F14 => "F14"@,
            Key::F15 => "F15"@,
            Key::F16 => "F16"@,
            Key::F17 => "F17"@,
            Key::F18 => "F18"@,
            Key::F19 => "F19"@,
            Key::F20 => "F20"@,
            Key::F21 => "F21"@,
            Key::F22 => "F22"@,
            Key::F23 => "F23"@,
            Key::F24 => "F24"@,
            Key::Escape => "ESCAPE"@,
            Key::Tab => "TAB"@,
            Key::CapsLock => "CAPSLOCK"@,
            Key::Space => "SPACE"@,
            Key::Enter => "ENTER"@,
            Key::Backspace => "BACKSPACE"@,
            Key::Delete => "DELETE"@,
            Key::Insert => "INSERT"@,
            Key::Home => "HOME"@,
            Key::End => "END"@,
            Key::PageUp => "PAGEUP"@,
            Key::PageDown => "PAGEDOWN"@,
            Key::Left => "LEFT"@,
            Key::Right => "RIGHT"@,
            Key::Up => "UP"@,
            Key::Down => "DOWN"@,
            Key::Numpad0 => "NUMPAD0"@,
            Key::Numpad1 => "NUMPAD1"@,
            Key::Numpad2 => "NUMPAD2"@,
            Key::Numpad3 => "NUMPAD3"@,
            Key::Numpad4 => "NUMPAD4"@,
            Key::Numpad5 => "NUMPAD5"@,
            Key::Numpad6 => "NUMPAD6"@,
            Key::Numpad7 => "NUMPAD7"@,
            Key::Numpad8 => "NUMPAD8"@,
            Key::Numpad9 => "NUMPAD9"@,
            Key::NumpadAdd => "NUMPAD_ADD"@,
            Key::NumpadSub => "NUMPAD_SUB"@,
            Key::NumpadMul => "NUMPAD_MUL"@,
            Key::NumpadDiv => "NUMPAD_DIV"@,
            Key::NumpadDecimal => "NUMPAD_DECIMAL"@,
            Key::NumpadEnter => "NUMPAD_ENTER"@,
            Key::Minus => "MINUS"@,
            Key::Equal => "EQUAL"@,
            Key::BracketLeft => "BRACKET_LEFT"@,
            Key::BracketRight => "BRACKET_RIGHT"@,
            Key::Backslash => "BACKSLASH"@,
            Key::Semicolon => "SEMICOLON"@,
            Key::Quote => "QUOTE"@,
            Key::Backquote => "BACKQUOTE"@,
            Key::Comma => "COMMA"@,
            Key::Period => "PERIOD"@,
            Key::Slash => "SLASH"@,
            Key::PrintScreen => "PRINTSCREEN"@,
            Key::ScrollLock => "SCROLLLOCK"@,
            Key::Pause => "PAUSE"@,
            Key::NumLock => "NUMLOCK"@,
            Key::Menu => "MENU"@,
        }
    }

    pub fn as_str(&self) -> (r: &'static str)
        ensures
            r@ == self.wire_name(),
    {
        match self {
            Key::Control => "CONTROL",
            Key::Shift => "SHIFT",
            Key::Alt => "ALT",
            Key::Meta => "META",
            Key::A => "A",
            Key::B => "B",
            Key::C => "C",
            Key::D => "D",
            Key::E => "E",
            Key::F => "F",
            Key::G => "G",
            Key::H => "H",
            Key::I => "I",
            Key::J => "J",
            Key::K => "K",
            Key::L => "L",
            Key::M => "M",
            Key::N => "N",
            Key::O => "O",
            Key::P => "P",
            Key::Q => "Q",
            Key::R => "R",
            Key::S => "S",
            Key::T => "T",
            Key::U => "U",
            Key::V => "V",
            Key::W => "W",
            Key::X => "X",
            Key::Y => "Y",
            Key::Z => "Z",
            Key::Digit0 => "DIGIT0",
            Key::Digit1 => "DIGIT1",
            Key::Digit2 => "DIGIT2",
            Key::Digit3 => "DIGIT3",
            Key::Digit4 => "DIGIT4",
            Key::Digit5 => "DIGIT5",
            Key::Digit6 => "DIGIT6",
            Key::Digit7 => "DIGIT7",
            Key::Digit8 => "DIGIT8",
            Key::Digit9 => "DIGIT9",
            Key::F1 => "F1",
            Key::F2 => "F2",
            Key::F3 => "F3",
            Key::F4 => "F4",
            Key::F5 => "F5",
            Key::F6 => "F6",
            Key::F7 => "F7",
            Key::F8 => "F8",
            Key::F9 => "F9",
            Key::F10 => "F10",
            Key::F11 => "F11",
            Key::F12 => "F12",
            Key::F13 => "F13",
            Key::F14 => "F14",
            Key::F15 => "F15",
            Key::F16 => "F16",
            Key::F17 => "F17",
            Key::F18 => "F18",
            Key::F19 => "F19",
            Key::F20 => "F20",
            Key::F21 => "F21",
            Key::F22 => "F22",
            Key::F23 => "F23",
            Key::F24 => "F24",
            Key::Escape => "ESCAPE",
            Key::Tab => "TAB",
            Key::CapsLock => "CAPSLOCK",
            Key::Space => "SPACE",
            Key::Enter => "ENTER",
            Key::Backspace => "BACKSPACE",
            Key::Delete => "DELETE",
            Key::Insert => "INSERT",
            Key::Home => "HOME",
            Key::End => "END",
            Key::PageUp => "PAGEUP",
            Key::PageDown => "PAGEDOWN",
            Key::Left => "LEFT",
            Key::Right => "RIGHT",
            Key::Up => "UP",
            Key::Down => "DOWN",
            Key::Numpad0 => "NUMPAD0",
            Key::Numpad1 => "NUMPAD1",
            Key::Numpad2 => "NUMPAD2",
            Key::Numpad3 => "NUMPAD3",
            Key::Numpad4 => "NUMPAD4",
            Key::Numpad5 => "NUMPAD5",
            Key::Numpad6 => "NUMPAD6",
            Key::Numpad7 => "NUMPAD7",
            Key::Numpad8 => "NUMPAD8",
            Key::Numpad9 => "NUMPAD9",
            Key::NumpadAdd => "NUMPAD_ADD",
            Key::NumpadSub => "NUMPAD_SUB",
            Key::NumpadMul => "NUMPAD_MUL",
            Key::NumpadDiv => "NUMPAD_DIV",
            Key::NumpadDecimal => "NUMPAD_DECIMAL",
            Key::NumpadEnter => "NUMPAD_ENTER",
            Key::Minus => "MINUS",
            Key::Equal => "EQUAL",
            Key::BracketLeft => "BRACKET_LEFT",
            Key::BracketRight => "BRACKET_RIGHT",
            Key::Backslash => "BACKSLASH",
            Key::Semicolon => "SEMICOLON",
            Key::Quote => "QUOTE",
            Key::Backquote => "BACKQUOTE",
            Key::Comma => "COMMA",
            Key::Period => "PERIOD",
            Key::Slash => "SLASH",
            Key::PrintScreen => "PRINTSCREEN",
            Key::ScrollLock => "SCROLLLOCK",
            Key::Pause => "PAUSE",
            Key::NumLock => "NUMLOCK",
            Key::Menu => "MENU",
        }
    }

    /// The variant's own name, e.g. `PageUp`, as `{:?}` prints it.
    pub open spec fn variant_name(self) -> Seq<char> {
        match self {
            Key::Control => "Control"@,
            Key::Shift => "Shift"@,
            Key::Alt => "Alt"@,
            Key::Meta => "Meta"@,
            Key::A => "A"@,
            Key::B => "B"@,
            Key::C => "C"@,
            Key::D => "D"@,
            Key::E => "E"@,
            Key::F => "F"@,
            Key::G => "G"@,
            Key::H => "H"@,
            Key::I => "I"@,
            Key::J => "J"@,
            Key::K => "K"@,
            Key::L => "L"@,
            Key::M => "M"@,
            Key::N => "N"@,
            Key::O => "O"@,
            Key::P => "P"@,
            Key::Q => "Q"@,
            Key::R => "R"@,
            Key::S => "S"@,
            Key::T => "T"@,
            Key::U => "U"@,
            Key::V => "V"@,
            Key::W => "W"@,
            Key::X => "X"@,
            Key::Y => "Y"@,
            Key::Z => "Z"@,
            Key::Digit0 => "Digit0"@,
            Key::Digit1 => "Digit1"@,
            Key::Digit2 => "Digit2"@,
            Key::Digit3 => "Digit3"@,
            Key::Digit4 => "Digit4"@,
            Key::Digit5 => "Digit5"@,
            Key::Digit6 => "Digit6"@,
            Key::Digit7 => "Digit7"@,
            Key::Digit8 => "Digit8"@,
            Key::Digit9 => "Digit9"@,
            Key::F1 => "F1"@,
            Key::F2 => "F2"@,
            Key::F3 => "F3"@,
            Key::F4 => "F4"@,
            Key::F5 => "F5"@,
            Key::F6 => "F6"@,
            Key::F7 => "F7"@,
            Key::F8 => "F8"@,
            Key::F9 => "F9"@,
            Key::F10 => "F10"@,
            Key::F11 => "F11"@,
            Key::F12 => "F12"@,
            Key::F13 => "F13"@,
            Key::F14 => "F14"@,
            Key::F15 => "F15"@,
            Key::F16 => "F16"@,
            Key::F17 => "F17"@,
            Key::F18 => "F18"@,
            Key::F19 => "F19"@,
            Key::F20 => "F20"@,
            Key::F21 => "F21"@,
            Key::F22 => "F22"@,
            Key::F23 => "F23"@,
            Key::F24 => "F24"@,
            Key::Escape => "Escape"@,
            Key::Tab => "Tab"@,
            Key::CapsLock => "CapsLock"@,
            Key::Space => "Space"@,
            Key::Enter => "Enter"@,
            Key::Backspace => "Backspace"@,
            Key::Delete => "Delete"@,
            Key::Insert => "Insert"@,
            Key::Home => "Home"@,
            Key::End => "End"@,
            Key::PageUp => "PageUp"@,
            Key::PageDown => "PageDown"@,
            Key::Left => "Left"@,
            Key::Right => "Right"@,
            Key::Up => "Up"@,
            Key::Down => "Down"@,
            Key::Numpad0 => "Numpad0"@,
            Key::Numpad1 => "Numpad1"@,
            Key::Numpad2 => "Numpad2"@,
            Key::Numpad3 => "Numpad3"@,
            Key::Numpad4 => "Numpad4"@,
            Key::Numpad5 => "Numpad5"@,
            Key::Numpad6 => "Numpad6"@,
            Key::Numpad7 => "Numpad7"@,
            Key::Numpad8 => "Numpad8"@,
            Key::Numpad9 => "Numpad9"@,
            Key::NumpadAdd => "NumpadAdd"@,
            Key::NumpadSub => "NumpadSub"@,
            Key::NumpadMul => "NumpadMul"@,
            Key::NumpadDiv => "NumpadDiv"@,
            Key::NumpadDecimal => "NumpadDecimal"@,
            Key::NumpadEnter => "NumpadEnter"@,
            Key::Minus => "Minus"@,
            Key::Equal => "Equal"@,
            Key::BracketLeft => "BracketLeft"@,
            Key::BracketRight => "BracketRight"@,
            Key::Backslash => "Backslash"@,
            Key::Semicolon => "Semicolon"@,
            Key::Quote => "Quote"@,
            Key::Backquote => "Backquote"@,
            Key::Comma => "Comma"@,
            Key::Period => "Period"@,
            Key::Slash => "Slash"@,
            Key::PrintScreen => "PrintScreen"@,
            Key::ScrollLock => "ScrollLock"@,
            Key::Pause => "Pause"@,
            Key::NumLock => "NumLock"@,
            Key::Menu => "Menu"@,
        }
    }

    pub fn debug_name(&self) -> (r: &'static str)
        ensures
            r@ == self.variant_name(),
    {
        match self {
            Key::Control => "Control",
            Key::Shift => "Shift",
            Key::Alt => "Alt",
            Key::Meta => "Meta",
            Key::A => "A",
            Key::B => "B",
            Key::C => "C",
            Key::D => "D",
            Key::E => "E",
            Key::F => "F",
            Key::G => "G",
            Key::H => "H",
            Key::I => "I",
            Key::J => "J",
            Key::K => "K",
            Key::L => "L",
            Key::M => "M",
            Key::N => "N",
            Key::O => "O",
            Key::P => "P",
            Key::Q => "Q",
            Key::R => "R",
            Key::S => "S",
            Key::T => "T",
            Key::U => "U",
            Key::V => "V",
            Key::W => "W",
            Key::X => "X",
            Key::Y => "Y",
            Key::Z => "Z",
            Key::Digit0 => "Digit0",
            Key::Digit1 => "Digit1",
            Key::Digit2 => "Digit2",
            Key::Digit3 => "Digit3",
            Key::Digit4 => "Digit4",
            Key::Digit5 => "Digit5",
            Key::Digit6 => "Digit6",
            Key::Digit7 => "Digit7",
            Key::Digit8 => "Digit8",
            Key::Digit9 => "Digit9",
            Key::F1 => "F1",
            Key::F2 => "F2",
            Key::F3 => "F3",
            Key::F4 => "F4",
            Key::F5 => "F5",
            Key::F6 => "F6",
            Key::F7 => "F7",
            Key::F8 => "F8",
            Key::F9 => "F9",
            Key::F10 => "F10",
            Key::F11 => "F11",
            Key::F12 => "F12",
            Key::F13 => "F13",
            Key::F14 => "F14",
            Key::F15 => "F15",
            Key::F16 => "F16",
            Key::F17 => "F17",
            Key::F18 => "F18",
            Key::F19 => "F19",
            Key::F20 => "F20",
            Key::F21 => "F21",
            Key::F22 => "F22",
            Key::F23 => "F23",
            Key::F24 => "F24",
            Key::Escape => "Escape",
            Key::Tab => "Tab",
            Key::CapsLock => "CapsLock",
            Key::Space => "Space",
            Key::Enter => "Enter",
            Key::Backspace => "Backspace",
            Key::Delete => "Delete",
            Key::Insert => "Insert",
            Key::Home => "Home",
            Key::End => "End",
            Key::PageUp => "PageUp",
            Key::PageDown => "PageDown",
            Key::Left => "Left",
            Key::Right => "Right",
            Key::Up => "Up",
            Key::Down => "Down",
            Key::Numpad0 => "Numpad0",
            Key::Numpad1 => "Numpad1",
            Key::Numpad2 => "Numpad2",
            Key::Numpad3 => "Numpad3",
            Key::Numpad4 => "Numpad4",
            Key::Numpad5 => "Numpad5",
            Key::Numpad6 => "Numpad6",
            Key::Numpad7 => "Numpad7",
            Key::Numpad8 => "Numpad8",
            Key::Numpad9 => "Numpad9",
            Key::NumpadAdd => "NumpadAdd",
            Key::NumpadSub => "NumpadSub",
            Key::NumpadMul => "NumpadMul",
            Key::NumpadDiv => "NumpadDiv",
            Key::NumpadDecimal => "NumpadDecimal",
            Key::NumpadEnter => "NumpadEnter",
            Key::Minus => "Minus",
            Key::Equal => "Equal",
            Key::BracketLeft => "BracketLeft",
            Key::BracketRight => "BracketRight",
            Key::Backslash => "Backslash",
            Key::Semicolon => "Semicolon",
            Key::Quote => "Quote",
            Key::Backquote => "Backquote",
            Key::Comma => "Comma",
            Key::Period => "Period",
            Key::Slash => "Slash",
            Key::PrintScreen => "PrintScreen",
            Key::ScrollLock => "ScrollLock",
            Key::Pause => "Pause",
            Key::NumLock => "NumLock",
            Key::Menu => "Menu",
        }
    }

    /// The key with this wire name, if any.
    pub fn from_wire(wire: &str) -> (r: Option<Key>)
        ensures
            r matches Some(k) ==> k.wire_name() == wire@,
            r is None ==> forall|k: Key| #[trigger] k.wire_name() != wire@,
    {
        let all = Key::all();
        let mut i: usize = 0;
        while i < all.len()
            invariant
                all@ == all_keys_spec(),
                i <= all@.len(),
                forall|j: int| 0 <= j < i ==> (#[trigger] all@[j]).wire_name() != wire@,
            decreases all@.len() - i,
        {
            let candidate = all[i];
            if crate::text::str_eq(candidate.as_str(), wire) {
                return Some(candidate);
            }
            i = i + 1;
        }
        proof {
            assert forall|k: Key| #[trigger] k.wire_name() != wire@ by {
                lemma_key_index(k);
                assert(all@[key_index(k) as int] == k);
            }
        }
        None
    }

    /// Every canonical key, once each.
    pub fn all() -> (v: Vec<Key>)
        ensures
            v@ == all_keys_spec(),
    {
        let mut v: Vec<Key> = Vec::new();
        let mut i: usize = 0;
        while i < 112
            invariant
                i <= 112,
                v@ =~= all_keys_spec().take(i as int),
            decreases 112 - i,
        {
            v.push(key_at_exec(i));
            i = i + 1;
        }
        assert(v@ =~= all_keys_spec());
        v
    }
}

} // verus!
