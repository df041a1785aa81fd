//! What the `SendInput` backend sends: the keyboard events of a combo, of a string and of a
//! media key, and how a short batch is reported.
use vstd::prelude::*;

use super::keymap::{is_extended, is_extended_spec, media_key, media_key_spec, virtual_key, virtual_key_spec};
use super::{BackendCapabilities, InputError};
use crate::engine::service::utf16_units;
use crate::protocol::input::{Key, MediaCommand, MouseButton};
use crate::text::{concat3, decimal, decimal_spec};

verus! {

/// `KEYEVENTF_EXTENDEDKEY`.
pub const KEYEVENTF_EXTENDEDKEY: u32 = 0x0001;

/// `KEYEVENTF_KEYUP`.
pub const KEYEVENTF_KEYUP: u32 = 0x0002;

/// `KEYEVENTF_UNICODE`.
pub const KEYEVENTF_UNICODE: u32 = 0x0004;

/// The fields of a `KEYBDINPUT` that carry meaning; `time` and `dwExtraInfo` are always zero.
#[derive(Debug, Clone, Copy, PartialEq, Eq, Structural)]
pub struct KeyboardEvent {
    /// `wVk`.
    pub vk: u16,
    /// `wScan`.
    pub scan: u16,
    /// `dwFlags`.
    pub flags: u32,
}

pub fn raw_key_event(vk: u16, scan: u16, flags: u32) -> (r: KeyboardEvent)
    ensures
        r == (KeyboardEvent { vk, scan, flags }),
{
    KeyboardEvent { vk, scan, flags }
}

/// The flags of a key event: extended for the keys that would otherwise arrive as their numpad
/// twins, and key-up for a release.
pub open spec fn key_flags(key: Key, up: bool) -> u32 {
    (if is_extended_spec(key) {
        KEYEVENTF_EXTENDEDKEY
    } else {
        0u32
    }) | (if up {
        KEYEVENTF_KEYUP
    } else {
        0u32
    })
}

/// The event for pressing or releasing `key`, carrying both its virtual key and its scancode
/// `scan` (what `MapVirtualKeyW` gives against the current layout). Ordinary applications read
/// the virtual key; games and raw-input readers read the scancode; so both are filled in.
pub fn key_event(key: Key, scan: u16, up: bool) -> (r: KeyboardEvent)
    ensures
        r == (KeyboardEvent { vk: virtual_key_spec(key), scan, flags: key_flags(key, up) }),
{
    let vk = virtual_key(key);
    let extended: u32 = if is_extended(key) {
        KEYEVENTF_EXTENDEDKEY
    } else {
        0
    };
    let release: u32 = if up {
        KEYEVENTF_KEYUP
    } else {
        0
    };
    raw_key_event(vk, scan, extended | release)
}

/// One UTF-16 code unit, delivered as a character rather than a key: the virtual key must be
/// zero and the unit travels in the scancode field.
pub fn unicode_event(unit: u16, up: bool) -> (r: KeyboardEvent)
    ensures
        r == (KeyboardEvent {
            vk: 0,
            scan: unit,
            flags: if up {
                KEYEVENTF_UNICODE | KEYEVENTF_KEYUP
            } else {
                KEYEVENTF_UNICODE
            },
        }),
{
    let flags: u32 = if up {
        KEYEVENTF_UNICODE | KEYEVENTF_KEYUP
    } else {
        KEYEVENTF_UNICODE
    };
    raw_key_event(0, unit, flags)
}

/// The two batches of a combo: every key pressed in listed order, then every key released in
/// reverse. `scans[i]` is the scancode of `keys[i]`.
pub struct ComboEvents {
    pub press: Vec<KeyboardEvent>,
    pub release: Vec<KeyboardEvent>,
}

pub fn combo_events(keys: &[Key], scans: &[u16]) -> (r: ComboEvents)
    requires
        scans@.len() == keys@.len(),
    ensures
        r.press@.len() == keys@.len(),
        r.release@.len() == keys@.len(),
        forall|i: int|
            0 <= i < keys@.len() ==> #[trigger] r.press@[i] == (KeyboardEvent {
                vk: virtual_key_spec(keys@[i]),
                scan: scans@[i],
                flags: key_flags(keys@[i], false),
            }),
        forall|i: int|
            0 <= i < keys@.len() ==> #[trigger] r.release@[i] == (KeyboardEvent {
                vk: virtual_key_spec(keys@[keys@.len() - 1 - i]),
                scan: scans@[keys@.len() - 1 - i],
                flags: key_flags(keys@[keys@.len() - 1 - i], true),
            }),
{
    let n = keys.len();
    let mut press: Vec<KeyboardEvent> = Vec::new();
    let mut i: usize = 0;
    while i < n
        invariant
            n == keys@.len(),
            scans@.len() == n,
            i <= n,
            press@.len() == i,
            forall|j: int|
                0 <= j < i ==> #[trigger] press@[j] == (KeyboardEvent {
                    vk: virtual_key_spec(keys@[j]),
                    scan: scans@[j],
                    flags: key_flags(keys@[j], false),
                }),
        decreases n - i,
    {
        press.push(key_event(keys[i], scans[i], false));
        i = i + 1;
    }
    let mut release: Vec<KeyboardEvent> = Vec::new();
    let mut k: usize = 0;
    while k < n
        invariant
            n == keys@.len(),
            scans@.len() == n,
            k <= n,
            release@.len() == k,
            forall|j: int|
                0 <= j < k ==> #[trigger] release@[j] == (KeyboardEvent {
                    vk: virtual_key_spec(keys@[n - 1 - j]),
                    scan: scans@[n - 1 - j],
                    flags: key_flags(keys@[n - 1 - j], true),
                }),
        decreases n - k,
    {
        let at = n - 1 - k;
        release.push(key_event(keys[at], scans[at], true));
        k = k + 1;
    }
    ComboEvents { press, release }
}

/// The events that type `text`: a press and a release of each UTF-16 code unit, so a character
/// outside the Basic Multilingual Plane sends its surrogate pair as two units.
pub open spec fn text_events_spec(text: Seq<char>) -> Seq<KeyboardEvent>
    decreases text.len(),
{
    if text.len() == 0 {
        Seq::empty()
    } else {
        text_events_spec(text.drop_last()) + unit_events(utf16_units(text.last()))
    }
}

/// Down and up for each unit, in order.
pub open spec fn unit_events(units: Seq<u16>) -> Seq<KeyboardEvent>
    decreases units.len(),
{
    if units.len() == 0 {
        Seq::empty()
    } else {
        unit_events(units.drop_last()) + seq![
            KeyboardEvent { vk: 0, scan: units.last(), flags: KEYEVENTF_UNICODE },
            KeyboardEvent {
                vk: 0,
                scan: units.last(),
                flags: KEYEVENTF_UNICODE | KEYEVENTF_KEYUP,
            },
        ]
    }
}

fn push_unit_events(events: &mut Vec<KeyboardEvent>, unit: u16)
    ensures
        final(events)@ == old(events)@ + seq![
            KeyboardEvent { vk: 0, scan: unit, flags: KEYEVENTF_UNICODE },
            KeyboardEvent { vk: 0, scan: unit, flags: KEYEVENTF_UNICODE | KEYEVENTF_KEYUP },
        ],
{
    events.push(unicode_event(unit, false));
    events.push(unicode_event(unit, true));
    assert(final(events)@ =~= old(events)@ + seq![
        KeyboardEvent { vk: 0, scan: unit, flags: KEYEVENTF_UNICODE },
        KeyboardEvent { vk: 0, scan: unit, flags: KEYEVENTF_UNICODE | KEYEVENTF_KEYUP },
    ]);
}

pub fn text_events(text: &str) -> (r: Vec<KeyboardEvent>)
    ensures
        r@ == text_events_spec(text@),
{
    let n = text.unicode_len();
    let mut events: Vec<KeyboardEvent> = Vec::new();
    let mut i: usize = 0;
    while i < n
        invariant
            n == text@.len(),
            i <= n,
            events@ == text_events_spec(text@.take(i as int)),
        decreases n - i,
    {
        let c = text.get_char(i);
        let v = c as u32;
        assert(text@.take(i + 1).drop_last() =~= text@.take(i as int));
        assert(text@.take(i + 1).last() == c);
        let ghost before = events@;
        if v < 0x10000 {
            push_unit_events(&mut events, v as u16);
            proof {
                let units = utf16_units(c);
                assert(units.drop_last() =~= Seq::<u16>::empty());
                assert(unit_events(units.drop_last()) =~= Seq::<KeyboardEvent>::empty());
                assert(events@ =~= before + unit_events(units));
            }
        } else {
            let w = v - 0x10000;
            let high = (0xD800 + w / 0x400) as u16;
            let low = (0xDC00 + w % 0x400) as u16;
            push_unit_events(&mut events, high);
            push_unit_events(&mut events, low);
            proof {
                let units = utf16_units(c);
                assert(units.drop_last() =~= seq![high]);
                assert(units.drop_last().drop_last() =~= Seq::<u16>::empty());
                assert(unit_events(units.drop_last().drop_last()) =~= Seq::<KeyboardEvent>::empty());
                assert(unit_events(units.drop_last()) =~= seq![
                    KeyboardEvent { vk: 0, scan: high, flags: KEYEVENTF_UNICODE },
                    KeyboardEvent { vk: 0, scan: high, flags: KEYEVENTF_UNICODE | KEYEVENTF_KEYUP },
                ]);
                assert(events@ =~= before + unit_events(units));
            }
        }
        i = i + 1;
    }
    assert(text@.take(n as int) =~= text@);
    events
}

/// A media key is virtual-key only: a press and a release with no scancode.
pub fn media_events(command: MediaCommand) -> (r: Vec<KeyboardEvent>)
    ensures
        r@ == seq![
            KeyboardEvent { vk: media_key_spec(command), scan: 0, flags: 0 },
            KeyboardEvent { vk: media_key_spec(command), scan: 0, flags: KEYEVENTF_KEYUP },
        ],
{
    let vk = media_key(command);
    let mut v: Vec<KeyboardEvent> = Vec::new();
    v.push(raw_key_event(vk, 0, 0));
    v.push(raw_key_event(vk, 0, KEYEVENTF_KEYUP));
    assert(v@ =~= seq![
        KeyboardEvent { vk: media_key_spec(command), scan: 0, flags: 0 },
        KeyboardEvent { vk: media_key_spec(command), scan: 0, flags: KEYEVENTF_KEYUP },
    ]);
    v
}

/// The `MOUSEEVENTF_*` down and up flags of each button.
pub open spec fn button_flags_spec(button: MouseButton) -> (u32, u32) {
    match button {
        MouseButton::Left => (0x0002, 0x0004),
        MouseButton::Right => (0x0008, 0x0010),
        MouseButton::Middle => (0x0020, 0x0040),
    }
}

pub fn button_flags(button: MouseButton) -> (r: (u32, u32))
    ensures
        r == button_flags_spec(button),
{
    match button {
        MouseButton::Left => (0x0002, 0x0004),
        MouseButton::Right => (0x0008, 0x0010),
        MouseButton::Middle => (0x0020, 0x0040),
    }
}

/// What a short batch is reported as: `SendInput` inserted `inserted` of `total` events, and
/// `error` is the thread's last error as the system words it.
pub open spec fn short_batch_message(inserted: nat, total: nat, error: Seq<char>) -> Seq<char> {
    "SendInput accepted "@ + decimal_spec(inserted) + " of "@ + decimal_spec(total)
        + " events: "@ + error
        + ". A non-elevated daemon cannot inject into an elevated window."@
}

/// The outcome of sending a batch of `total` events of which `inserted` went in.
pub fn send_outcome(inserted: u32, total: usize, error: &str) -> (r: Result<(), InputError>)
    ensures
        r is Ok <==> inserted as nat == total as nat,
        r matches Err(e) ==> e is Rejected && e.message_spec() == short_batch_message(
            inserted as nat,
            total as nat,
            error@,
        ),
{
    if inserted as u64 == total as u64 {
        Ok(())
    } else {
        let head = concat3("SendInput accepted ", decimal(inserted as u64).as_str(), " of ");
        let mid = concat3(head.as_str(), decimal(total as u64).as_str(), " events: ");
        let message = concat3(
            mid.as_str(),
            error,
            ". A non-elevated daemon cannot inject into an elevated window.",
        );
        Err(InputError::Rejected(message))
    }
}

/// There is no permission to request: `SendInput` works for any interactive process.
pub fn windows_preflight() -> (r: Result<(), InputError>)
    ensures
        r is Ok,
{
    Ok(())
}

/// Everything is available through `SendInput`.
pub fn windows_capabilities() -> (r: BackendCapabilities)
    ensures
        r.text_unicode && r.media_keys && r.mouse,
{
    BackendCapabilities { text_unicode: true, media_keys: true, mouse: true }
}

/// The backend's short name.
pub fn windows_backend_name() -> (r: &'static str)
    ensures
        r@ == "sendinput"@,
{
    "sendinput"
}

/// Each button presses and releases with the `winuser.h` flags named for it:
/// `MOUSEEVENTF_LEFTDOWN`/`LEFTUP` (0x2, 0x4), `RIGHTDOWN`/`RIGHTUP` (0x8, 0x10) and
/// `MIDDLEDOWN`/`MIDDLEUP` (0x20, 0x40); in each pair the release is the press's next bit.
pub proof fn law_button_flags_are_the_winuser_flags(button: MouseButton)
    ensures
        button == MouseButton::Left ==> button_flags_spec(button) == (0x2u32, 0x4u32),
        button == MouseButton::Right ==> button_flags_spec(button) == (0x8u32, 0x10u32),
        button == MouseButton::Middle ==> button_flags_spec(button) == (0x20u32, 0x40u32),
        button_flags_spec(button).1 == 2 * button_flags_spec(button).0,
{
}

} // verus!
