//! What the uinput backend emits and what it says when it cannot: the key events of a combo and
//! of a media key, and the refusals the control panel shows verbatim.
use vstd::prelude::*;

use super::keymap::{key_code, key_code_spec, media_code, media_code_spec};
use crate::input::{BackendCapabilities, InputError};
use crate::protocol::input::{Key, MediaCommand};
use crate::text::concat2;

verus! {

/// The name the virtual device advertises, in `/proc/bus/input/devices` and in logs.
pub const DEVICE_NAME: &'static str = "MuxDeck virtual keyboard";

/// How long to wait after creating the device before the first event: udev has to notice the
/// device and the compositor has to open it, and events sent before that reach nobody.
pub const SETTLE_MS: u64 = 100;

/// One `EV_KEY` event: a key code and 1 for a press, 0 for a release.
#[derive(Debug, Clone, Copy, PartialEq, Eq, Structural)]
pub struct KeyEvent {
    pub code: u16,
    pub value: i32,
}

pub fn key_event(code: u16, pressed: bool) -> (r: KeyEvent)
    ensures
        r == (KeyEvent {
            code,
            value: if pressed {
                1i32
            } else {
                0i32
            },
        }),
{
    KeyEvent {
        code,
        value: if pressed {
            1
        } else {
            0
        },
    }
}

/// The two batches of a combo: every key pressed in listed order, then every key released in
/// reverse, so the modifier goes down first and comes up last.
pub struct ComboBatches {
    pub press: Vec<KeyEvent>,
    pub release: Vec<KeyEvent>,
}

pub fn combo_events(keys: &[Key]) -> (r: ComboBatches)
    ensures
        r.press@.len() == keys@.len(),
        r.release@.len() == keys@.len(),
        forall|i: int|
            0 <= i < keys@.len() ==> #[trigger] r.press@[i] == (KeyEvent {
                code: key_code_spec(keys@[i]),
                value: 1,
            }),
        forall|i: int|
            0 <= i < keys@.len() ==> #[trigger] r.release@[i] == (KeyEvent {
                code: key_code_spec(keys@[keys@.len() - 1 - i]),
                value: 0,
            }),
{
    let n = keys.len();
    let mut press: Vec<KeyEvent> = Vec::new();
    let mut i: usize = 0;
    while i < n
        invariant
            n == keys@.len(),
            i <= n,
            press@.len() == i,
            forall|j: int|
                0 <= j < i ==> #[trigger] press@[j] == (KeyEvent {
                    code: key_code_spec(keys@[j]),
                    value: 1,
                }),
        decreases n - i,
    {
        press.push(key_event(key_code(keys[i]), true));
        i = i + 1;
    }
    let mut release: Vec<KeyEvent> = Vec::new();
    let mut k: usize = 0;
    while k < n
        invariant
            n == keys@.len(),
            k <= n,
            release@.len() == k,
            forall|j: int|
                0 <= j < k ==> #[trigger] release@[j] == (KeyEvent {
                    code: key_code_spec(keys@[n - 1 - j]),
                    value: 0,
                }),
        decreases n - k,
    {
        release.push(key_event(key_code(keys[n - 1 - k]), false));
        k = k + 1;
    }
    ComboBatches { press, release }
}

/// A media key: one press and one release of its code, in a single batch.
pub fn media_events(command: MediaCommand) -> (r: Vec<KeyEvent>)
    ensures
        r@ == seq![
            KeyEvent { code: media_code_spec(command), value: 1 },
            KeyEvent { code: media_code_spec(command), value: 0 },
        ],
{
    let code = media_code(command);
    let mut v: Vec<KeyEvent> = Vec::new();
    v.push(key_event(code, true));
    v.push(key_event(code, false));
    assert(v@ =~= seq![
        KeyEvent { code: media_code_spec(command), value: 1 },
        KeyEvent { code: media_code_spec(command), value: 0 },
    ]);
    v
}

/// Why text is refused: uinput speaks key codes, not characters, so what a key produces
/// depends on the active layout.
pub open spec fn text_refusal_message() -> Seq<char> {
    "typing text is not supported on Linux: the kernel input layer works in key codes, not characters, so what a key produces depends on the active layout. Use a key combination instead."@
}

/// Text is refused rather than half-working; `capabilities` reports it so a deck can grey the
/// buttons out instead.
pub fn text_refusal() -> (r: InputError)
    ensures
        r is Unsupported,
        r.message_spec() == text_refusal_message(),
{
    InputError::Unsupported(
        String::from_str(
            "typing text is not supported on Linux: the kernel input layer works in key codes, not characters, so what a key produces depends on the active layout. Use a key combination instead.",
        ),
    )
}

/// The device is a keyboard; pointer input would need a second device with its own axes.
pub fn mouse_refusal() -> (r: InputError)
    ensures
        r is Unsupported,
        r.message_spec() == "mouse control is not available on Linux yet"@,
{
    InputError::Unsupported(String::from_str("mouse control is not available on Linux yet"))
}

/// What an emit is answered with when no device exists and no reason was recorded.
pub fn unavailable() -> (r: InputError)
    ensures
        r is NotPermitted,
        r.message_spec() == "the virtual keyboard is unavailable"@,
{
    InputError::NotPermitted(String::from_str("the virtual keyboard is unavailable"))
}

/// How opening `/dev/uinput` failed, as far as the remedy depends on it.
#[derive(Debug, Clone, Copy, PartialEq, Eq, Structural)]
pub enum OpenFailure {
    PermissionDenied,
    NotFound,
    Other,
}

pub open spec fn permission_message() -> Seq<char> {
    "MuxDeck cannot open /dev/uinput. Add your user to the 'input' group and log out and back in:\n\n    sudo usermod -aG input $USER\n\nIf that is not enough, install the udev rule printed by `muxdeckd service install`."@
}

pub open spec fn missing_module_message() -> Seq<char> {
    "/dev/uinput does not exist. Load the kernel module with `sudo modprobe uinput`, and add 'uinput' to /etc/modules-load.d/ to have it loaded at boot."@
}

/// Turns a failure to open `/dev/uinput` into something the user can act on; `detail` is the
/// system's wording of the error. The permission case is by far the most common one.
pub fn describe_open_failure(kind: OpenFailure, detail: &str) -> (r: InputError)
    ensures
        r is NotPermitted,
        r.message_spec() == match kind {
            OpenFailure::PermissionDenied => permission_message(),
            OpenFailure::NotFound => missing_module_message(),
            OpenFailure::Other => "could not open /dev/uinput: "@ + detail@,
        },
{
    match kind {
        OpenFailure::PermissionDenied => InputError::NotPermitted(
            String::from_str(
                "MuxDeck cannot open /dev/uinput. Add your user to the 'input' group and log out and back in:\n\n    sudo usermod -aG input $USER\n\nIf that is not enough, install the udev rule printed by `muxdeckd service install`.",
            ),
        ),
        OpenFailure::NotFound => InputError::NotPermitted(
            String::from_str(
                "/dev/uinput does not exist. Load the kernel module with `sudo modprobe uinput`, and add 'uinput' to /etc/modules-load.d/ to have it loaded at boot.",
            ),
        ),
        OpenFailure::Other => InputError::NotPermitted(
            concat2("could not open /dev/uinput: ", detail),
        ),
    }
}

/// Keys and media keys only: no Unicode text, no pointer.
pub fn linux_capabilities() -> (r: BackendCapabilities)
    ensures
        !r.text_unicode && r.media_keys && !r.mouse,
{
    BackendCapabilities { text_unicode: false, media_keys: true, mouse: false }
}

/// The backend's short name.
pub fn linux_backend_name() -> (r: &'static str)
    ensures
        r@ == "uinput"@,
{
    "uinput"
}

} // verus!
