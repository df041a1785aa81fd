//! What the Quartz Event Services backend decides before it posts anything: which key codes a
//! combo becomes and which modifier flags they carry, how text is cut into batches, and how a
//! media key transition is packed into an `NSSystemDefined` event.
use vstd::prelude::*;

use super::keymap::{key_code, key_code_spec, media_code, media_code_spec, modifier_flag, modifier_flag_spec};
use crate::input::{BackendCapabilities, InputError};
use crate::protocol::input::{Key, MediaCommand};
use crate::text::concat3;

verus! {

broadcast use Seq::lemma_flatten_push;

/// The most UTF-16 units attached to a single keyboard event. Long strings are unreliable in
/// practice, so text is posted in small batches.
pub const TEXT_CHUNK_UTF16: usize = 20;

/// `NSEventTypeSystemDefined`.
pub const SYSTEM_DEFINED: usize = 14;

/// `NX_SUBTYPE_AUX_CONTROL_BUTTONS`, the subtype the media keys travel under.
pub const AUX_CONTROL_BUTTONS: i16 = 8;

// ---------------------------------------------------------------------------------------------
// Key combos.
// ---------------------------------------------------------------------------------------------

/// Why a key cannot be pressed on a Mac.
pub open spec fn missing_key_message(key: Key) -> Seq<char> {
    "macOS has no "@ + key.variant_name()
        + " key. Apple keyboards have never had Print Screen, Scroll Lock, Pause, a Menu key, or F21 to F24, and there is no key code that means any of them."@
}

/// The virtual key code for a key, or an error naming what macOS cannot express.
pub fn resolve(key: Key) -> (r: Result<u16, InputError>)
    ensures
        match r {
            Ok(code) => key_code_spec(key) == Some(code),
            Err(e) => key_code_spec(key) is None && e is Unsupported && e.message_spec()
                == missing_key_message(key),
        },
{
    match key_code(key) {
        Some(code) => Ok(code),
        None => {
            let message = concat3(
                "macOS has no ",
                key.debug_name(),
                " key. Apple keyboards have never had Print Screen, Scroll Lock, Pause, a Menu key, or F21 to F24, and there is no key code that means any of them.",
            );
            proof {
                reveal_strlit("macOS has no ");
                reveal_strlit(
                    " key. Apple keyboards have never had Print Screen, Scroll Lock, Pause, a Menu key, or F21 to F24, and there is no key code that means any of them.",
                );
            }
            Err(InputError::Unsupported(message))
        },
    }
}

/// The modifier flag a key contributes, zero for an ordinary key.
pub open spec fn flag_of(key: Key) -> u64 {
    match modifier_flag_spec(key) {
        Some(f) => f,
        None => 0,
    }
}

/// The union of the flags of every modifier in `keys`.
pub open spec fn combo_flags(keys: Seq<Key>) -> u64
    decreases keys.len(),
{
    if keys.len() == 0 {
        0
    } else {
        combo_flags(keys.drop_last()) | flag_of(keys.last())
    }
}

/// The keys of a combo that are not modifiers, in order.
pub open spec fn plain_keys(keys: Seq<Key>) -> Seq<Key>
    decreases keys.len(),
{
    if keys.len() == 0 {
        Seq::empty()
    } else if keys.last().is_modifier_spec() {
        plain_keys(keys.drop_last())
    } else {
        plain_keys(keys.drop_last()).push(keys.last())
    }
}

/// Every key in `keys` has a macOS key code.
pub open spec fn all_mapped(keys: Seq<Key>) -> bool {
    forall|i: int| 0 <= i < keys.len() ==> (#[trigger] key_code_spec(keys[i])) is Some
}

/// The key codes of `keys`, in order.
pub open spec fn codes_of(keys: Seq<Key>) -> Seq<u16> {
    keys.map_values(|k: Key| key_code_spec(k)->0)
}

/// `keys[i]` is the first key of `keys` with no macOS key code.
pub open spec fn is_first_unmapped(keys: Seq<Key>, i: int) -> bool {
    &&& 0 <= i < keys.len()
    &&& key_code_spec(keys[i]) is None
    &&& forall|j: int| 0 <= j < i ==> (#[trigger] key_code_spec(keys[j])) is Some
}

/// What a combo becomes on macOS: key events for `codes`, pressed in order and released in
/// reverse, every one of them carrying `flags`.
#[derive(Debug, Clone, PartialEq, Eq)]
pub struct ComboPlan {
    pub flags: u64,
    pub codes: Vec<u16>,
}

/// The key events of a combo: the ordinary keys, or, for a combo of nothing but modifiers, the
/// modifiers themselves, since there is no key event to hang their flags on.
pub open spec fn combo_codes(keys: Seq<Key>) -> Seq<u16> {
    if plain_keys(keys).len() > 0 {
        codes_of(plain_keys(keys))
    } else {
        codes_of(keys)
    }
}

proof fn lemma_modifiers_are_mapped(key: Key)
    ensures
        key.is_modifier_spec() ==> key_code_spec(key) is Some,
{
}

/// Splits a combo into the modifier flags and the key codes to post, or refuses it with the
/// first key macOS has no code for.
///
/// Modifiers become flags on the key events rather than separate key presses: what an
/// application reads is the flag field of the event it receives, not the history of what was
/// pressed before it.
pub fn combo_plan(keys: &[Key]) -> (r: Result<ComboPlan, InputError>)
    ensures
        r is Ok <==> all_mapped(keys@),
        match r {
            Ok(plan) => plan.flags == combo_flags(keys@) && plan.codes@ == combo_codes(keys@),
            Err(e) => exists|i: int|
                #![trigger keys@[i]]
                is_first_unmapped(keys@, i) && e is Unsupported && e.message_spec()
                    == missing_key_message(keys@[i]),
        },
{
    let mut flags: u64 = 0;
    let mut codes: Vec<u16> = Vec::new();
    let mut i: usize = 0;
    while i < keys.len()
        invariant
            i <= keys@.len(),
            flags == combo_flags(keys@.take(i as int)),
            all_mapped(keys@.take(i as int)),
            codes@ == codes_of(plain_keys(keys@.take(i as int))),
        decreases keys@.len() - i,
    {
        let key = keys[i];
        let prefix = Ghost(keys@.take(i as int));
        assert(keys@.take(i + 1).drop_last() =~= prefix@);
        assert(keys@.take(i + 1).last() == key);
        proof {
            lemma_modifiers_are_mapped(key);
        }
        match modifier_flag(key) {
            Some(flag) => {
                flags = flags | flag;
                assert(codes@ =~= codes_of(plain_keys(keys@.take(i + 1))));
            },
            None => {
                match resolve(key) {
                    Ok(code) => {
                        let old_flags = flags;
                        assert(old_flags | 0u64 == old_flags) by (bit_vector);
                        codes.push(code);
                        assert(codes@ =~= codes_of(plain_keys(keys@.take(i + 1))));
                    },
                    Err(e) => {
                        assert(is_first_unmapped(keys@, i as int)) by {
                            assert forall|j: int| 0 <= j < i implies (#[trigger] key_code_spec(
                                keys@[j],
                            )) is Some by {
                                assert(prefix@[j] == keys@[j]);
                            }
                        }
                        assert(!all_mapped(keys@)) by {
                            assert(key_code_spec(keys@[i as int]) is None);
                        }
                        return Err(e);
                    },
                }
            },
        }
        assert(all_mapped(keys@.take(i + 1))) by {
            assert forall|j: int| 0 <= j < i + 1 implies (#[trigger] key_code_spec(
                keys@.take(i + 1)[j],
            )) is Some by {
                if j < i {
                    assert(keys@.take(i + 1)[j] == prefix@[j]);
                }
            }
        }
        i = i + 1;
    }
    assert(keys@.take(keys@.len() as int) =~= keys@);
    if codes.len() == 0 {
        let mut all: Vec<u16> = Vec::new();
        let mut j: usize = 0;
        while j < keys.len()
            invariant
                j <= keys@.len(),
                all_mapped(keys@),
                all@ == codes_of(keys@.take(j as int)),
            decreases keys@.len() - j,
        {
            let code = match key_code(keys[j]) {
                Some(c) => c,
                None => {
                    proof {
                        assert(key_code_spec(keys@[j as int]) is Some);
                    }
                    0
                },
            };
            all.push(code);
            assert(all@ =~= codes_of(keys@.take(j + 1)));
            j = j + 1;
        }
        assert(keys@.take(keys@.len() as int) =~= keys@);
        codes = all;
    }
    Ok(ComboPlan { flags, codes })
}

// ---------------------------------------------------------------------------------------------
// Text.
// ---------------------------------------------------------------------------------------------

/// How many UTF-16 code units a character takes.
pub open spec fn utf16_width(c: char) -> nat {
    if (c as u32) < 0x10000 {
        1
    } else {
        2
    }
}

/// How many UTF-16 code units a string takes.
pub open spec fn utf16_len(s: Seq<char>) -> nat
    decreases s.len(),
{
    if s.len() == 0 {
        0
    } else {
        utf16_len(s.drop_last()) + utf16_width(s.last())
    }
}

/// `chunks` is `text` cut greedily into pieces of at most `limit` UTF-16 units, never inside
/// a character: each piece is as long as the limit allows, a character wider than the limit
/// travels alone, and no piece is empty.
pub open spec fn is_utf16_chunking(chunks: Seq<Seq<char>>, text: Seq<char>, limit: nat) -> bool {
    &&& chunks.flatten() == text
    &&& (chunks.len() == 0 <==> text.len() == 0)
    &&& forall|j: int|
        0 <= j < chunks.len() ==> utf16_len(#[trigger] chunks[j]) <= limit || chunks[j].len() == 1
    &&& forall|j: int| 0 <= j < chunks.len() ==> (#[trigger] chunks[j]).len() > 0
    &&& forall|j: int|
        0 <= j < chunks.len() - 1 ==> utf16_len(#[trigger] chunks[j]) + utf16_width(
            chunks[j + 1][0],
        ) > limit
}

proof fn lemma_utf16_len_push(s: Seq<char>, c: char)
    ensures
        utf16_len(s.push(c)) == utf16_len(s) + utf16_width(c),
{
    assert(s.push(c).drop_last() =~= s);
}

/// Splits a string into pieces of at most `limit` UTF-16 code units, never inside a character.
pub fn chunk_by_utf16<'a>(text: &'a str, limit: usize) -> (r: Vec<&'a str>)
    ensures
        is_utf16_chunking(r@.map_values(|s: &str| s@), text@, limit as nat),
{
    let n = text.unicode_len();
    let mut chunks: Vec<&'a str> = Vec::new();
    let ghost mut g: Seq<Seq<char>> = Seq::empty();
    let mut start: usize = 0;
    let mut units: usize = 0;
    let mut i: usize = 0;
    while i < n
        invariant
            n == text@.len(),
            start <= i <= n,
            chunks@.len() == g.len(),
            forall|j: int| 0 <= j < g.len() ==> (#[trigger] chunks@[j])@ == g[j],
            g.flatten() == text@.subrange(0, start as int),
            units == utf16_len(text@.subrange(start as int, i as int)),
            units <= limit || (i == start + 1 && units <= 2),
            i > 0 ==> start < i,
            i == 0 ==> g.len() == 0,
            forall|j: int|
                0 <= j < g.len() ==> utf16_len(#[trigger] g[j]) <= limit || g[j].len() == 1,
            forall|j: int| 0 <= j < g.len() ==> (#[trigger] g[j]).len() > 0,
            forall|j: int|
                0 <= j < g.len() - 1 ==> utf16_len(#[trigger] g[j]) + utf16_width(g[j + 1][0])
                    > limit,
            g.len() > 0 ==> utf16_len(g.last()) + utf16_width(text@[start as int]) > limit,
            g.len() == 0 ==> start == 0,
        decreases n - i,
    {
        let c = text.get_char(i);
        let width: usize = if (c as u32) < 0x10000 {
            1
        } else {
            2
        };
        let over = if width > limit {
            true
        } else {
            units > limit - width
        };
        if over && start < i {
            let piece = text.substring_char(start, i);
            proof {
                assert(piece@ == text@.subrange(start as int, i as int));
                assert(text@.subrange(0, i as int) =~= text@.subrange(0, start as int)
                    + text@.subrange(start as int, i as int));
                if i > 0 {
                    assert(text@.subrange(start as int, i as int)[0] == text@[start as int]);
                }
                g = g.push(piece@);
            }
            chunks.push(piece);
            start = i;
            units = 0;
            proof {
                assert(text@.subrange(i as int, i as int) =~= Seq::<char>::empty());
            }
        }
        proof {
            assert(text@.subrange(start as int, i + 1) =~= text@.subrange(start as int, i as int)
                .push(c));
            lemma_utf16_len_push(text@.subrange(start as int, i as int), c);
        }
        units = units + width;
        i = i + 1;
    }
    if start < n {
        let piece = text.substring_char(start, n);
        proof {
            assert(text@.subrange(0, n as int) =~= text@.subrange(0, start as int)
                + text@.subrange(start as int, n as int));
            assert(text@.subrange(start as int, n as int)[0] == text@[start as int]);
            g = g.push(piece@);
        }
        chunks.push(piece);
    }
    proof {
        assert(text@.subrange(0, n as int) =~= text@);
        assert(chunks@.map_values(|s: &str| s@) =~= g);
        if n == 0 {
            assert(g.len() == 0);
        }
    }
    chunks
}

// ---------------------------------------------------------------------------------------------
// Media keys.
// ---------------------------------------------------------------------------------------------

/// Why a media command cannot be sent on a Mac.
pub open spec fn missing_media_message(command: MediaCommand) -> Seq<char> {
    "macOS has no "@ + command.variant_name()
        + " key: the hardware has never had one, so nothing listens for it. Use PLAY_PAUSE instead."@
}

/// The `NX_KEYTYPE_*` code to post for a media command, or the refusal for one macOS lacks.
pub fn media_key(command: MediaCommand) -> (r: Result<u8, InputError>)
    ensures
        match r {
            Ok(code) => media_code_spec(command) == Some(code),
            Err(e) => media_code_spec(command) is None && e is Unsupported && e.message_spec()
                == missing_media_message(command),
        },
{
    match media_code(command) {
        Some(code) => Ok(code),
        None => {
            let message = concat3(
                "macOS has no ",
                command.debug_name(),
                " key: the hardware has never had one, so nothing listens for it. Use PLAY_PAUSE instead.",
            );
            proof {
                reveal_strlit("macOS has no ");
                reveal_strlit(
                    " key: the hardware has never had one, so nothing listens for it. Use PLAY_PAUSE instead.",
                );
            }
            Err(InputError::Unsupported(message))
        },
    }
}

/// The varying fields of one `NSSystemDefined` media key event.
#[derive(Debug, Clone, Copy, PartialEq, Eq)]
pub struct MediaEvent {
    /// The key code in the high half, the up/down state in the low half.
    pub data1: isize,
    /// The same state again, as the system's own media keys send it.
    pub modifier_flags: usize,
}

/// The state nibble of a media key transition: `0xA` down, `0xB` up.
pub open spec fn media_state(down: bool) -> nat {
    if down {
        0xA
    } else {
        0xB
    }
}

/// Packs one media key transition the way the system expects it.
pub fn media_event(code: u8, down: bool) -> (r: MediaEvent)
    ensures
        r.data1 == code as int * 0x10000 + media_state(down) * 0x100,
        r.modifier_flags == media_state(down) * 0x100,
{
    let state: u32 = if down {
        0xA
    } else {
        0xB
    };
    let c: u32 = code as u32;
    let packed: u32 = (c << 16u32) | (state << 8u32);
    assert(packed == c * 0x10000 + state * 0x100) by (bit_vector)
        requires
            c < 256,
            state < 16,
            packed == (c << 16u32) | (state << 8u32),
    ;
    let flags: usize = if down {
        0xA00
    } else {
        0xB00
    };
    MediaEvent { data1: packed as isize, modifier_flags: flags }
}

// ---------------------------------------------------------------------------------------------
// Permission and capabilities.
// ---------------------------------------------------------------------------------------------

/// What the control panel is told when the process lacks Accessibility permission.
pub open spec fn accessibility_message() -> Seq<char> {
    "MuxDeck does not have Accessibility permission, so keystrokes are silently discarded. Open System Settings > Privacy & Security > Accessibility, add MuxDeck, and turn it on. The permission is remembered per application binary, so moving or replacing the app requires granting it again."@
}

/// The preflight answer, given whether the process holds Accessibility permission. Without it
/// posting returns no error and does nothing at all, so this is what lets the panel say so.
pub fn accessibility_preflight(trusted: bool) -> (r: Result<(), InputError>)
    ensures
        r is Ok <==> trusted,
        r matches Err(e) ==> e is NotPermitted && e.message_spec() == accessibility_message(),
{
    if trusted {
        Ok(())
    } else {
        let m = "MuxDeck does not have Accessibility permission, so keystrokes are silently discarded. Open System Settings > Privacy & Security > Accessibility, add MuxDeck, and turn it on. The permission is remembered per application binary, so moving or replacing the app requires granting it again.";
        Err(InputError::NotPermitted(String::from_str(m)))
    }
}

/// Everything is available through Quartz: Unicode text, media keys and the pointer.
pub fn macos_capabilities() -> (r: BackendCapabilities)
    ensures
        r.text_unicode && r.media_keys && r.mouse,
{
    BackendCapabilities { text_unicode: true, media_keys: true, mouse: true }
}

/// The backend's short name.
pub fn macos_backend_name() -> (r: &'static str)
    ensures
        r@ == "cgevent"@,
{
    "cgevent"
}

} // verus!
