//! Input injection: the platform seam, the key maps, and the backends that need no operating
//! system.
use vstd::prelude::*;

pub mod keymap;
pub mod linux;
pub mod macos;
pub mod mock;
pub mod null;
pub mod windows;

use crate::protocol::input::{Key, MediaCommand};

verus! {

/// Why an injection failed. Every variant carries a message the control panel can show
/// verbatim, because the useful ones are remediation instructions rather than diagnostics.
#[derive(Debug, Clone, PartialEq, Eq)]
pub enum InputError {
    /// The OS refused the event.
    Rejected(String),
    /// This backend cannot express the requested input at all.
    Unsupported(String),
    /// Injection is not possible right now, and the message says how to fix it.
    NotPermitted(String),
}

impl InputError {
    pub open spec fn message_spec(&self) -> Seq<char> {
        match self {
            InputError::Rejected(m) => m@,
            InputError::Unsupported(m) => m@,
            InputError::NotPermitted(m) => m@,
        }
    }

    /// The message, as the error displays.
    pub fn message(&self) -> (r: String)
        ensures
            r@ == self.message_spec(),
    {
        match self {
            InputError::Rejected(m) => m.clone(),
            InputError::Unsupported(m) => m.clone(),
            InputError::NotPermitted(m) => m.clone(),
        }
    }
}

/// What a backend can actually do right now.
#[derive(Debug, Clone, Copy, PartialEq, Eq, Structural)]
pub struct BackendCapabilities {
    /// `input.text` can inject arbitrary Unicode. False on Linux/uinput.
    pub text_unicode: bool,
    pub media_keys: bool,
    pub mouse: bool,
}

/// One request handed to a backend, as plain values.
pub enum Injection {
    /// `key_combo(keys, hold_ms)`.
    Combo(Seq<Key>, u32),
    /// `text(text)`.
    Text(Seq<char>),
    /// `media(command)`.
    Media(MediaCommand),
}

/// The seam every platform implements, for the inputs that are integers and text: deliberately
/// synchronous and dumb, with no sequences and no timers. A sequence is walked by the dispatch
/// layer, which calls `key_combo` per step and waits between steps itself. Pointer input, whose
/// absolute positions and scroll amounts are fractional, is handled beside this seam.
///
/// Whether the operating system takes an injection is the platform's business, so nothing is
/// promised of the result. A backend that keeps the log [`Self::asked`] (as the ones in this
/// library do) records in it what it was asked to do, in order, whatever came of it; one that
/// does not say it keeps the log is promised nothing by it.
pub trait InputBackend {
    /// Whether this backend keeps the log [`Self::asked`].
    open spec fn keeps_log() -> bool {
        false
    }

    /// Every injection this backend has been handed, oldest first, where it keeps the log.
    open spec fn asked(&self) -> Seq<Injection> {
        Seq::empty()
    }

    /// Presses the keys in listed order, holds for `hold_ms`, then releases everything pressed
    /// in reverse order. Release must happen even if a press fails partway: a latched modifier
    /// is a desktop nobody can use, and it outlives the process that caused it.
    fn key_combo(&mut self, keys: &[Key], hold_ms: u32) -> (r: Result<(), InputError>)
        ensures
            Self::keeps_log() ==> final(self).asked() == old(self).asked().push(Injection::Combo(keys@, hold_ms)),
    ;

    /// Types a literal string, layout-independent where the platform allows it.
    fn text(&mut self, text: &str) -> (r: Result<(), InputError>)
        ensures
            Self::keeps_log() ==> final(self).asked() == old(self).asked().push(Injection::Text(text@)),
    ;

    fn media(&mut self, command: MediaCommand) -> (r: Result<(), InputError>)
        ensures
            Self::keeps_log() ==> final(self).asked() == old(self).asked().push(Injection::Media(command)),
    ;

    /// Whether this backend can inject at all right now; the message says how to fix it.
    fn preflight(&self) -> Result<(), InputError>;

    /// Per-feature availability, for the `capabilities` block of the `Ready` payload.
    fn capabilities(&self) -> BackendCapabilities;

    /// A short name for logs and the dashboard.
    fn name(&self) -> &'static str;
}

} // verus!
