//! A backend for platforms that do not have one yet: the daemon still starts, reports its
//! preflight failure with the reason, and advertises no capabilities, so a connected deck greys
//! those buttons out instead of watching them silently do nothing.
use vstd::prelude::*;

use crate::input::{BackendCapabilities, Injection, InputBackend, InputError};
use crate::protocol::input::{Key, MediaCommand};

verus! {

pub struct NullBackend {
    reason: &'static str,
    /// What it has been asked to do, refused every time.
    asked: Ghost<Seq<Injection>>,
}

impl NullBackend {
    pub closed spec fn reason_spec(&self) -> Seq<char> {
        self.reason@
    }

    pub fn new(reason: &'static str) -> (r: Self)
        ensures
            r.reason_spec() == reason@,
            r.asked() == Seq::<Injection>::empty(),
    {
        NullBackend { reason, asked: Ghost(Seq::empty()) }
    }

    /// What pointer input is answered with: refused, with the reason this platform has no
    /// backend. (A pointer event carries floating-point deltas, so the call itself is made
    /// outside the library.)
    pub fn mouse_refusal(&self) -> (r: InputError)
        ensures
            r matches InputError::Unsupported(m) && m@ == self.reason_spec(),
    {
        InputError::Unsupported(String::from_str(self.reason))
    }

    fn refuse(&self) -> (r: Result<(), InputError>)
        ensures
            r matches Err(InputError::Unsupported(m)) && m@ == self.reason_spec(),
    {
        Err(InputError::Unsupported(String::from_str(self.reason)))
    }
}

impl InputBackend for NullBackend {
    open spec fn keeps_log() -> bool {
        true
    }

    closed spec fn asked(&self) -> Seq<Injection> {
        self.asked@
    }

    fn key_combo(&mut self, keys: &[Key], hold_ms: u32) -> (r: Result<(), InputError>)
        ensures
            r matches Err(InputError::Unsupported(m)) && m@ == old(self).reason_spec(),
            final(self).reason_spec() == old(self).reason_spec(),
    {
        self.asked = Ghost(self.asked@.push(Injection::Combo(keys@, hold_ms)));
        self.refuse()
    }

    fn text(&mut self, text: &str) -> (r: Result<(), InputError>)
        ensures
            r matches Err(InputError::Unsupported(m)) && m@ == old(self).reason_spec(),
            final(self).reason_spec() == old(self).reason_spec(),
    {
        self.asked = Ghost(self.asked@.push(Injection::Text(text@)));
        self.refuse()
    }

    fn media(&mut self, command: MediaCommand) -> (r: Result<(), InputError>)
        ensures
            r matches Err(InputError::Unsupported(m)) && m@ == old(self).reason_spec(),
            final(self).reason_spec() == old(self).reason_spec(),
    {
        self.asked = Ghost(self.asked@.push(Injection::Media(command)));
        self.refuse()
    }

    fn preflight(&self) -> (r: Result<(), InputError>)
        ensures
            r matches Err(InputError::NotPermitted(m)) && m@ == self.reason_spec(),
    {
        Err(InputError::NotPermitted(String::from_str(self.reason)))
    }

    fn capabilities(&self) -> (r: BackendCapabilities)
        ensures
            r == (BackendCapabilities { text_unicode: false, media_keys: false, mouse: false }),
    {
        BackendCapabilities { text_unicode: false, media_keys: false, mouse: false }
    }

    fn name(&self) -> (r: &'static str)
        ensures
            r@ == "none"@,
    {
        "none"
    }
}

} // verus!
