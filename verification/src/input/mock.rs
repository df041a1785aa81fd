//! A backend that records what it was asked to do instead of doing it, so the ordering
//! guarantees of `key_combo` can be checked directly rather than inferred from what typed.
use vstd::prelude::*;

use crate::input::{BackendCapabilities, Injection, InputBackend, InputError};
use crate::protocol::input::{Key, MediaCommand};
use crate::text::concat3;

verus! {

/// One thing the backend was asked to do.
#[derive(Debug, Clone, PartialEq, Eq)]
pub enum Call {
    KeyDown(Key),
    KeyUp(Key),
    Text(String),
    Media(MediaCommand),
}

/// A recorded call as plain values.
pub enum CallView {
    KeyDown(Key),
    KeyUp(Key),
    Text(Seq<char>),
    Media(MediaCommand),
}

pub open spec fn call_view(c: Call) -> CallView {
    match c {
        Call::KeyDown(k) => CallView::KeyDown(k),
        Call::KeyUp(k) => CallView::KeyUp(k),
        Call::Text(s) => CallView::Text(s@),
        Call::Media(m) => CallView::Media(m),
    }
}

/// The presses of `keys`, in order.
pub open spec fn downs(keys: Seq<Key>) -> Seq<CallView> {
    keys.map_values(|k: Key| CallView::KeyDown(k))
}

/// The releases of `keys`, last first.
pub open spec fn ups_reversed(keys: Seq<Key>) -> Seq<CallView> {
    keys.reverse().map_values(|k: Key| CallView::KeyUp(k))
}

/// Records calls; can be told to fail one key press.
pub struct MockBackend {
    calls: Vec<Call>,
    /// When set, the key at this index fails to press, to show that a combo still releases
    /// what it managed to press.
    fail_press_at: Option<usize>,
    /// What it has been asked to do, in the terms of the seam.
    asked: Ghost<Seq<Injection>>,
}

impl MockBackend {
    /// Everything recorded so far, as plain values.
    pub closed spec fn calls_spec(&self) -> Seq<CallView> {
        self.calls@.map_values(|c: Call| call_view(c))
    }

    pub closed spec fn fail_press_at_spec(&self) -> Option<usize> {
        self.fail_press_at
    }

    pub fn new() -> (r: Self)
        ensures
            r.calls_spec() == Seq::<CallView>::empty(),
            r.fail_press_at_spec() is None,
            r.asked() == Seq::<Injection>::empty(),
    {
        let r = MockBackend {
            calls: Vec::new(),
            fail_press_at: None,
            asked: Ghost(Seq::empty()),
        };
        assert(r.calls_spec() =~= Seq::<CallView>::empty());
        r
    }

    /// A backend whose `index`-th key press fails.
    pub fn failing_at(index: usize) -> (r: Self)
        ensures
            r.calls_spec() == Seq::<CallView>::empty(),
            r.fail_press_at_spec() == Some(index),
            r.asked() == Seq::<Injection>::empty(),
    {
        let r = MockBackend {
            calls: Vec::new(),
            fail_press_at: Some(index),
            asked: Ghost(Seq::empty()),
        };
        assert(r.calls_spec() =~= Seq::<CallView>::empty());
        r
    }

    /// A copy of everything recorded so far.
    pub fn calls(&self) -> (r: Vec<Call>)
        ensures
            r@.map_values(|c: Call| call_view(c)) == self.calls_spec(),
    {
        let mut out: Vec<Call> = Vec::new();
        let mut i: usize = 0;
        while i < self.calls.len()
            invariant
                i <= self.calls@.len(),
                out@.len() == i,
                forall|j: int| 0 <= j < i ==> call_view(#[trigger] out@[j]) == call_view(self.calls@[j]),
            decreases self.calls@.len() - i,
        {
            let c = match &self.calls[i] {
                Call::KeyDown(k) => Call::KeyDown(*k),
                Call::KeyUp(k) => Call::KeyUp(*k),
                Call::Text(s) => Call::Text(s.clone()),
                Call::Media(m) => Call::Media(*m),
            };
            out.push(c);
            i = i + 1;
        }
        assert(out@.map_values(|c: Call| call_view(c)) =~= self.calls_spec());
        out
    }

    fn record(&mut self, call: Call)
        ensures
            final(self).calls_spec() == old(self).calls_spec().push(call_view(call)),
            final(self).fail_press_at_spec() == old(self).fail_press_at_spec(),
            final(self).asked == old(self).asked,
    {
        self.calls.push(call);
        assert(self.calls_spec() =~= old(self).calls_spec().push(call_view(call)));
    }
}

/// How many of `keys` a backend failing at press `fail` presses: all of them, or those before
/// the failing one.
pub open spec fn pressed_count(keys: Seq<Key>, fail: Option<usize>) -> nat {
    match fail {
        Some(i) if i < keys.len() => i as nat,
        _ => keys.len(),
    }
}

impl InputBackend for MockBackend {
    open spec fn keeps_log() -> bool {
        true
    }

    closed spec fn asked(&self) -> Seq<Injection> {
        self.asked@
    }

    /// Presses in order and releases in reverse, whatever happened: a failing press stops the
    /// presses, and everything pressed before it is still released.
    fn key_combo(&mut self, keys: &[Key], hold_ms: u32) -> (r: Result<(), InputError>)
        ensures
            final(self).fail_press_at_spec() == old(self).fail_press_at_spec(),
            final(self).calls_spec() == old(self).calls_spec() + downs(
                keys@.take(pressed_count(keys@, old(self).fail_press_at_spec()) as int),
            ) + ups_reversed(keys@.take(pressed_count(keys@, old(self).fail_press_at_spec()) as int)),
            r is Err <==> pressed_count(keys@, old(self).fail_press_at_spec()) < keys@.len(),
            r is Err ==> r matches Err(InputError::Rejected(_)),
    {
        self.asked = Ghost(self.asked@.push(Injection::Combo(keys@, hold_ms)));
        let ghost start = self.calls_spec();
        let n = match self.fail_press_at {
            Some(i) => if i < keys.len() {
                i
            } else {
                keys.len()
            },
            None => keys.len(),
        };
        let mut i: usize = 0;
        while i < n
            invariant
                n <= keys@.len(),
                n == pressed_count(keys@, self.fail_press_at_spec()),
                self.fail_press_at_spec() == old(self).fail_press_at_spec(),
                self.asked@ == old(self).asked@.push(Injection::Combo(keys@, hold_ms)),
                i <= n,
                self.calls_spec() == start + downs(keys@.take(i as int)),
            decreases n - i,
        {
            self.record(Call::KeyDown(keys[i]));
            assert(downs(keys@.take(i + 1)) =~= downs(keys@.take(i as int)).push(
                CallView::KeyDown(keys@[i as int]),
            ));
            i = i + 1;
        }
        let ghost pressed = keys@.take(n as int);
        let ghost mid = self.calls_spec();
        let mut j: usize = n;
        while j > 0
            invariant
                n <= keys@.len(),
                n == pressed_count(keys@, self.fail_press_at_spec()),
                self.fail_press_at_spec() == old(self).fail_press_at_spec(),
                self.asked@ == old(self).asked@.push(Injection::Combo(keys@, hold_ms)),
                j <= n,
                pressed == keys@.take(n as int),
                mid == start + downs(pressed),
                self.calls_spec() == mid + pressed.subrange(j as int, n as int).reverse().map_values(
                    |k: Key| CallView::KeyUp(k),
                ),
            decreases j,
        {
            j = j - 1;
            self.record(Call::KeyUp(keys[j]));
            assert(pressed.subrange(j as int, n as int).reverse() =~= pressed.subrange(
                j + 1,
                n as int,
            ).reverse().push(keys@[j as int]));
            assert(pressed.subrange(j as int, n as int).reverse().map_values(|k: Key| CallView::KeyUp(k))
                =~= pressed.subrange(j + 1, n as int).reverse().map_values(|k: Key| CallView::KeyUp(k)).push(
                CallView::KeyUp(keys@[j as int]),
            ));
        }
        assert(pressed.subrange(0, n as int) =~= pressed);
        if n < keys.len() {
            Err(InputError::Rejected(concat3("mock refused ", keys[n].debug_name(), "")))
        } else {
            Ok(())
        }
    }

    fn text(&mut self, text: &str) -> (r: Result<(), InputError>)
        ensures
            r is Ok,
            final(self).calls_spec() == old(self).calls_spec().push(CallView::Text(text@)),
            final(self).fail_press_at_spec() == old(self).fail_press_at_spec(),
    {
        self.asked = Ghost(self.asked@.push(Injection::Text(text@)));
        self.record(Call::Text(String::from_str(text)));
        Ok(())
    }

    fn media(&mut self, command: MediaCommand) -> (r: Result<(), InputError>)
        ensures
            r is Ok,
            final(self).calls_spec() == old(self).calls_spec().push(CallView::Media(command)),
            final(self).fail_press_at_spec() == old(self).fail_press_at_spec(),
    {
        self.asked = Ghost(self.asked@.push(Injection::Media(command)));
        self.record(Call::Media(command));
        Ok(())
    }

    fn preflight(&self) -> (r: Result<(), InputError>)
        ensures
            r is Ok,
    {
        Ok(())
    }

    fn capabilities(&self) -> (r: BackendCapabilities)
        ensures
            r == (BackendCapabilities { text_unicode: true, media_keys: true, mouse: true }),
    {
        BackendCapabilities { text_unicode: true, media_keys: true, mouse: true }
    }

    fn name(&self) -> (r: &'static str)
        ensures
            r@ == "mock"@,
    {
        "mock"
    }
}

} // verus!
