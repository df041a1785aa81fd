//! Deck layouts: a grid of pages of buttons.
use vstd::prelude::*;

use crate::protocol::envelope::Op;

verus! {

/// One deck layout.
#[derive(Debug, PartialEq)]
pub struct Profile {
    pub id: String,
    pub name: String,
    pub grid: Grid,
    pub pages: Vec<Page>,
}

#[derive(Debug, Clone, Copy, PartialEq, Eq, Structural)]
pub struct Grid {
    pub cols: u16,
    pub rows: u16,
}

#[derive(Debug, PartialEq)]
pub struct Page {
    pub id: String,
    pub name: String,
    /// Buttons are sparse: a grid cell with no button is empty.
    pub buttons: Vec<Button>,
}

#[derive(Debug, PartialEq)]
pub struct Button {
    pub id: String,
    pub pos: Position,
    pub label: String,
    /// A Material icon name; unknown names fall back to a filled dot on the client.
    pub icon: String,
    /// `#RRGGBB`.
    pub color: String,
    pub haptic: Haptic,
    pub on_tap: Option<ButtonAction>,
    pub on_long_press: Option<ButtonAction>,
}

#[derive(Debug, Clone, Copy, PartialEq, Eq, Structural)]
pub struct Position {
    pub col: u16,
    pub row: u16,
}

/// Haptic feedback on press. `Off` is `none` on the wire.
#[derive(Debug, Clone, Copy, PartialEq, Eq, Hash, Structural)]
pub enum Haptic {
    Off,
    Light,
    Medium,
    Heavy,
}

/// An embedded `{ op, d }` pair. `d` is kept as the JSON text of the payload: the op it belongs
/// to is only known at press time, when the engine re-checks both the op and the payload.
#[derive(Debug, PartialEq)]
pub struct ButtonAction {
    pub op: Op,
    pub d: String,
}

impl Clone for ButtonAction {
    fn clone(&self) -> (r: Self)
        ensures
            r == *self,
    {
        ButtonAction { op: clone_op(&self.op), d: self.d.clone() }
    }
}

/// A copy of an op.
pub fn clone_op(op: &Op) -> (r: Op)
    ensures
        r == *op,
{
    match op {
        Op::Known(k) => Op::Known(*k),
        Op::Unknown(s) => Op::Unknown(s.clone()),
    }
}

fn clone_action_opt(a: &Option<ButtonAction>) -> (r: Option<ButtonAction>)
    ensures
        r == *a,
{
    match a {
        Some(a) => Some(a.clone()),
        None => None,
    }
}

impl Clone for Button {
    fn clone(&self) -> (r: Self)
        ensures
            r == *self,
    {
        Button {
            id: self.id.clone(),
            pos: self.pos,
            label: self.label.clone(),
            icon: self.icon.clone(),
            color: self.color.clone(),
            haptic: self.haptic,
            on_tap: clone_action_opt(&self.on_tap),
            on_long_press: clone_action_opt(&self.on_long_press),
        }
    }
}

/// A page's contents, independent of how its buttons are stored.
pub struct PageView {
    pub id: Seq<char>,
    pub name: Seq<char>,
    pub buttons: Seq<Button>,
}

impl View for Page {
    type V = PageView;

    open spec fn view(&self) -> PageView {
        PageView { id: self.id@, name: self.name@, buttons: self.buttons@ }
    }
}

impl Clone for Page {
    fn clone(&self) -> (r: Self)
        ensures
            r@ == self@,
    {
        let mut buttons: Vec<Button> = Vec::new();
        let mut i: usize = 0;
        while i < self.buttons.len()
            invariant
                i <= self.buttons@.len(),
                buttons@ == self.buttons@.take(i as int),
            decreases self.buttons@.len() - i,
        {
            buttons.push(self.buttons[i].clone());
            assert(buttons@ =~= self.buttons@.take(i + 1));
            i = i + 1;
        }
        assert(self.buttons@.take(self.buttons@.len() as int) =~= self.buttons@);
        Page { id: self.id.clone(), name: self.name.clone(), buttons }
    }
}

/// A profile's contents, independent of how its pages are stored.
pub struct ProfileView {
    pub id: Seq<char>,
    pub name: Seq<char>,
    pub grid: Grid,
    pub pages: Seq<PageView>,
}

/// The contents of each page, in order.
pub open spec fn pages_view(pages: Seq<Page>) -> Seq<PageView> {
    pages.map_values(|p: Page| p@)
}

impl View for Profile {
    type V = ProfileView;

    open spec fn view(&self) -> ProfileView {
        ProfileView {
            id: self.id@,
            name: self.name@,
            grid: self.grid,
            pages: pages_view(self.pages@),
        }
    }
}

impl Clone for Profile {
    fn clone(&self) -> (r: Self)
        ensures
            r@ == self@,
    {
        let mut pages: Vec<Page> = Vec::new();
        let mut i: usize = 0;
        while i < self.pages.len()
            invariant
                i <= self.pages@.len(),
                pages@.len() == i,
                forall|j: int| 0 <= j < i ==> (#[trigger] pages@[j])@ == self.pages@[j]@,
            decreases self.pages@.len() - i,
        {
            pages.push(self.pages[i].clone());
            i = i + 1;
        }
        assert(pages_view(pages@) =~= pages_view(self.pages@));
        Profile { id: self.id.clone(), name: self.name.clone(), grid: self.grid, pages }
    }
}

/// The payload of `profile.get`'s response, `profile.set`'s request and `profile.changed`.
#[derive(Debug, Clone, PartialEq)]
pub struct ProfileWrapper {
    pub profile: Profile,
}

#[derive(Debug, Clone, PartialEq, Eq)]
pub struct ProfileGetRequest {
    pub profile_id: String,
}

#[derive(Debug, Clone, PartialEq, Eq)]
pub struct ProfileListResponse {
    pub profiles: Vec<ProfileSummary>,
}

#[derive(Debug, Clone, PartialEq, Eq)]
pub struct ProfileSummary {
    pub id: String,
    pub name: String,
    pub active: bool,
}

#[derive(Debug, Clone, PartialEq, Eq)]
pub struct ProfileActivateRequest {
    pub profile_id: String,
}

#[derive(Debug, Clone, PartialEq, Eq)]
pub struct ProfileDeleteRequest {
    pub profile_id: String,
}

impl Haptic {
    /// The wire name.
    pub open spec fn wire_name(self) -> Seq<char> {
        match self {
            Haptic::Off => "none"@,
            Haptic::Light => "light"@,
            Haptic::Medium => "medium"@,
            Haptic::Heavy => "heavy"@,
        }
    }

    pub fn as_str(&self) -> (r: &'static str)
        ensures
            r@ == self.wire_name(),
    {
        match self {
            Haptic::Off => "none",
            Haptic::Light => "light",
            Haptic::Medium => "medium",
            Haptic::Heavy => "heavy",
        }
    }

    /// The value with this wire name, if any.
    pub fn from_wire(wire: &str) -> (r: Option<Haptic>)
        ensures
            r matches Some(v) ==> v.wire_name() == wire@,
            r is None ==> forall|v: Haptic| #[trigger] v.wire_name() != wire@,
    {
        if crate::text::str_eq(wire, "none") {
            return Some(Haptic::Off);
        }
        if crate::text::str_eq(wire, "light") {
            return Some(Haptic::Light);
        }
        if crate::text::str_eq(wire, "medium") {
            return Some(Haptic::Medium);
        }
        if crate::text::str_eq(wire, "heavy") {
            return Some(Haptic::Heavy);
        }
        proof {
            reveal_strlit("none");
            reveal_strlit("light");
            reveal_strlit("medium");
            reveal_strlit("heavy");
            assert forall|v: Haptic| #[trigger] v.wire_name() != wire@ by {
                match v {
                    Haptic::Off => {},
                    Haptic::Light => {},
                    Haptic::Medium => {},
                    Haptic::Heavy => {},
                }
            }
        }
        None
    }
}

} // verus!
