//! Deck layouts: the profiles the engine serves and the one that is active. Reading and writing
//! `profiles.json` is the caller's part; this is the state, its rules and the validation every
//! stored profile passes.
use vstd::prelude::*;

use crate::engine::dispatch::{access_for, access_spec, Access};
use crate::engine::error::{is_wire_error, EngineError};
use crate::keyed::{
    as_map, find, key_lt, lemma_key_lt_asymmetric, lemma_map_at, lemma_map_dom, remove_at, sorted,
    upsert, Keyed,
};
use crate::protocol::envelope::{ErrorCode, KnownOp, Op};
use crate::protocol::profile::{
    Button, ButtonAction, Grid, Haptic, Page, PageView, Position, Profile, ProfileSummary,
    ProfileView,
};
use crate::protocol::session::Role;
use crate::text::{decimal, decimal_spec, owned, str_eq};

verus! {

/// The profile a fresh install starts on.
pub const DEFAULT_PROFILE_ID: &'static str = "p_default";

// ---------------------------------------------------------------------------------------------
// Validation.
// ---------------------------------------------------------------------------------------------

pub open spec fn no_pages_message() -> Seq<char> {
    "a profile must have at least one page"@
}

pub open spec fn empty_grid_message() -> Seq<char> {
    "a profile's grid must have at least one column and one row"@
}

/// The name a role goes by in messages.
pub open spec fn role_name(role: Role) -> Seq<char> {
    match role {
        Role::Deck => "deck"@,
        Role::Admin => "admin"@,
    }
}

/// Whether `role` may embed `op` in a button: the op must be one the role could invoke itself,
/// by the same capability matrix that gates requests.
pub open spec fn embeddable(op: KnownOp, role: Role) -> bool {
    match access_spec(op) {
        Access::Authenticated => true,
        Access::AdminOnly => role == Role::Admin,
        Access::PreAuth | Access::EventOnly => false,
    }
}

/// What is wrong with a button's action in `field`, if anything.
pub open spec fn action_problem(
    action: Option<ButtonAction>,
    button_id: Seq<char>,
    field: Seq<char>,
    role: Role,
) -> Option<Seq<char>> {
    match action {
        None => None,
        Some(a) => match a.op {
            Op::Unknown(raw) => Some(
                "button '"@ + button_id + "' has an unknown op '"@ + raw@ + "' in "@ + field,
            ),
            Op::Known(op) => if embeddable(op, role) {
                None
            } else {
                Some(
                    "button '"@ + button_id + "' has op '"@ + op.wire_name() + "' in "@ + field
                        + ", which role '"@ + role_name(role) + "' may not invoke"@,
                )
            },
        },
    }
}

/// Some page before `i` has page `i`'s ID.
pub open spec fn page_id_repeated(p: ProfileView, i: int) -> bool {
    exists|j: int| 0 <= j < i && #[trigger] p.pages[j].id == p.pages[i].id
}

/// Some button before button `k` of page `i`, on any page, has its ID.
pub open spec fn button_id_repeated(p: ProfileView, i: int, k: int) -> bool {
    let id = p.pages[i].buttons[k].id@;
    (exists|j: int, l: int|
        0 <= j < i && 0 <= l < p.pages[j].buttons.len() && #[trigger] p.pages[j].buttons[l].id@
            == id) || (exists|l: int| 0 <= l < k && #[trigger] p.pages[i].buttons[l].id@ == id)
}

/// Some button before button `k` on page `i` has its position.
pub open spec fn position_repeated(p: ProfileView, i: int, k: int) -> bool {
    exists|l: int| 0 <= l < k && #[trigger] p.pages[i].buttons[l].pos == p.pages[i].buttons[k].pos
}

/// What is wrong with button `k` of page `i`, checked in this order.
pub open spec fn button_problem(p: ProfileView, role: Role, i: int, k: int) -> Option<Seq<char>> {
    let b = p.pages[i].buttons[k];
    if button_id_repeated(p, i, k) {
        Some("duplicate button id '"@ + b.id@ + "'"@)
    } else if b.pos.col >= p.grid.cols || b.pos.row >= p.grid.rows {
        Some(
            "button '"@ + b.id@ + "' is at ("@ + decimal_spec(b.pos.col as nat) + ", "@
                + decimal_spec(b.pos.row as nat) + "), outside the "@ + decimal_spec(
                p.grid.cols as nat,
            ) + "x"@ + decimal_spec(p.grid.rows as nat) + " grid"@,
        )
    } else if position_repeated(p, i, k) {
        Some(
            "two buttons share position ("@ + decimal_spec(b.pos.col as nat) + ", "@
                + decimal_spec(b.pos.row as nat) + ") on page '"@ + p.pages[i].id + "'"@,
        )
    } else {
        match action_problem(b.on_tap, b.id@, "on_tap"@, role) {
            Some(m) => Some(m),
            None => action_problem(b.on_long_press, b.id@, "on_long_press"@, role),
        }
    }
}

/// `k` is the first button of page `i` with a problem.
pub open spec fn first_bad_button(p: ProfileView, role: Role, i: int, k: int) -> bool {
    &&& 0 <= k < p.pages[i].buttons.len()
    &&& button_problem(p, role, i, k) is Some
    &&& forall|l: int| 0 <= l < k ==> #[trigger] button_problem(p, role, i, l) is None
}

/// The first bad button of page `i`, where there is one.
pub open spec fn first_bad_button_index(p: ProfileView, role: Role, i: int) -> int {
    choose|k: int| #[trigger] first_bad_button(p, role, i, k)
}

/// What is wrong with page `i`: a repeated page ID, else its first bad button.
pub open spec fn page_problem(p: ProfileView, role: Role, i: int) -> Option<Seq<char>> {
    if page_id_repeated(p, i) {
        Some("duplicate page id '"@ + p.pages[i].id + "'"@)
    } else if exists|k: int| #[trigger] first_bad_button(p, role, i, k) {
        button_problem(p, role, i, first_bad_button_index(p, role, i))
    } else {
        None
    }
}

/// `i` is the first page with a problem.
pub open spec fn first_bad_page(p: ProfileView, role: Role, i: int) -> bool {
    &&& 0 <= i < p.pages.len()
    &&& page_problem(p, role, i) is Some
    &&& forall|j: int| 0 <= j < i ==> #[trigger] page_problem(p, role, j) is None
}

/// The first bad page, where there is one.
pub open spec fn first_bad_page_index(p: ProfileView, role: Role) -> int {
    choose|i: int| #[trigger] first_bad_page(p, role, i)
}

/// What is wrong with a profile submitted by `role`, checked in this order: every rule of the
/// protocol's layout section, the first failure named with where it is. `None` when it may be
/// stored. Never last-write-wins and never silent coercion: a layout quietly altered on the way
/// in is worse than one refused.
pub open spec fn profile_problem(p: ProfileView, role: Role) -> Option<Seq<char>> {
    if p.pages.len() == 0 {
        Some(no_pages_message())
    } else if p.grid.cols == 0 || p.grid.rows == 0 {
        Some(empty_grid_message())
    } else if exists|i: int| #[trigger] first_bad_page(p, role, i) {
        page_problem(p, role, first_bad_page_index(p, role))
    } else {
        None
    }
}

/// `r` answers the problem: `Ok` for none, `BAD_REQUEST` with its message otherwise.
pub open spec fn answers_problem(r: Result<(), EngineError>, problem: Option<Seq<char>>) -> bool {
    match problem {
        None => r is Ok,
        Some(m) => r matches Err(e) && is_wire_error(e, ErrorCode::BadRequest, m),
    }
}

fn bad(message: String) -> (r: EngineError)
    ensures
        is_wire_error(r, ErrorCode::BadRequest, message@),
{
    EngineError::wire(ErrorCode::BadRequest, message)
}

fn role_str(role: Role) -> (r: &'static str)
    ensures
        r@ == role_name(role),
{
    match role {
        Role::Deck => "deck",
        Role::Admin => "admin",
    }
}

/// An embedded button action must be an op the caller could invoke itself.
pub fn check_action(action: Option<&ButtonAction>, button_id: &str, field: &str, role: Role) -> (r:
    Result<(), EngineError>)
    ensures
        answers_problem(
            r,
            action_problem(
                match action {
                    Some(a) => Some(*a),
                    None => None,
                },
                button_id@,
                field@,
                role,
            ),
        ),
{
    let action = match action {
        None => {
            return Ok(());
        },
        Some(a) => a,
    };
    let op = match action.op.known() {
        None => {
            let mut m = String::from_str("button '");
            m.append(button_id);
            m.append("' has an unknown op '");
            m.append(action.op.as_str());
            m.append("' in ");
            m.append(field);
            return Err(bad(m));
        },
        Some(op) => op,
    };
    // The capability matrix, not a second list: the stored-profile check and the press-time
    // check can never disagree.
    let permitted = match access_for(op) {
        Access::Authenticated => true,
        Access::AdminOnly => role == Role::Admin,
        Access::PreAuth | Access::EventOnly => false,
    };
    if !permitted {
        let mut m = String::from_str("button '");
        m.append(button_id);
        m.append("' has op '");
        m.append(op.as_str());
        m.append("' in ");
        m.append(field);
        m.append(", which role '");
        m.append(role_str(role));
        m.append("' may not invoke");
        return Err(bad(m));
    }
    Ok(())
}

/// Whether a page before `i` has `id`.
fn page_id_seen(pages: &Vec<Page>, i: usize, id: &str) -> (r: bool)
    requires
        i <= pages@.len(),
    ensures
        r == exists|j: int| 0 <= j < i && #[trigger] pages@[j].id@ == id@,
{
    let mut j: usize = 0;
    while j < i
        invariant
            j <= i <= pages@.len(),
            forall|m: int| 0 <= m < j ==> #[trigger] pages@[m].id@ != id@,
        decreases i - j,
    {
        if str_eq(pages[j].id.as_str(), id) {
            return true;
        }
        j = j + 1;
    }
    false
}

/// Whether one of the first `k` buttons has `id`.
fn button_id_among(buttons: &Vec<Button>, k: usize, id: &str) -> (r: bool)
    requires
        k <= buttons@.len(),
    ensures
        r == exists|l: int| 0 <= l < k && #[trigger] buttons@[l].id@ == id@,
{
    let mut l: usize = 0;
    while l < k
        invariant
            l <= k <= buttons@.len(),
            forall|m: int| 0 <= m < l ==> #[trigger] buttons@[m].id@ != id@,
        decreases k - l,
    {
        if str_eq(buttons[l].id.as_str(), id) {
            return true;
        }
        l = l + 1;
    }
    false
}

/// Whether a button on a page before `i` has `id`.
fn button_id_on_earlier_pages(pages: &Vec<Page>, i: usize, id: &str) -> (r: bool)
    requires
        i <= pages@.len(),
    ensures
        r == exists|j: int, l: int|
            0 <= j < i && 0 <= l < pages@[j].buttons@.len() && #[trigger] pages@[j].buttons@[l].id@
                == id@,
{
    let mut j: usize = 0;
    while j < i
        invariant
            j <= i <= pages@.len(),
            forall|m: int, l: int|
                0 <= m < j && 0 <= l < pages@[m].buttons@.len() ==> #[trigger] pages@[m].buttons@[l].id@
                    != id@,
        decreases i - j,
    {
        let page = &pages[j];
        if button_id_among(&page.buttons, page.buttons.len(), id) {
            return true;
        }
        j = j + 1;
    }
    false
}

/// Whether one of the first `k` buttons sits at `pos`.
fn position_among(buttons: &Vec<Button>, k: usize, pos: Position) -> (r: bool)
    requires
        k <= buttons@.len(),
    ensures
        r == exists|l: int| 0 <= l < k && #[trigger] buttons@[l].pos == pos,
{
    let mut l: usize = 0;
    while l < k
        invariant
            l <= k <= buttons@.len(),
            forall|m: int| 0 <= m < l ==> #[trigger] buttons@[m].pos != pos,
        decreases k - l,
    {
        if buttons[l].pos.col == pos.col && buttons[l].pos.row == pos.row {
            return true;
        }
        l = l + 1;
    }
    false
}

/// Checks button `k` of page `i`.
fn check_button(profile: &Profile, role: Role, i: usize, k: usize) -> (r: Result<(), EngineError>)
    requires
        i < profile.pages@.len(),
        k < profile.pages@[i as int].buttons@.len(),
    ensures
        answers_problem(r, button_problem(profile@, role, i as int, k as int)),
{
    let ghost p = profile@;
    let page = &profile.pages[i];
    let button = &page.buttons[k];
    let grid = profile.grid;
    assert(p.pages[i as int] == page@);
    if button_id_on_earlier_pages(&profile.pages, i, button.id.as_str()) || button_id_among(
        &page.buttons,
        k,
        button.id.as_str(),
    ) {
        proof {
            if exists|j: int, l: int|
                0 <= j < i && 0 <= l < profile.pages@[j].buttons@.len()
                    && #[trigger] profile.pages@[j].buttons@[l].id@ == button.id@ {
                let (j, l) = choose|j: int, l: int|
                    0 <= j < i && 0 <= l < profile.pages@[j].buttons@.len()
                        && #[trigger] profile.pages@[j].buttons@[l].id@ == button.id@;
                assert(p.pages[j] == profile.pages@[j]@);
                assert(p.pages[j].buttons[l].id@ == button.id@);
            }
        }
        let mut m = String::from_str("duplicate button id '");
        m.append(button.id.as_str());
        m.append("'");
        return Err(bad(m));
    }
    proof {
        assert forall|j: int, l: int|
            0 <= j < i && 0 <= l < p.pages[j].buttons.len() implies #[trigger] p.pages[j].buttons[l].id@
            != button.id@ by {
            assert(p.pages[j] == profile.pages@[j]@);
            assert(profile.pages@[j].buttons@[l].id@ != button.id@);
        }
    }
    if button.pos.col >= grid.cols || button.pos.row >= grid.rows {
        let mut m = String::from_str("button '");
        m.append(button.id.as_str());
        m.append("' is at (");
        m.append(decimal(button.pos.col as u64).as_str());
        m.append(", ");
        m.append(decimal(button.pos.row as u64).as_str());
        m.append("), outside the ");
        m.append(decimal(grid.cols as u64).as_str());
        m.append("x");
        m.append(decimal(grid.rows as u64).as_str());
        m.append(" grid");
        return Err(bad(m));
    }
    if position_among(&page.buttons, k, button.pos) {
        let mut m = String::from_str("two buttons share position (");
        m.append(decimal(button.pos.col as u64).as_str());
        m.append(", ");
        m.append(decimal(button.pos.row as u64).as_str());
        m.append(") on page '");
        m.append(page.id.as_str());
        m.append("'");
        return Err(bad(m));
    }
    let on_tap = match &button.on_tap {
        Some(a) => Some(a),
        None => None,
    };
    match check_action(on_tap, button.id.as_str(), "on_tap", role) {
        Ok(()) => {},
        Err(e) => {
            return Err(e);
        },
    }
    let on_long_press = match &button.on_long_press {
        Some(a) => Some(a),
        None => None,
    };
    check_action(on_long_press, button.id.as_str(), "on_long_press", role)
}

/// Checks page `i`: its ID, then its buttons in order.
fn check_page(profile: &Profile, role: Role, i: usize) -> (r: Result<(), EngineError>)
    requires
        i < profile.pages@.len(),
    ensures
        answers_problem(r, page_problem(profile@, role, i as int)),
{
    let ghost p = profile@;
    let page = &profile.pages[i];
    assert(p.pages[i as int] == page@);
    if page_id_seen(&profile.pages, i, page.id.as_str()) {
        proof {
            let j = choose|j: int| 0 <= j < i && #[trigger] profile.pages@[j].id@ == page.id@;
            assert(p.pages[j] == profile.pages@[j]@);
            assert(p.pages[j].id == p.pages[i as int].id);
        }
        let mut m = String::from_str("duplicate page id '");
        m.append(page.id.as_str());
        m.append("'");
        return Err(bad(m));
    }
    proof {
        assert forall|j: int| 0 <= j < i implies #[trigger] p.pages[j].id != p.pages[i as int].id by {
            assert(p.pages[j] == profile.pages@[j]@);
        }
    }
    let mut k: usize = 0;
    while k < page.buttons.len()
        invariant
            i < profile.pages@.len(),
            page == &profile.pages@[i as int],
            p == profile@,
            !page_id_repeated(p, i as int),
            k <= page.buttons@.len(),
            forall|l: int| 0 <= l < k ==> #[trigger] button_problem(p, role, i as int, l) is None,
        decreases page.buttons@.len() - k,
    {
        match check_button(profile, role, i, k) {
            Ok(()) => {},
            Err(e) => {
                proof {
                    assert(first_bad_button(p, role, i as int, k as int));
                    let w = first_bad_button_index(p, role, i as int);
                    if w < k {
                        assert(button_problem(p, role, i as int, w) is None);
                    }
                    if k < w {
                        assert(button_problem(p, role, i as int, k as int) is None);
                    }
                }
                return Err(e);
            },
        }
        k = k + 1;
    }
    proof {
        assert forall|w: int| !(#[trigger] first_bad_button(p, role, i as int, w)) by {
            if 0 <= w < p.pages[i as int].buttons.len() {
                assert(button_problem(p, role, i as int, w) is None);
            }
        }
    }
    Ok(())
}

/// Every layout rule: at least one page, a grid of at least one cell, unique page IDs, button
/// IDs unique across the whole profile, every button inside the grid, no two buttons in one
/// cell of a page, and only actions the submitting role could invoke itself. The first failure
/// is `BAD_REQUEST` naming what is wrong and where.
pub fn validate(profile: &Profile, role: Role) -> (r: Result<(), EngineError>)
    ensures
        answers_problem(r, profile_problem(profile@, role)),
{
    let ghost p = profile@;
    if profile.pages.len() == 0 {
        return Err(bad(String::from_str("a profile must have at least one page")));
    }
    if profile.grid.cols == 0 || profile.grid.rows == 0 {
        return Err(bad(String::from_str("a profile's grid must have at least one column and one row")));
    }
    let mut i: usize = 0;
    while i < profile.pages.len()
        invariant
            p == profile@,
            p.pages.len() > 0,
            p.grid.cols > 0 && p.grid.rows > 0,
            i <= profile.pages@.len(),
            forall|j: int| 0 <= j < i ==> #[trigger] page_problem(p, role, j) is None,
        decreases profile.pages@.len() - i,
    {
        match check_page(profile, role, i) {
            Ok(()) => {},
            Err(e) => {
                proof {
                    assert(first_bad_page(p, role, i as int));
                    let w = first_bad_page_index(p, role);
                    if w < i {
                        assert(page_problem(p, role, w) is None);
                    }
                    if i < w {
                        assert(page_problem(p, role, i as int) is None);
                    }
                }
                return Err(e);
            },
        }
        i = i + 1;
    }
    proof {
        assert forall|w: int| !(#[trigger] first_bad_page(p, role, w)) by {
            if 0 <= w < p.pages.len() {
                assert(page_problem(p, role, w) is None);
            }
        }
    }
    Ok(())
}


// ---------------------------------------------------------------------------------------------
// The default layout.
// ---------------------------------------------------------------------------------------------

/// One button of the default layout: ID, column, row, label, icon, colour and the `d` of its
/// `input.key_combo` tap action.
pub struct DefaultButton {
    pub id: Seq<char>,
    pub col: u16,
    pub row: u16,
    pub label: Seq<char>,
    pub icon: Seq<char>,
    pub color: Seq<char>,
    pub keys: Seq<char>,
}

pub open spec fn default_button(id: &str, col: u16, row: u16, label: &str, icon: &str, color: &str, keys: &str) -> DefaultButton {
    DefaultButton { id: id@, col, row, label: label@, icon: icon@, color: color@, keys: keys@ }
}

/// The fifteen buttons of the default layout, row by row: everyday editing shortcuts and a few
/// window-management ones, so a new user can press something useful at once.
pub open spec fn default_buttons() -> Seq<DefaultButton> {
    seq![
        default_button("b_copy", 0, 0, "Copy", "content_copy", "#2D6CDF", "{\"keys\":[\"CONTROL\",\"C\"]}"),
        default_button("b_paste", 1, 0, "Paste", "content_paste", "#2D6CDF", "{\"keys\":[\"CONTROL\",\"V\"]}"),
        default_button("b_cut", 2, 0, "Cut", "content_cut", "#2D6CDF", "{\"keys\":[\"CONTROL\",\"X\"]}"),
        default_button("b_undo", 3, 0, "Undo", "undo", "#2D6CDF", "{\"keys\":[\"CONTROL\",\"Z\"]}"),
        default_button("b_redo", 4, 0, "Redo", "redo", "#2D6CDF", "{\"keys\":[\"CONTROL\",\"Y\"]}"),
        default_button("b_all", 0, 1, "Select all", "select_all", "#6B4FBB", "{\"keys\":[\"CONTROL\",\"A\"]}"),
        default_button("b_save", 1, 1, "Save", "save", "#6B4FBB", "{\"keys\":[\"CONTROL\",\"S\"]}"),
        default_button("b_find", 2, 1, "Find", "search", "#6B4FBB", "{\"keys\":[\"CONTROL\",\"F\"]}"),
        default_button("b_switch", 3, 1, "Switch app", "swap_horiz", "#6B4FBB", "{\"keys\":[\"ALT\",\"TAB\"]}"),
        default_button("b_desktop", 4, 1, "Desktop", "desktop_windows", "#6B4FBB", "{\"keys\":[\"META\",\"D\"]}"),
        default_button("b_shot", 0, 2, "Screenshot", "photo_camera", "#1F8A70", "{\"keys\":[\"META\",\"SHIFT\",\"S\"]}"),
        default_button("b_lock", 1, 2, "Lock", "lock", "#1F8A70", "{\"keys\":[\"META\",\"L\"]}"),
        default_button("b_tasks", 2, 2, "Task view", "grid_view", "#1F8A70", "{\"keys\":[\"META\",\"TAB\"]}"),
        default_button("b_close", 3, 2, "Close", "close", "#B3422F", "{\"keys\":[\"ALT\",\"F4\"]}"),
        default_button("b_escape", 4, 2, "Escape", "keyboard_return", "#4A5568", "{\"keys\":[\"ESCAPE\"]}"),
    ]
}

/// `b` is the default button `d`: a light-haptic button whose tap sends `input.key_combo`.
pub open spec fn is_default_button(b: Button, d: DefaultButton) -> bool {
    &&& b.id@ == d.id
    &&& b.pos == Position { col: d.col, row: d.row }
    &&& b.label@ == d.label
    &&& b.icon@ == d.icon
    &&& b.color@ == d.color
    &&& b.haptic == Haptic::Light
    &&& b.on_tap matches Some(a) && a.op == Op::Known(KnownOp::InputKeyCombo) && a.d@ == d.keys
    &&& b.on_long_press is None
}

fn key_button(id: &str, col: u16, row: u16, label: &str, icon: &str, color: &str, keys: &str) -> (b: Button)
    ensures
        is_default_button(b, default_button(id, col, row, label, icon, color, keys)),
{
    Button {
        id: owned(id),
        pos: Position { col, row },
        label: owned(label),
        icon: owned(icon),
        color: owned(color),
        haptic: Haptic::Light,
        on_tap: Some(ButtonAction { op: Op::Known(KnownOp::InputKeyCombo), d: owned(keys) }),
        on_long_press: None,
    }
}

/// The layout a fresh install starts with: `p_default`, named "Default", a 5x3 grid with one
/// page `pg_1` ("Main") holding the fifteen default buttons in order.
pub fn default_profile() -> (r: Profile)
    ensures
        r.id@ == DEFAULT_PROFILE_ID@,
        r.name@ == "Default"@,
        r.grid == (Grid { cols: 5, rows: 3 }),
        r.pages@.len() == 1,
        r.pages@[0].id@ == "pg_1"@,
        r.pages@[0].name@ == "Main"@,
        r.pages@[0].buttons@.len() == default_buttons().len(),
        forall|i: int|
            0 <= i < default_buttons().len() ==> is_default_button(
                #[trigger] r.pages@[0].buttons@[i],
                default_buttons()[i],
            ),
{
    let mut buttons: Vec<Button> = Vec::new();
    buttons.push(key_button("b_copy", 0, 0, "Copy", "content_copy", "#2D6CDF", "{\"keys\":[\"CONTROL\",\"C\"]}"));
    buttons.push(key_button("b_paste", 1, 0, "Paste", "content_paste", "#2D6CDF", "{\"keys\":[\"CONTROL\",\"V\"]}"));
    buttons.push(key_button("b_cut", 2, 0, "Cut", "content_cut", "#2D6CDF", "{\"keys\":[\"CONTROL\",\"X\"]}"));
    buttons.push(key_button("b_undo", 3, 0, "Undo", "undo", "#2D6CDF", "{\"keys\":[\"CONTROL\",\"Z\"]}"));
    buttons.push(key_button("b_redo", 4, 0, "Redo", "redo", "#2D6CDF", "{\"keys\":[\"CONTROL\",\"Y\"]}"));
    buttons.push(key_button("b_all", 0, 1, "Select all", "select_all", "#6B4FBB", "{\"keys\":[\"CONTROL\",\"A\"]}"));
    buttons.push(key_button("b_save", 1, 1, "Save", "save", "#6B4FBB", "{\"keys\":[\"CONTROL\",\"S\"]}"));
    buttons.push(key_button("b_find", 2, 1, "Find", "search", "#6B4FBB", "{\"keys\":[\"CONTROL\",\"F\"]}"));
    buttons.push(key_button("b_switch", 3, 1, "Switch app", "swap_horiz", "#6B4FBB", "{\"keys\":[\"ALT\",\"TAB\"]}"));
    buttons.push(key_button("b_desktop", 4, 1, "Desktop", "desktop_windows", "#6B4FBB", "{\"keys\":[\"META\",\"D\"]}"));
    buttons.push(key_button("b_shot", 0, 2, "Screenshot", "photo_camera", "#1F8A70", "{\"keys\":[\"META\",\"SHIFT\",\"S\"]}"));
    buttons.push(key_button("b_lock", 1, 2, "Lock", "lock", "#1F8A70", "{\"keys\":[\"META\",\"L\"]}"));
    buttons.push(key_button("b_tasks", 2, 2, "Task view", "grid_view", "#1F8A70", "{\"keys\":[\"META\",\"TAB\"]}"));
    buttons.push(key_button("b_close", 3, 2, "Close", "close", "#B3422F", "{\"keys\":[\"ALT\",\"F4\"]}"));
    buttons.push(key_button("b_escape", 4, 2, "Escape", "keyboard_return", "#4A5568", "{\"keys\":[\"ESCAPE\"]}"));
    let mut pages: Vec<Page> = Vec::new();
    pages.push(Page { id: owned("pg_1"), name: owned("Main"), buttons });
    Profile { id: owned(DEFAULT_PROFILE_ID), name: owned("Default"), grid: Grid { cols: 5, rows: 3 }, pages }
}

// ---------------------------------------------------------------------------------------------
// The store.
// ---------------------------------------------------------------------------------------------

impl Keyed for Profile {
    open spec fn key_spec(&self) -> Seq<char> {
        self.id@
    }

    fn key(&self) -> (r: &str) {
        self.id.as_str()
    }
}

/// The store as plain values: every profile by ID, and the ID the active pointer holds.
pub struct StoreView {
    pub profiles: Map<Seq<char>, ProfileView>,
    pub active: Seq<char>,
}

/// The smallest key of a map, in key order: the first profile a listing shows.
pub open spec fn least_key(m: Map<Seq<char>, ProfileView>) -> Seq<char> {
    choose|k: Seq<char>|
        #[trigger] m.dom().contains(k) && forall|k2: Seq<char>|
            #[trigger] m.dom().contains(k2) ==> k2 == k || key_lt(k, k2)
}

/// The profile the engine serves: the one the active pointer names, falling back to the first
/// in key order if the pointer has gone stale, and none only when there are no profiles.
pub open spec fn active_spec(v: StoreView) -> Option<ProfileView> {
    if v.profiles.dom().contains(v.active) {
        Some(v.profiles[v.active])
    } else if exists|k: Seq<char>| #[trigger] v.profiles.dom().contains(k) {
        Some(v.profiles[least_key(v.profiles)])
    } else {
        None
    }
}

/// The ID of [`active_spec`], or `p_default` when there is no profile at all.
pub open spec fn active_id_spec(v: StoreView) -> Seq<char> {
    match active_spec(v) {
        Some(p) => p.id,
        None => DEFAULT_PROFILE_ID@,
    }
}

pub open spec fn no_such_profile_message() -> Seq<char> {
    "no such profile"@
}

pub open spec fn only_profile_message() -> Seq<char> {
    "this is the only profile; a deck with no layout has nothing to show"@
}

/// `r` is the `profile.list` payload for `v`: every profile once, in ID order, with its name,
/// and the active one flagged.
pub open spec fn is_profile_listing(r: Seq<ProfileSummary>, v: StoreView) -> bool {
    &&& forall|i: int, j: int| 0 <= i < j < r.len() ==> key_lt(#[trigger] r[i].id@, #[trigger] r[j].id@)
    &&& forall|i: int|
        0 <= i < r.len() ==> {
            &&& v.profiles.dom().contains(#[trigger] r[i].id@)
            &&& r[i].name@ == v.profiles[r[i].id@].name
            &&& r[i].active == (r[i].id@ == active_id_spec(v))
        }
    &&& forall|k: Seq<char>|
        #[trigger] v.profiles.dom().contains(k) ==> exists|i: int| 0 <= i < r.len() && #[trigger] r[i].id@ == k
}

/// What `set` does: a profile with a problem is refused with it and nothing changes; otherwise
/// it is stored under its ID, replacing any profile there, and the active pointer stays.
pub open spec fn store_set_contract(
    before: StoreView,
    after: StoreView,
    profile: ProfileView,
    role: Role,
    r: Result<(), EngineError>,
) -> bool {
    &&& answers_problem(r, profile_problem(profile, role))
    &&& r is Ok ==> after == (StoreView {
        profiles: before.profiles.insert(profile.id, profile),
        active: before.active,
    })
    &&& r is Err ==> after == before
}

/// What `delete` does: an unknown ID is `NOT_FOUND` and the last profile cannot go
/// (`BAD_REQUEST`), with nothing changed; otherwise the profile is removed and, if it was the
/// active one, the pointer moves to the first remaining profile in ID order rather than being
/// left dangling.
pub open spec fn store_delete_contract(
    before: StoreView,
    after: StoreView,
    id: Seq<char>,
    r: Result<(), EngineError>,
) -> bool {
    let only = forall|k: Seq<char>| #[trigger] before.profiles.dom().contains(k) ==> k == id;
    &&& !before.profiles.dom().contains(id) ==> (r matches Err(e) && is_wire_error(
        e,
        ErrorCode::NotFound,
        no_such_profile_message(),
    ))
    &&& before.profiles.dom().contains(id) && only ==> (r matches Err(e) && is_wire_error(
        e,
        ErrorCode::BadRequest,
        only_profile_message(),
    ))
    &&& before.profiles.dom().contains(id) && !only ==> r is Ok
    &&& r is Err ==> after == before
    &&& r is Ok ==> {
        &&& after.profiles == before.profiles.remove(id)
        &&& after.active == if before.active == id {
            least_key(after.profiles)
        } else {
            before.active
        }
        &&& exists|k: Seq<char>| #[trigger] after.profiles.dom().contains(k)
        &&& before.active == id ==> after.profiles.dom().contains(after.active)
    }
}

/// What `activate` does: an unknown ID is `NOT_FOUND` with nothing changed; otherwise the
/// pointer moves to it.
pub open spec fn store_activate_contract(
    before: StoreView,
    after: StoreView,
    id: Seq<char>,
    r: Result<(), EngineError>,
) -> bool {
    &&& !before.profiles.dom().contains(id) ==> (r matches Err(e) && is_wire_error(
        e,
        ErrorCode::NotFound,
        no_such_profile_message(),
    ) && after == before)
    &&& before.profiles.dom().contains(id) ==> (r is Ok && after == (StoreView {
        active: id,
        ..before
    }) && active_id_spec(after) == id)
}

/// Profiles, kept in ID order, and the active pointer.
pub struct Store {
    profiles: Vec<Profile>,
    active: String,
}

impl View for Store {
    type V = StoreView;

    closed spec fn view(&self) -> StoreView {
        StoreView {
            profiles: as_map(self.profiles@).map_values(|p: Profile| p@),
            active: self.active@,
        }
    }
}

impl Store {
    /// The profiles in ID order.
    pub closed spec fn entries(&self) -> Seq<Profile> {
        self.profiles@
    }

    #[verifier::type_invariant]
    spec fn inv(&self) -> bool {
        sorted(self.profiles@)
    }

    /// What a fresh install starts with: the default profile, active.
    pub fn fresh() -> (r: Self)
        ensures
            r@.profiles.dom() == Set::<Seq<char>>::empty().insert(DEFAULT_PROFILE_ID@),
            r@.active == DEFAULT_PROFILE_ID@,
            r.entries().len() == 1,
            r.entries()[0].id@ == DEFAULT_PROFILE_ID@,
            r@.profiles[DEFAULT_PROFILE_ID@] == r.entries()[0]@,
    {
        let mut profiles: Vec<Profile> = Vec::new();
        profiles.push(default_profile());
        let r = Store { profiles, active: owned(DEFAULT_PROFILE_ID) };
        proof {
            lemma_map_at(r.profiles@, 0);
            assert forall|k: Seq<char>| #[trigger] r@.profiles.dom().contains(k) implies k
                == DEFAULT_PROFILE_ID@ by {
                lemma_map_dom(r.profiles@, k);
            }
            assert(r@.profiles.dom() =~= Set::<Seq<char>>::empty().insert(DEFAULT_PROFILE_ID@));
        }
        r
    }

    /// A store holding what `profiles.json` held. The file is a map by ID, so a later profile
    /// under an ID replaces an earlier one; the active pointer is kept as read, even if stale.
    pub fn from_parts(profiles: Vec<Profile>, active: String) -> (r: Self)
        ensures
            r@.active == active@,
            forall|k: Seq<char>|
                #[trigger] r@.profiles.dom().contains(k) <==> exists|i: int|
                    0 <= i < profiles@.len() && #[trigger] profiles@[i].id@ == k,
            forall|k: Seq<char>|
                #[trigger] r@.profiles.dom().contains(k) ==> exists|i: int|
                    0 <= i < profiles@.len() && #[trigger] profiles@[i].id@ == k && r@.profiles[k]
                        == profiles@[i]@ && forall|j: int|
                        i < j < profiles@.len() ==> #[trigger] profiles@[j].id@ != k,
    {
        let mut out: Vec<Profile> = Vec::new();
        let mut rest = profiles;
        let ghost all = rest@;
        let mut taken: usize = 0;
        let n = rest.len();
        let mut i: usize = 0;
        while i < n
            invariant
                n == all.len(),
                i <= n,
                rest@.len() == n - i,
                forall|j: int| 0 <= j < rest@.len() ==> #[trigger] rest@[j] == all[i + j],
                sorted(out@),
                forall|k: Seq<char>|
                    #[trigger] as_map(out@).dom().contains(k) <==> exists|j: int|
                        0 <= j < i && #[trigger] all[j].id@ == k,
                forall|k: Seq<char>|
                    #[trigger] as_map(out@).dom().contains(k) ==> exists|j: int|
                        0 <= j < i && #[trigger] all[j].id@ == k && as_map(out@)[k]@ == all[j]@
                            && forall|l: int| j < l < i ==> #[trigger] all[l].id@ != k,
            decreases n - i,
        {
            let ghost before = as_map(out@);
            let ghost r0 = rest@;
            let p = rest.remove(0);
            assert(p == all[i as int]);
            upsert(&mut out, p);
            proof {
                let after = as_map(out@);
                assert forall|j: int| 0 <= j < rest@.len() implies #[trigger] rest@[j] == all[i + 1 + j] by {
                    assert(rest@[j] == r0[j + 1]);
                }
                assert forall|k: Seq<char>|
                    #[trigger] after.dom().contains(k) <==> exists|j: int|
                        0 <= j < i + 1 && #[trigger] all[j].id@ == k by {
                    if k != p.id@ && after.dom().contains(k) {
                        assert(before.dom().contains(k));
                    }
                    if k == p.id@ {
                        assert(all[i as int].id@ == k);
                    }
                }
                assert forall|k: Seq<char>| #[trigger] after.dom().contains(k) implies exists|j: int|
                    0 <= j < i + 1 && #[trigger] all[j].id@ == k && after[k]@ == all[j]@ && forall|
                        l: int,
                    |
                        j < l < i + 1 ==> #[trigger] all[l].id@ != k by {
                    if k == p.id@ {
                        assert(all[i as int].id@ == k);
                    } else {
                        assert(before.dom().contains(k));
                        let j = choose|j: int|
                            0 <= j < i && #[trigger] all[j].id@ == k && before[k]@ == all[j]@
                                && forall|l: int| j < l < i ==> #[trigger] all[l].id@ != k;
                        assert(after[k] == before[k]);
                        assert forall|l: int| j < l < i + 1 implies #[trigger] all[l].id@ != k by {
                            if l == i {
                                assert(all[l] == p);
                            }
                        }
                    }
                }
            }
            i = i + 1;
        }
        let r = Store { profiles: out, active };
        proof {
            assert forall|k: Seq<char>| #[trigger] r@.profiles.dom().contains(k) implies exists|i: int|
                0 <= i < all.len() && #[trigger] all[i].id@ == k && r@.profiles[k] == all[i]@
                    && forall|j: int| i < j < all.len() ==> #[trigger] all[j].id@ != k by {
                assert(as_map(out@).dom().contains(k));
            }
        }
        r
    }

    /// The profile stored under `profile_id`, if any.
    pub fn get(&self, profile_id: &str) -> (r: Option<&Profile>)
        ensures
            match r {
                Some(p) => self@.profiles.dom().contains(profile_id@) && p@
                    == self@.profiles[profile_id@],
                None => !self@.profiles.dom().contains(profile_id@),
            },
    {
        proof {
            use_type_invariant(self);
        }
        match find(&self.profiles, profile_id) {
            Some(i) => Some(&self.profiles[i]),
            None => None,
        }
    }
}

/// In a sorted, non-empty sequence the first entry's key is the least key of its map.
proof fn lemma_least_key(s: Seq<Profile>)
    requires
        sorted(s),
        s.len() > 0,
    ensures
        as_map(s).map_values(|p: Profile| p@).dom().contains(s[0].id@),
        least_key(as_map(s).map_values(|p: Profile| p@)) == s[0].id@,
{
    let m = as_map(s).map_values(|p: Profile| p@);
    let k0 = s[0].id@;
    lemma_map_at(s, 0);
    assert forall|k2: Seq<char>| #[trigger] m.dom().contains(k2) implies k2 == k0 || key_lt(k0, k2) by {
        lemma_map_dom(s, k2);
        let j = choose|j: int| 0 <= j < s.len() && #[trigger] s[j].key_spec() == k2;
        if j != 0 {
            assert(key_lt(s[0].key_spec(), s[j].key_spec()));
        }
    }
    assert(m.dom().contains(k0) && forall|k2: Seq<char>|
        #[trigger] m.dom().contains(k2) ==> k2 == k0 || key_lt(k0, k2));
    let w = least_key(m);
    assert(m.dom().contains(w) && forall|k2: Seq<char>|
        #[trigger] m.dom().contains(k2) ==> k2 == w || key_lt(w, k2));
    if w != k0 {
        assert(key_lt(w, k0));
        assert(key_lt(k0, w));
        lemma_key_lt_asymmetric(w, k0);
    }
}

impl Store {
    /// The active profile, falling back to the first in ID order if the active ID has gone
    /// stale: a deck with *a* layout is far more useful than one refusing to start because a
    /// profile was deleted without the pointer being moved.
    pub fn active(&self) -> (r: Option<&Profile>)
        ensures
            match r {
                Some(p) => active_spec(self@) == Some(p@),
                None => active_spec(self@) is None,
            },
    {
        proof {
            use_type_invariant(self);
        }
        match find(&self.profiles, self.active.as_str()) {
            Some(i) => Some(&self.profiles[i]),
            None => {
                if self.profiles.len() > 0 {
                    proof {
                        lemma_least_key(self.profiles@);
                        lemma_map_at(self.profiles@, 0);
                    }
                    Some(&self.profiles[0])
                } else {
                    proof {
                        assert forall|k: Seq<char>| !(#[trigger] self@.profiles.dom().contains(k)) by {
                            lemma_map_dom(self.profiles@, k);
                        }
                    }
                    None
                }
            },
        }
    }

    /// The ID of the active profile, or `p_default` when there is none.
    pub fn active_id(&self) -> (r: String)
        ensures
            r@ == active_id_spec(self@),
    {
        match self.active() {
            Some(p) => p.id.clone(),
            None => owned(DEFAULT_PROFILE_ID),
        }
    }

    /// The `profile.list` payload: every profile in ID order, the active one flagged.
    pub fn list(&self) -> (r: Vec<ProfileSummary>)
        ensures
            is_profile_listing(r@, self@),
    {
        proof {
            use_type_invariant(self);
        }
        let active = self.active_id();
        let mut out: Vec<ProfileSummary> = Vec::new();
        let mut i: usize = 0;
        while i < self.profiles.len()
            invariant
                sorted(self.profiles@),
                active@ == active_id_spec(self@),
                i <= self.profiles@.len(),
                out@.len() == i,
                forall|j: int|
                    0 <= j < i ==> {
                        &&& (#[trigger] out@[j]).id@ == self.profiles@[j].id@
                        &&& out@[j].name@ == self.profiles@[j].name@
                        &&& out@[j].active == (out@[j].id@ == active_id_spec(self@))
                    },
            decreases self.profiles@.len() - i,
        {
            let p = &self.profiles[i];
            let is_active = str_eq(p.id.as_str(), active.as_str());
            out.push(ProfileSummary { id: p.id.clone(), name: p.name.clone(), active: is_active });
            i = i + 1;
        }
        proof {
            assert forall|a: int, b: int| 0 <= a < b < out@.len() implies key_lt(
                #[trigger] out@[a].id@,
                #[trigger] out@[b].id@,
            ) by {
                assert(key_lt(self.profiles@[a].key_spec(), self.profiles@[b].key_spec()));
            }
            assert forall|a: int| 0 <= a < out@.len() implies {
                &&& self@.profiles.dom().contains(#[trigger] out@[a].id@)
                &&& out@[a].name@ == self@.profiles[out@[a].id@].name
                &&& out@[a].active == (out@[a].id@ == active_id_spec(self@))
            } by {
                lemma_map_at(self.profiles@, a);
            }
            assert forall|k: Seq<char>| #[trigger] self@.profiles.dom().contains(k) implies exists|a: int|
                0 <= a < out@.len() && #[trigger] out@[a].id@ == k by {
                lemma_map_dom(self.profiles@, k);
                let a = choose|a: int| 0 <= a < self.profiles@.len() && #[trigger] self.profiles@[a].key_spec() == k;
                assert(out@[a].id@ == k);
            }
        }
        out
    }

    /// Validates and stores a profile, replacing any under the same ID.
    ///
    /// `role` is the caller's, so a button cannot be *stored* carrying an action its author
    /// could not invoke. The engine re-checks at press time regardless; this stops the profile
    /// existing in the first place, which is a better error than a button that fails when
    /// pressed.
    pub fn set(&mut self, profile: Profile, role: Role) -> (r: Result<(), EngineError>)
        ensures
            store_set_contract(old(self)@, final(self)@, profile@, role, r),
    {
        proof {
            use_type_invariant(&*self);
        }
        match validate(&profile, role) {
            Ok(()) => {},
            Err(e) => {
                return Err(e);
            },
        }
        let ghost pv = profile@;
        let ghost before = self.profiles@;
        let mut profiles: Vec<Profile> = Vec::new();
        std::mem::swap(&mut profiles, &mut self.profiles);
        upsert(&mut profiles, profile);
        self.profiles = profiles;
        proof {
            assert(self@.profiles =~= old(self)@.profiles.insert(pv.id, pv));
        }
        Ok(())
    }

    /// Deletes a profile. The last one cannot go: a deck with no layout has nothing to show,
    /// and no way back through the panel. Deleting the active profile moves the pointer to the
    /// first remaining one in ID order rather than leaving it dangling.
    pub fn delete(&mut self, profile_id: &str) -> (r: Result<(), EngineError>)
        ensures
            store_delete_contract(old(self)@, final(self)@, profile_id@, r),
    {
        proof {
            use_type_invariant(&*self);
        }
        let i = match find(&self.profiles, profile_id) {
            Some(i) => i,
            None => {
                return Err(EngineError::wire(ErrorCode::NotFound, String::from_str("no such profile")));
            },
        };
        if self.profiles.len() == 1 {
            proof {
                assert forall|k: Seq<char>| #[trigger] old(self)@.profiles.dom().contains(k) implies k
                    == profile_id@ by {
                    lemma_map_dom(self.profiles@, k);
                }
            }
            return Err(
                EngineError::wire(
                    ErrorCode::BadRequest,
                    String::from_str("this is the only profile; a deck with no layout has nothing to show"),
                ),
            );
        }
        proof {
            let other = if i == 0 { 1int } else { 0int };
            lemma_map_at(self.profiles@, other);
            assert(self.profiles@[other].id@ != profile_id@) by {
                if self.profiles@[other].id@ == profile_id@ {
                    crate::keyed::lemma_sorted_unique(self.profiles@, other, i as int);
                }
            }
            assert(old(self)@.profiles.dom().contains(self.profiles@[other].id@));
            assert(!(forall|k: Seq<char>|
                #[trigger] old(self)@.profiles.dom().contains(k) ==> k == profile_id@));
        }
        let ghost before = self.profiles@;
        let mut profiles: Vec<Profile> = Vec::new();
        std::mem::swap(&mut profiles, &mut self.profiles);
        let removed = remove_at(&mut profiles, i);
        self.profiles = profiles;
        proof {
            assert(self@.profiles =~= old(self)@.profiles.remove(profile_id@));
            lemma_least_key(self.profiles@);
        }
        let ghost first = self.profiles@[0].id@;
        if str_eq(self.active.as_str(), profile_id) {
            self.active = self.profiles[0].id.clone();
        }
        proof {
            assert(self@.profiles.dom().contains(first));
            assert(self@.profiles == old(self)@.profiles.remove(profile_id@));
            if old(self)@.active == profile_id@ {
                assert(self@.active == first);
            } else {
                assert(self@.active == old(self)@.active);
            }
        }
        Ok(())
    }

    /// Points the active profile at `profile_id`, which must exist.
    pub fn activate(&mut self, profile_id: &str) -> (r: Result<(), EngineError>)
        ensures
            store_activate_contract(old(self)@, final(self)@, profile_id@, r),
    {
        proof {
            use_type_invariant(&*self);
        }
        match find(&self.profiles, profile_id) {
            Some(i) => {
                proof {
                    lemma_map_at(self.profiles@, i as int);
                }
                self.active = owned(profile_id);
                Ok(())
            },
            None => Err(EngineError::wire(ErrorCode::NotFound, String::from_str("no such profile"))),
        }
    }

    /// The profiles in ID order and the active pointer, for writing `profiles.json`.
    pub fn parts(&self) -> (r: (&[Profile], &str))
        ensures
            r.0@ == self.entries(),
            r.1@ == self@.active,
    {
        (self.profiles.as_slice(), self.active.as_str())
    }
}

/// Once the active pointer names a stored profile, storing a profile keeps it so.
pub proof fn law_set_keeps_the_active_profile_real(
    before: StoreView,
    after: StoreView,
    profile: ProfileView,
    role: Role,
    r: Result<(), EngineError>,
)
    requires
        before.profiles.dom().contains(before.active),
        store_set_contract(before, after, profile, role, r),
    ensures
        after.profiles.dom().contains(after.active),
        active_spec(after) == Some(after.profiles[after.active]),
{
}

/// Once the active pointer names a stored profile, activating keeps it so, whether or not the
/// activation succeeds.
pub proof fn law_activate_keeps_the_active_profile_real(
    before: StoreView,
    after: StoreView,
    id: Seq<char>,
    r: Result<(), EngineError>,
)
    requires
        before.profiles.dom().contains(before.active),
        store_activate_contract(before, after, id, r),
    ensures
        after.profiles.dom().contains(after.active),
{
}

/// Once the active pointer names a stored profile, deleting keeps it so: deleting the active
/// profile moves the pointer to one that remains, and no deletion ever leaves the store empty.
pub proof fn law_delete_keeps_the_active_profile_real(
    before: StoreView,
    after: StoreView,
    id: Seq<char>,
    r: Result<(), EngineError>,
)
    requires
        before.profiles.dom().contains(before.active),
        store_delete_contract(before, after, id, r),
    ensures
        after.profiles.dom().contains(after.active),
        exists|k: Seq<char>| #[trigger] after.profiles.dom().contains(k),
{
    if r is Ok && before.active != id {
        assert(after.profiles.dom().contains(before.active));
    }
}

} // verus!
