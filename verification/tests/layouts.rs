use muxdeck::engine::actions::ActionStore;
use muxdeck::engine::registry::Registry;
use muxdeck::engine::store::{default_profile, validate, Store, DEFAULT_PROFILE_ID};
use muxdeck::protocol::action::Action;
use muxdeck::protocol::envelope::{ErrorCode, KnownOp, Op};
use muxdeck::protocol::profile::{Button, ButtonAction, Grid, Haptic, Page, Position, Profile};
use muxdeck::protocol::session::{Platform, Role};

fn simple(id: &str) -> Profile {
    Profile {
        id: id.to_string(),
        name: "Test".into(),
        grid: Grid { cols: 2, rows: 1 },
        pages: vec![Page { id: "pg_1".into(), name: "Main".into(), buttons: vec![] }],
    }
}

fn button(id: &str, col: u16, row: u16, on_tap: Option<ButtonAction>) -> Button {
    Button {
        id: id.into(),
        pos: Position { col, row },
        label: id.into(),
        icon: "circle".into(),
        color: "#000000".into(),
        haptic: Haptic::Off,
        on_tap,
        on_long_press: None,
    }
}

/// What writing the store out and reading it back produces.
fn reload(store: &Store) -> Store {
    let (profiles, active) = store.parts();
    let copies: Vec<Profile> = profiles
        .iter()
        .map(|p| Profile {
            id: p.id.clone(),
            name: p.name.clone(),
            grid: p.grid,
            pages: p
                .pages
                .iter()
                .map(|g| Page {
                    id: g.id.clone(),
                    name: g.name.clone(),
                    buttons: g
                        .buttons
                        .iter()
                        .map(|b| Button {
                            id: b.id.clone(),
                            pos: b.pos,
                            label: b.label.clone(),
                            icon: b.icon.clone(),
                            color: b.color.clone(),
                            haptic: b.haptic,
                            on_tap: b.on_tap.clone(),
                            on_long_press: b.on_long_press.clone(),
                        })
                        .collect(),
                })
                .collect(),
        })
        .collect();
    Store::from_parts(copies, active.to_string())
}

// --- the store ----------------------------------------------------------------------------

#[test]
fn a_fresh_store_ships_a_usable_default() {
    let store = Store::fresh();
    let active = store.active().expect("a default profile");
    assert_eq!(active.id, DEFAULT_PROFILE_ID);
    assert_eq!(active.grid.cols * active.grid.rows, 15);
    assert!(!active.pages[0].buttons.is_empty());
}

#[test]
fn the_default_profile_passes_its_own_validation() {
    validate(&default_profile(), Role::Admin).expect("the default must be valid");
    validate(&default_profile(), Role::Deck).expect("and a deck could have stored it");
}

#[test]
fn profiles_survive_a_reload() {
    let mut store = Store::fresh();
    store.set(simple("p_test"), Role::Admin).expect("set");
    let reloaded = reload(&store);
    assert!(reloaded.get("p_test").is_some());
    assert_eq!(reloaded.get("p_test"), store.get("p_test"));
    assert_eq!(reloaded.active_id(), store.active_id());
}

#[test]
fn activation_moves_the_active_pointer() {
    let mut store = Store::fresh();
    store.set(simple("p_other"), Role::Admin).expect("set");

    store.activate("p_other").expect("activate");
    assert_eq!(store.active_id(), "p_other");
    assert!(store.list().iter().any(|p| p.id == "p_other" && p.active));

    assert!(store.activate("p_nope").is_err());
    assert_eq!(store.active_id(), "p_other");
}

#[test]
fn deleting_the_active_profile_moves_the_pointer_somewhere_real() {
    let mut store = Store::fresh();
    store.set(simple("p_other"), Role::Admin).expect("set");
    store.activate("p_other").expect("activate");

    store.delete("p_other").expect("delete");
    assert_ne!(store.active_id(), "p_other");
    assert!(store.active().is_some(), "a dangling active id would leave no layout");
    assert_eq!(store.active_id(), DEFAULT_PROFILE_ID);
}

#[test]
fn the_last_profile_cannot_be_deleted() {
    let mut store = Store::fresh();
    let err = store.delete(DEFAULT_PROFILE_ID).expect_err("must refuse");
    assert_eq!(err.to_payload().code, ErrorCode::BadRequest);
}

#[test]
fn deleting_an_unknown_profile_is_not_found() {
    let mut store = Store::fresh();
    store.set(simple("p_other"), Role::Admin).expect("set");
    let err = store.delete("p_ghost").expect_err("missing");
    assert_eq!(err.to_payload().code, ErrorCode::NotFound);
    assert_eq!(store.list().len(), 2);
}

#[test]
fn the_list_is_in_id_order_and_marks_the_active_profile() {
    let mut store = Store::fresh();
    store.set(simple("p_b"), Role::Admin).expect("set");
    store.set(simple("p_a"), Role::Admin).expect("set");
    let list = store.list();
    let ids: Vec<&str> = list.iter().map(|s| s.id.as_str()).collect();
    assert_eq!(ids, vec!["p_a", "p_b", "p_default"]);
    assert_eq!(list.iter().filter(|s| s.active).count(), 1);
}

// --- validation ---------------------------------------------------------------------------

#[test]
fn an_empty_pages_array_is_rejected() {
    let mut profile = simple("p_x");
    profile.pages.clear();
    assert_eq!(validate(&profile, Role::Admin).expect_err("no pages").to_payload().code, ErrorCode::BadRequest);
}

#[test]
fn a_position_outside_the_grid_is_rejected() {
    let mut profile = simple("p_x");
    profile.pages[0].buttons.push(button("b_1", 9, 0, None));
    let err = validate(&profile, Role::Admin).expect_err("out of bounds");
    assert!(err.to_payload().message.contains("outside"));
}

#[test]
fn two_buttons_in_the_same_cell_are_rejected() {
    let mut profile = simple("p_x");
    for id in ["b_1", "b_2"] {
        profile.pages[0].buttons.push(button(id, 0, 0, None));
    }
    let err = validate(&profile, Role::Admin).expect_err("overlap");
    assert!(err.to_payload().message.contains("share position"));
}

#[test]
fn a_duplicate_button_id_is_rejected_across_pages() {
    let mut profile = simple("p_x");
    profile.pages[0].buttons.push(button("b_dup", 0, 0, None));
    profile.pages.push(Page { id: "pg_2".into(), name: "Second".into(), buttons: vec![button("b_dup", 1, 0, None)] });
    let err = validate(&profile, Role::Admin).expect_err("duplicate id");
    assert!(err.to_payload().message.contains("duplicate button id"));
}

#[test]
fn a_duplicate_page_id_is_rejected() {
    let mut profile = simple("p_x");
    profile.pages.push(Page { id: "pg_1".into(), name: "Clash".into(), buttons: vec![] });
    let err = validate(&profile, Role::Admin).expect_err("duplicate page");
    assert!(err.to_payload().message.contains("duplicate page id"));
}

#[test]
fn an_unknown_op_in_a_button_action_is_rejected() {
    let mut profile = simple("p_x");
    profile.pages[0].buttons.push(button(
        "b_1",
        0,
        0,
        Some(ButtonAction { op: Op::parse("input.telepathy"), d: "{}".into() }),
    ));
    let err = validate(&profile, Role::Admin).expect_err("unknown op");
    assert!(err.to_payload().message.contains("unknown op"));
}

#[test]
fn a_deck_may_not_store_an_admin_only_action() {
    let mut profile = simple("p_x");
    profile.pages[0].buttons.push(button(
        "b_1",
        0,
        0,
        Some(ButtonAction { op: Op::of(KnownOp::PairBegin), d: "{}".into() }),
    ));
    assert!(validate(&profile, Role::Deck).is_err(), "a deck must not store pair.begin");
    assert!(validate(&profile, Role::Admin).is_ok(), "the panel legitimately may, since it can invoke it");
}

#[test]
fn an_ordinary_input_action_is_accepted_for_either_role() {
    let mut profile = simple("p_x");
    let mut b = button(
        "b_1",
        0,
        0,
        Some(ButtonAction { op: Op::of(KnownOp::InputKeyCombo), d: "{\"keys\":[\"CONTROL\",\"C\"]}".into() }),
    );
    b.icon = "content_copy".into();
    b.color = "#2D6CDF".into();
    b.haptic = Haptic::Light;
    profile.pages[0].buttons.push(b);
    validate(&profile, Role::Deck).expect("a deck may store an input action");
    validate(&profile, Role::Admin).expect("so may the panel");
}

#[test]
fn an_event_or_handshake_op_is_never_embeddable() {
    let mut profile = simple("p_x");
    profile.pages[0].buttons.push(button(
        "b_1",
        0,
        0,
        Some(ButtonAction { op: Op::of(KnownOp::SessionHello), d: "{}".into() }),
    ));
    assert!(validate(&profile, Role::Admin).is_err());
}

#[test]
fn a_deck_may_not_store_a_profile_with_admin_actions_through_the_store() {
    let mut store = Store::fresh();
    let mut profile = simple("p_x");
    profile.pages[0].buttons.push(button(
        "b_1",
        0,
        0,
        Some(ButtonAction { op: Op::of(KnownOp::SettingsSet), d: "{}".into() }),
    ));
    assert!(store.set(profile, Role::Deck).is_err());
    assert!(store.get("p_x").is_none(), "a refused profile is not stored");
}

// --- actions ------------------------------------------------------------------------------

fn action(id: &str) -> Action {
    Action { id: id.to_string(), name: "Echo".to_string(), command: "echo".to_string(), args: vec!["hi".to_string()], cwd: None }
}

#[test]
fn a_fresh_install_defines_no_actions() {
    let store = ActionStore::new();
    assert!(store.list().is_empty());
}

#[test]
fn setting_then_getting_round_trips_through_the_file() {
    let mut store = ActionStore::new();
    store.set(action("a_one")).expect("set");
    let reloaded = ActionStore::from_actions(&store.list());
    assert_eq!(reloaded.get("a_one").map(|a| a.command.as_str()), Some("echo"));
}

#[test]
fn set_replaces_by_id_rather_than_adding_a_duplicate() {
    let mut store = ActionStore::new();
    store.set(action("a_one")).expect("set");
    let mut replacement = action("a_one");
    replacement.name = "Renamed".to_string();
    store.set(replacement).expect("replace");
    assert_eq!(store.list().len(), 1);
    assert_eq!(store.get("a_one").map(|a| a.name.as_str()), Some("Renamed"));
}

#[test]
fn an_action_with_no_command_is_refused() {
    let mut store = ActionStore::new();
    let mut empty = action("a_one");
    empty.command = "   ".to_string();
    let error = store.set(empty).expect_err("must be refused");
    assert_eq!(error.to_payload().code, ErrorCode::BadRequest);
}

#[test]
fn deleting_something_that_is_not_there_is_not_found() {
    let mut store = ActionStore::new();
    let error = store.delete("a_missing").expect_err("must be refused");
    assert_eq!(error.to_payload().code, ErrorCode::NotFound);
}

#[test]
fn arguments_stay_arguments() {
    let mut store = ActionStore::new();
    let mut dangerous = action("a_one");
    dangerous.args = vec!["; rm -rf ~".to_string()];
    store.set(dangerous).expect("set");
    assert_eq!(store.get("a_one").map(|a| a.args.as_slice()), Some(["; rm -rf ~".to_string()].as_slice()));
}

// --- the device registry ------------------------------------------------------------------

fn pubkey(seed: u8) -> [u8; 32] {
    ed25519_dalek::SigningKey::from_bytes(&[seed; 32]).verifying_key().to_bytes()
}

#[test]
fn insert_then_reload_keeps_the_device() {
    let mut registry = Registry::new();
    let id = registry.insert(&pubkey(7), "Cipher's iPad".into(), Platform::Ios).expect("insert");
    let stored: Vec<_> = registry.devices().iter().map(|d| d.clone_device()).collect();
    let reloaded = Registry::from_devices(&stored);
    let device = reloaded.get(&id).expect("device survives a reload");
    assert_eq!(device.name, "Cipher's iPad");
    assert_eq!(device.platform, Platform::Ios);
    assert_eq!(reloaded.verifying_key(&id).expect("key"), pubkey(7));
}

#[test]
fn the_device_id_is_derived_from_the_key_not_assigned() {
    let mut registry = Registry::new();
    let first = registry.insert(&pubkey(9), "One".into(), Platform::Android).expect("insert");
    let second = registry.insert(&pubkey(9), "One renamed".into(), Platform::Android).expect("insert again");
    assert_eq!(first, second, "the same key must map to the same device id");
    assert_eq!(registry.list(&[]).len(), 1, "re-pairing the same key must not create a duplicate");
    assert_eq!(registry.get(&first).expect("present").name, "One renamed");
}

#[test]
fn re_pairing_keeps_the_first_pairing_time() {
    let mut registry = Registry::new();
    let id = registry.insert_at(&pubkey(4), "Tablet".into(), Platform::Android, 100).expect("insert");
    let again = registry.insert_at(&pubkey(4), "Tablet".into(), Platform::Ios, 200).expect("insert again");
    assert_eq!(id, again);
    let device = registry.get(&id).expect("present");
    assert_eq!(device.paired_at, 100, "the first pairing time is kept");
    assert_eq!(device.last_seen, 200);
    assert_eq!(device.platform, Platform::Ios);
    assert!(registry.touch_at(&id, 300));
    assert_eq!(registry.get(&id).expect("present").last_seen, 300);
    assert!(!registry.touch_at("d_0000000000000000", 300));
}

#[test]
fn revoke_removes_and_reports_whether_it_existed() {
    let mut registry = Registry::new();
    let id = registry.insert(&pubkey(3), "Gone".into(), Platform::Linux).expect("insert");
    assert!(registry.revoke(&id));
    assert!(!registry.revoke(&id));
    assert!(registry.is_empty());
}

#[test]
fn an_unknown_device_is_a_wire_error_not_a_panic() {
    let registry = Registry::new();
    let err = registry.verifying_key("d_0000000000000000").expect_err("unknown device");
    assert_eq!(err.to_payload().code, ErrorCode::UnknownDevice);
}

#[test]
fn list_layers_live_connection_state_on_top() {
    let mut registry = Registry::new();
    let id = registry.insert(&pubkey(1), "Live".into(), Platform::Windows).expect("insert");
    assert!(!registry.list(&[])[0].connected);
    assert!(registry.list(&[id])[0].connected);
}

#[test]
fn a_key_that_is_not_a_curve_point_is_refused() {
    let mut registry = Registry::new();
    assert!(registry.insert(&[1u8; 16], "Short".into(), Platform::Ios).is_err());
    assert!(registry.is_empty());
}
