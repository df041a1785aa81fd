//! Named shell actions: the most locked-down state in the engine. A client invokes an action by
//! name, never by command, and an action is a program and its separate arguments, never a
//! string for a shell. Unlike the profile store this ships no defaults: a pre-defined command
//! runnable by any paired device the moment the feature is switched on is exactly the surprise
//! this must not have. Running an action, and reading and writing `actions.json`, are the
//! caller's part.
use vstd::prelude::*;

use crate::engine::error::{is_wire_error, EngineError};
use crate::keyed::{as_map, find, key_lt, lemma_map_at, lemma_map_dom, remove_at, sorted, upsert, Keyed};
use crate::protocol::action::{Action, ActionView};
use crate::protocol::envelope::ErrorCode;
use crate::text::{is_blank, is_blank_spec};

verus! {

impl Keyed for Action {
    open spec fn key_spec(&self) -> Seq<char> {
        self.id@
    }

    fn key(&self) -> (r: &str) {
        self.id.as_str()
    }
}

pub open spec fn missing_id_message() -> Seq<char> {
    "an action needs an id"@
}

pub open spec fn missing_command_message() -> Seq<char> {
    "an action needs a command to run"@
}

pub open spec fn no_such_action_message() -> Seq<char> {
    "no such action"@
}

/// What is wrong with an action, if anything: a blank ID, or a blank command.
pub open spec fn action_def_problem(a: ActionView) -> Option<Seq<char>> {
    if is_blank_spec(a.id) {
        Some(missing_id_message())
    } else if is_blank_spec(a.command) {
        Some(missing_command_message())
    } else {
        None
    }
}

/// An action needs a non-blank ID and a non-blank command.
pub fn validate_action(action: &Action) -> (r: Result<(), EngineError>)
    ensures
        match action_def_problem(action@) {
            None => r is Ok,
            Some(m) => r matches Err(e) && is_wire_error(e, ErrorCode::BadRequest, m),
        },
{
    if is_blank(action.id.as_str()) {
        return Err(EngineError::wire(ErrorCode::BadRequest, String::from_str("an action needs an id")));
    }
    if is_blank(action.command.as_str()) {
        return Err(
            EngineError::wire(ErrorCode::BadRequest, String::from_str("an action needs a command to run")),
        );
    }
    Ok(())
}

/// `r` lists `m`: every action once, in ID order.
pub open spec fn is_action_listing(r: Seq<Action>, m: Map<Seq<char>, ActionView>) -> bool {
    &&& forall|i: int, j: int| 0 <= i < j < r.len() ==> key_lt(#[trigger] r[i].id@, #[trigger] r[j].id@)
    &&& forall|i: int| 0 <= i < r.len() ==> m.dom().contains(#[trigger] r[i].id@) && r[i]@ == m[r[i].id@]
    &&& forall|k: Seq<char>|
        #[trigger] m.dom().contains(k) ==> exists|i: int| 0 <= i < r.len() && #[trigger] r[i].id@ == k
}

/// What `set` does: an action with a blank ID or command is refused and nothing changes;
/// otherwise it is stored under its ID, replacing any action there.
pub open spec fn actions_set_contract(
    before: Map<Seq<char>, ActionView>,
    after: Map<Seq<char>, ActionView>,
    action: ActionView,
    r: Result<(), EngineError>,
) -> bool {
    match action_def_problem(action) {
        None => r is Ok && after == before.insert(action.id, action),
        Some(m) => r matches Err(e) && is_wire_error(e, ErrorCode::BadRequest, m) && after == before,
    }
}

/// What `delete` does: removes a defined action; an unknown ID is `NOT_FOUND`.
pub open spec fn actions_delete_contract(
    before: Map<Seq<char>, ActionView>,
    after: Map<Seq<char>, ActionView>,
    id: Seq<char>,
    r: Result<(), EngineError>,
) -> bool {
    &&& before.dom().contains(id) ==> (r is Ok && after == before.remove(id))
    &&& !before.dom().contains(id) ==> (r matches Err(e) && is_wire_error(
        e,
        ErrorCode::NotFound,
        no_such_action_message(),
    ) && after == before)
}

/// Named actions, kept in ID order.
pub struct ActionStore {
    actions: Vec<Action>,
}

impl View for ActionStore {
    type V = Map<Seq<char>, ActionView>;

    closed spec fn view(&self) -> Map<Seq<char>, ActionView> {
        as_map(self.actions@).map_values(|a: Action| a@)
    }
}

impl ActionStore {
    #[verifier::type_invariant]
    spec fn inv(&self) -> bool {
        sorted(self.actions@)
    }

    /// A fresh install: no actions at all.
    pub fn new() -> (r: Self)
        ensures
            r@ == Map::<Seq<char>, ActionView>::empty(),
    {
        let r = ActionStore { actions: Vec::new() };
        assert(r@ =~= Map::<Seq<char>, ActionView>::empty());
        r
    }

    /// A store holding what `actions.json` held. The file is a map by ID, so a later action
    /// under an ID replaces an earlier one.
    pub fn from_actions(actions: &[Action]) -> (r: Self)
        ensures
            forall|k: Seq<char>|
                #[trigger] r@.dom().contains(k) <==> exists|i: int|
                    0 <= i < actions@.len() && #[trigger] actions@[i].id@ == k,
            forall|k: Seq<char>|
                #[trigger] r@.dom().contains(k) ==> exists|i: int|
                    0 <= i < actions@.len() && #[trigger] actions@[i].id@ == k && r@[k]
                        == actions@[i]@ && forall|j: int|
                        i < j < actions@.len() ==> #[trigger] actions@[j].id@ != k,
    {
        let mut out: Vec<Action> = Vec::new();
        let mut i: usize = 0;
        while i < actions.len()
            invariant
                i <= actions@.len(),
                sorted(out@),
                forall|k: Seq<char>|
                    #[trigger] as_map(out@).dom().contains(k) <==> exists|j: int|
                        0 <= j < i && #[trigger] actions@[j].id@ == k,
                forall|k: Seq<char>|
                    #[trigger] as_map(out@).dom().contains(k) ==> exists|j: int|
                        0 <= j < i && #[trigger] actions@[j].id@ == k && as_map(out@)[k]@
                            == actions@[j]@ && forall|l: int|
                            j < l < i ==> #[trigger] actions@[l].id@ != k,
            decreases actions@.len() - i,
        {
            let ghost before = as_map(out@);
            let copy = actions[i].clone();
            upsert(&mut out, copy);
            proof {
                let after = as_map(out@);
                assert forall|k: Seq<char>|
                    #[trigger] after.dom().contains(k) <==> exists|j: int|
                        0 <= j < i + 1 && #[trigger] actions@[j].id@ == k by {
                    if k != copy.id@ && after.dom().contains(k) {
                        assert(before.dom().contains(k));
                    }
                    if k == copy.id@ {
                        assert(actions@[i as int].id@ == k);
                    }
                }
                assert forall|k: Seq<char>| #[trigger] after.dom().contains(k) implies exists|j: int|
                    0 <= j < i + 1 && #[trigger] actions@[j].id@ == k && after[k]@ == actions@[j]@
                        && forall|l: int| j < l < i + 1 ==> #[trigger] actions@[l].id@ != k by {
                    if k == copy.id@ {
                        assert(actions@[i as int].id@ == k);
                    } else {
                        assert(before.dom().contains(k));
                        let j = choose|j: int|
                            0 <= j < i && #[trigger] actions@[j].id@ == k && before[k]@
                                == actions@[j]@ && forall|l: int|
                                j < l < i ==> #[trigger] actions@[l].id@ != k;
                        assert(after[k] == before[k]);
                        assert forall|l: int| j < l < i + 1 implies #[trigger] actions@[l].id@
                            != k by {
                            if l == i {
                                assert(actions@[l].id@ == copy.id@);
                            }
                        }
                    }
                }
            }
            i = i + 1;
        }
        let r = ActionStore { actions: out };
        proof {
            assert forall|k: Seq<char>| #[trigger] r@.dom().contains(k) implies exists|j: int|
                0 <= j < actions@.len() && #[trigger] actions@[j].id@ == k && r@[k] == actions@[j]@
                    && forall|l: int| j < l < actions@.len() ==> #[trigger] actions@[l].id@ != k by {
                assert(as_map(out@).dom().contains(k));
            }
        }
        r
    }

    /// The action defined under `action_id`, if any.
    pub fn get(&self, action_id: &str) -> (r: Option<&Action>)
        ensures
            match r {
                Some(a) => self@.dom().contains(action_id@) && a@ == self@[action_id@],
                None => !self@.dom().contains(action_id@),
            },
    {
        proof {
            use_type_invariant(self);
        }
        match find(&self.actions, action_id) {
            Some(i) => Some(&self.actions[i]),
            None => None,
        }
    }

    /// Every action, in ID order.
    pub fn list(&self) -> (r: Vec<Action>)
        ensures
            is_action_listing(r@, self@),
    {
        proof {
            use_type_invariant(self);
        }
        let mut out: Vec<Action> = Vec::new();
        let mut i: usize = 0;
        while i < self.actions.len()
            invariant
                sorted(self.actions@),
                i <= self.actions@.len(),
                out@.len() == i,
                forall|j: int| 0 <= j < i ==> (#[trigger] out@[j])@ == self.actions@[j]@,
            decreases self.actions@.len() - i,
        {
            out.push(self.actions[i].clone());
            i = i + 1;
        }
        proof {
            assert forall|a: int, b: int| 0 <= a < b < out@.len() implies key_lt(
                #[trigger] out@[a].id@,
                #[trigger] out@[b].id@,
            ) by {
                assert(out@[a]@ == self.actions@[a]@);
                assert(out@[b]@ == self.actions@[b]@);
                assert(key_lt(self.actions@[a].key_spec(), self.actions@[b].key_spec()));
            }
            assert forall|a: int| 0 <= a < out@.len() implies self@.dom().contains(
                #[trigger] out@[a].id@,
            ) && out@[a]@ == self@[out@[a].id@] by {
                assert(out@[a]@ == self.actions@[a]@);
                lemma_map_at(self.actions@, a);
            }
            assert forall|k: Seq<char>| #[trigger] self@.dom().contains(k) implies exists|a: int|
                0 <= a < out@.len() && #[trigger] out@[a].id@ == k by {
                lemma_map_dom(self.actions@, k);
                let a = choose|a: int|
                    0 <= a < self.actions@.len() && #[trigger] self.actions@[a].key_spec() == k;
                assert(out@[a]@ == self.actions@[a]@);
            }
        }
        out
    }

    /// Validates and stores an action, replacing any under the same ID.
    pub fn set(&mut self, action: Action) -> (r: Result<(), EngineError>)
        ensures
            actions_set_contract(old(self)@, final(self)@, action@, r),
    {
        proof {
            use_type_invariant(&*self);
        }
        match validate_action(&action) {
            Ok(()) => {},
            Err(e) => {
                return Err(e);
            },
        }
        let ghost av = action@;
        let mut actions: Vec<Action> = Vec::new();
        std::mem::swap(&mut actions, &mut self.actions);
        upsert(&mut actions, action);
        self.actions = actions;
        proof {
            assert(self@ =~= old(self)@.insert(av.id, av));
        }
        Ok(())
    }

    /// Deletes an action. Profiles naming it are deliberately left alone: the engine re-checks
    /// at press time, so a stale button fails with `NOT_FOUND` rather than the delete having
    /// to rewrite every layout that might mention it.
    pub fn delete(&mut self, action_id: &str) -> (r: Result<(), EngineError>)
        ensures
            actions_delete_contract(old(self)@, final(self)@, action_id@, r),
    {
        proof {
            use_type_invariant(&*self);
        }
        match find(&self.actions, action_id) {
            Some(i) => {
                let mut actions: Vec<Action> = Vec::new();
                std::mem::swap(&mut actions, &mut self.actions);
                let removed = remove_at(&mut actions, i);
                self.actions = actions;
                proof {
                    assert(self@ =~= old(self)@.remove(action_id@));
                }
                Ok(())
            },
            None => Err(EngineError::wire(ErrorCode::NotFound, String::from_str("no such action"))),
        }
    }
}

} // verus!
