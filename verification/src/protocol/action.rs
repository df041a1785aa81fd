//! Named shell actions.
use vstd::prelude::*;

verus! {

/// A named, pre-defined action. `command` and `args` are separate fields, never one string,
/// so nothing is ever handed to a shell interpreter.
#[derive(Debug, PartialEq, Eq)]
pub struct Action {
    pub id: String,
    pub name: String,
    pub command: String,
    pub args: Vec<String>,
    /// Working directory, or `None` to inherit the engine's.
    pub cwd: Option<String>,
}

/// The characters of each string, in order.
pub open spec fn strings_view(v: Seq<String>) -> Seq<Seq<char>> {
    v.map_values(|s: String| s@)
}

/// What an action is, independent of how its strings are stored.
pub struct ActionView {
    pub id: Seq<char>,
    pub name: Seq<char>,
    pub command: Seq<char>,
    pub args: Seq<Seq<char>>,
    pub cwd: Option<Seq<char>>,
}

impl View for Action {
    type V = ActionView;

    open spec fn view(&self) -> ActionView {
        ActionView {
            id: self.id@,
            name: self.name@,
            command: self.command@,
            args: strings_view(self.args@),
            cwd: match self.cwd {
                Some(c) => Some(c@),
                None => None,
            },
        }
    }
}

/// A copy of every string, in order.
pub fn clone_strings(v: &Vec<String>) -> (r: Vec<String>)
    ensures
        strings_view(r@) == strings_view(v@),
        r@.len() == v@.len(),
{
    let mut r: Vec<String> = Vec::new();
    let mut i: usize = 0;
    while i < v.len()
        invariant
            i <= v@.len(),
            r@.len() == i,
            forall|j: int| 0 <= j < i ==> r@[j]@ == v@[j]@,
        decreases v@.len() - i,
    {
        r.push(v[i].clone());
        i = i + 1;
    }
    assert(strings_view(r@) =~= strings_view(v@));
    r
}

impl Clone for Action {
    fn clone(&self) -> (r: Self)
        ensures
            r@ == self@,
    {
        Action {
            id: self.id.clone(),
            name: self.name.clone(),
            command: self.command.clone(),
            args: clone_strings(&self.args),
            cwd: match &self.cwd {
                Some(c) => Some(c.clone()),
                None => None,
            },
        }
    }
}

/// `action.run`. The client sends an action name, never a command string.
#[derive(Debug, Clone, PartialEq, Eq)]
pub struct ActionRunRequest {
    pub action_id: String,
}

/// `action.list` response: full actions for both roles; empty when shell actions are off.
#[derive(Debug, Clone, PartialEq, Eq)]
pub struct ActionListResponse {
    pub actions: Vec<Action>,
}

/// `action.set` — admin only. Creates or replaces by `id`.
#[derive(Debug, Clone, PartialEq, Eq)]
pub struct ActionSetRequest {
    pub action: Action,
}

/// `action.delete` — admin only.
#[derive(Debug, Clone, PartialEq, Eq)]
pub struct ActionDeleteRequest {
    pub action_id: String,
}

} // verus!
