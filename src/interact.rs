//! Agents: the actors driven by a player or an AI, which focus on one
//! interactable at a time and can lock on to it.

use vstd::prelude::*;

verus! {

/// An actor connected to a player or AI controller. It focuses on one entity
/// (by its id) and locks on once that entity comes into its focus list.
#[derive(PartialEq, Eq, Structural, Debug, Clone, Copy)]
pub struct Agent {
    locked_on: bool,
    pub focused: Option<u64>,
}

impl Agent {
    /// The entity that the agent focuses on.
    pub closed spec fn spec_focused(&self) -> Option<u64> {
        self.focused
    }

    /// Whether the agent is locked on to its focus.
    pub closed spec fn spec_locked_on(&self) -> bool {
        self.locked_on
    }

    /// An agent focused on nothing and locked on to nothing.
    pub fn new() -> (r: Agent)
        ensures
            !r.spec_locked_on(),
            r.spec_focused() is None,
    {
        Agent { locked_on: false, focused: None }
    }

    /// Whether the agent is locked on to its focus.
    pub fn is_locked_on(&self) -> (r: bool)
        ensures
            r == self.spec_locked_on(),
    {
        self.locked_on
    }

    /// Offers the agent the entities it could focus on. An agent without a
    /// focus takes the first of them; one with a focus keeps it, and locks on
    /// if its focus is among them.
    pub fn lock_on(&mut self, focus_list: Vec<u64>)
        requires
            old(self).spec_focused() is None ==> focus_list@.len() > 0,
        ensures
            match old(self).spec_focused() {
                Some(f) => {
                    &&& final(self).spec_focused() == Some(f)
                    &&& final(self).spec_locked_on() == (old(self).spec_locked_on()
                        || focus_list@.contains(f))
                },
                None => {
                    &&& final(self).spec_focused() == Some(focus_list@[0])
                    &&& final(self).spec_locked_on() == old(self).spec_locked_on()
                },
            },
    {
        match self.focused {
            Some(f) => {
                let mut i: usize = 0;
                while i < focus_list.len()
                    invariant
                        i <= focus_list@.len(),
                        self.focused == Some(f),
                        self.locked_on == (old(self).locked_on || exists|j: int|
                            0 <= j < i && focus_list@[j] == f),
                    decreases focus_list.len() - i,
                {
                    if focus_list[i] == f {
                        self.locked_on = true;
                    }
                    i = i + 1;
                }
            },
            None => {
                self.focused = Some(focus_list[0]);
            },
        }
    }
}

} // verus!
