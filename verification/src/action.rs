//! Transfer actions (copy / move / ask) and action negotiation.
//!
//! A source advertises a set of actions it supports; a destination
//! restricts that set; the negotiated action is the preferred member of
//! the intersection, or none when the intersection is empty.

use vstd::prelude::*;

verus! {

/// A single transfer action both sides can agree on.
#[derive(Clone, Copy, Debug, PartialEq, Eq, Structural)]
pub enum Action {
    Copy,
    Move,
    Ask,
}

/// A set of transfer actions, advertised by a source or accepted by a
/// destination.
#[derive(Clone, Copy, Debug, PartialEq, Eq, Structural)]
pub struct ActionSet {
    pub copy: bool,
    pub mv: bool,
    pub ask: bool,
}

impl ActionSet {
    /// The empty action set.
    pub fn none() -> (r: ActionSet)
        ensures
            r == (ActionSet { copy: false, mv: false, ask: false }),
    {
        ActionSet { copy: false, mv: false, ask: false }
    }

    pub open spec fn spec_is_empty(self) -> bool {
        !self.copy && !self.mv && !self.ask
    }

    /// Whether no action at all is in the set.
    pub fn is_empty(&self) -> (r: bool)
        ensures
            r == self.spec_is_empty(),
    {
        !self.copy && !self.mv && !self.ask
    }

    pub open spec fn spec_intersect(self, other: ActionSet) -> ActionSet {
        ActionSet {
            copy: self.copy && other.copy,
            mv: self.mv && other.mv,
            ask: self.ask && other.ask,
        }
    }

    /// The actions present in both sets.
    pub fn intersect(&self, other: &ActionSet) -> (r: ActionSet)
        ensures
            r == self.spec_intersect(*other),
    {
        ActionSet {
            copy: self.copy && other.copy,
            mv: self.mv && other.mv,
            ask: self.ask && other.ask,
        }
    }

    /// The preferred member of the set: copy over move, move over ask;
    /// none when the set is empty.
    pub fn preferred(&self) -> (r: Option<Action>)
        ensures
            r == spec_preferred_action(*self),
            r is None <==> self.spec_is_empty(),
    {
        if self.copy {
            Some(Action::Copy)
        } else if self.mv {
            Some(Action::Move)
        } else if self.ask {
            Some(Action::Ask)
        } else {
            None
        }
    }

    pub open spec fn spec_contains(self, a: Action) -> bool {
        match a {
            Action::Copy => self.copy,
            Action::Move => self.mv,
            Action::Ask => self.ask,
        }
    }

    /// Whether the given action is in the set.
    pub fn contains(&self, a: Action) -> (r: bool)
        ensures
            r == self.spec_contains(a),
    {
        match a {
            Action::Copy => self.copy,
            Action::Move => self.mv,
            Action::Ask => self.ask,
        }
    }
}

/// The action chosen from a set: copy is preferred over move, move over
/// ask; none when the set is empty.
pub open spec fn spec_preferred_action(s: ActionSet) -> Option<Action> {
    if s.copy {
        Some(Action::Copy)
    } else if s.mv {
        Some(Action::Move)
    } else if s.ask {
        Some(Action::Ask)
    } else {
        None
    }
}

/// The negotiated action for a source advertising `source_actions` and a
/// destination restricted to `dest_actions`: the preferred action of the
/// intersection. The result is `None` exactly when the intersection is
/// empty, in which case no transfer should proceed.
pub fn negotiate_action(source_actions: &ActionSet, dest_actions: &ActionSet) -> (r: Option<
    Action,
>)
    ensures
        r == spec_preferred_action(source_actions.spec_intersect(*dest_actions)),
        r is None <==> source_actions.spec_intersect(*dest_actions).spec_is_empty(),
{
    source_actions.intersect(dest_actions).preferred()
}

} // verus!
