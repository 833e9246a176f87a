//! When a reaction to a changed resource is due.
//!
//! The engine tells, for each resource and tick, whether the resource was
//! written since the reaction last ran and whether it has only just been
//! created. A reaction runs on a change, and never on the creation: what is
//! derived from a resource already fits the value the resource is created
//! with.

use vstd::prelude::*;

verus! {

/// How a resource stands against the tick before.
#[derive(Clone, Copy, PartialEq, Eq, Debug, Structural)]
pub enum ResourceChange {
    /// The resource has only just been created.
    Created,
    /// Nothing wrote to the resource.
    Unchanged,
    /// Something wrote to a resource that was there before.
    Changed,
}

impl ResourceChange {
    /// Reads the engine's two answers. A resource that has just been created
    /// counts as created, whatever is said about writes to it.
    pub fn observe(is_changed: bool, is_added: bool) -> (change: ResourceChange)
        ensures
            change == if is_added {
                ResourceChange::Created
            } else if is_changed {
                ResourceChange::Changed
            } else {
                ResourceChange::Unchanged
            },
            change.triggers_reaction_spec() == (is_changed && !is_added),
    {
        if is_added {
            ResourceChange::Created
        } else if is_changed {
            ResourceChange::Changed
        } else {
            ResourceChange::Unchanged
        }
    }

    /// Whether the reaction is due.
    pub open spec fn triggers_reaction_spec(&self) -> bool {
        *self == ResourceChange::Changed
    }

    /// Whether the reaction is due: on a change only.
    #[verifier::when_used_as_spec(triggers_reaction_spec)]
    pub fn triggers_reaction(&self) -> (due: bool)
        ensures
            due == self.triggers_reaction_spec(),
    {
        match self {
            ResourceChange::Changed => true,
            _ => false,
        }
    }
}

} // verus!
