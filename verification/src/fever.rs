//! The player's progress through the feverish events.

use vstd::prelude::*;

verus! {

/// How many feverish events have begun.
#[derive(Clone, Copy, PartialEq, Eq, Debug, Structural)]
pub struct FeverLevel(pub usize);

/// Begins the first feverish event if none has begun. Later levels have no
/// condition yet under which they would advance, and stay.
pub fn advance_fever(fever_level: &mut FeverLevel)
    ensures
        final(fever_level).0 == if old(fever_level).0 == 0 {
            1usize
        } else {
            old(fever_level).0
        },
{
    if fever_level.0 == 0 {
        fever_level.0 += 1;
    }
}

} // verus!
