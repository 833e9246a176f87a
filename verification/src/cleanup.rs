//! Ownership tags, and the removal of what a state owns when it is left.
//!
//! An entity that belongs to a state carries `Cleanup<S>`, with `S` the marker
//! of that state. One generic procedure removes the carriers of a tag; the
//! application binds one instance of it to each state's exit. Entities that
//! live until the program ends carry `Cleanup<Quit>` and have a procedure of
//! their own, run once when an exit request is seen.

use crate::app_state::AppStateTrait;
use crate::deferred::{known_entities, queue_despawn, queued_despawns};
use bevy::ecs::entity::Entity;
use bevy::ecs::system::Commands;
use std::marker::PhantomData;
use vstd::prelude::*;

verus! {

/// The ownership tag of the state, or of the lifetime, that `T` marks. It has
/// no size and nothing in it ever changes.
pub struct Cleanup<T> {
    _marker: PhantomData<T>,
}

impl<T> Cleanup<T> {
    /// The tag to attach to an entity when it is spawned.
    pub fn new() -> (tag: Self) {
        Cleanup { _marker: PhantomData }
    }
}

/// Marker for entities that are owned by no state and go only when the
/// program ends.
#[derive(Debug, Eq, PartialEq)]
pub struct Quit;

/// Queues the removal of every entity of `tagged`, which holds the entities
/// that carry the tag `T` at the moment the state of `T` is left.
///
/// Each entity is queued once, in the order given, behind what the buffer
/// already held. With no carrier left the buffer stays as it was, so a second
/// run after the first was applied changes nothing.
pub fn cleanup_system<T: AppStateTrait>(commands: &mut Commands, tagged: &Vec<Entity>)
    ensures
        queued_despawns(*final(commands)) == queued_despawns(*old(commands)) + tagged@,
        tagged@.len() == 0 ==> queued_despawns(*final(commands)) == queued_despawns(
            *old(commands),
        ),
        known_entities(*final(commands)) == known_entities(*old(commands)),
{
    queue_all(commands, tagged);
}

/// Runs when the program has been asked to end: queues the removal of every
/// entity of `tagged`, which holds the carriers of `Cleanup<Quit>`.
///
/// The engine drops its whole world on exit, so the removals free nothing that
/// would otherwise stay; they are queued so that whatever watches a removal
/// sees it before the program ends.
pub fn quit_cleanup_system(commands: &mut Commands, tagged: &Vec<Entity>)
    ensures
        queued_despawns(*final(commands)) == queued_despawns(*old(commands)) + tagged@,
        tagged@.len() == 0 ==> queued_despawns(*final(commands)) == queued_despawns(
            *old(commands),
        ),
        known_entities(*final(commands)) == known_entities(*old(commands)),
{
    queue_all(commands, tagged);
}

/// Queues one removal for each entity of `entities`, first to last.
fn queue_all(commands: &mut Commands, entities: &Vec<Entity>)
    ensures
        queued_despawns(*final(commands)) == queued_despawns(*old(commands)) + entities@,
        known_entities(*final(commands)) == known_entities(*old(commands)),
{
    let mut i: usize = 0;
    while i < entities.len()
        invariant
            i <= entities.len(),
            queued_despawns(*commands) == queued_despawns(*old(commands)) + entities@.take(
                i as int,
            ),
            known_entities(*commands) == known_entities(*old(commands)),
        decreases entities.len() - i,
    {
        queue_despawn(commands, entities[i]);
        assert(entities@.take(i + 1) =~= entities@.take(i as int).push(entities@[i as int]));
        i += 1;
    }
    assert(entities@.take(i as int) =~= entities@);
}

} // verus!
