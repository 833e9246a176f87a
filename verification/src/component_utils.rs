//! Markers of general use, and the sweep of entities that were marked as
//! doomed.
//!
//! Any system may decide that an entity has to go and say so by spawning a
//! ticket: an entity of its own that carries `Doomed` with the target in it.
//! Nothing happens to the target then. Once a frame, after every system that
//! may have marked something, the sweep queues the removal of each target
//! that still exists and of each ticket.

use crate::deferred::{entity_exists, known_entities, queue_despawn, queued_despawns};
use bevy::ecs::entity::Entity;
use bevy::ecs::system::Commands;
use vstd::prelude::*;

verus! {

/// Spawned along with a message to keep it when the transcript is cleared.
#[derive(Clone, Copy, PartialEq, Eq, Debug, Structural)]
pub struct PreserveOnClear;

/// What a ticket carries: the entity that is to be removed at the next sweep.
#[derive(Clone, Copy, Debug)]
pub struct Doomed(pub Entity);

/// The removals that one ticket brings to the queue: its target first if the
/// world knows it, then the ticket itself in either case.
pub open spec fn ticket_removals(ticket: Entity, doomed: Doomed, known: Set<Entity>) -> Seq<
    Entity,
> {
    if known.contains(doomed.0) {
        seq![doomed.0, ticket]
    } else {
        seq![ticket]
    }
}

/// The removals that a sweep over `targets` brings to the queue, ticket by
/// ticket in the order given.
pub open spec fn sweep_removals(targets: Seq<(Entity, Doomed)>, known: Set<Entity>) -> Seq<Entity>
    decreases targets.len(),
{
    if targets.len() == 0 {
        Seq::empty()
    } else {
        sweep_removals(targets.drop_last(), known) + ticket_removals(
            targets.last().0,
            targets.last().1,
            known,
        )
    }
}

/// A sweep consumes every ticket it is given: the ticket's own removal is
/// queued, and so is its target's if the world knows the target.
pub proof fn lemma_sweep_consumes_ticket(
    targets: Seq<(Entity, Doomed)>,
    known: Set<Entity>,
    i: int,
)
    requires
        0 <= i < targets.len(),
    ensures
        sweep_removals(targets, known).contains(targets[i].0),
        known.contains(targets[i].1.0) ==> sweep_removals(targets, known).contains(targets[i].1.0),
    decreases targets.len(),
{
    let head = sweep_removals(targets.drop_last(), known);
    let tail = ticket_removals(targets.last().0, targets.last().1, known);
    if i == targets.len() - 1 {
        let at = tail.len() - 1;
        assert((head + tail)[head.len() + at] == targets[i].0);
        if known.contains(targets[i].1.0) {
            assert((head + tail)[head.len() as int] == targets[i].1.0);
        }
    } else {
        lemma_sweep_consumes_ticket(targets.drop_last(), known, i);
        let ticket_at = choose|k: int| 0 <= k < head.len() && head[k] == targets[i].0;
        assert((head + tail)[ticket_at] == targets[i].0);
        if known.contains(targets[i].1.0) {
            let target_at = choose|k: int| 0 <= k < head.len() && head[k] == targets[i].1.0;
            assert((head + tail)[target_at] == targets[i].1.0);
        }
    }
}

/// A sweep removes nothing but the tickets it is given and those of their
/// targets that the world knows. A ticket that is spawned after the sweep has
/// read its list, and the target of such a ticket, wait for the next sweep.
pub proof fn lemma_sweep_removes_nothing_else(
    targets: Seq<(Entity, Doomed)>,
    known: Set<Entity>,
    entity: Entity,
)
    requires
        sweep_removals(targets, known).contains(entity),
    ensures
        exists|i: int|
            0 <= i < targets.len() && (entity == (#[trigger] targets[i]).0 || (entity
                == targets[i].1.0 && known.contains(entity))),
    decreases targets.len(),
{
    if targets.len() > 0 {
        let head = sweep_removals(targets.drop_last(), known);
        let tail = ticket_removals(targets.last().0, targets.last().1, known);
        let at = choose|k: int| 0 <= k < (head + tail).len() && (head + tail)[k] == entity;
        if at < head.len() {
            assert(head[at] == entity);
            lemma_sweep_removes_nothing_else(targets.drop_last(), known, entity);
            let i = choose|i: int|
                0 <= i < targets.drop_last().len() && (entity == (#[trigger] targets.drop_last()[i]).0
                    || (entity == targets.drop_last()[i].1.0 && known.contains(entity)));
            assert(targets.drop_last()[i] == targets[i]);
        } else {
            let last = targets.len() - 1;
            assert(tail[at - head.len()] == entity);
            assert(entity == targets[last].0 || (entity == targets[last].1.0 && known.contains(
                entity,
            )));
        }
    }
}

/// Handles one ticket once it is known whether its target still exists:
/// queues the removal of the target if it does, and the removal of the ticket
/// in either case. A target that is gone is no error.
pub fn consume_ticket(commands: &mut Commands, ticket: Entity, doomed: &Doomed, target_exists: bool)
    ensures
        queued_despawns(*final(commands)) == queued_despawns(*old(commands)) + (if target_exists {
            seq![doomed.0, ticket]
        } else {
            seq![ticket]
        }),
        known_entities(*final(commands)) == known_entities(*old(commands)),
{
    if target_exists {
        queue_despawn(commands, doomed.0);
    }
    queue_despawn(commands, ticket);
    assert(queued_despawns(*commands) =~= queued_despawns(*old(commands)) + (if target_exists {
        seq![doomed.0, ticket]
    } else {
        seq![ticket]
    }));
}

/// The sweep. `targets` holds every ticket that exists, with what it
/// carries. For each, in the order given, the removal of the target is queued
/// if the world still knows it, and then the removal of the ticket. This way
/// of removing does not look at `PreserveOnClear`.
///
/// Returns, for each ticket, whether its target was still there. Removals are
/// only queued: the world is the same for the last ticket as for the first,
/// so a target that two tickets name is queued by both.
pub fn despawn_doomed_targets(commands: &mut Commands, targets: &Vec<(Entity, Doomed)>) -> (found:
    Vec<bool>)
    ensures
        found@.len() == targets@.len(),
        forall|i: int|
            0 <= i < targets@.len() ==> #[trigger] found@[i] == known_entities(
                *old(commands),
            ).contains(targets@[i].1.0),
        queued_despawns(*final(commands)) == queued_despawns(*old(commands)) + sweep_removals(
            targets@,
            known_entities(*old(commands)),
        ),
        known_entities(*final(commands)) == known_entities(*old(commands)),
{
    let ghost known = known_entities(*commands);
    let mut found: Vec<bool> = Vec::new();
    let mut i: usize = 0;
    while i < targets.len()
        invariant
            i <= targets@.len(),
            found@.len() == i,
            known == known_entities(*old(commands)),
            known_entities(*commands) == known,
            forall|j: int| 0 <= j < i ==> #[trigger] found@[j] == known.contains(targets@[j].1.0),
            queued_despawns(*commands) == queued_despawns(*old(commands)) + sweep_removals(
                targets@.take(i as int),
                known,
            ),
        decreases targets@.len() - i,
    {
        let ticket = targets[i].0;
        let doomed = targets[i].1;
        let target_exists = entity_exists(commands, doomed.0);
        consume_ticket(commands, ticket, &doomed, target_exists);
        found.push(target_exists);
        proof {
            let next = targets@.take(i + 1);
            assert(next.drop_last() =~= targets@.take(i as int));
            assert(next.last() == targets@[i as int]);
        }
        i += 1;
    }
    assert(targets@.take(i as int) =~= targets@);
    found
}

} // verus!
