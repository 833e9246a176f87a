//! The engine's command buffer, as far as this crate uses it.
//!
//! A removal that is asked for through `Commands` does not happen at once: it
//! is queued, and the engine applies the queue later in the frame. The
//! contracts below therefore speak of two things only: the removals that a
//! buffer holds, and the entities that its world knows while the buffer is
//! being filled.

use bevy::ecs::entity::Entity;
use bevy::ecs::system::Commands;
use vstd::prelude::*;

verus! {

/// `bevy::ecs::entity::Entity`, an opaque identifier that is only carried
/// through.
#[verifier::external_type_specification]
#[verifier::external_body]
pub struct ExEntity(Entity);

/// `bevy::ecs::system::Commands`, the buffer of deferred world edits that the
/// engine hands to a system.
#[verifier::external_type_specification]
#[verifier::external_body]
pub struct ExCommands<'w, 's>(Commands<'w, 's>);

/// The entities whose removal the buffer holds, oldest request first. An
/// entity stands here once for every time its removal was asked for.
pub uninterp spec fn queued_despawns(commands: Commands) -> Seq<Entity>;

/// The entities that the entity table of the world behind the buffer
/// contains. Queued edits do not count: an entity stays known until the engine
/// applies its removal.
pub uninterp spec fn known_entities(commands: Commands) -> Set<Entity>;

/// Calls `Commands::entity` and, on what it returns,
/// `EntityCommands::despawn`. The pair adds one removal of `entity` at the end
/// of the buffer, whether or not the entity exists, and leaves the world as it
/// is. When the engine applies the removal, the entity goes together with
/// what is linked to it as its children.
#[verifier::external_body]
pub(crate) fn queue_despawn(commands: &mut Commands, entity: Entity)
    ensures
        queued_despawns(*final(commands)) == queued_despawns(*old(commands)).push(entity),
        known_entities(*final(commands)) == known_entities(*old(commands)),
{
    commands.entity(entity).despawn();
}

/// Calls `Commands::get_entity`, which answers `Ok` exactly when the world's
/// entity table contains `entity`, and keeps only that answer. Nothing is
/// queued.
#[verifier::external_body]
pub(crate) fn entity_exists(commands: &mut Commands, entity: Entity) -> (found: bool)
    ensures
        found == known_entities(*old(commands)).contains(entity),
        queued_despawns(*final(commands)) == queued_despawns(*old(commands)),
        known_entities(*final(commands)) == known_entities(*old(commands)),
{
    commands.get_entity(entity).is_ok()
}

} // verus!
