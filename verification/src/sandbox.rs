//! Systems for trying the transcript out by hand: a scripted conversation, a
//! clear of the transcript, and keys that flip the mode flags.

use crate::color_utils::{AndroidModeEnabled, ColorScheme, DarkModeEnabled};
use crate::component_utils::PreserveOnClear;
use crate::deferred::{known_entities, queue_despawn, queued_despawns};
use crate::sent_message::{spawn_sent_message, NextIndex, SentMessageBundle};
use bevy::ecs::entity::Entity;
use bevy::ecs::system::Commands;
use vstd::prelude::*;

verus! {

/// The press of a key of the on-screen keyboard.
#[derive(Clone, Copy, PartialEq, Eq, Debug, Structural)]
pub struct KeyTap {
    pub glyph: char,
}

/// How many messages the scripted conversation has.
pub const SCRIPT_LENGTH: usize = 5;

/// What the message at place `line` of the scripted conversation says.
pub open spec fn script_text(line: int) -> Seq<char> {
    if line == 0 {
        "Signing off for today"@
    } else if line == 1 {
        "Roger. See you tomorrow."@
    } else if line == 2 {
        "FYI, you're leading standups."@
    } else if line == 3 {
        "Ok, on it"@
    } else {
        "You got this! \u{1F60E}"@
    }
}

/// Whether the player sends the message at place `line` of the scripted
/// conversation.
pub open spec fn script_is_mine(line: int) -> bool {
    line == 0 || line == 3
}

/// Makes the messages of the scripted conversation, in order, each with the
/// marker that keeps it through a clear, and moves the counter on by their
/// number. The caller spawns what is returned.
///
/// The counter must leave room for them.
pub fn sandbox_startup(next_index: &mut NextIndex, color_scheme: &ColorScheme) -> (spawned: Vec<
    (SentMessageBundle, Option<PreserveOnClear>),
>)
    requires
        old(next_index).value() + SCRIPT_LENGTH <= usize::MAX,
    ensures
        spawned@.len() == SCRIPT_LENGTH,
        forall|line: int|
            0 <= line < SCRIPT_LENGTH ==> (#[trigger] spawned@[line]).0.is_spawn_of(
                (old(next_index).value() + line) as usize,
                *color_scheme,
                script_text(line),
                script_is_mine(line),
            ) && spawned@[line].1 is Some,
        final(next_index).value() == old(next_index).value() + SCRIPT_LENGTH,
{
    let mut spawned: Vec<(SentMessageBundle, Option<PreserveOnClear>)> = Vec::new();
    spawned.push(spawn_sent_message(next_index, color_scheme, "Signing off for today", true, true));
    spawned.push(
        spawn_sent_message(next_index, color_scheme, "Roger. See you tomorrow.", false, true),
    );
    spawned.push(
        spawn_sent_message(next_index, color_scheme, "FYI, you're leading standups.", false, true),
    );
    spawned.push(spawn_sent_message(next_index, color_scheme, "Ok, on it", true, true));
    spawned.push(
        spawn_sent_message(next_index, color_scheme, "You got this! \u{1F60E}", false, true),
    );
    spawned
}

/// The messages of `msgs` that a clear removes, in order: those that are not
/// marked to be kept. Each message stands in `msgs` with whether it carries
/// `PreserveOnClear`.
pub open spec fn cleared(msgs: Seq<(Entity, bool)>) -> Seq<Entity>
    decreases msgs.len(),
{
    if msgs.len() == 0 {
        Seq::empty()
    } else if msgs.last().1 {
        cleared(msgs.drop_last())
    } else {
        cleared(msgs.drop_last()).push(msgs.last().0)
    }
}

/// A clear removes a message exactly if it is not marked to be kept.
pub proof fn lemma_cleared_spares_the_preserved(msgs: Seq<(Entity, bool)>, entity: Entity)
    ensures
        cleared(msgs).contains(entity) <==> exists|i: int|
            0 <= i < msgs.len() && (#[trigger] msgs[i]).0 == entity && !msgs[i].1,
    decreases msgs.len(),
{
    if msgs.len() > 0 {
        let front = msgs.drop_last();
        let last = msgs.len() - 1;
        lemma_cleared_spares_the_preserved(front, entity);
        if cleared(msgs).contains(entity) {
            if cleared(front).contains(entity) {
                let i = choose|i: int|
                    0 <= i < front.len() && (#[trigger] front[i]).0 == entity && !front[i].1;
                assert(msgs[i] == front[i]);
            } else {
                let at = choose|k: int| 0 <= k < cleared(msgs).len() && cleared(msgs)[k] == entity;
                assert(!msgs[last].1);
                assert(at == cleared(front).len()) by {
                    if at < cleared(front).len() {
                        assert(cleared(front)[at] == entity);
                    }
                }
                assert(msgs[last].0 == entity);
            }
        }
        if exists|i: int| 0 <= i < msgs.len() && (#[trigger] msgs[i]).0 == entity && !msgs[i].1 {
            let i = choose|i: int|
                0 <= i < msgs.len() && (#[trigger] msgs[i]).0 == entity && !msgs[i].1;
            if i < last {
                assert(front[i] == msgs[i]);
                assert(cleared(front).contains(entity));
                let k = choose|k: int| 0 <= k < cleared(front).len() && cleared(front)[k] == entity;
                if !msgs[last].1 {
                    assert(cleared(msgs)[k] == entity);
                }
            } else {
                assert(cleared(msgs)[cleared(front).len() as int] == entity);
            }
        }
    }
}

/// Clears the transcript: queues the removal of every message of `msgs` that
/// does not carry `PreserveOnClear`, in the order given, and of no other.
pub fn sandbox_clear_sent_messages(commands: &mut Commands, msgs: &Vec<(Entity, bool)>)
    ensures
        queued_despawns(*final(commands)) == queued_despawns(*old(commands)) + cleared(msgs@),
        known_entities(*final(commands)) == known_entities(*old(commands)),
{
    let mut i: usize = 0;
    while i < msgs.len()
        invariant
            i <= msgs@.len(),
            queued_despawns(*commands) == queued_despawns(*old(commands)) + cleared(
                msgs@.take(i as int),
            ),
            known_entities(*commands) == known_entities(*old(commands)),
        decreases msgs@.len() - i,
    {
        let id = msgs[i].0;
        let preserved = msgs[i].1;
        if !preserved {
            queue_despawn(commands, id);
        }
        proof {
            let next = msgs@.take(i + 1);
            assert(next.drop_last() =~= msgs@.take(i as int));
            assert(next.last() == msgs@[i as int]);
            assert(queued_despawns(*commands) =~= queued_despawns(*old(commands)) + cleared(next));
        }
        i += 1;
    }
    assert(msgs@.take(i as int) =~= msgs@);
}

/// Reacts to the keys of the sandbox. `key_d`, `key_a` and `key_f` say
/// whether that key went down in this frame. D flips the dark-mode flag, A
/// flips the platform-style flag, and F asks for a tap of the key `f`, which
/// is returned for the caller to trigger.
pub fn sandbox_update(
    dark_mode_enabled: &mut DarkModeEnabled,
    android_mode_enabled: &mut AndroidModeEnabled,
    key_d: bool,
    key_a: bool,
    key_f: bool,
) -> (tap: Option<KeyTap>)
    ensures
        final(dark_mode_enabled).0 == (old(dark_mode_enabled).0 != key_d),
        final(android_mode_enabled).0 == (old(android_mode_enabled).0 != key_a),
        tap == if key_f {
            Some(KeyTap { glyph: 'f' })
        } else {
            None
        },
{
    if key_d {
        dark_mode_enabled.0 = !dark_mode_enabled.0;
    }
    if key_a {
        android_mode_enabled.0 = !android_mode_enabled.0;
    }
    if key_f {
        Some(KeyTap { glyph: 'f' })
    } else {
        None
    }
}

} // verus!
