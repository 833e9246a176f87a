use bevy::ecs::entity::Entity;
use bevy::ecs::system::Commands;
use bevy::ecs::world::{CommandQueue, World};
use sick_day::app_state::InGame;
use sick_day::change_detection::ResourceChange;
use sick_day::cleanup::{cleanup_system, Cleanup};
use sick_day::color_utils::{
    on_android_mode_enabled_changed, on_dark_mode_enabled_changed,
    update_colors_on_color_scheme_change, AndroidModeEnabled, ColorScheme, DarkModeEnabled,
    BLUE_BUBBLE_COLOR, COLOR_BLACK, COLOR_WHITE, DKMODE_THEIR_BUBBLE_COLOR, GREEN_BUBBLE_COLOR,
    LTMODE_THEIR_BUBBLE_COLOR,
};
use sick_day::component_utils::{despawn_doomed_targets, Doomed};
use sick_day::sandbox::sandbox_update;
use sick_day::sent_message::{spawn_sent_message, NextIndex, SentMessageBundle};

struct Message {
    entity: Entity,
    bundle: SentMessageBundle,
    owned_by_state: bool,
}

fn recolor(messages: &mut Vec<Message>, scheme: &ColorScheme) {
    let mut colors: Vec<_> =
        messages.iter().map(|m| (m.bundle.font_color, m.bundle.bkg_color, m.bundle.is_mine)).collect();
    update_colors_on_color_scheme_change(&mut colors, scheme);
    for (message, (font_color, bkg_color, is_mine)) in messages.iter_mut().zip(colors) {
        assert_eq!(message.bundle.is_mine, is_mine);
        message.bundle.font_color = font_color;
        message.bundle.bkg_color = bkg_color;
    }
}

fn text_at_index(world: &World, messages: &Vec<Message>, index: usize) -> Option<String> {
    messages
        .iter()
        .find(|m| m.bundle.index.get() == index && world.get_entity(m.entity).is_ok())
        .map(|m| m.bundle.text.0.clone())
}

#[test]
fn a_conversation_through_mode_changes_a_sweep_and_a_state_exit() {
    let mut world = World::new();
    let mut dark = DarkModeEnabled::default();
    let mut android = AndroidModeEnabled::default();
    let mut scheme = ColorScheme::default();
    let mut next_index = NextIndex::default();
    assert_eq!((dark.0, android.0), (true, false));

    // Five messages; the last two outlive the state.
    let senders = [true, false, false, true, false];
    let mut messages: Vec<Message> = Vec::new();
    for (n, is_mine) in senders.iter().enumerate() {
        let (bundle, _) = spawn_sent_message(&mut next_index, &scheme, "line", *is_mine, false);
        let entity = world.spawn_empty().id();
        messages.push(Message { entity, bundle, owned_by_state: n < 3 });
    }
    for (n, message) in messages.iter().enumerate() {
        let bubble = if senders[n] { BLUE_BUBBLE_COLOR } else { DKMODE_THEIR_BUBBLE_COLOR };
        assert_eq!(message.bundle.bkg_color.0, bubble);
        assert_eq!(message.bundle.font_color.0, COLOR_WHITE);
        assert_eq!(message.bundle.index.get(), n);
    }

    // Dark mode off: palette first, then every message, within one frame.
    sandbox_update(&mut dark, &mut android, true, false, false);
    assert_eq!((dark.0, android.0), (false, false));
    assert!(ResourceChange::observe(true, false).triggers_reaction());
    on_dark_mode_enabled_changed(&dark, &android, &mut scheme);
    recolor(&mut messages, &scheme);
    for (n, message) in messages.iter().enumerate() {
        let bubble = if senders[n] { BLUE_BUBBLE_COLOR } else { LTMODE_THEIR_BUBBLE_COLOR };
        let text = if senders[n] { COLOR_WHITE } else { COLOR_BLACK };
        assert_eq!(message.bundle.bkg_color.0, bubble);
        assert_eq!(message.bundle.font_color.0, text);
        assert_eq!(message.bundle.index.get(), n);
    }

    // Android look on: only the player's bubbles change.
    let before: Vec<_> = messages.iter().map(|m| m.bundle.clone()).collect();
    sandbox_update(&mut dark, &mut android, false, true, false);
    on_android_mode_enabled_changed(&android, &mut scheme);
    recolor(&mut messages, &scheme);
    for (n, message) in messages.iter().enumerate() {
        if senders[n] {
            assert_eq!(message.bundle.bkg_color.0, GREEN_BUBBLE_COLOR);
            assert_eq!(message.bundle.font_color, before[n].font_color);
        } else {
            assert_eq!(message.bundle, before[n]);
        }
    }

    // The message with index 2 is marked and swept.
    let ticket = world.spawn_empty().id();
    let count_before = world.entities().len();
    assert_eq!(text_at_index(&world, &messages, 2), Some(String::from("line")));
    let mut queue = CommandQueue::default();
    {
        let mut commands = Commands::new(&mut queue, &world);
        let found = despawn_doomed_targets(&mut commands, &vec![(ticket, Doomed(messages[2].entity))]);
        assert_eq!(found, vec![true]);
    }
    queue.apply(&mut world);
    assert_eq!(world.entities().len(), count_before - 2);
    assert_eq!(text_at_index(&world, &messages, 2), None);
    assert_eq!(text_at_index(&world, &messages, 1), Some(String::from("line")));

    // The state is left: what it owns and what is still there goes.
    let tagged: Vec<Entity> = messages
        .iter()
        .filter(|m| m.owned_by_state && world.get_entity(m.entity).is_ok())
        .map(|m| m.entity)
        .collect();
    assert_eq!(tagged.len(), 2);
    let mut queue = CommandQueue::default();
    {
        let mut commands = Commands::new(&mut queue, &world);
        cleanup_system::<Cleanup<InGame>>(&mut commands, &tagged);
    }
    queue.apply(&mut world);
    for message in messages.iter() {
        assert_eq!(world.get_entity(message.entity).is_ok(), !message.owned_by_state);
    }
    assert_eq!(world.entities().len(), 2);

    // A second exit finds no carrier and changes nothing.
    let mut queue = CommandQueue::default();
    {
        let mut commands = Commands::new(&mut queue, &world);
        cleanup_system::<Cleanup<InGame>>(&mut commands, &Vec::new());
    }
    assert!(queue.is_empty());
    queue.apply(&mut world);
    assert_eq!(world.entities().len(), 2);

    // The next message continues the count.
    let (later, _) = spawn_sent_message(&mut next_index, &scheme, "later", true, false);
    assert_eq!(later.index.get(), 5);
}
