use sick_day::color_utils::{
    on_dark_mode_enabled_changed, AndroidModeEnabled, ColorScheme, DarkModeEnabled,
};
use sick_day::component_utils::PreserveOnClear;
use sick_day::fever::{advance_fever, FeverLevel};
use sick_day::sandbox::{sandbox_startup, sandbox_update, KeyTap, SCRIPT_LENGTH};
use sick_day::sent_message::{
    spawn_sent_message, BkgColor, FontColor, HDir, IsMine, MsgText, NextIndex, Side,
};
use sick_day::window_utils::{centered, WindowAwaitsCentering};

#[test]
fn a_message_of_the_player() {
    let mut next_index = NextIndex::default();
    let scheme = ColorScheme::default();
    let (msg, marker) = spawn_sent_message(&mut next_index, &scheme, "Ok, on it", true, false);

    assert_eq!(msg.text, MsgText(String::from("Ok, on it")));
    assert_eq!(msg.font_color, FontColor(0xFFFFFF));
    assert_eq!(msg.bkg_color, BkgColor(0x0281FD));
    assert_eq!(msg.is_mine, IsMine(true));
    assert_eq!(msg.side, Side(HDir::RIGHT));
    assert_eq!(msg.index.get(), 0);
    assert_eq!(marker, None);
    assert_eq!(next_index.get(), 1);
}

#[test]
fn a_message_of_the_other_party_in_light_mode() {
    let mut scheme = ColorScheme::default();
    on_dark_mode_enabled_changed(&DarkModeEnabled(false), &AndroidModeEnabled(false), &mut scheme);
    let mut next_index = NextIndex::default();
    let (msg, marker) = spawn_sent_message(&mut next_index, &scheme, "Roger.", false, true);

    assert_eq!(msg.text.0, "Roger.");
    assert_eq!(msg.font_color, FontColor(0x000000));
    assert_eq!(msg.bkg_color, BkgColor(0xE9E9EA));
    assert_eq!(msg.is_mine, IsMine(false));
    assert_eq!(msg.side, Side(HDir::LEFT));
    assert_eq!(marker, Some(PreserveOnClear));
}

#[test]
fn counter_starts_at_zero() {
    assert_eq!(NextIndex::default().get(), 0);
}

#[test]
fn each_index_is_larger_than_all_before() {
    let mut next_index = NextIndex::default();
    let scheme = ColorScheme::default();
    let mut seen: Vec<usize> = Vec::new();
    for round in 0..20 {
        let (msg, _) = spawn_sent_message(&mut next_index, &scheme, "again", round % 3 == 0, false);
        assert!(seen.iter().all(|earlier| *earlier < msg.index.get()));
        assert_eq!(msg.index.get(), round);
        seen.push(msg.index.get());
        // A message that is dropped does not give its index back.
        drop(msg);
    }
    assert_eq!(next_index.get(), 20);
}

#[test]
fn direction_names() {
    assert_eq!(HDir::LEFT.to_string(), "LEFT");
    assert_eq!(HDir::RIGHT.to_string(), "RIGHT");
}

#[test]
fn scripted_conversation() {
    let mut next_index = NextIndex::default();
    let scheme = ColorScheme::default();
    let (first, _) = spawn_sent_message(&mut next_index, &scheme, "before", true, false);
    assert_eq!(first.index.get(), 0);

    let spawned = sandbox_startup(&mut next_index, &scheme);
    assert_eq!(spawned.len(), SCRIPT_LENGTH);
    assert_eq!(spawned.len(), 5);
    assert_eq!(next_index.get(), 6);

    let texts = [
        "Signing off for today",
        "Roger. See you tomorrow.",
        "FYI, you're leading standups.",
        "Ok, on it",
        "You got this! \u{1F60E}",
    ];
    let mine = [true, false, false, true, false];
    for (line, (msg, marker)) in spawned.iter().enumerate() {
        assert_eq!(msg.text.0, texts[line]);
        assert_eq!(msg.is_mine, IsMine(mine[line]));
        assert_eq!(msg.side, Side(if mine[line] { HDir::RIGHT } else { HDir::LEFT }));
        assert_eq!(msg.font_color, FontColor(0xFFFFFF));
        assert_eq!(msg.bkg_color, BkgColor(if mine[line] { 0x0281FD } else { 0x26262A }));
        assert_eq!(msg.index.get(), line + 1);
        assert_eq!(*marker, Some(PreserveOnClear));
    }
}

#[test]
fn sandbox_keys_flip_the_flags() {
    let mut dark = DarkModeEnabled::default();
    let mut android = AndroidModeEnabled::default();

    assert_eq!(sandbox_update(&mut dark, &mut android, false, false, false), None);
    assert_eq!((dark, android), (DarkModeEnabled(true), AndroidModeEnabled(false)));

    assert_eq!(sandbox_update(&mut dark, &mut android, true, false, false), None);
    assert_eq!((dark, android), (DarkModeEnabled(false), AndroidModeEnabled(false)));

    assert_eq!(sandbox_update(&mut dark, &mut android, false, true, false), None);
    assert_eq!((dark, android), (DarkModeEnabled(false), AndroidModeEnabled(true)));

    assert_eq!(
        sandbox_update(&mut dark, &mut android, true, true, true),
        Some(KeyTap { glyph: 'f' })
    );
    assert_eq!((dark, android), (DarkModeEnabled(true), AndroidModeEnabled(false)));
}

#[test]
fn fever_begins_once() {
    let mut level = FeverLevel(0);
    advance_fever(&mut level);
    assert_eq!(level, FeverLevel(1));
    advance_fever(&mut level);
    assert_eq!(level, FeverLevel(1));

    let mut later = FeverLevel(7);
    advance_fever(&mut later);
    assert_eq!(later, FeverLevel(7));
}

#[test]
fn window_waits_for_no_centering_at_first() {
    assert_eq!(WindowAwaitsCentering::default(), WindowAwaitsCentering(false));
}

#[test]
fn window_is_centered_on_the_monitor() {
    assert_eq!(centered(0, 1920, 540), Some(690));
    assert_eq!(centered(0, 1080, 960), Some(60));
    assert_eq!(centered(1920, 2560, 540), Some(2930));
    assert_eq!(centered(-1920, 1920, 540), Some(-1230));
    // Odd room is halved towards zero, on either side of it.
    assert_eq!(centered(0, 1081, 960), Some(60));
    assert_eq!(centered(0, 960, 1081), Some(-60));
    assert_eq!(centered(0, 540, 1920), Some(-690));
}

#[test]
fn window_place_that_is_no_number_is_none() {
    assert_eq!(centered(i32::MAX, 10, 0), None);
    assert_eq!(centered(i32::MIN, 0, 10), None);
    assert_eq!(centered(i32::MAX, 0, 0), Some(i32::MAX));
    assert_eq!(centered(0, i32::MAX, i32::MIN), Some(i32::MAX));
    assert_eq!(centered(1, i32::MAX, i32::MIN), None);
}
