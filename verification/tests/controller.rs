use noisedeck::btn::ButtonRef;
use noisedeck::config::{Button, ButtonBehavior, Config, Page, PageId, PlaySoundSettings, PlaybackMode};
use noisedeck::deck::NoiseDeck;
use noisedeck::geometry::Geometry;
use noisedeck::iface::{AudioCommand, UiCommand};

const NAV_BUTTON_LABEL: &str = "Go to Target";
const SOUND_BUTTON_LABEL: &str = "Play Sound";
const BACK_BUTTON_LABEL: &str = "Back";

fn sound_settings() -> PlaySoundSettings {
    PlaySoundSettings { volume: 50, mode: PlaybackMode::PlayStop, fade_in: None, fade_out: None }
}

fn test_config() -> Config {
    let start = Page {
        name: String::from("Start"),
        buttons: vec![Button {
            label: String::from(NAV_BUTTON_LABEL),
            behavior: ButtonBehavior::PushPage(PageId(2)),
        }],
    };
    let target = Page {
        name: String::from("Target"),
        buttons: vec![Button {
            label: String::from(SOUND_BUTTON_LABEL),
            behavior: ButtonBehavior::PlaySound(String::from("test_sound.mp3"), sound_settings()),
        }],
    };
    Config { pages: vec![(PageId(1), start), (PageId(2), target)], start_page: PageId(1) }
}

fn new_deck() -> (NoiseDeck, Vec<Option<ButtonRef>>) {
    let mut deck = NoiseDeck::new(Geometry::new(3, 5), test_config());
    let ui = deck.init();
    let grid = expect_flip(&ui);
    (deck, grid)
}

/// The commands hold exactly one flip; returns its grid.
fn expect_flip(ui: &[UiCommand]) -> Vec<Option<ButtonRef>> {
    assert_eq!(ui.len(), 1);
    match &ui[0] {
        UiCommand::Flip(grid) => grid.clone(),
        UiCommand::Refresh => panic!("expected a flip, got a refresh"),
    }
}

fn find_button(grid: &[Option<ButtonRef>], prefix: &str) -> Option<ButtonRef> {
    grid.iter().flatten().find(|b| b.button.data.label.starts_with(prefix)).cloned()
}

fn tap(deck: &mut NoiseDeck, grid: &[Option<ButtonRef>], label: &str) -> (Vec<UiCommand>, Vec<AudioCommand>) {
    let b = find_button(grid, label).expect("button not on the grid");
    assert!(deck.check_button(&b.button));
    deck.handle_button_tap(&b)
}

fn hold(deck: &mut NoiseDeck, grid: &[Option<ButtonRef>], label: &str) -> (Vec<UiCommand>, Vec<AudioCommand>) {
    let b = find_button(grid, label).expect("button not on the grid");
    assert!(deck.check_button(&b.button));
    deck.handle_button_hold(&b)
}

/// Navigates to the target page and starts its sound; returns the deck, the
/// target grid, and the sound button's arena index.
fn deck_with_playing_sound() -> (NoiseDeck, Vec<Option<ButtonRef>>, usize) {
    let (mut deck, start_grid) = new_deck();
    let (ui, audio) = tap(&mut deck, &start_grid, NAV_BUTTON_LABEL);
    assert!(audio.is_empty());
    let target_grid = expect_flip(&ui);
    let sound = find_button(&target_grid, SOUND_BUTTON_LABEL).unwrap();
    let sound_idx = sound.id.unwrap();
    let (ui, audio) = tap(&mut deck, &target_grid, SOUND_BUTTON_LABEL);
    assert!(matches!(audio.as_slice(), [AudioCommand::Play(_)]));
    assert!(matches!(ui.as_slice(), [UiCommand::Refresh]));
    let ui = deck.handle_track_state_changed(&String::from("test_sound.mp3"), true, Some(100));
    let grid = expect_flip(&ui);
    (deck, grid, sound_idx)
}

#[test]
fn test_back_button_navigation() {
    let (mut deck, start_grid) = new_deck();
    let (ui, _) = tap(&mut deck, &start_grid, NAV_BUTTON_LABEL);
    let target_grid = expect_flip(&ui);
    assert!(find_button(&target_grid, BACK_BUTTON_LABEL).is_some());

    let (ui, _) = tap(&mut deck, &target_grid, BACK_BUTTON_LABEL);
    let home_grid = expect_flip(&ui);
    assert!(find_button(&home_grid, NAV_BUTTON_LABEL).is_some());
}

#[test]
fn test_button_tap_navigation() {
    let (mut deck, start_grid) = new_deck();
    let (ui, audio) = tap(&mut deck, &start_grid, NAV_BUTTON_LABEL);
    let target_grid = expect_flip(&ui);
    assert!(find_button(&target_grid, BACK_BUTTON_LABEL).is_some());
    assert!(audio.is_empty());
}

#[test]
fn test_sound_button_tap_sends_audio_command() {
    let (mut deck, start_grid) = new_deck();
    let (ui, _) = tap(&mut deck, &start_grid, NAV_BUTTON_LABEL);
    let target_grid = expect_flip(&ui);
    assert!(find_button(&target_grid, SOUND_BUTTON_LABEL).is_some());

    let (ui, audio) = tap(&mut deck, &target_grid, SOUND_BUTTON_LABEL);
    assert!(matches!(audio.as_slice(), [AudioCommand::Play(_)]));
    assert!(matches!(ui.as_slice(), [UiCommand::Refresh]));
}

#[test]
fn test_audio_feedback_triggers_refresh_for_known_track() {
    let (mut deck, start_grid) = new_deck();
    let (ui, _) = tap(&mut deck, &start_grid, NAV_BUTTON_LABEL);
    let target_grid = expect_flip(&ui);
    assert!(find_button(&target_grid, SOUND_BUTTON_LABEL).is_some());

    let (ui, audio) = tap(&mut deck, &target_grid, SOUND_BUTTON_LABEL);
    assert!(matches!(audio.as_slice(), [AudioCommand::Play(_)]));
    assert!(matches!(ui.as_slice(), [UiCommand::Refresh]));

    // A state change for a registered track always answers with a command;
    // the track still reports not advancing, so it is a lightweight refresh.
    let ui = deck.handle_track_state_changed(&String::from("test_sound.mp3"), false, None);
    assert!(matches!(ui.as_slice(), [UiCommand::Refresh]));
}

#[test]
fn test_audio_feedback_playing_view_interaction() {
    let (mut deck, start_grid) = new_deck();
    let (ui, _) = tap(&mut deck, &start_grid, NAV_BUTTON_LABEL);
    let target_grid = expect_flip(&ui);
    assert!(find_button(&target_grid, SOUND_BUTTON_LABEL).is_some());

    let (_, audio) = tap(&mut deck, &target_grid, SOUND_BUTTON_LABEL);
    assert!(matches!(audio.as_slice(), [AudioCommand::Play(_)]));

    let ui = deck.handle_track_state_changed(&String::from("test_sound.mp3"), false, None);
    assert!(matches!(ui.as_slice(), [UiCommand::Refresh]));
}

#[test]
fn test_audio_feedback_multiple_state_changes() {
    let (mut deck, start_grid) = new_deck();
    let (ui, _) = tap(&mut deck, &start_grid, NAV_BUTTON_LABEL);
    let target_grid = expect_flip(&ui);
    let (_, audio) = tap(&mut deck, &target_grid, SOUND_BUTTON_LABEL);
    assert!(matches!(audio.as_slice(), [AudioCommand::Play(_)]));

    let ui = deck.handle_track_state_changed(&String::from("test_sound.mp3"), false, None);
    assert!(matches!(ui.as_slice(), [UiCommand::Refresh]));
    let ui = deck.handle_track_state_changed(&String::from("test_sound.mp3"), false, None);
    assert!(matches!(ui.as_slice(), [UiCommand::Refresh]));
}

#[test]
fn test_audio_feedback_unknown_track_ignored() {
    let (mut deck, _) = new_deck();

    // No display command comes back for a track nobody registered.
    let ui = deck.handle_track_state_changed(&String::from("unknown_sound.mp3"), true, Some(50));
    assert!(ui.is_empty());
}

#[test]
fn test_track_playing_state_updates_button() {
    let (mut deck, start_grid) = new_deck();
    let (ui, _) = tap(&mut deck, &start_grid, NAV_BUTTON_LABEL);
    let target_grid = expect_flip(&ui);
    let sound = find_button(&target_grid, SOUND_BUTTON_LABEL).unwrap();
    let sound_idx = sound.id.unwrap();
    let (ui, audio) = tap(&mut deck, &target_grid, SOUND_BUTTON_LABEL);
    assert!(matches!(audio.as_slice(), [AudioCommand::Play(_)]));
    assert!(matches!(ui.as_slice(), [UiCommand::Refresh]));

    let ui = deck.handle_track_state_changed(&String::from("test_sound.mp3"), true, Some(100));
    assert_eq!(ui.len(), 1, "Should receive UI command");
    assert!(matches!(ui.as_slice(), [UiCommand::Refresh] | [UiCommand::Flip(_)]));

    let notif = deck.button_data(sound_idx).notification;
    assert!(notif.is_some());
}

#[test]
fn test_volume_up_command() {
    let (mut deck, grid, _) = deck_with_playing_sound();

    let (ui, _) = hold(&mut deck, &grid, SOUND_BUTTON_LABEL);
    let vol_grid = expect_flip(&ui);

    let vol_up = find_button(&vol_grid, "Vol +").expect("Volume up button not found");
    assert!(deck.check_button(&vol_up.button));
    let (_, audio) = deck.handle_button_tap(&vol_up);
    match audio.as_slice() {
        [AudioCommand::SetGlobalVolume(db)] => assert_eq!(*db as f64, 3.0),
        other => panic!("expected a volume command, got {:?}", other),
    }
}

#[test]
fn test_volume_down_command() {
    let (mut deck, grid, _) = deck_with_playing_sound();

    let (ui, _) = hold(&mut deck, &grid, SOUND_BUTTON_LABEL);
    let vol_grid = expect_flip(&ui);

    let vol_down = find_button(&vol_grid, "Vol -").expect("Volume down button not found");
    assert!(deck.check_button(&vol_down.button));
    let (_, audio) = deck.handle_button_tap(&vol_down);
    match audio.as_slice() {
        [AudioCommand::SetGlobalVolume(db)] => assert_eq!(*db as f64, -3.0),
        other => panic!("expected a volume command, got {:?}", other),
    }
}

#[test]
fn test_long_press_playing_track_opens_volume_control() {
    let (mut deck, grid, _) = deck_with_playing_sound();

    let (ui, _) = hold(&mut deck, &grid, SOUND_BUTTON_LABEL);
    let vol_grid = expect_flip(&ui);

    assert!(find_button(&vol_grid, "Vol +").is_some());
    assert!(find_button(&vol_grid, "Vol -").is_some());
}

#[test]
fn test_volume_control_page_layout() {
    let (mut deck, grid, _) = deck_with_playing_sound();

    let (ui, _) = hold(&mut deck, &grid, SOUND_BUTTON_LABEL);
    let vol_grid = expect_flip(&ui);

    assert!(find_button(&vol_grid, "Vol +").is_some());
    assert!(find_button(&vol_grid, "Vol -").is_some());
    assert!(find_button(&vol_grid, "Back").is_some());

    let (ui, _) = tap(&mut deck, &vol_grid, "Back");
    let back_grid = expect_flip(&ui);
    assert!(find_button(&back_grid, SOUND_BUTTON_LABEL).is_some());
}

#[test]
fn test_volume_control_page_rotate_functionality() {
    let (mut deck, grid, _) = deck_with_playing_sound();

    let (ui, _) = hold(&mut deck, &grid, SOUND_BUTTON_LABEL);
    let vol_grid = expect_flip(&ui);
    assert!(find_button(&vol_grid, "Vol +").is_some());
    assert!(find_button(&vol_grid, "Vol -").is_some());

    let rotate = find_button(&vol_grid, "Next")
        .expect("Rotate button not found on volume control page");
    assert!(deck.check_button(&rotate.button));
    let (ui, _) = deck.handle_button_tap(&rotate);
    let rotated_grid = expect_flip(&ui);

    assert!(find_button(&rotated_grid, "Vol +").is_some());
    assert!(find_button(&rotated_grid, "Vol -").is_some());
}
