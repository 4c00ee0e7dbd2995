use noisedeck::btn::ButtonRef;
use noisedeck::config::{Button, ButtonBehavior, Config, Page, PageId, PlaySoundSettings, PlaybackMode};
use noisedeck::deck::NoiseDeck;
use noisedeck::geometry::Geometry;
use noisedeck::iface::{AudioCommand, UiCommand};
use noisedeck::view::PlayingView;

fn settings() -> PlaySoundSettings {
    PlaySoundSettings { volume: 50, mode: PlaybackMode::PlayStop, fade_in: None, fade_out: None }
}

/// A config whose start page holds `n` sound buttons.
fn config_with_sounds(n: usize) -> Config {
    let buttons = (0..n)
        .map(|i| Button {
            label: format!("Sound {}", i),
            behavior: ButtonBehavior::PlaySound(format!("sound_{}.mp3", i), settings()),
        })
        .collect();
    let page = Page { name: String::from("Sounds"), buttons };
    Config { pages: vec![(PageId(1), page)], start_page: PageId(1) }
}

fn sounds_deck(n: usize) -> (NoiseDeck, Vec<Option<ButtonRef>>) {
    let mut deck = NoiseDeck::new(Geometry::new(3, 5), config_with_sounds(n));
    let ui = deck.init();
    let grid = one_flip(&ui);
    (deck, grid)
}

fn one_flip(ui: &[UiCommand]) -> Vec<Option<ButtonRef>> {
    assert_eq!(ui.len(), 1);
    match &ui[0] {
        UiCommand::Flip(grid) => grid.clone(),
        UiCommand::Refresh => panic!("expected a flip"),
    }
}

fn grid_button(grid: &[Option<ButtonRef>], prefix: &str) -> Option<ButtonRef> {
    grid.iter().flatten().find(|b| b.button.data.label.starts_with(prefix)).cloned()
}

/// Marks the track at `path` advancing and returns the emitted commands.
fn advance(deck: &mut NoiseDeck, path: &str) -> Vec<UiCommand> {
    deck.handle_track_state_changed(&String::from(path), true, Some(100))
}

fn halt(deck: &mut NoiseDeck, path: &str) -> Vec<UiCommand> {
    deck.handle_track_state_changed(&String::from(path), false, None)
}

/// The grid always has exactly the device's key count, whatever the
/// semantic list length: empty, one, one less than the content region, the
/// content region exactly, one more, and far more.
#[test]
fn grid_length_for_all_list_lengths() {
    for n in [0usize, 1, 9, 10, 11, 50] {
        let (_, grid) = sounds_deck(n);
        assert_eq!(grid.len(), 15, "list length {}", n);
    }
}

/// Push then pop restores the prior view: same page, same offset.
#[test]
fn push_then_pop_restores_view() {
    let nav = Page {
        name: String::from("Start"),
        buttons: vec![Button {
            label: String::from("Open"),
            behavior: ButtonBehavior::PushPage(PageId(2)),
        }],
    };
    let other = Page { name: String::from("Other"), buttons: vec![] };
    let config = Config { pages: vec![(PageId(1), nav), (PageId(2), other)], start_page: PageId(1) };
    let mut deck = NoiseDeck::new(Geometry::new(3, 5), config);
    let grid = one_flip(&deck.init());

    let before = deck.view_stack.clone();
    let open = grid_button(&grid, "Open").unwrap();
    let (ui, _) = deck.handle_button_tap(&open);
    assert_eq!(deck.view_stack.len(), 2);
    let grid2 = one_flip(&ui);
    let back = grid_button(&grid2, "Back").unwrap();
    deck.handle_button_tap(&back);

    assert_eq!(deck.view_stack.len(), before.len());
    assert_eq!(deck.view_stack[0].offset, before[0].offset);
    assert!(matches!(
        deck.view_stack[0].view_type,
        noisedeck::view::ViewType::LibraryPage(PageId(1))
    ));
}

/// Pop at the home frame is a no-op for the view stack.
#[test]
fn pop_at_home_is_noop() {
    let (mut deck, grid) = sounds_deck(3);
    let before_len = deck.view_stack.len();
    // The home grid has a back slot too; tapping it must not pop the frame.
    let back = grid_button(&grid, "Back").unwrap();
    let (ui, _) = deck.handle_button_tap(&back);
    assert_eq!(deck.view_stack.len(), before_len);
    assert!(matches!(ui.as_slice(), [UiCommand::Refresh]));
}

/// Rotating a page whose list fits in the content region returns the
/// offset to 0 after one rotation.
#[test]
fn rotate_short_page_returns_to_zero() {
    let (mut deck, grid) = sounds_deck(5);
    let next = grid_button(&grid, "Next").unwrap();
    deck.handle_button_tap(&next);
    assert_eq!(deck.view_stack.last().unwrap().offset, 0);
}

/// Rotating a long page advances by the displayed-button estimate: the
/// content region plus unused dynamic capacity.
#[test]
fn rotate_long_page_advances_by_estimate() {
    let (mut deck, grid) = sounds_deck(30);
    let next = grid_button(&grid, "Next").unwrap();
    deck.handle_button_tap(&next);
    // 10 content slots plus 3 empty dynamic slots were available.
    assert_eq!(deck.view_stack.last().unwrap().offset, 13);
}

/// The playing set's offset wraps back to 0 once it reaches the set's
/// length.
#[test]
fn rotate_wraps_playing_offset() {
    let (mut deck, grid) = sounds_deck(10);
    for i in 0..4 {
        advance(&mut deck, &format!("sound_{}.mp3", i));
    }
    assert_eq!(deck.playing.buttons.len(), 4);

    let next = grid_button(&grid, "Next").unwrap();
    deck.handle_button_tap(&next);
    assert_eq!(deck.playing.offset, 3);
    deck.handle_button_tap(&next);
    // 3 + 3 reaches past the set's length of 4, so the offset wraps.
    assert_eq!(deck.playing.offset, 0);
}

/// A not-advancing-to-advancing transition adds exactly one entry, and
/// repeated advancing notifications do not duplicate it.
#[test]
fn playing_set_addition_is_idempotent() {
    let (mut deck, _) = sounds_deck(3);
    assert_eq!(deck.playing.buttons.len(), 0);
    advance(&mut deck, "sound_1.mp3");
    assert_eq!(deck.playing.buttons.len(), 1);
    advance(&mut deck, "sound_1.mp3");
    advance(&mut deck, "sound_1.mp3");
    assert_eq!(deck.playing.buttons.len(), 1);
}

/// An advancing-to-not-advancing transition removes the entry and clears
/// the button's notification.
#[test]
fn stopping_removes_entry_and_clears_notification() {
    let (mut deck, grid) = sounds_deck(3);
    advance(&mut deck, "sound_1.mp3");
    let b = grid_button(&grid, "Sound 1").unwrap().id.unwrap();
    assert!(deck.button_data(b).notification.is_some());
    assert_eq!(deck.playing.buttons.len(), 1);

    halt(&mut deck, "sound_1.mp3");
    assert_eq!(deck.playing.buttons.len(), 0);
    assert!(deck.button_data(b).notification.is_none());
    halt(&mut deck, "sound_1.mp3");
    assert_eq!(deck.playing.buttons.len(), 0);
}

/// A state change for an unregistered track yields no display command.
#[test]
fn unknown_track_yields_no_command() {
    let (mut deck, _) = sounds_deck(3);
    let ui = advance(&mut deck, "never_registered.mp3");
    assert!(ui.is_empty());
    assert_eq!(deck.playing.buttons.len(), 0);
}

/// The advancing notification renders minutes, seconds and tenths of the
/// remaining time.
#[test]
fn remaining_time_notification_format() {
    let (mut deck, grid) = sounds_deck(1);
    deck.handle_track_state_changed(&String::from("sound_0.mp3"), true, Some(83_450));
    let b = grid_button(&grid, "Sound 0").unwrap().id.unwrap();
    assert_eq!(deck.button_data(b).notification.unwrap(), " 1:23.4");
}

/// An advancing track with unknown remaining time gets a bare glyph.
#[test]
fn unknown_remaining_time_notification() {
    let (mut deck, grid) = sounds_deck(1);
    deck.handle_track_state_changed(&String::from("sound_0.mp3"), true, None);
    let b = grid_button(&grid, "Sound 0").unwrap().id.unwrap();
    let n = deck.button_data(b).notification.unwrap();
    assert!(!n.is_empty());
}

/// The next slot's label shows current page, estimated total pages, the
/// page-size estimate and the list length. A page with more configured
/// buttons than keys is truncated to one less than the key count when its
/// cache entry is built.
#[test]
fn next_label_shows_page_estimate() {
    let (_, grid) = sounds_deck(30);
    let next = grid_button(&grid, "Next").unwrap();
    assert_eq!(next.button.data.label, "Next\n1/2\n13/14");
}

/// Both volume buttons show the level after a change, rendered in whole
/// decibels.
#[test]
fn volume_buttons_show_level() {
    let (mut deck, grid) = sounds_deck(1);
    advance(&mut deck, "sound_0.mp3");
    let sound = grid_button(&grid, "Sound 0").unwrap();
    let (ui, _) = deck.handle_button_hold(&sound);
    let vol_grid = one_flip(&ui);

    let vol_up = grid_button(&vol_grid, "Vol +").unwrap();
    let (_, audio) = deck.handle_button_tap(&vol_up);
    assert!(matches!(audio.as_slice(), [AudioCommand::SetGlobalVolume(3)]));
    assert_eq!(deck.button_data(0).notification.unwrap(), "3 dB");
    assert_eq!(deck.button_data(1).notification.unwrap(), "3 dB");

    let vol_down = grid_button(&vol_grid, "Vol -").unwrap();
    deck.handle_button_tap(&vol_down);
    deck.handle_button_tap(&vol_down);
    assert_eq!(deck.button_data(0).notification.unwrap(), "-3 dB");
}

/// The full scenario: navigate, play, and receive playing feedback.
#[test]
fn scenario_navigate_play_feedback() {
    let start = Page {
        name: String::from("Start"),
        buttons: vec![Button {
            label: String::from("Go to Target"),
            behavior: ButtonBehavior::PushPage(PageId(2)),
        }],
    };
    let target = Page {
        name: String::from("Target"),
        buttons: vec![Button {
            label: String::from("Play Sound"),
            behavior: ButtonBehavior::PlaySound(String::from("test_sound.mp3"), settings()),
        }],
    };
    let config = Config { pages: vec![(PageId(1), start), (PageId(2), target)], start_page: PageId(1) };
    let mut deck = NoiseDeck::new(Geometry::new(3, 5), config);
    let grid = one_flip(&deck.init());

    let nav = grid_button(&grid, "Go to Target").unwrap();
    let (ui, _) = deck.handle_button_tap(&nav);
    let target_grid = one_flip(&ui);
    assert!(grid_button(&target_grid, "Play Sound").is_some());
    assert!(grid_button(&target_grid, "Back").is_some());

    let play = grid_button(&target_grid, "Play Sound").unwrap();
    let (ui, audio) = deck.handle_button_tap(&play);
    assert!(matches!(audio.as_slice(), [AudioCommand::Play(_)]));
    assert!(matches!(ui.as_slice(), [UiCommand::Refresh]));

    let ui = deck.handle_track_state_changed(&String::from("test_sound.mp3"), true, Some(5_000));
    assert!(matches!(ui.as_slice(), [UiCommand::Refresh] | [UiCommand::Flip(_)]));
    let b = play.id.unwrap();
    assert!(deck.button_data(b).notification.is_some());
}

/// A stale out-of-range offset degrades to an empty content window instead
/// of failing.
#[test]
fn stale_offset_degrades_gracefully() {
    let (mut deck, _) = sounds_deck(5);
    let last = deck.view_stack.len() - 1;
    deck.view_stack[last].offset = 99;
    let cmd = deck.display_top_page();
    match cmd {
        UiCommand::Flip(grid) => {
            assert_eq!(grid.len(), 15);
            assert!(grid_button(&grid, "Sound").is_none());
        }
        UiCommand::Refresh => panic!("expected a flip"),
    }
}

/// An advancing track's button moves into the dynamic region even when its
/// page is not on screen.
#[test]
fn playing_button_shown_in_dynamic_region() {
    let nav = Page {
        name: String::from("Start"),
        buttons: vec![Button {
            label: String::from("Open"),
            behavior: ButtonBehavior::PushPage(PageId(2)),
        }],
    };
    let sounds = Page {
        name: String::from("Sounds"),
        buttons: vec![Button {
            label: String::from("Boom"),
            behavior: ButtonBehavior::PlaySound(String::from("boom.mp3"), settings()),
        }],
    };
    let config = Config { pages: vec![(PageId(1), nav), (PageId(2), sounds)], start_page: PageId(1) };
    let mut deck = NoiseDeck::new(Geometry::new(3, 5), config);
    let grid = one_flip(&deck.init());
    let open = grid_button(&grid, "Open").unwrap();
    let (ui, _) = deck.handle_button_tap(&open);
    let sound_grid = one_flip(&ui);
    let boom = grid_button(&sound_grid, "Boom").unwrap();
    deck.handle_button_tap(&boom);
    let ui = advance(&mut deck, "boom.mp3");
    one_flip(&ui);

    // Back on the start page, the advancing button fills a dynamic slot.
    let back = grid_button(&sound_grid, "Back").unwrap();
    let (ui, _) = deck.handle_button_tap(&back);
    let home_grid = one_flip(&ui);
    let shown = grid_button(&home_grid, "Boom").unwrap();
    assert_eq!(shown.id, boom.id);
}
