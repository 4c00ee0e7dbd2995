use noisedeck::config::PlaybackMode;
use noisedeck::elgato::{FadeType, Pos};
use noisedeck::text::dec;

#[test]
fn pos_parses_coordinates() {
    assert_eq!(Pos::from_str("3,4"), Ok(Pos(3, 4)));
    assert_eq!(Pos::from_str("0,0"), Ok(Pos(0, 0)));
    assert_eq!(Pos::from_str("255,255"), Ok(Pos(255, 255)));
    assert_eq!(Pos::from_str("007,1"), Ok(Pos(7, 1)));
}

#[test]
fn pos_rejects_bad_format() {
    assert_eq!(Pos::from_str("34"), Err(String::from("Invalid coordinate format")));
    assert_eq!(Pos::from_str(""), Err(String::from("Invalid coordinate format")));
    assert_eq!(Pos::from_str("1,2,3"), Err(String::from("Invalid coordinate format")));
}

#[test]
fn pos_rejects_bad_coordinates() {
    assert_eq!(Pos::from_str("x,1"), Err(String::from("Invalid x coordinate")));
    assert_eq!(Pos::from_str(",1"), Err(String::from("Invalid x coordinate")));
    assert_eq!(Pos::from_str("256,1"), Err(String::from("Invalid x coordinate")));
    assert_eq!(Pos::from_str("1,300"), Err(String::from("Invalid y coordinate")));
    assert_eq!(Pos::from_str("1,"), Err(String::from("Invalid y coordinate")));
}

#[test]
fn pos_orders_by_row_then_column() {
    assert!(Pos(4, 1) < Pos(0, 2));
    assert!(Pos(1, 1) < Pos(2, 1));
    assert!(Pos(2, 1) > Pos(1, 1));
    assert_eq!(Pos(3, 3).partial_cmp(&Pos(3, 3)), Some(std::cmp::Ordering::Equal));
}

#[test]
fn fade_type_selects_fades() {
    assert_eq!(FadeType::In.when_in(7), Some(7));
    assert_eq!(FadeType::InOut.when_in(7), Some(7));
    assert_eq!(FadeType::Out.when_in(7), None);
    assert_eq!(FadeType::NoFade.when_in(7), None);

    assert_eq!(FadeType::Out.when_out(7), Some(7));
    assert_eq!(FadeType::InOut.when_out(7), Some(7));
    assert_eq!(FadeType::In.when_out(7), None);
    assert_eq!(FadeType::NoFade.when_out(7), None);
}

#[test]
fn playback_mode_flags() {
    assert!(PlaybackMode::LoopStop.loops());
    assert!(!PlaybackMode::PlayStop.loops());
    assert!(!PlaybackMode::PlayOverlap.loops());

    assert!(PlaybackMode::PlayOverlap.overlaps());
    assert!(!PlaybackMode::PlayStop.overlaps());
    assert!(!PlaybackMode::LoopStop.overlaps());
}

#[test]
fn decimal_rendering() {
    assert_eq!(dec(0), "0");
    assert_eq!(dec(7), "7");
    assert_eq!(dec(10), "10");
    assert_eq!(dec(255), "255");
    assert_eq!(dec(90210), "90210");
}
