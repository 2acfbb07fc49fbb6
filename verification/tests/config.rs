use std::time::Duration;

use skylode_tui::config::{
    ColourMode, Config, MiningInput, NumberFormat, SubTabKeys, ToastDuration, TOAST_TTL_SECS,
};

#[test]
fn the_default_binding_is_the_shift_arrows_the_footer_advertises() {
    assert_eq!(Config::default().sub_tab_keys, SubTabKeys::ShiftArrows);
    assert_eq!(SubTabKeys::ShiftArrows.label(), "⇧← ⇧→");
}

#[test]
fn each_choice_prints_its_own_keys() {
    assert_eq!(SubTabKeys::HL.label(), "h  l");
    assert_eq!(SubTabKeys::Brackets.label(), "[  ]");
}

#[test]
fn a_fresh_config_is_the_game_as_it_played_before_settings_existed() {
    let config = Config::default();
    assert_eq!(config.colour, ColourMode::Ansi256);
    assert_eq!(config.mining_input, MiningInput::Hold);
    assert_eq!(config.number_format, NumberFormat::Spaced);
    assert_eq!(config.toast_ttl(), Duration::from_secs(3));
}

#[test]
fn the_number_format_rows_read_as_the_number_they_produce() {
    assert_eq!(NumberFormat::Spaced.label(), "1 234 567");
    assert_eq!(NumberFormat::Comma.label(), "1,234,567");
    assert_eq!(NumberFormat::Plain.label(), "1234567");
    assert_eq!(NumberFormat::Spaced.separator(), Some(' '));
    assert_eq!(NumberFormat::Comma.separator(), Some(','));
    assert_eq!(NumberFormat::Plain.separator(), None);
}

#[test]
fn every_toast_rung_says_how_long_it_actually_lasts() {
    for (rung, seconds) in [
        (ToastDuration::Brief, 2),
        (ToastDuration::Normal, 3),
        (ToastDuration::Long, 5),
        (ToastDuration::Lingering, 8),
    ] {
        assert_eq!(rung.ttl(), Duration::from_secs(seconds));
        assert_eq!(rung.label(), format!("{seconds}s"));
    }
}

#[test]
fn the_mining_rows_name_the_gesture_rather_than_the_mechanism() {
    assert_eq!(MiningInput::Hold.label(), "Hold");
    assert_eq!(MiningInput::PressToStart.label(), "Press to start");
}

#[test]
fn the_colour_rows_print_their_palette_size() {
    assert_eq!(ColourMode::Ansi256.label(), "256");
    assert_eq!(ColourMode::Ansi16.label(), "16");
}

#[test]
fn the_toast_window_follows_the_chosen_rung() {
    let config = Config {
        toast_duration: ToastDuration::Lingering,
        ..Config::default()
    };
    assert_eq!(config.toast_ttl(), Duration::from_secs(8));
    assert_eq!(TOAST_TTL_SECS, 3);
}
