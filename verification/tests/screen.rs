use skylode_tui::overlay::dev::{MARKER, MARKER_COLUMNS};
use skylode_tui::screen::Screen;

#[test]
fn the_tab_bar_shows_all_six_tabs_with_their_digits() {
    let bar: String = Screen::ALL.iter().map(|screen| screen.tab_label()).collect();
    for (position, screen) in Screen::ALL.iter().enumerate() {
        let label = format!("{} {}", position + 1, screen.title());
        assert!(bar.contains(&label), "tab bar is missing {label:?}: {bar:?}");
    }
}

#[test]
fn the_tab_bar_fits_the_eighty_column_reference_width() {
    let labels: usize = Screen::ALL.iter().map(|screen| screen.tab_label().chars().count()).sum();
    let dividers = Screen::ALL.len() - 1;
    assert!(labels + dividers + MARKER_COLUMNS <= 80, "{labels} + {dividers}");
}

#[test]
fn a_tab_label_pads_its_digit_and_title() {
    assert_eq!(Screen::Inventory.tab_label(), " 3 Inventory ");
    assert_eq!(Screen::from_index(2), Some(Screen::Inventory));
    assert_eq!(Screen::from_index(6), None);
}

#[test]
fn the_marker_leaves_a_blank_before_the_last_tab() {
    assert!(MARKER.chars().count() < MARKER_COLUMNS);
}
