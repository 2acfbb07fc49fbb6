use skylode_tui::overlay::too_small::{box_fits, fits, message, underline, MIN_HEIGHT, MIN_WIDTH};
use skylode_tui::overlay::Rect;

#[test]
fn the_exact_budget_fits_but_one_short_of_either_axis_does_not() {
    assert!(fits(Rect::new(0, 0, MIN_WIDTH, MIN_HEIGHT)));
    assert!(!fits(Rect::new(0, 0, MIN_WIDTH - 1, MIN_HEIGHT)));
    assert!(!fits(Rect::new(0, 0, MIN_WIDTH, MIN_HEIGHT - 1)));
}

#[test]
fn the_box_states_the_target_the_actual_size_and_the_quit_hint() {
    let frame = message(Rect::new(0, 0, 54, 18)).join("\n");
    assert!(frame.contains("Skylode needs 80 x 24"), "{frame}");
    assert!(frame.contains("This terminal is 54 x 18"), "{frame}");
    assert!(frame.contains("press q to quit"), "{frame}");
}

#[test]
fn a_short_height_underlines_the_height_and_not_the_width() {
    let underline = underline(Rect::new(0, 0, 80, 18));
    assert!(underline.ends_with("^^"), "expected carets under 18: {underline:?}");
    assert_eq!(&underline[17..19], "  ", "width should not be flagged: {underline:?}");
}

#[test]
fn both_axes_short_underlines_across_the_whole_reading() {
    let underline = underline(Rect::new(0, 0, 54, 18));
    assert!(underline.trim_start().chars().all(|c| c == '^'));
    assert_eq!(underline.trim_start().chars().count(), "54 x 18".len());
}

#[test]
fn below_the_box_footprint_only_the_bare_target_remains() {
    assert!(!box_fits(Rect::new(0, 0, 20, 6)));
    assert!(box_fits(Rect::new(0, 0, 54, 18)));
}

#[test]
fn a_narrow_width_underlines_only_the_width() {
    let underline = underline(Rect::new(0, 0, 54, 30));
    assert_eq!(underline, format!("{}^^     ", " ".repeat(17)));
}
