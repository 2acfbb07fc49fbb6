use skylode_tui::overlay::splash::{
    confirmation, footer, menu, rows, summary, Resume, SplashRow, CONFIRM_ROWS, LOGO, VERSION,
};

fn a_save(prestige: u32) -> Resume {
    Resume {
        level: 23,
        pickaxe: "Diamond Pickaxe".to_owned(),
        prestige,
        idle: Some(3 * 3_600),
    }
}

/// Everything the title screen prints: the wordmark, the menu, the summary, the
/// version and the footer.
fn title_screen(persists: bool, resume: Option<&Resume>) -> String {
    let mut lines: Vec<String> = LOGO.iter().map(|row| row.to_string()).collect();
    lines.extend(menu(resume.is_some(), 0));
    lines.extend(summary(resume, persists));
    lines.push(VERSION.to_owned());
    lines.push(footer(false).to_owned());
    lines.join("\n")
}

#[test]
fn a_fresh_install_offers_no_continue_and_says_nothing_about_a_save() {
    let frame = title_screen(true, None);
    assert!(frame.contains("New game") && frame.contains("Quit"), "{frame}");
    assert!(!frame.contains("Continue"), "a fresh install was offered a run: {frame}");
    assert!(!frame.contains("could not find a place"), "a working disk complained: {frame}");
}

#[test]
fn it_draws_the_wordmark_and_the_build_it_is() {
    let frame = title_screen(true, None);
    for row in LOGO {
        assert!(frame.contains(row), "the wordmark row {row:?} did not draw");
    }
    assert!(frame.contains(VERSION), "{frame}");
}

#[test]
fn a_session_that_cannot_write_says_so_where_the_summary_goes() {
    let frame = title_screen(false, None);
    assert!(frame.contains("could not find a place to save"), "{frame}");
    assert!(frame.contains("Nothing from this session"), "{frame}");
}

#[test]
fn a_title_over_a_save_shows_its_level_its_pickaxe_its_rank_and_how_long_it_sat() {
    let save = a_save(2);
    let frame = title_screen(true, Some(&save));
    assert!(frame.contains("Continue"), "{frame}");
    assert!(frame.contains("Lv 23 · Diamond Pickaxe · Prestige II"), "{frame}");
    assert!(frame.contains("last played 3h ago"), "{frame}");
}

#[test]
fn a_run_before_its_first_prestige_keeps_the_rank_off_the_headline() {
    let save = a_save(0);
    let frame = title_screen(true, Some(&save));
    assert!(frame.contains("Lv 23 · Diamond Pickaxe"), "{frame}");
    assert!(!frame.contains("Prestige"), "a run that has never prestiged was told its rank: {frame}");
}

#[test]
fn a_rank_past_the_roman_table_prints_as_a_number_on_the_title_too() {
    let save = a_save(42);
    let frame = title_screen(true, Some(&save));
    assert!(frame.contains("Prestige 42"), "{frame}");
}

#[test]
fn the_longest_menu_keeps_its_last_row_and_its_own_bottom_border() {
    let save = a_save(2);
    let frame = title_screen(true, Some(&save));
    for row in ["Continue", "New game", "Settings", "Quit"] {
        assert!(frame.contains(row), "{row} was cut off the menu: {frame}");
    }
    assert_eq!(rows(true).len(), 4);
}

#[test]
fn the_caret_marks_the_row_it_is_on_and_only_that_row() {
    let save = a_save(2);
    let frame = title_screen(true, Some(&save));
    assert_eq!(frame.matches('▸').count(), 1, "more than one row was marked: {frame}");
    let marked = frame.lines().find(|line| line.contains('▸')).unwrap_or_default();
    assert!(marked.contains("Continue"), "{frame}");
}

#[test]
fn the_confirmation_names_the_run_it_would_cost_and_opens_on_keeping_it() {
    let save = a_save(2);
    let frame = confirmation(Some(&save), 0).join("\n");
    assert!(frame.contains("Lv 23 · Diamond Pickaxe · Prestige II"), "{frame}");
    assert!(frame.contains("writes over it"), "{frame}");
    let marked = frame.lines().find(|line| line.contains('▸')).unwrap_or_default();
    assert!(marked.contains("No, keep this save"), "a stray Enter would have destroyed the run: {frame}");
    assert!(footer(true).contains("Esc  keep the save"));
}

#[test]
fn the_wordmark_is_one_box_fifty_five_columns_wide() {
    let widest = LOGO.iter().map(|row| row.chars().count()).max().unwrap_or(0);
    assert_eq!(widest, 55);
    assert_eq!(LOGO[0].chars().count(), 55);
    assert_eq!(LOGO[4].chars().count(), 55);
}

#[test]
fn a_fresh_menu_opens_on_new_game() {
    assert_eq!(rows(false), vec![SplashRow::NewGame, SplashRow::Settings, SplashRow::Quit]);
    let lines = menu(false, 0);
    assert_eq!(lines[0], "  ▸  New game");
    assert_eq!(lines[2], "     Quit");
    assert_eq!(CONFIRM_ROWS.len(), 2);
}
