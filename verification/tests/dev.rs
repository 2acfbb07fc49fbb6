use std::time::Duration;

use skylode_tui::overlay::dev::{DevRow, DevState, LEVEL_CAP, MATERIAL_COUNT, ROWS};

fn draw(dev: &DevState) -> String {
    dev.lines("Stone").join("\n")
}

#[test]
fn the_menu_opens_with_nothing_switched_on() {
    let dev = DevState::default();
    assert!(!dev.free_upgrades, "a fresh session was already free");
    assert_eq!(dev.row, DevRow::FreeUpgrades);
    assert_eq!(dev.amount(), 1_000);
    assert_eq!(dev.skip(), Duration::from_secs(3_600));
    assert_eq!(dev.level, 1);
}

#[test]
fn the_cursor_clamps_at_both_ends_of_the_list() {
    let mut dev = DevState::default();
    dev.step_row(-1);
    assert_eq!(dev.row, ROWS[0], "the cursor walked off the top");
    for _ in 0..ROWS.len() * 2 {
        dev.step_row(1);
    }
    assert_eq!(dev.row, DevRow::SkipTime, "the cursor walked off the bottom");
}

#[test]
fn the_amount_ladder_climbs_in_powers_of_ten_and_stops() {
    let mut dev = DevState::default();
    dev.row = DevRow::Amount;
    dev.adjust(1);
    assert_eq!(dev.amount(), 10_000);
    for _ in 0..10 {
        dev.adjust(1);
    }
    assert_eq!(dev.amount(), 1_000_000, "the ladder did not stop at the top");
    for _ in 0..10 {
        dev.adjust(-1);
    }
    assert_eq!(dev.amount(), 1, "the ladder did not stop at the bottom");
}

#[test]
fn either_arrow_flips_the_free_upgrades_row() {
    let mut dev = DevState::default();
    dev.adjust(-1);
    assert!(dev.free_upgrades);
    dev.adjust(-1);
    assert!(!dev.free_upgrades);
}

#[test]
fn the_level_dial_stops_inside_the_ladder_the_game_has() {
    let mut dev = DevState::default();
    dev.row = DevRow::Level;
    dev.adjust(-1);
    assert_eq!(dev.level, 1, "the dial went below the first level");
    for _ in 0..LEVEL_CAP + 5 {
        dev.adjust(1);
    }
    assert_eq!(dev.level, LEVEL_CAP, "the dial went past the cap");
}

#[test]
fn the_two_derived_rows_have_no_value_to_turn() {
    let mut dev = DevState::default();
    for row in [DevRow::Everything, DevRow::Experience] {
        dev.row = row;
        let before = dev.clone();
        dev.adjust(1);
        assert_eq!(dev, before, "{row:?} moved something");
        assert!(!row.adjustable());
    }
}

#[test]
fn the_material_row_walks_all_fifteen_piles() {
    let mut dev = DevState::default();
    dev.row = DevRow::Material;
    for _ in 0..MATERIAL_COUNT * 2 {
        dev.adjust(1);
    }
    assert_eq!(dev.material, MATERIAL_COUNT - 1);
}

#[test]
fn the_frame_names_every_row_and_marks_the_one_under_the_cursor() {
    let mut dev = DevState::default();
    dev.row = DevRow::Level;
    let frame = draw(&dev);
    for row in ROWS {
        assert!(frame.contains(row.label()), "{} is missing\n{frame}", row.label());
    }
    assert!(frame.contains("▸ Mining level"), "{frame}");
    assert!(frame.contains("Free upgrades     ◄ off ►"), "{frame}");
    assert!(frame.contains("Enter apply"), "{frame}");
}

#[test]
fn the_derived_rows_print_the_amount_they_would_spend() {
    let dev = DevState::default();
    let frame = draw(&dev);
    assert!(frame.contains("Give everything   1 000 of each"), "{frame}");
    assert!(frame.contains("Give experience   1 000 xp"), "{frame}");
}

#[test]
fn the_skip_ladder_speaks_in_its_own_labels() {
    let mut dev = DevState::default();
    dev.row = DevRow::SkipTime;
    assert_eq!(dev.skip_label(), "1 h");
    for _ in 0..10 {
        dev.adjust(1);
    }
    assert_eq!(dev.skip_seconds(), 604_800);
    assert_eq!(dev.skip_label(), "7 d");
    assert!(draw(&dev).contains("Skip time         ◄ 7 d ►"));
}

#[test]
fn the_prestige_and_charge_dials_stop_at_their_bounds() {
    let mut dev = DevState::default();
    dev.row = DevRow::Prestige;
    dev.adjust(-3);
    assert_eq!(dev.prestige, 0);
    dev.adjust(100);
    assert_eq!(dev.prestige, 20);
    dev.row = DevRow::Charges;
    dev.adjust(-5);
    assert_eq!(dev.charges, 1);
    dev.adjust(500);
    assert_eq!(dev.charges, 99);
}

#[test]
fn enter_on_each_row_is_answered_in_the_games_own_words() {
    let mut dev = DevState::default();
    assert_eq!(dev.toast("Iron", 1, None), "Free upgrades off");
    dev.adjust(1);
    assert_eq!(dev.toast("Iron", 1, None), "Free upgrades on");
    dev.step_row(1);
    assert_eq!(dev.toast("Iron", 1, None), "Amount 1 000");
    dev.step_row(1);
    assert_eq!(dev.toast("Iron", 1, None), "+1 000 Iron");
    dev.step_row(1);
    assert_eq!(dev.toast("Iron", 1, None), "+1 000 of all 15 piles");
    dev.step_row(1);
    assert_eq!(dev.toast("Iron", 1, None), "+1 000 xp");
    dev.step_row(1);
    assert_eq!(dev.toast("Iron", 12, None), "Level 12");
    dev.step_row(1);
    assert_eq!(dev.toast("Iron", 1, None), "Prestige rank 0");
    dev.step_row(1);
    assert_eq!(dev.toast("Iron", 1, None), "+1 boost charges");
    dev.step_row(1);
    assert_eq!(dev.toast("Iron", 1, Some(1_234_567)), "Skipped 1 h — 1 234 567 blocks mined");
    assert_eq!(
        dev.toast("Iron", 1, None),
        "Skipped nothing — the mark is already at the epoch"
    );
}
