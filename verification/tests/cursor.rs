use skylode_tui::cursor::{
    mine_tracks, step_in, step_index, Cursors, ListLengths, MineTrack, UpgradeTab,
};
use skylode_tui::screen::Screen;

/// The mines in the order the Mines screen lists them.
const STONE: u8 = 0;
const COAL: u8 = 1;
const AMETHYST: u8 = 11;
const OBSIDIAN: u8 = 9;

const LENGTHS: ListLengths = ListLengths {
    pickaxe_rungs: 46,
    enchant_tracks: 6,
    history: 0,
};

#[test]
fn a_session_opens_pointing_at_the_mine_it_is_standing_in() {
    assert_eq!(Cursors::new(OBSIDIAN, 0, 1).mine, OBSIDIAN);
}

#[test]
fn the_material_cursor_opens_on_the_first_row_of_the_table() {
    assert_eq!(Cursors::new(STONE, 0, 1).material, 0);
}

#[test]
fn a_step_moves_one_row_in_either_direction() {
    let mut cursors = Cursors::new(STONE, 0, 1);
    cursors.material = 2;
    cursors.step(Screen::Inventory, 1, LENGTHS);
    assert_eq!(cursors.material, 3);
    cursors.step(Screen::Inventory, -2, LENGTHS);
    assert_eq!(cursors.material, 1);
}

#[test]
fn a_list_wraps_at_both_ends_rather_than_stopping() {
    let mut cursors = Cursors::new(STONE, 0, 1);
    cursors.step(Screen::Inventory, -1, LENGTHS);
    assert_eq!(cursors.material, 14);
    cursors.step(Screen::Inventory, 1, LENGTHS);
    assert_eq!(cursors.material, 0);

    cursors.step(Screen::Mines, -1, LENGTHS);
    assert_eq!(cursors.mine, AMETHYST);
    cursors.step(Screen::Mines, 1, LENGTHS);
    assert_eq!(cursors.mine, STONE);
}

#[test]
fn stepping_an_index_wraps_and_survives_an_empty_list() {
    assert_eq!(step_index(46, 0, -1), 45, "the first row did not wrap");
    assert_eq!(step_index(46, 45, 1), 0, "the last row did not wrap");
    assert_eq!(step_index(46, 20, 1), 21);
    assert_eq!(step_index(46, 20, -1), 19);
    assert_eq!(step_index(0, 5, 1), 0);
}

#[test]
fn the_sub_tabs_wrap_in_both_directions() {
    assert_eq!(UpgradeTab::Pickaxe.prev(), UpgradeTab::Mines);
    assert_eq!(UpgradeTab::Mines.next(), UpgradeTab::Pickaxe);
    for tab in UpgradeTab::ALL {
        assert_eq!(tab.next().prev(), tab, "{tab:?} did not come back");
    }
}

#[test]
fn the_mine_rows_are_every_mine_twice_in_a_row() {
    let rows = mine_tracks();
    assert_eq!(rows.len(), 12 * 2);
    assert_eq!(rows.first(), Some(&(STONE, MineTrack::Size)));
    assert_eq!(rows.get(1), Some(&(STONE, MineTrack::Richness)));
    assert_eq!(rows.get(2), Some(&(COAL, MineTrack::Size)));
}

#[test]
fn stepping_is_total_on_an_empty_list_and_an_unlisted_value() {
    assert_eq!(step_in::<u8>(&[], 7, 1), 7);
    assert_eq!(step_in(&[STONE, COAL], 7, 1), COAL);
}

#[test]
fn the_mines_sub_tab_walks_a_mine_before_moving_to_the_next() {
    let mut cursors = Cursors::new(STONE, 0, 1);
    cursors.upgrade_tab = UpgradeTab::Mines;
    cursors.step(Screen::Upgrades, 1, LENGTHS);
    assert_eq!(cursors.mine_track, (STONE, MineTrack::Richness));
    cursors.step(Screen::Upgrades, 1, LENGTHS);
    assert_eq!(cursors.mine_track, (COAL, MineTrack::Size));
    cursors.step(Screen::Upgrades, -3, LENGTHS);
    assert_eq!(cursors.mine_track, (AMETHYST, MineTrack::Richness));
}

#[test]
fn the_level_cursor_wraps_on_the_one_based_ladder() {
    let mut cursors = Cursors::new(STONE, 0, 1);
    cursors.step(Screen::Levels, -1, LENGTHS);
    assert_eq!(cursors.level, 50);
    cursors.step(Screen::Levels, 1, LENGTHS);
    assert_eq!(cursors.level, 1);
}

#[test]
fn the_history_cursor_survives_an_empty_log_and_wraps_a_full_one() {
    let mut cursors = Cursors::new(STONE, 0, 1);
    cursors.step(Screen::Stats, 1, LENGTHS);
    assert_eq!(cursors.history, 0);
    let three = ListLengths { history: 3, ..LENGTHS };
    cursors.step(Screen::Stats, -1, three);
    assert_eq!(cursors.history, 2);
    cursors.step(Screen::Mine, 1, three);
    assert_eq!(cursors.history, 2);
}
