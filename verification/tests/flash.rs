use skylode_tui::flash::{stage, FlashStage, Flashes, BRIGHT, TOTAL};

const IRON: u8 = 3;
const GOLD: u8 = 4;
const MS: u64 = 1_000_000;
const SQUARE: [(u8, u8); 4] = [(1, 1), (1, 2), (2, 1), (2, 2)];

#[test]
fn a_fresh_buffer_is_about_no_mine_at_all() {
    let flashes = Flashes::new();
    assert_eq!(flashes.current_mine(), None);
    assert!(flashes.resolve(IRON, 1_000).is_empty());
}

#[test]
fn the_two_beats_meet_at_the_bright_boundary() {
    assert_eq!(stage(0), Some(FlashStage::Bright));
    assert_eq!(stage(BRIGHT - MS), Some(FlashStage::Bright));
    assert_eq!(stage(BRIGHT), Some(FlashStage::Fading));
    assert_eq!(stage(TOTAL - MS), Some(FlashStage::Fading));
    assert_eq!(stage(TOTAL), None);
    assert_eq!(stage(60 * 1_000 * MS), None);
}

#[test]
fn the_first_beat_outlasts_two_redraws() {
    let redraw = 1_000_000_000 / 20;
    assert!(BRIGHT >= 2 * redraw);
    assert_eq!(TOTAL, 2 * BRIGHT);
}

#[test]
fn a_blast_paints_every_cell_of_its_shape_holes_included() {
    let now = 5_000 * MS;
    let mut flashes = Flashes::new();
    flashes.push(IRON, &SQUARE, now);
    let painted = flashes.resolve(IRON, now);
    assert_eq!(painted.len(), SQUARE.len());
    for cell in SQUARE {
        assert_eq!(painted.get(&cell), Some(&FlashStage::Bright), "{cell:?}");
    }
}

#[test]
fn the_last_blast_owns_a_shared_cell_and_the_others_keep_their_own_beat() {
    let first = 5_000 * MS;
    let second = first + 120 * MS;
    let mut flashes = Flashes::new();
    flashes.push(IRON, &SQUARE, first);
    flashes.push(IRON, &[(2, 2), (3, 3)], second);
    let painted = flashes.resolve(IRON, second);
    assert_eq!(painted.get(&(1, 1)), Some(&FlashStage::Fading));
    assert_eq!(painted.get(&(2, 2)), Some(&FlashStage::Bright));
    assert_eq!(painted.get(&(3, 3)), Some(&FlashStage::Bright));
}

#[test]
fn an_expired_cell_leaves_the_frame_and_stays_in_the_buffer() {
    let now = 5_000 * MS;
    let mut flashes = Flashes::new();
    flashes.push(IRON, &SQUARE, now);
    assert!(flashes.resolve(IRON, now + TOTAL).is_empty());
    assert_eq!(flashes.stamped_count(), SQUARE.len());
}

#[test]
fn a_flash_does_not_paint_a_mine_it_did_not_happen_in() {
    let now = 5_000 * MS;
    let mut flashes = Flashes::new();
    flashes.push(IRON, &SQUARE, now);
    assert!(flashes.resolve(GOLD, now).is_empty());
    assert!(!flashes.resolve(IRON, now).is_empty());
}

#[test]
fn a_blast_in_a_new_mine_clears_what_the_old_one_left() {
    let now = 5_000 * MS;
    let mut flashes = Flashes::new();
    flashes.push(IRON, &SQUARE, now);
    flashes.push(GOLD, &[(0, 0)], now);
    let painted = flashes.resolve(GOLD, now);
    assert_eq!(painted.len(), 1, "the Iron cells survived the walk");
    assert_eq!(painted.get(&(0, 0)), Some(&FlashStage::Bright));
}

#[test]
fn an_instant_from_before_the_blast_does_not_panic() {
    let now = 5_000 * MS;
    let mut flashes = Flashes::new();
    flashes.push(IRON, &SQUARE, now);
    let painted = flashes.resolve(IRON, now - 1_000 * MS);
    assert_eq!(painted.get(&(1, 1)), Some(&FlashStage::Bright));
}

#[test]
fn a_change_of_grid_forgets_every_earlier_blast() {
    let mut flashes = Flashes::new();
    flashes.push(IRON, &SQUARE, 1_000 * MS);
    flashes.push(GOLD, &[(7, 7)], 1_010 * MS);
    flashes.push(IRON, &[(1, 1)], 1_020 * MS);
    let painted = flashes.resolve(IRON, 1_030 * MS);
    assert_eq!(painted.len(), 1);
    assert_eq!(painted.get(&(1, 1)), Some(&FlashStage::Bright));
    assert!(flashes.resolve(GOLD, 1_030 * MS).is_empty());
}

#[test]
fn each_cell_reads_the_beat_of_its_newest_stamp() {
    let mut flashes = Flashes::new();
    flashes.push(IRON, &SQUARE, 1_000 * MS);
    flashes.push(IRON, &[(2, 2), (3, 3)], 1_150 * MS);
    let painted = flashes.resolve(IRON, 1_160 * MS);
    assert_eq!(painted.get(&(1, 1)), Some(&FlashStage::Fading));
    assert_eq!(painted.get(&(2, 2)), Some(&FlashStage::Bright));
    assert_eq!(painted.get(&(3, 3)), Some(&FlashStage::Bright));
    let later = flashes.resolve(IRON, 1_220 * MS);
    assert_eq!(later.get(&(1, 1)), None);
    assert_eq!(later.get(&(2, 2)), Some(&FlashStage::Bright));
    assert_eq!(later.len(), 2);
}

#[test]
fn a_stamp_later_than_now_reads_bright() {
    let mut flashes = Flashes::new();
    flashes.push(IRON, &SQUARE, 2_000 * MS);
    let painted = flashes.resolve(IRON, 1_000 * MS);
    assert_eq!(painted.len(), SQUARE.len());
    for cell in SQUARE {
        assert_eq!(painted.get(&cell), Some(&FlashStage::Bright));
    }
}
