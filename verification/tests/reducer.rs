use skylode_tui::action::{Action, Leaving};
use skylode_tui::announce::free_upgrades;
use skylode_tui::config::Config;
use skylode_tui::cursor::{Cursors, ListLengths, MineTrack, UpgradeTab};
use skylode_tui::overlay::dev::{DevRow, DevState, LEVEL_CAP};
use skylode_tui::overlay::prestige::CONFIRM_WORD;
use skylode_tui::overlay::{Conversion, Modal};
use skylode_tui::reducer::{spinner_units, Command, Frontend, MineKeyEdge, Reach};
use skylode_tui::screen::Screen;

const STONE: u8 = 0;
const COAL: u8 = 1;
const AMETHYST: u8 = 11;
const LADDER: usize = 46;

/// The interface driven the way its owner drives it: the reducer first, then the
/// commands that only need what the owner holds — list lengths, a pile's ceiling, the
/// player's level, and the toasts.
struct Session {
    front: Frontend,
    lengths: ListLengths,
    ceiling: u32,
    level: u32,
    affordable: bool,
    toasts: Vec<String>,
    commands: Vec<Command>,
}

impl Session {
    fn new() -> Session {
        Session {
            front: Frontend::new(Cursors::new(STONE, 0, 1), Config::default(), None),
            lengths: ListLengths {
                pickaxe_rungs: LADDER,
                enchant_tracks: 6,
                history: 0,
            },
            ceiling: 13,
            level: 1,
            affordable: true,
            toasts: Vec::new(),
            commands: Vec::new(),
        }
    }

    fn with_dev(mut self) -> Session {
        self.front.dev = Some(DevState::default());
        self
    }

    fn update(&mut self, action: Action) {
        let command = self.front.update(action);
        match command {
            Command::StepListCursor(delta) => {
                let screen = self.front.screen;
                self.front.cursors.step(screen, delta, self.lengths);
            }
            Command::SetSpinner {
                material,
                direction,
                requested,
            } => self.front.set_spinner(material, direction, requested, self.ceiling),
            Command::OpenConversion(direction) => {
                if self.ceiling > 0 {
                    self.front.modal = Some(Modal::Compress {
                        material: self.front.cursors.material,
                        direction,
                        units: 1,
                    });
                }
            }
            Command::OpenPrestigeConfirm => {
                if self.affordable {
                    self.front.open_prestige_confirm();
                }
            }
            Command::Prestige => self.front.prestiged(),
            Command::JumpToCurrent => self.front.cursors.level = self.level,
            Command::AnnounceFreeUpgrades(on) => self.toasts.push(free_upgrades(on)),
            _ => {}
        }
        self.commands.push(command);
    }

    fn units(&self) -> u32 {
        match self.front.modal {
            Some(Modal::Compress { units, .. }) => units,
            _ => 0,
        }
    }
}

fn on_row(row: DevRow) -> Session {
    let mut app = Session::new().with_dev();
    app.update(Action::OpenDevMenu);
    if let Some(dev) = app.front.dev.as_mut() {
        dev.row = row;
    }
    app
}

#[test]
fn a_new_session_opens_on_the_mine_tab_with_nothing_stacked() {
    let app = Session::new();
    assert_eq!(app.front.screen, Screen::Mine);
    assert!(app.front.modal.is_none());
    assert!(app.front.leaving.is_none());
}

#[test]
fn next_and_prev_walk_the_ring() {
    let mut app = Session::new();
    app.update(Action::NextScreen);
    assert_eq!(app.front.screen, Screen::Mines);
    app.update(Action::PrevScreen);
    assert_eq!(app.front.screen, Screen::Mine);
}

#[test]
fn the_ring_wraps_in_both_directions() {
    let mut app = Session::new();
    app.update(Action::PrevScreen);
    assert_eq!(app.front.screen, Screen::Levels);
    app.update(Action::NextScreen);
    assert_eq!(app.front.screen, Screen::Mine);
}

#[test]
fn selecting_a_tab_jumps_straight_to_it() {
    let mut app = Session::new();
    app.update(Action::SelectScreen(3));
    assert_eq!(app.front.screen, Screen::Upgrades);
}

#[test]
fn selecting_a_tab_that_does_not_exist_leaves_the_screen_alone() {
    let mut app = Session::new();
    app.update(Action::SelectScreen(99));
    assert_eq!(app.front.screen, Screen::Mine);
}

#[test]
fn quit_raises_the_flag_the_loop_watches() {
    let mut app = Session::new();
    app.update(Action::ToTitle);
    assert_eq!(app.front.leaving, Some(Leaving::ToTitle));
    let mut app = Session::new();
    app.update(Action::Quit);
    assert_eq!(app.front.leaving, Some(Leaving::Process));
}

#[test]
fn the_mine_key_records_an_edge_and_nothing_else() {
    let mut app = Session::new();
    assert_eq!(app.front.mine_key, None);
    app.update(Action::MinePressed);
    assert_eq!(app.front.mine_key, Some(MineKeyEdge::Down));
    app.update(Action::MineReleased);
    assert_eq!(app.front.mine_key, Some(MineKeyEdge::Up));
    assert_eq!(app.commands, vec![Command::Nothing, Command::Nothing]);
}

#[test]
fn opening_and_closing_help_stacks_then_clears_the_modal() {
    let mut app = Session::new();
    app.update(Action::OpenHelp);
    assert_eq!(app.front.modal, Some(Modal::Help));
    app.update(Action::CloseModal);
    assert!(app.front.modal.is_none());
}

#[test]
fn the_mines_cursor_walks_the_list_and_wraps_at_both_ends() {
    let mut app = Session::new();
    app.front.screen = Screen::Mines;
    assert_eq!(app.front.cursors.mine, STONE);
    app.update(Action::CursorDown);
    assert_eq!(app.front.cursors.mine, COAL);
    app.update(Action::CursorUp);
    assert_eq!(app.front.cursors.mine, STONE);
    app.update(Action::CursorUp);
    assert_eq!(app.front.cursors.mine, AMETHYST);
    for _ in 0..12 {
        app.update(Action::CursorDown);
    }
    assert_eq!(app.front.cursors.mine, AMETHYST);
}

#[test]
fn the_material_cursor_walks_the_table_and_wraps_at_both_ends() {
    let mut app = Session::new();
    app.front.screen = Screen::Inventory;
    assert_eq!(app.front.cursors.material, 0);
    app.update(Action::CursorDown);
    assert_eq!(app.front.cursors.material, 1);
    app.update(Action::CursorUp);
    assert_eq!(app.front.cursors.material, 0);
    app.update(Action::CursorUp);
    assert_eq!(app.front.cursors.material, 14);
    for _ in 0..15 {
        app.update(Action::CursorDown);
    }
    assert_eq!(app.front.cursors.material, 14);
}

#[test]
fn a_list_gesture_reaches_exactly_the_cursor_of_the_open_screen() {
    for screen in Screen::ALL {
        let mut app = Session::new();
        app.front.screen = screen;
        app.update(Action::CursorDown);
        assert_eq!(app.front.cursors.mine != STONE, screen == Screen::Mines, "{screen:?}");
        assert_eq!(app.front.cursors.material != 0, screen == Screen::Inventory, "{screen:?}");
    }
}

#[test]
fn the_spinner_walks_and_clamps_between_one_and_the_pile() {
    let mut app = Session::new();
    app.front.screen = Screen::Inventory;
    app.update(Action::Compress);
    app.update(Action::AdjustRight);
    assert_eq!(app.units(), 2);
    app.update(Action::AdjustLeft);
    assert_eq!(app.units(), 1);
    app.update(Action::AdjustLeft);
    assert_eq!(app.units(), 1);
    app.update(Action::AdjustMax);
    assert_eq!(app.units(), 13);
    app.update(Action::AdjustRight);
    assert_eq!(app.units(), 13, "the spinner ran past what is held");
}

#[test]
fn a_stacked_dialog_takes_the_gesture_before_the_screen_below_does() {
    let mut app = Session::new();
    app.front.screen = Screen::Inventory;
    app.update(Action::Compress);
    app.front.screen = Screen::Mines;
    app.update(Action::AdjustRight);
    assert!(!app.commands.contains(&Command::StepRichnessDial(1)), "the key reached the dial");
    assert!(matches!(app.front.modal, Some(Modal::Compress { units: 2, .. })));
}

#[test]
fn escaping_the_dialog_converts_nothing() {
    let mut app = Session::new();
    app.front.screen = Screen::Inventory;
    app.update(Action::Compress);
    app.update(Action::AdjustMax);
    app.update(Action::CloseModal);
    assert_eq!(app.front.modal, None);
    assert!(!app
        .commands
        .iter()
        .any(|command| matches!(command, Command::ApplyConversion { .. })));
}

#[test]
fn confirming_the_dialog_converts_what_the_spinner_reads_and_closes() {
    let mut app = Session::new();
    app.front.screen = Screen::Inventory;
    app.update(Action::Compress);
    app.update(Action::AdjustRight);
    app.update(Action::Confirm);
    assert_eq!(app.front.modal, None);
    assert_eq!(
        app.commands.last(),
        Some(&Command::ApplyConversion {
            material: 0,
            direction: Conversion::Compress,
            units: 2
        })
    );
}

#[test]
fn the_conversion_gestures_do_nothing_off_their_screen_and_off_their_modal() {
    let mut app = Session::new();
    app.update(Action::Compress);
    app.update(Action::Decompress);
    assert_eq!(app.front.modal, None);
    assert_eq!(app.commands, vec![Command::Nothing, Command::Nothing]);
}

#[test]
fn the_sub_tabs_and_the_rows_inside_them_are_both_rings() {
    let mut app = Session::new();
    app.front.screen = Screen::Upgrades;
    app.update(Action::NextSubTab);
    assert_eq!(app.front.cursors.upgrade_tab, UpgradeTab::Enchants);
    app.update(Action::NextSubTab);
    assert_eq!(app.front.cursors.upgrade_tab, UpgradeTab::Mines);
    app.update(Action::NextSubTab);
    assert_eq!(app.front.cursors.upgrade_tab, UpgradeTab::Pickaxe, "the sub-tab bar did not wrap");
    app.update(Action::PrevSubTab);
    assert_eq!(app.front.cursors.upgrade_tab, UpgradeTab::Mines, "nor backwards");
    app.front.cursors.upgrade_tab = UpgradeTab::Pickaxe;
    app.update(Action::CursorUp);
    assert_eq!(app.front.cursors.pickaxe_rung, LADDER - 1);
    app.update(Action::CursorDown);
    assert_eq!(app.front.cursors.pickaxe_rung, 0, "the last rung did not wrap");
    app.update(Action::CursorDown);
    assert_eq!(app.front.cursors.pickaxe_rung, 1);
}

#[test]
fn a_sub_tab_gesture_does_nothing_off_the_upgrades_screen() {
    let mut app = Session::new();
    app.front.screen = Screen::Mines;
    app.update(Action::NextSubTab);
    assert_eq!(app.front.cursors.upgrade_tab, UpgradeTab::Pickaxe);
}

#[test]
fn each_sub_tab_walks_only_its_own_list() {
    let mut app = Session::new();
    app.front.screen = Screen::Upgrades;
    app.front.cursors.upgrade_tab = UpgradeTab::Enchants;
    let before = app.front.cursors;
    app.update(Action::CursorDown);
    assert_ne!(app.front.cursors.enchant, before.enchant, "the list did not move");
    assert_eq!(app.front.cursors.pickaxe_rung, before.pickaxe_rung);
    assert_eq!(app.front.cursors.mine_track, before.mine_track);

    let mut app = Session::new();
    app.front.screen = Screen::Upgrades;
    app.front.cursors.upgrade_tab = UpgradeTab::Mines;
    assert_eq!(app.front.cursors.mine_track, (STONE, MineTrack::Size));
    app.update(Action::CursorDown);
    assert_eq!(app.front.cursors.mine_track, (STONE, MineTrack::Richness));
    app.update(Action::CursorDown);
    assert_eq!(app.front.cursors.mine_track, (COAL, MineTrack::Size));
}

#[test]
fn enter_and_m_buy_only_on_the_upgrades_screen() {
    let mut app = Session::new();
    app.front.screen = Screen::Upgrades;
    app.update(Action::Confirm);
    app.update(Action::BuyMax);
    assert_eq!(
        app.commands,
        vec![Command::Buy(Reach::ToCursor), Command::Buy(Reach::AsFarAsPossible)]
    );
}

#[test]
fn the_dip_caret_clamps_at_both_ends() {
    let mut app = Session::new();
    app.front.modal = Some(Modal::Dip { to: 7, buy: false });
    app.update(Action::AdjustRight);
    assert!(matches!(app.front.modal, Some(Modal::Dip { buy: false, .. })));
    app.update(Action::AdjustLeft);
    app.update(Action::AdjustLeft);
    assert!(matches!(app.front.modal, Some(Modal::Dip { buy: true, .. })));
}

#[test]
fn declining_the_dip_closes_the_box_and_buys_nothing() {
    let mut app = Session::new();
    app.front.modal = Some(Modal::Dip { to: 7, buy: false });
    app.update(Action::Confirm);
    assert!(app.front.modal.is_none());
    assert_eq!(app.commands, vec![Command::Nothing]);
}

#[test]
fn confirming_the_dip_buys_the_chain_and_announces_it_like_any_other() {
    let mut app = Session::new();
    app.front.modal = Some(Modal::Dip { to: 7, buy: false });
    app.update(Action::AdjustLeft);
    app.update(Action::Confirm);
    assert!(app.front.modal.is_none());
    assert_eq!(app.commands.last(), Some(&Command::ClimbTo(7)));
}

#[test]
fn declining_the_dip_goes_through_the_close_every_modal_shares() {
    let mut app = Session::new();
    app.front.modal = Some(Modal::Dip { to: 7, buy: true });
    app.update(Action::CloseModal);
    assert!(app.front.modal.is_none());
    assert_eq!(app.commands, vec![Command::Nothing]);
}

#[test]
fn confirm_does_nothing_on_a_screen_that_owns_no_selection() {
    let mut app = Session::new();
    app.front.screen = Screen::Stats;
    let before = app.front.cursors;
    app.update(Action::Confirm);
    assert_eq!(app.front.cursors, before);
    assert_eq!(app.commands, vec![Command::Nothing]);
}

#[test]
fn the_claim_gestures_do_nothing_off_the_levels_screen() {
    for screen in [Screen::Mine, Screen::Mines, Screen::Inventory, Screen::Upgrades] {
        let mut app = Session::new();
        app.front.screen = screen;
        app.update(Action::ClaimAll);
        assert!(!app.commands.contains(&Command::ClaimEverything), "{screen:?}");
        assert!(!app.commands.contains(&Command::ClaimAtCursor), "{screen:?}");
    }
    let mut app = Session::new();
    app.front.screen = Screen::Levels;
    app.update(Action::ClaimAll);
    app.update(Action::Confirm);
    assert_eq!(app.commands, vec![Command::ClaimEverything, Command::ClaimAtCursor]);
}

#[test]
fn the_roadmap_cursor_wraps_at_both_ends_and_home_returns_to_the_player() {
    let mut app = Session::new();
    app.front.screen = Screen::Levels;
    app.level = 17;
    assert_eq!(app.front.cursors.level, 1);
    app.update(Action::CursorUp);
    assert_eq!(app.front.cursors.level, LEVEL_CAP);
    app.update(Action::CursorDown);
    assert_eq!(app.front.cursors.level, 1);
    for _ in 0..LEVEL_CAP {
        app.update(Action::CursorDown);
    }
    assert_eq!(app.front.cursors.level, 1, "a full lap did not come back");
    app.update(Action::JumpToCurrent);
    assert_eq!(app.front.cursors.level, 17);
}

#[test]
fn the_history_cursor_wraps_at_both_ends() {
    let mut app = Session::new();
    app.front.screen = Screen::Stats;
    app.lengths.history = 4;
    assert_eq!(app.front.cursors.history, 0);
    app.update(Action::CursorUp);
    assert_eq!(app.front.cursors.history, 3);
    app.update(Action::CursorDown);
    assert_eq!(app.front.cursors.history, 0);
    for _ in 0..4 {
        app.update(Action::CursorDown);
    }
    assert_eq!(app.front.cursors.history, 0, "a full lap did not come back");
}

#[test]
fn scrolling_a_history_that_has_announced_nothing_is_harmless() {
    let mut app = Session::new();
    app.front.screen = Screen::Stats;
    app.update(Action::CursorUp);
    app.update(Action::CursorDown);
    assert_eq!(app.front.cursors.history, 0);
}

#[test]
fn the_history_cursor_only_moves_on_the_screen_that_owns_it() {
    let mut app = Session::new();
    app.lengths.history = 4;
    for screen in Screen::ALL {
        app.front.screen = screen;
        app.front.cursors.history = 0;
        app.update(Action::CursorDown);
        assert_eq!(app.front.cursors.history != 0, screen == Screen::Stats, "{screen:?}");
    }
}

#[test]
fn p_opens_the_preview_on_stats_and_nowhere_else() {
    let mut app = Session::new();
    app.front.screen = Screen::Stats;
    app.update(Action::OpenPrestige);
    assert_eq!(app.front.modal, Some(Modal::PrestigePreview));
    for screen in Screen::ALL {
        if screen == Screen::Stats {
            continue;
        }
        let mut app = Session::new();
        app.front.screen = screen;
        app.update(Action::OpenPrestige);
        assert_eq!(app.front.modal, None, "{screen:?} opened the prestige preview");
    }
}

#[test]
fn an_affordable_preview_opens_the_confirm_on_an_empty_field() {
    let mut app = Session::new();
    app.front.screen = Screen::Stats;
    app.update(Action::OpenPrestige);
    app.update(Action::Confirm);
    assert_eq!(app.front.modal, Some(Modal::PrestigeConfirm { typed: String::new() }));
}

#[test]
fn c_walks_from_the_refused_preview_to_the_pile_it_named() {
    let mut app = Session::new();
    app.front.screen = Screen::Stats;
    app.front.modal = Some(Modal::PrestigePreview);
    app.update(Action::GoCompress);
    assert_eq!(app.front.modal, None);
    assert_eq!(app.front.screen, Screen::Inventory);
    assert_eq!(app.commands, vec![Command::WalkToRefusedPile]);
}

#[test]
fn the_field_takes_letters_erases_them_and_stops_at_the_words_length() {
    let mut app = Session::new();
    app.front.modal = Some(Modal::PrestigeConfirm { typed: String::new() });
    for character in "prez".chars() {
        app.update(Action::TypeChar(character));
    }
    assert_eq!(app.front.modal, Some(Modal::PrestigeConfirm { typed: "prez".to_owned() }));
    app.update(Action::EraseChar);
    assert_eq!(app.front.modal, Some(Modal::PrestigeConfirm { typed: "pre".to_owned() }));
    for _ in 0..40 {
        app.update(Action::TypeChar('X'));
    }
    match &app.front.modal {
        Some(Modal::PrestigeConfirm { typed }) => {
            assert_eq!(typed.chars().count(), CONFIRM_WORD.chars().count());
        }
        other => unreachable!("the confirm closed: {other:?}"),
    }
    app.front.modal = Some(Modal::PrestigeConfirm { typed: String::new() });
    app.update(Action::EraseChar);
    assert_eq!(app.front.modal, Some(Modal::PrestigeConfirm { typed: String::new() }));
}

#[test]
fn a_wrong_word_neither_prestiges_nor_says_anything() {
    let mut app = Session::new();
    app.front.modal = Some(Modal::PrestigeConfirm { typed: "prestige".to_owned() });
    app.update(Action::Confirm);
    assert_eq!(app.commands, vec![Command::Nothing]);
    assert!(app.toasts.is_empty());
    assert_eq!(app.front.modal, Some(Modal::PrestigeConfirm { typed: "prestige".to_owned() }));
}

#[test]
fn the_typed_word_trades_the_run_in_and_resets_the_front_end_with_it() {
    let mut app = Session::new();
    app.front.screen = Screen::Stats;
    app.update(Action::OpenPrestige);
    app.update(Action::Confirm);
    for character in CONFIRM_WORD.chars() {
        app.update(Action::TypeChar(character));
    }
    app.update(Action::Confirm);
    assert_eq!(app.commands.last(), Some(&Command::Prestige));
    assert_eq!(app.front.modal, None);
    assert_eq!(app.front.screen, Screen::Mine);
}

#[test]
fn escaping_either_box_trades_nothing() {
    for modal in [Modal::PrestigePreview, Modal::PrestigeConfirm { typed: String::new() }] {
        let mut app = Session::new();
        app.front.modal = Some(modal);
        app.update(Action::CloseModal);
        assert_eq!(app.front.modal, None);
        assert!(!app.commands.contains(&Command::Prestige));
    }
}

#[test]
fn a_typed_character_outside_the_confirm_changes_nothing() {
    for screen in Screen::ALL {
        let mut app = Session::new();
        app.front.screen = screen;
        app.update(Action::TypeChar('P'));
        app.update(Action::EraseChar);
        assert_eq!(app.front.modal, None);
        assert_eq!(app.front.screen, screen);
        assert!(app.toasts.is_empty());
    }
}

#[test]
fn a_plain_session_has_no_menu_and_an_asked_for_one_does() {
    assert!(Session::new().front.dev.is_none());
    assert!(Session::new().with_dev().front.dev.is_some());
}

#[test]
fn the_menu_opens_stacks_and_closes() {
    let mut app = Session::new().with_dev();
    app.update(Action::OpenDevMenu);
    assert_eq!(app.front.modal, Some(Modal::Dev));
    app.update(Action::CloseModal);
    assert_eq!(app.front.modal, None);
}

#[test]
fn the_gestures_walk_the_rows_and_turn_the_value_under_the_cursor() {
    let mut app = on_row(DevRow::FreeUpgrades);
    app.update(Action::CursorDown);
    assert_eq!(app.front.dev.as_ref().map(|dev| dev.row), Some(DevRow::Amount));
    app.update(Action::AdjustRight);
    assert_eq!(app.front.dev.as_ref().map(DevState::amount), Some(10_000));
    app.update(Action::CursorUp);
    app.update(Action::AdjustRight);
    assert_eq!(app.front.dev.as_ref().map(|dev| dev.free_upgrades), Some(true));
}

#[test]
fn the_dialled_values_survive_the_box_being_closed() {
    let mut app = on_row(DevRow::Amount);
    app.update(Action::AdjustRight);
    app.update(Action::AdjustRight);
    let dialled = app.front.dev.as_ref().map(DevState::amount);
    app.update(Action::CloseModal);
    app.update(Action::OpenDevMenu);
    assert_eq!(app.front.dev.as_ref().map(DevState::amount), dialled);
    assert_eq!(dialled, Some(100_000));
}

#[test]
fn the_left_gesture_turns_the_value_down() {
    let mut app = on_row(DevRow::Amount);
    app.update(Action::AdjustLeft);
    assert_eq!(app.front.dev.as_ref().map(DevState::amount), Some(100));
}

#[test]
fn a_menu_stacked_without_a_state_closes_itself() {
    let mut app = Session::new();
    app.front.modal = Some(Modal::Dev);
    app.update(Action::CursorDown);
    assert_eq!(app.front.modal, None);
}

#[test]
fn flipping_the_free_toggle_announces_it() {
    let mut app = on_row(DevRow::FreeUpgrades);
    app.update(Action::AdjustRight);
    assert!(app.toasts.iter().any(|t| t.contains("Free upgrades on")), "{:?}", app.toasts);
    app.toasts.clear();
    app.update(Action::AdjustLeft);
    assert!(app.toasts.iter().any(|t| t.contains("Free upgrades off")), "{:?}", app.toasts);
    let mut app = on_row(DevRow::Amount);
    app.update(Action::AdjustRight);
    assert_eq!(app.toasts.len(), 0, "turning a value announced something");
}

#[test]
fn enter_on_a_dev_row_asks_the_run_to_apply_it() {
    let mut app = on_row(DevRow::Material);
    app.update(Action::Confirm);
    assert_eq!(app.commands.last(), Some(&Command::ApplyDevRow));
    assert_eq!(app.front.modal, Some(Modal::Dev));
}

#[test]
fn settings_walks_its_rows_and_turns_the_preference_under_the_cursor() {
    let mut app = Session::new();
    app.update(Action::OpenSettings);
    app.update(Action::CursorDown);
    assert!(matches!(app.front.modal, Some(Modal::Settings { .. })));
    app.update(Action::AdjustRight);
    assert_eq!(
        app.front.config.mining_input,
        skylode_tui::config::MiningInput::PressToStart
    );
    app.update(Action::CloseModal);
    assert_eq!(app.front.modal, None);
}

#[test]
fn esc_on_a_tab_goes_home_to_the_mine() {
    let mut app = Session::new();
    app.front.screen = Screen::Levels;
    app.update(Action::ToMine);
    assert_eq!(app.front.screen, Screen::Mine);
    app.update(Action::FireBoost);
    assert_eq!(app.commands.last(), Some(&Command::FireBoost));
}

#[test]
fn the_spinner_floor_is_one_and_its_ceiling_the_pile() {
    assert_eq!(spinner_units(0, 13), 1);
    assert_eq!(spinner_units(7, 13), 7);
    assert_eq!(spinner_units(u32::MAX, 13), 13);
    assert_eq!(spinner_units(5, 0), 1);
}

#[test]
fn a_reach_counts_the_purchases_it_asks_for() {
    assert_eq!(skylode_tui::reducer::steps(Reach::ToCursor), 1);
    assert_eq!(skylode_tui::reducer::steps(Reach::AsFarAsPossible), u32::MAX);
}
