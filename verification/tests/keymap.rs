use skylode_tui::action::{Action, MenuAction};
use skylode_tui::config::SubTabKeys;
use skylode_tui::keymap::{
    resolve, resolve_menu, resolve_too_small, KeyCode, KeyContext, KeyEvent, KeyEventKind,
    KeyModifiers,
};
use skylode_tui::overlay::settings::ROWS;
use skylode_tui::overlay::{Conversion, Modal};
use skylode_tui::screen::Screen;

fn press(code: KeyCode) -> KeyEvent {
    KeyEvent::new(code, KeyModifiers::none())
}

fn of_kind(code: KeyCode, kind: KeyEventKind) -> KeyEvent {
    KeyEvent::new_with_kind(code, KeyModifiers::none(), kind)
}

fn ctrl_c() -> KeyEvent {
    KeyEvent::new(KeyCode::Char('c'), KeyModifiers::control())
}

fn session() -> KeyContext {
    KeyContext {
        screen: Screen::Mine,
        modal: None,
        dev_menu: false,
        sub_tab_keys: SubTabKeys::ShiftArrows,
    }
}

fn upgrading() -> KeyContext {
    KeyContext {
        screen: Screen::Upgrades,
        ..session()
    }
}

#[test]
fn tab_advances_the_ring_and_backtab_reverses_it() {
    let app = session();
    assert_eq!(resolve(&app, press(KeyCode::Tab)), Some(Action::NextScreen));
    assert_eq!(resolve(&app, press(KeyCode::BackTab)), Some(Action::PrevScreen));
}

#[test]
fn the_digit_keys_are_zero_based_tab_indices() {
    let app = session();
    assert_eq!(resolve(&app, press(KeyCode::Char('1'))), Some(Action::SelectScreen(0)));
    assert_eq!(resolve(&app, press(KeyCode::Char('6'))), Some(Action::SelectScreen(5)));
}

#[test]
fn every_tab_digit_resolves_to_a_real_screen() {
    let app = session();
    for (position, _) in Screen::ALL.iter().enumerate() {
        let digit = (b'1' + position as u8) as char;
        let action = resolve(&app, press(KeyCode::Char(digit)));
        assert_eq!(action, Some(Action::SelectScreen(position)));
    }
}

#[test]
fn a_seventh_digit_is_not_bound() {
    let app = session();
    assert_eq!(resolve(&app, press(KeyCode::Char('7'))), None);
}

#[test]
fn q_leaves_for_the_title_and_ctrl_c_leaves_the_program() {
    let app = session();
    assert_eq!(resolve(&app, press(KeyCode::Char('q'))), Some(Action::ToTitle));
    assert_eq!(resolve(&app, ctrl_c()), Some(Action::Quit));
}

#[test]
fn esc_returns_to_the_mine_screen_from_every_tab() {
    for screen in Screen::ALL {
        let app = KeyContext { screen, ..session() };
        assert_eq!(
            resolve(&app, press(KeyCode::Esc)),
            Some(Action::ToMine),
            "esc is shadowed on {screen:?}"
        );
    }
}

#[test]
fn esc_closes_a_modal_before_it_leaves_the_screen() {
    let mut app = KeyContext {
        screen: Screen::Upgrades,
        modal: Some(Modal::Help),
        ..session()
    };
    assert_eq!(resolve(&app, press(KeyCode::Esc)), Some(Action::CloseModal));
    app.modal = None;
    assert_eq!(resolve(&app, press(KeyCode::Esc)), Some(Action::ToMine));
}

#[test]
fn an_unbound_key_is_declined_rather_than_swallowed() {
    let app = session();
    assert_eq!(resolve(&app, press(KeyCode::Char('z'))), None);
}

#[test]
fn question_mark_opens_help_from_a_screen() {
    let app = session();
    assert_eq!(resolve(&app, press(KeyCode::Char('?'))), Some(Action::OpenHelp));
}

#[test]
fn s_opens_settings_from_every_tab() {
    for screen in Screen::ALL {
        let app = KeyContext { screen, ..session() };
        assert_eq!(
            resolve(&app, press(KeyCode::Char('s'))),
            Some(Action::OpenSettings),
            "s is shadowed on {screen:?}"
        );
    }
}

#[test]
fn while_settings_is_up_it_captures_the_keys_and_closes_on_s_or_esc() {
    let app = KeyContext {
        modal: Some(Modal::Settings { row: ROWS[0] }),
        ..session()
    };
    assert_eq!(resolve(&app, press(KeyCode::Down)), Some(Action::CursorDown));
    assert_eq!(resolve(&app, press(KeyCode::Right)), Some(Action::AdjustRight));
    assert_eq!(resolve(&app, press(KeyCode::Char('1'))), None);
    assert_eq!(resolve(&app, press(KeyCode::Tab)), None);
    assert_eq!(resolve(&app, press(KeyCode::Char('s'))), Some(Action::CloseModal));
    assert_eq!(resolve(&app, press(KeyCode::Esc)), Some(Action::CloseModal));
}

#[test]
fn a_menu_screen_understands_the_lateral_pair() {
    assert_eq!(resolve_menu(press(KeyCode::Left)), Some(MenuAction::Left));
    assert_eq!(resolve_menu(press(KeyCode::Right)), Some(MenuAction::Right));
}

#[test]
fn while_help_is_up_it_captures_the_keys_and_closes_on_question_or_esc() {
    let app = KeyContext {
        modal: Some(Modal::Help),
        ..session()
    };
    assert_eq!(resolve(&app, press(KeyCode::Char('?'))), Some(Action::CloseModal));
    assert_eq!(resolve(&app, press(KeyCode::Esc)), Some(Action::CloseModal));
    assert_eq!(resolve(&app, press(KeyCode::Tab)), None);
    assert_eq!(resolve(&app, press(KeyCode::Char('1'))), None);
    assert_eq!(resolve(&app, ctrl_c()), Some(Action::Quit));
}

#[test]
fn the_compression_dialog_captures_the_keyboard_and_answers_its_five_keys() {
    let app = KeyContext {
        modal: Some(Modal::Compress {
            material: 3,
            direction: Conversion::Compress,
            units: 3,
        }),
        ..session()
    };
    assert_eq!(resolve(&app, press(KeyCode::Left)), Some(Action::AdjustLeft));
    assert_eq!(resolve(&app, press(KeyCode::Right)), Some(Action::AdjustRight));
    assert_eq!(resolve(&app, press(KeyCode::Char('a'))), Some(Action::AdjustMax));
    assert_eq!(resolve(&app, press(KeyCode::Enter)), Some(Action::Confirm));
    assert_eq!(resolve(&app, press(KeyCode::Esc)), Some(Action::CloseModal));
    assert_eq!(resolve(&app, press(KeyCode::Tab)), None);
    assert_eq!(resolve(&app, press(KeyCode::Char('q'))), None);
    assert_eq!(resolve(&app, press(KeyCode::Char('c'))), None);
    assert_eq!(resolve(&app, press(KeyCode::Char('?'))), None);
    assert_eq!(resolve(&app, ctrl_c()), Some(Action::Quit));
}

#[test]
fn the_default_sub_tab_binding_is_the_shifted_arrows_and_only_those() {
    let app = upgrading();
    let shifted = |code| KeyEvent::new(code, KeyModifiers::shift());
    assert_eq!(resolve(&app, shifted(KeyCode::Right)), Some(Action::NextSubTab));
    assert_eq!(resolve(&app, shifted(KeyCode::Left)), Some(Action::PrevSubTab));
    assert_eq!(
        resolve(&app, press(KeyCode::Left)),
        None,
        "an unshifted arrow switched sub-tabs"
    );
}

#[test]
fn each_configured_binding_is_the_one_that_answers() {
    for (choice, prev, next) in [
        (SubTabKeys::HL, KeyCode::Char('h'), KeyCode::Char('l')),
        (SubTabKeys::Brackets, KeyCode::Char('['), KeyCode::Char(']')),
    ] {
        let app = KeyContext {
            sub_tab_keys: choice,
            ..upgrading()
        };
        assert_eq!(resolve(&app, press(prev)), Some(Action::PrevSubTab));
        assert_eq!(resolve(&app, press(next)), Some(Action::NextSubTab));
        assert_eq!(
            resolve(&app, KeyEvent::new(KeyCode::Right, KeyModifiers::shift())),
            None,
            "{choice:?} left the shifted arrows bound"
        );
    }
}

#[test]
fn the_sub_tab_keys_are_not_claimed_on_other_screens() {
    let app = KeyContext {
        sub_tab_keys: SubTabKeys::HL,
        screen: Screen::Mines,
        ..session()
    };
    assert_eq!(resolve(&app, press(KeyCode::Char('h'))), None);
    assert_eq!(
        resolve(&app, KeyEvent::new(KeyCode::Right, KeyModifiers::shift())),
        Some(Action::AdjustRight),
        "the Mines dial lost its own arrow"
    );
}

#[test]
fn the_dip_box_takes_the_arrows_enter_and_its_own_printed_key() {
    let app = KeyContext {
        modal: Some(Modal::Dip { to: 7, buy: false }),
        ..session()
    };
    assert_eq!(resolve(&app, press(KeyCode::Left)), Some(Action::AdjustLeft));
    assert_eq!(resolve(&app, press(KeyCode::Right)), Some(Action::AdjustRight));
    assert_eq!(resolve(&app, press(KeyCode::Enter)), Some(Action::Confirm));
    assert_eq!(resolve(&app, press(KeyCode::Char('n'))), Some(Action::CloseModal));
    assert_eq!(resolve(&app, press(KeyCode::Esc)), Some(Action::CloseModal));
    assert_eq!(resolve(&app, press(KeyCode::Char('q'))), None);
    assert_eq!(resolve(&app, press(KeyCode::Tab)), None);
}

#[test]
fn the_demo_toast_key_is_gone_now_that_the_tick_speaks() {
    let app = session();
    assert_eq!(resolve(&app, press(KeyCode::Char('t'))), None);
}

#[test]
fn the_arrows_scroll_the_history_on_the_stats_screen() {
    let app = KeyContext {
        screen: Screen::Stats,
        ..session()
    };
    assert_eq!(resolve(&app, press(KeyCode::Up)), Some(Action::CursorUp));
    assert_eq!(resolve(&app, press(KeyCode::Down)), Some(Action::CursorDown));
    assert_eq!(resolve(&app, press(KeyCode::Char('p'))), Some(Action::OpenPrestige));
}

#[test]
fn home_answers_on_both_screens_that_have_somewhere_to_return_to() {
    for screen in [Screen::Stats, Screen::Levels] {
        let app = KeyContext { screen, ..session() };
        assert_eq!(
            resolve(&app, press(KeyCode::Home)),
            Some(Action::JumpToCurrent),
            "{screen:?} did not answer Home"
        );
    }
    for screen in [Screen::Mine, Screen::Mines, Screen::Inventory, Screen::Upgrades] {
        let app = KeyContext { screen, ..session() };
        assert_eq!(resolve(&app, press(KeyCode::Home)), None, "{screen:?} claimed Home");
    }
}

#[test]
fn the_history_arrows_are_not_claimed_on_a_screen_with_no_list() {
    let app = session();
    assert_eq!(resolve(&app, press(KeyCode::Up)), None);
    assert_eq!(resolve(&app, press(KeyCode::Down)), None);
}

#[test]
fn space_swings_the_pickaxe_only_on_the_mine_screen() {
    let mut app = session();
    assert_eq!(resolve(&app, press(KeyCode::Char(' '))), Some(Action::MinePressed));
    app.screen = Screen::Upgrades;
    assert_eq!(resolve(&app, press(KeyCode::Char(' '))), None);
}

#[test]
fn an_auto_repeat_of_space_reads_exactly_like_a_fresh_press() {
    let app = session();
    assert_eq!(
        resolve(&app, of_kind(KeyCode::Char(' '), KeyEventKind::Repeat)),
        Some(Action::MinePressed)
    );
}

#[test]
fn releasing_space_stops_the_swing() {
    let app = session();
    assert_eq!(
        resolve(&app, of_kind(KeyCode::Char(' '), KeyEventKind::Release)),
        Some(Action::MineReleased)
    );
}

#[test]
fn a_release_of_any_other_key_means_nothing_at_all() {
    let app = session();
    for code in [
        KeyCode::Tab,
        KeyCode::Char('q'),
        KeyCode::Char('?'),
        KeyCode::Char('1'),
        KeyCode::Esc,
    ] {
        assert_eq!(
            resolve(&app, of_kind(code, KeyEventKind::Release)),
            None,
            "{code:?} acted on the way up as well as on the way down"
        );
    }
}

#[test]
fn a_release_outranks_an_open_modal() {
    let app = KeyContext {
        modal: Some(Modal::Help),
        ..session()
    };
    assert_eq!(
        resolve(&app, of_kind(KeyCode::Char(' '), KeyEventKind::Release)),
        Some(Action::MineReleased)
    );
    assert_eq!(resolve(&app, press(KeyCode::Char(' '))), None);
}

#[test]
fn the_dev_key_is_unbound_until_the_session_asks_for_it() {
    let plain = session();
    assert_eq!(resolve(&plain, press(KeyCode::Char('`'))), None);
    let enabled = KeyContext {
        dev_menu: true,
        ..session()
    };
    assert_eq!(resolve(&enabled, press(KeyCode::Char('`'))), Some(Action::OpenDevMenu));
}

#[test]
fn the_dev_key_opens_from_any_screen() {
    for screen in Screen::ALL {
        let app = KeyContext {
            screen,
            dev_menu: true,
            ..session()
        };
        assert_eq!(
            resolve(&app, press(KeyCode::Char('`'))),
            Some(Action::OpenDevMenu),
            "the dev key is shadowed on {screen:?}"
        );
    }
}

#[test]
fn the_dev_menu_captures_the_list_gestures_and_closes_on_its_own_key() {
    let app = KeyContext {
        modal: Some(Modal::Dev),
        dev_menu: true,
        ..session()
    };
    for (code, expected) in [
        (KeyCode::Up, Action::CursorUp),
        (KeyCode::Down, Action::CursorDown),
        (KeyCode::Left, Action::AdjustLeft),
        (KeyCode::Right, Action::AdjustRight),
        (KeyCode::Enter, Action::Confirm),
        (KeyCode::Esc, Action::CloseModal),
        (KeyCode::Char('`'), Action::CloseModal),
    ] {
        assert_eq!(resolve(&app, press(code)), Some(expected), "{code:?}");
    }
    assert_eq!(resolve(&app, press(KeyCode::Tab)), None);
}

#[test]
fn the_typed_confirm_takes_every_letter_the_ring_would_claim() {
    let app = KeyContext {
        modal: Some(Modal::PrestigeConfirm {
            typed: String::new(),
        }),
        ..session()
    };
    assert_eq!(resolve(&app, press(KeyCode::Char('q'))), Some(Action::TypeChar('q')));
    assert_eq!(resolve(&app, press(KeyCode::Char('1'))), Some(Action::TypeChar('1')));
    assert_eq!(resolve(&app, press(KeyCode::Backspace)), Some(Action::EraseChar));
    assert_eq!(resolve(&app, press(KeyCode::Enter)), Some(Action::Confirm));
    assert_eq!(resolve(&app, ctrl_c()), Some(Action::Quit));
}

#[test]
fn the_too_small_screen_answers_only_its_way_out() {
    assert_eq!(resolve_too_small(press(KeyCode::Char('q'))), Some(MenuAction::Quit));
    assert_eq!(resolve_too_small(ctrl_c()), Some(MenuAction::Quit));
    assert_eq!(resolve_too_small(press(KeyCode::Enter)), None);
}
