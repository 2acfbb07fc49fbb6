use skylode_tui::capability::Capabilities;
use skylode_tui::config::{ColourMode, Config, MiningInput, NumberFormat, SubTabKeys, ToastDuration};
use skylode_tui::overlay::settings::{fields, SettingsRow, FOOTER, FOOTNOTE, ROWS};

/// The text the Settings screen prints for `config` with `row` selected: the field
/// column, the detail pane, the footnote and the key hints.
fn frame_of(config: &Config, row: SettingsRow, caps: Capabilities) -> String {
    let mut lines = fields(config, row);
    lines.push(row.label().to_owned());
    lines.extend(row.detail(caps));
    lines.extend(FOOTNOTE.iter().map(|line| line.to_string()));
    lines.push(FOOTER.to_owned());
    lines.join("\n")
}

fn dialled() -> Config {
    Config {
        colour: ColourMode::Ansi16,
        mining_input: MiningInput::PressToStart,
        number_format: NumberFormat::Comma,
        toast_duration: ToastDuration::Lingering,
        sub_tab_keys: SubTabKeys::Brackets,
    }
}

#[test]
fn it_lists_only_preferences_with_the_colour_detail() {
    let frame = frame_of(&Config::default(), SettingsRow::Colour, Capabilities::with_colours(Some(256)));
    assert!(frame.contains("Colour             256"), "{frame}");
    assert!(frame.contains("Mining input       Hold"), "{frame}");
    assert!(frame.contains("Sub-tab keys"), "{frame}");
    assert!(frame.contains("keeps the"), "{frame}");
    assert!(frame.contains("Esc  back"), "{frame}");
}

#[test]
fn every_row_of_the_enum_reaches_the_screen() {
    let frame = frame_of(&Config::default(), SettingsRow::Colour, Capabilities::with_colours(Some(256)));
    for row in ROWS {
        assert!(frame.contains(row.label()), "{} is missing: {frame}", row.label());
    }
}

#[test]
fn the_caret_marks_the_selected_row_and_only_that_row() {
    let lines = fields(&Config::default(), SettingsRow::NumberFormat);
    let frame = lines.join("\n");
    assert_eq!(frame.matches('▸').count(), 1, "{frame}");
    let marked = frame.lines().find(|line| line.contains('▸')).unwrap_or_default();
    assert!(marked.contains("Number format"), "{frame}");
}

#[test]
fn the_detail_pane_describes_whichever_row_is_selected() {
    let caps = Capabilities::with_colours(Some(256));
    let mining = SettingsRow::MiningInput.detail(caps).join("\n");
    assert!(mining.contains("one press starts"), "{mining}");
    assert!(mining.contains("only happens on the Mine screen"), "{mining}");
    let toasts = SettingsRow::ToastDuration.detail(caps).join("\n");
    assert!(toasts.contains("keeps the whole history"), "{toasts}");
    assert!(!toasts.contains("one press starts"), "{toasts}");
}

#[test]
fn the_colour_pane_quotes_what_the_terminal_declared() {
    let frame = SettingsRow::Colour.detail(Capabilities::with_colours(None)).join("\n");
    assert!(frame.contains("Your terminal reports: nothing at all"), "{frame}");
}

#[test]
fn the_value_column_reads_the_config_it_was_handed() {
    let frame = fields(&dialled(), SettingsRow::Colour).join("\n");
    assert!(frame.contains("Colour             16"), "{frame}");
    assert!(frame.contains("Press to start"), "{frame}");
    assert!(frame.contains("1,234,567"), "{frame}");
    assert!(frame.contains("8s"), "{frame}");
    assert!(frame.contains("[  ]"), "{frame}");
}

#[test]
fn every_row_wraps_rather_than_stopping_at_either_end() {
    for row in ROWS {
        let mut forward = Config::default();
        let mut laps = 0;
        loop {
            row.adjust(&mut forward, 1);
            laps += 1;
            if forward == Config::default() {
                break;
            }
            assert!(laps < 16, "{} never came back round", row.label());
        }
        let mut backward = Config::default();
        for _ in 0..laps {
            row.adjust(&mut backward, -1);
        }
        assert_eq!(backward, Config::default(), "{} did not wrap back", row.label());
    }
}

#[test]
fn adjusting_a_row_touches_no_other_preference() {
    for row in ROWS {
        let mut config = Config::default();
        row.adjust(&mut config, 1);
        let changed = ROWS
            .iter()
            .filter(|&&other| other.value(&config) != other.value(&Config::default()))
            .count();
        assert_eq!(changed, 1, "{} changed {changed} rows", row.label());
    }
}

#[test]
fn r_restores_one_row_and_leaves_the_other_four_alone() {
    let fresh = Config::default();
    for row in ROWS {
        let mut config = dialled();
        row.reset(&mut config);
        assert_eq!(row.value(&config), row.value(&fresh), "{} did not go back", row.label());
        let restored = ROWS
            .iter()
            .filter(|&&other| other.value(&config) == other.value(&fresh))
            .count();
        assert_eq!(restored, 1, "{} restored {restored} rows", row.label());
    }
}

#[test]
fn restoring_an_untouched_row_is_not_a_change() {
    let mut config = Config::default();
    for row in ROWS {
        row.reset(&mut config);
    }
    assert_eq!(config, Config::default());
}

#[test]
fn the_footer_advertises_the_restore_key() {
    assert!(FOOTER.contains("r  default"), "{FOOTER}");
}

#[test]
fn the_row_cursor_wraps_at_both_ends() {
    assert_eq!(SettingsRow::Colour.step(-1), SettingsRow::SubTabKeys);
    assert_eq!(SettingsRow::SubTabKeys.step(1), SettingsRow::Colour);
    assert_eq!(SettingsRow::Colour.step(1), SettingsRow::MiningInput);
}

#[test]
fn pressing_right_a_whole_lap_of_a_ladder_comes_back_and_no_sooner() {
    let laps = [
        (SettingsRow::Colour, 2),
        (SettingsRow::MiningInput, 2),
        (SettingsRow::NumberFormat, 3),
        (SettingsRow::ToastDuration, 4),
        (SettingsRow::SubTabKeys, 3),
    ];
    for (row, lap) in laps {
        let start = dialled();
        let mut config = start.clone();
        for press in 1..=2 * lap {
            row.adjust(&mut config, 1);
            assert_eq!(config == start, press % lap == 0, "{:?} after {press} presses", row);
        }
    }
}

#[test]
fn a_long_turn_and_its_opposite_cancel_on_every_row() {
    for row in ROWS {
        for delta in [1isize << 40, -(1isize << 40) + 7, 1_000_003, -999_999_937] {
            let start = dialled();
            let mut config = start.clone();
            row.adjust(&mut config, delta);
            row.adjust(&mut config, -delta);
            assert_eq!(config, start, "{:?} by {delta}", row);
        }
    }
}
