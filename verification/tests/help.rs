use skylode_tui::config::{Config, SubTabKeys};
use skylode_tui::overlay::help::{contextual, keys, legend, FOOTER, LEGEND, LEGEND_TITLE, MINING};
use skylode_tui::screen::Screen;

/// Everything Help prints over `screen`: both panes, their titles and the key hint.
fn help(screen: Screen, config: &Config) -> String {
    let mut lines = keys(screen, config);
    lines.push(LEGEND_TITLE.to_owned());
    lines.extend(legend());
    lines.push(FOOTER.to_owned());
    lines.join("\n")
}

#[test]
fn it_shows_the_globals_and_the_legend_whatever_the_screen() {
    let frame = help(Screen::Mine, &Config::default());
    assert!(frame.contains("Anywhere"), "{frame}");
    assert!(frame.contains("next / previous screen"), "{frame}");
    assert!(frame.contains("Reading the screen"), "{frame}");
    assert!(frame.contains("already yours"), "{frame}");
    assert!(frame.contains("Esc  or  ?   close"), "{frame}");
}

#[test]
fn the_legend_fits_the_pane_at_the_reference_size() {
    let legend = legend();
    assert_eq!(legend.len(), 21);
    let last = LEGEND.last().copied().unwrap_or_default();
    assert_eq!(legend.last().map(String::as_str), Some(last));
    let frame = help(Screen::Mine, &Config::default());
    for glyph in ['✓', '~', '✗', '●', '—'] {
        assert!(frame.contains(glyph), "{glyph} is missing from the legend");
    }
    let upgrades = keys(Screen::Upgrades, &Config::default());
    assert_eq!(upgrades.len(), 21, "the Keys pane overflows on Upgrades");
    let last = MINING.last().copied().unwrap_or_default();
    assert_eq!(upgrades.last().map(String::as_str), Some(last));
}

#[test]
fn it_names_the_screen_it_was_opened_from() {
    let frame = help(Screen::Inventory, &Config::default());
    assert!(frame.contains("On this screen — Inventory"), "{frame}");
    assert!(frame.contains("compress"), "{frame}");
    assert!(!frame.contains("switch sub-tab"), "{frame}");
}

#[test]
fn each_screen_gets_its_own_contextual_bindings() {
    assert!(help(Screen::Mines, &Config::default()).contains("richness dial"));
    assert!(help(Screen::Stats, &Config::default()).contains("prestige"));
    assert!(help(Screen::Levels, &Config::default()).contains("jump to your level"));
}

#[test]
fn the_mine_screen_has_no_contextual_block_only_mining() {
    let frame = help(Screen::Mine, &Config::default());
    assert!(!frame.contains("On this screen"), "{frame}");
    assert!(frame.contains("hold to mine"), "{frame}");
    assert!(contextual(Screen::Mine, &Config::default()).is_empty());
}

#[test]
fn the_sub_tab_line_is_rendered_from_config_not_the_default() {
    let default = help(Screen::Upgrades, &Config::default());
    assert!(default.contains("⇧← ⇧→"), "{default}");
    assert!(default.contains("switch sub-tab"), "{default}");
    let rebound = Config {
        sub_tab_keys: SubTabKeys::HL,
        ..Config::default()
    };
    let frame = help(Screen::Upgrades, &rebound);
    assert!(frame.contains("h  l"), "{frame}");
    assert!(!frame.contains("⇧← ⇧→"), "help showed the default: {frame}");
}
