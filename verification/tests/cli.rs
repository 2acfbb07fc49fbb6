use skylode_tui::cli::{requested, usage, version_line, Request, NAME, VERSION};

#[test]
fn an_empty_command_line_starts_the_game() {
    assert_eq!(requested(&[]), Request::Play);
}

#[test]
fn both_spellings_of_the_version_flag_ask_for_the_version() {
    assert_eq!(requested(&[Some("--version")]), Request::Version);
    assert_eq!(requested(&[Some("-V")]), Request::Version);
}

#[test]
fn both_spellings_of_the_help_flag_ask_for_usage() {
    assert_eq!(requested(&[Some("--help")]), Request::Usage);
    assert_eq!(requested(&[Some("-h")]), Request::Usage);
}

#[test]
fn a_lowercase_v_is_not_the_version_flag() {
    assert_eq!(requested(&[Some("-v")]), Request::Play);
}

#[test]
fn an_option_this_program_never_had_starts_the_game() {
    assert_eq!(requested(&[Some("--fullscreen")]), Request::Play);
}

#[test]
fn the_first_flag_met_is_the_one_answered() {
    assert_eq!(requested(&[Some("--help"), Some("--version")]), Request::Usage);
    assert_eq!(requested(&[Some("--version"), Some("--help")]), Request::Version);
}

#[test]
fn a_flag_is_found_past_an_argument_that_means_nothing() {
    assert_eq!(requested(&[Some("nonsense"), Some("--version")]), Request::Version);
}

#[test]
fn an_argument_that_is_not_utf8_is_simply_not_a_flag() {
    assert_eq!(requested(&[None, Some("--version")]), Request::Version);
}

#[test]
fn the_usage_text_lists_both_flags_and_defers_to_the_game_for_keys() {
    let text = usage();
    assert!(text.contains("--version"));
    assert!(text.contains("--help"));
    assert!(text.contains('?'));
    assert!(text.starts_with(NAME));
}

#[test]
fn the_binary_answers_with_the_name_a_player_types() {
    assert_eq!(NAME, "skylode");
}

#[test]
fn the_version_line_is_the_name_and_the_number() {
    assert_eq!(version_line(), format!("{NAME} {VERSION}"));
    assert_eq!(version_line(), "skylode 0.2.0");
}
