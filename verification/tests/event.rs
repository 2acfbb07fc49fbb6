use skylode_tui::event::{forwarded, poll_timeout, tick_due, Event, TerminalInput};
use skylode_tui::keymap::{KeyCode, KeyEvent, KeyModifiers};

const MS: u64 = 1_000_000;

#[test]
fn the_wait_is_what_is_left_of_the_period() {
    assert_eq!(poll_timeout(10 * MS, 3 * MS), 7 * MS);
    assert_eq!(poll_timeout(10 * MS, 10 * MS), 0);
    assert_eq!(poll_timeout(10 * MS, 25 * MS), 10 * MS);
}

#[test]
fn a_tick_is_due_once_the_period_has_passed() {
    assert!(!tick_due(10 * MS, 9 * MS));
    assert!(tick_due(10 * MS, 10 * MS));
    assert!(tick_due(10 * MS, 11 * MS));
}

#[test]
fn keys_and_resizes_are_forwarded_and_nothing_else() {
    let key = KeyEvent::new(KeyCode::Char(' '), KeyModifiers::none());
    assert_eq!(forwarded(TerminalInput::Key(key)), Some(Event::Key(key)));
    assert_eq!(forwarded(TerminalInput::Resize), Some(Event::Resize));
    assert_eq!(forwarded(TerminalInput::Other), None);
}
