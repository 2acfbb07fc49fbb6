//! The six tabs, and the keys each one answers on its own.
//!
//! The tabs are a ring walked by `Tab` and jumped into by the digit keys; what a key
//! means *on* a tab is [`Screen::map_key`], consulted by the keymap last, after every
//! binding that must not be shadowed.

use vstd::prelude::*;

use crate::action::Action;
use crate::keymap::{KeyCode, KeyEvent};
use crate::text::digit;

verus! {

/// One of the six tabs.
#[derive(Clone, Copy, Debug, PartialEq, Eq, Structural)]
pub enum Screen {
    /// The grid being mined.
    Mine,
    /// The twelve mines, and the richness dial.
    Mines,
    /// The fifteen materials, and the compression dialog.
    Inventory,
    /// The pickaxe, enchant and mine ladders.
    Upgrades,
    /// The run's figures, the history, and the prestige door.
    Stats,
    /// The level roadmap and the rewards waiting on it.
    Levels,
}

/// A tab's position on the ring, zero-based.
pub open spec fn screen_index(screen: Screen) -> nat {
    match screen {
        Screen::Mine => 0,
        Screen::Mines => 1,
        Screen::Inventory => 2,
        Screen::Upgrades => 3,
        Screen::Stats => 4,
        Screen::Levels => 5,
    }
}

/// The tab at a zero-based position, if there is one.
pub open spec fn screen_at(index: int) -> Option<Screen> {
    if index == 0 {
        Some(Screen::Mine)
    } else if index == 1 {
        Some(Screen::Mines)
    } else if index == 2 {
        Some(Screen::Inventory)
    } else if index == 3 {
        Some(Screen::Upgrades)
    } else if index == 4 {
        Some(Screen::Stats)
    } else if index == 5 {
        Some(Screen::Levels)
    } else {
        None
    }
}

/// The tab's title, as the tab bar and Help print it.
pub open spec fn screen_title(screen: Screen) -> Seq<char> {
    match screen {
        Screen::Mine => "Mine"@,
        Screen::Mines => "Mines"@,
        Screen::Inventory => "Inventory"@,
        Screen::Upgrades => "Upgrades"@,
        Screen::Stats => "Stats"@,
        Screen::Levels => "Levels"@,
    }
}

/// What a key means on `screen` alone, once nothing ahead of the screen claimed it.
pub open spec fn screen_key(screen: Screen, key: KeyEvent) -> Option<Action> {
    match screen {
        Screen::Mine => match key.code {
            KeyCode::Char(' ') => Some(Action::MinePressed),
            KeyCode::Char('b') => Some(Action::FireBoost),
            _ => None,
        },
        Screen::Mines => match key.code {
            KeyCode::Up => Some(Action::CursorUp),
            KeyCode::Down => Some(Action::CursorDown),
            KeyCode::Left => Some(Action::AdjustLeft),
            KeyCode::Right => Some(Action::AdjustRight),
            KeyCode::Enter => Some(Action::Confirm),
            _ => None,
        },
        Screen::Inventory => match key.code {
            KeyCode::Up => Some(Action::CursorUp),
            KeyCode::Down => Some(Action::CursorDown),
            KeyCode::Char('c') => Some(Action::Compress),
            KeyCode::Char('C') => Some(Action::Decompress),
            _ => None,
        },
        Screen::Upgrades => match key.code {
            KeyCode::Up => Some(Action::CursorUp),
            KeyCode::Down => Some(Action::CursorDown),
            KeyCode::Enter => Some(Action::Confirm),
            KeyCode::Char('M') => Some(Action::BuyMax),
            KeyCode::Char('c') => Some(Action::GoCompress),
            _ => None,
        },
        Screen::Stats => match key.code {
            KeyCode::Up => Some(Action::CursorUp),
            KeyCode::Down => Some(Action::CursorDown),
            KeyCode::Char('p') => Some(Action::OpenPrestige),
            KeyCode::Home => Some(Action::JumpToCurrent),
            _ => None,
        },
        Screen::Levels => match key.code {
            KeyCode::Up => Some(Action::CursorUp),
            KeyCode::Down => Some(Action::CursorDown),
            KeyCode::Enter => Some(Action::Confirm),
            KeyCode::Char('A') => Some(Action::ClaimAll),
            KeyCode::Home => Some(Action::JumpToCurrent),
            _ => None,
        },
    }
}

impl Screen {
    /// The six, in ring order — the order the tab bar prints and the digits name.
    pub const ALL: [Screen; 6] = [
        Screen::Mine,
        Screen::Mines,
        Screen::Inventory,
        Screen::Upgrades,
        Screen::Stats,
        Screen::Levels,
    ];

    /// The tab at this zero-based position, or [`None`] past the ring: the ring is the
    /// authority on what exists.
    pub fn from_index(index: usize) -> (r: Option<Screen>)
        ensures
            r == screen_at(index as int),
    {
        if index == 0 {
            Some(Screen::Mine)
        } else if index == 1 {
            Some(Screen::Mines)
        } else if index == 2 {
            Some(Screen::Inventory)
        } else if index == 3 {
            Some(Screen::Upgrades)
        } else if index == 4 {
            Some(Screen::Stats)
        } else if index == 5 {
            Some(Screen::Levels)
        } else {
            None
        }
    }

    /// The next tab, wrapping past the last back to the first.
    pub fn next(self) -> (r: Screen)
        ensures
            screen_index(r) == (screen_index(self) + 1) % 6,
    {
        match self {
            Screen::Mine => Screen::Mines,
            Screen::Mines => Screen::Inventory,
            Screen::Inventory => Screen::Upgrades,
            Screen::Upgrades => Screen::Stats,
            Screen::Stats => Screen::Levels,
            Screen::Levels => Screen::Mine,
        }
    }

    /// The previous tab, wrapping the other way.
    pub fn prev(self) -> (r: Screen)
        ensures
            screen_index(r) == (screen_index(self) + 5) % 6,
    {
        match self {
            Screen::Mine => Screen::Levels,
            Screen::Mines => Screen::Mine,
            Screen::Inventory => Screen::Mines,
            Screen::Upgrades => Screen::Inventory,
            Screen::Stats => Screen::Upgrades,
            Screen::Levels => Screen::Stats,
        }
    }

    /// The tab's title.
    pub fn title(self) -> (r: &'static str)
        ensures
            r@ == screen_title(self),
    {
        match self {
            Screen::Mine => "Mine",
            Screen::Mines => "Mines",
            Screen::Inventory => "Inventory",
            Screen::Upgrades => "Upgrades",
            Screen::Stats => "Stats",
            Screen::Levels => "Levels",
        }
    }

    /// What `key` means on this tab alone.
    pub fn map_key(self, key: KeyEvent) -> (r: Option<Action>)
        ensures
            r == screen_key(self, key),
    {
        match self {
            Screen::Mine => match key.code {
                KeyCode::Char(c) => {
                    if c == ' ' {
                        Some(Action::MinePressed)
                    } else if c == 'b' {
                        Some(Action::FireBoost)
                    } else {
                        None
                    }
                },
                _ => None,
            },
            Screen::Mines => match key.code {
                KeyCode::Up => Some(Action::CursorUp),
                KeyCode::Down => Some(Action::CursorDown),
                KeyCode::Left => Some(Action::AdjustLeft),
                KeyCode::Right => Some(Action::AdjustRight),
                KeyCode::Enter => Some(Action::Confirm),
                _ => None,
            },
            Screen::Inventory => match key.code {
                KeyCode::Up => Some(Action::CursorUp),
                KeyCode::Down => Some(Action::CursorDown),
                KeyCode::Char(c) => {
                    if c == 'c' {
                        Some(Action::Compress)
                    } else if c == 'C' {
                        Some(Action::Decompress)
                    } else {
                        None
                    }
                },
                _ => None,
            },
            Screen::Upgrades => match key.code {
                KeyCode::Up => Some(Action::CursorUp),
                KeyCode::Down => Some(Action::CursorDown),
                KeyCode::Enter => Some(Action::Confirm),
                KeyCode::Char(c) => {
                    if c == 'M' {
                        Some(Action::BuyMax)
                    } else if c == 'c' {
                        Some(Action::GoCompress)
                    } else {
                        None
                    }
                },
                _ => None,
            },
            Screen::Stats => match key.code {
                KeyCode::Up => Some(Action::CursorUp),
                KeyCode::Down => Some(Action::CursorDown),
                KeyCode::Home => Some(Action::JumpToCurrent),
                KeyCode::Char(c) => {
                    if c == 'p' {
                        Some(Action::OpenPrestige)
                    } else {
                        None
                    }
                },
                _ => None,
            },
            Screen::Levels => match key.code {
                KeyCode::Up => Some(Action::CursorUp),
                KeyCode::Down => Some(Action::CursorDown),
                KeyCode::Enter => Some(Action::Confirm),
                KeyCode::Home => Some(Action::JumpToCurrent),
                KeyCode::Char(c) => {
                    if c == 'A' {
                        Some(Action::ClaimAll)
                    } else {
                        None
                    }
                },
                _ => None,
            },
        }
    }
}

/// The tabs are a ring: `next` and `prev` undo each other, six steps come home, and
/// every position the digits name is a tab.
pub proof fn lemma_the_tabs_are_a_ring(screen: Screen, index: int)
    ensures
        screen_at(screen_index(screen) as int) == Some(screen),
        0 <= index < 6 <==> screen_at(index) is Some,
{
}

/// A tab's label on the tab bar: its one-based digit — the key that jumps to it — then
/// its title, padded a column either side.
pub open spec fn tab_label_text(screen: Screen) -> Seq<char> {
    " "@ + seq![crate::text::digit_char(screen_index(screen) + 1)] + " "@ + screen_title(screen)
        + " "@
}

impl Screen {
    /// The tab's label on the tab bar: ` 3 Inventory `.
    pub fn tab_label(self) -> (s: String)
        ensures
            s@ == tab_label_text(self),
    {
        let position: u64 = match self {
            Screen::Mine => 1,
            Screen::Mines => 2,
            Screen::Inventory => 3,
            Screen::Upgrades => 4,
            Screen::Stats => 5,
            Screen::Levels => 6,
        };
        let mut s = " ".to_owned();
        s.append(digit(position));
        s.append(" ");
        s.append(self.title());
        s.append(" ");
        s
    }
}

/// **A tab's label names the key that reaches it**: the digit on a tab's label is the
/// one `1 … 6` selects it with, one-based where the positions are zero-based.
pub proof fn lemma_a_label_names_its_key(screen: Screen)
    ensures
        tab_label_text(screen)[1] == crate::text::digit_char(screen_index(screen) + 1),
        screen_at(screen_index(screen) as int) == Some(screen),
{
    reveal_strlit(" ");
}

} // verus!
