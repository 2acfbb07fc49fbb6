//! The semantic input vocabulary.
//!
//! An [`Action`] is *what the player wants to happen*, decoded from a raw key by
//! [`crate::keymap`]. Splitting the two lets the reducer be a pure function of
//! `(state, Action)` — no terminal — so every transition is testable on its own.

use vstd::prelude::*;

verus! {

/// A decoded player intent.
///
/// **The list gestures name a movement, not a screen** — `CursorUp`, not a
/// `MinesCursorUp` — because the keymap decodes a key with no access to the run, so it
/// cannot know where a cursor is. Which screen a gesture lands on is resolved where the
/// state is.
#[derive(Clone, Debug, PartialEq, Eq, Structural)]
pub enum Action {
    /// Put this run down and go back to the title screen (`q`) — not "quit": the run is
    /// written on the way out and the title rebuilt from that file.
    ToTitle,
    /// End the process (`Ctrl-C`), a terminal convention rather than a game affordance.
    Quit,
    /// Advance one tab along the ring, wrapping past the last back to the first.
    NextScreen,
    /// Step back one tab, wrapping the other way.
    PrevScreen,
    /// Jump straight to the tab at this zero-based index (the `1`..`6` keys).
    SelectScreen(usize),
    /// Go back to the Mine screen (`Esc` with nothing stacked), from any tab.
    ToMine,
    /// The mine key says it is down (`Space` on the Mine screen). It announces a key,
    /// not a swing: whether the player is mining is a question about time.
    MinePressed,
    /// The mine key says it is up — only ever emitted by a terminal that reports key
    /// releases at all; an early cut of the window the press opened.
    MineReleased,
    /// Open the Help overlay (`?` from any screen).
    OpenHelp,
    /// Open the Settings overlay (`s` from any screen).
    OpenSettings,
    /// Dismiss the stacked modal (`Esc`, or the modal's own key).
    CloseModal,
    /// Move the active screen's list selection up one row.
    CursorUp,
    /// Move it down one row.
    CursorDown,
    /// Turn the active screen's value down one step.
    AdjustLeft,
    /// Turn it up one step.
    AdjustRight,
    /// Push that value straight to its maximum (`a`) — the compression dialog's *all*.
    AdjustMax,
    /// Act on whatever the cursor is sitting on (`Enter`).
    Confirm,
    /// Buy as much of the active track as the inventory allows (`M`).
    BuyMax,
    /// Show the next Upgrades sub-tab (the configurable binding).
    NextSubTab,
    /// Show the previous one.
    PrevSubTab,
    /// Open the compression dialog on the material under the Inventory cursor (`c`).
    Compress,
    /// Open the same dialog with the arithmetic reversed (`C`).
    Decompress,
    /// Walk from the Upgrades screen to the Inventory, onto the pile a *compress first*
    /// refusal named (`c`).
    GoCompress,
    /// Collect **everything** waiting on the Levels ladder (`A`).
    ClaimAll,
    /// Open the dev menu (`` ` ``), on a session that asked for it.
    OpenDevMenu,
    /// Spend a banked boost charge (`b` on the Mine screen).
    FireBoost,
    /// Open the prestige preview (`p` on the Stats screen).
    OpenPrestige,
    /// A character typed into the prestige confirm's field — the one gesture that
    /// carries text.
    TypeChar(char),
    /// Delete the last character typed into that field (`Backspace`).
    EraseChar,
    /// Put the active screen's cursor back where the player actually is (`Home`).
    JumpToCurrent,
}

/// What the player wants on a screen that is **not** a game: the title, the recovery
/// frames and the Settings screen the title opens — a short list and a caret.
#[derive(Clone, Copy, Debug, PartialEq, Eq, Structural)]
pub enum MenuAction {
    /// Move the caret up a row, wrapping at the top.
    Up,
    /// Move it down, wrapping at the bottom.
    Down,
    /// Adjust whatever the caret is on, one step down.
    Left,
    /// Adjust it one step up.
    Right,
    /// Take the row it is on (`Enter`).
    Confirm,
    /// Back out of whatever was asked (`Esc`); ignored where nothing was asked.
    Cancel,
    /// Leave the game entirely (`q`, `Ctrl-C`).
    Quit,
}

/// How a run ends, when the player has asked it to — one field of two values rather
/// than two booleans, so "leaving to the title *and* to the process" is unwritable.
#[derive(Clone, Copy, Debug, PartialEq, Eq, Structural)]
pub enum Leaving {
    /// Back to the splash, with the run written first (`q`).
    ToTitle,
    /// Out of the program altogether (`Ctrl-C`).
    Process,
}

} // verus!
