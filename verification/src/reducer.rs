//! The front-end's reducer: what an [`Action`] does to the interface's own state.
//!
//! The interface state — which tab, which box is stacked, whether the player is leaving,
//! which sub-tab, the mine key's last edge, the preferences and the dev menu's dials —
//! changes here and nowhere else. What an action asks of the *run* (buy, claim,
//! convert, prestige) comes back as a [`Command`] for the caller that owns the run to
//! carry out; the reducer never sees the run and never needs a clock.
//!
//! **The stacked modal answers first.** A box that takes a gesture consumes it, and the
//! screen below never sees it; `Esc` is never one of those, so closing a box is one
//! implementation for every box there will ever be.

use vstd::prelude::*;

use crate::action::{Action, Leaving};
use crate::config::Config;
use crate::keymap::{KeyCode, KeyContext, KeyEvent, KeyEventKind, KeyModifiers, resolved};
use crate::cursor::{Cursors, stepped_in, upgrade_tab_after, upgrade_tab_before};
use crate::overlay::dev::{DevRow, DevState, dev_adjusted, dev_stepped};
use crate::overlay::prestige::CONFIRM_WORD;
use crate::overlay::settings::{SettingsRow, adjusted, rows};
use crate::overlay::{Conversion, Modal};
use crate::screen::{Screen, screen_at, screen_index};
use crate::text::{push_char, same_text};

verus! {

/// The mine key's last edge, stamped with a time by whoever owns the clock.
#[derive(Clone, Copy, Debug, PartialEq, Eq, Structural)]
pub enum MineKeyEdge {
    /// Pressed.
    Down,
    /// Released.
    Up,
}

/// How far a purchase reaches along a track.
#[derive(Clone, Copy, Debug, PartialEq, Eq, Structural)]
pub enum Reach {
    /// Up to the row under the cursor.
    ToCursor,
    /// As far as the purse goes.
    AsFarAsPossible,
}

/// What an action asks of the run, for the owner of the run to carry out.
#[derive(Clone, Copy, Debug, PartialEq, Eq, Structural)]
pub enum Command {
    /// Nothing beyond the interface.
    Nothing,
    /// Move the open screen's list cursor.
    StepListCursor(isize),
    /// Turn the Mines screen's richness dial.
    StepRichnessDial(i32),
    /// Enter the mine under the cursor.
    EnterSelectedMine,
    /// Buy along the Upgrades track under the cursor.
    Buy(Reach),
    /// Claim the reward under the Levels cursor.
    ClaimAtCursor,
    /// Claim every waiting reward.
    ClaimEverything,
    /// Put the Levels cursor on the player's own level.
    JumpToCurrent,
    /// Open the compression dialog on the pile under the Inventory cursor.
    OpenConversion(Conversion),
    /// Set the dialog's spinner, clamped by what the pile can cover.
    SetSpinner { material: usize, direction: Conversion, requested: u32 },
    /// Perform the conversion the dialog was set to.
    ApplyConversion { material: usize, direction: Conversion, units: u32 },
    /// Buy the pickaxe chain up to this ladder index.
    ClimbTo(usize),
    /// Check the gates and the till, and open the typed confirm if both allow.
    OpenPrestigeConfirm,
    /// Put the Inventory cursor on the pile the last refusal named.
    WalkToRefusedPile,
    /// Trade the run in.
    Prestige,
    /// Spend a boost charge.
    FireBoost,
    /// Say that free upgrades are now on or off.
    AnnounceFreeUpgrades(bool),
    /// Apply the dev row under the cursor.
    ApplyDevRow,
}

/// The interface's own state.
#[derive(Clone, Debug, PartialEq, Eq)]
pub struct Frontend {
    /// The tab on screen.
    pub screen: Screen,
    /// The box stacked over it, if any.
    pub modal: Option<Modal>,
    /// Set once the player has asked to leave, and how.
    pub leaving: Option<Leaving>,
    /// Where every list's cursor points, the Upgrades sub-tab included.
    pub cursors: Cursors,
    /// The mine key's last edge, until the clock's owner stamps it.
    pub mine_key: Option<MineKeyEdge>,
    /// The preferences.
    pub config: Config,
    /// The dev menu's dials, on a session that asked for it.
    pub dev: Option<DevState>,
}

/// The tab after `screen` on the ring.
pub open spec fn screen_after(screen: Screen) -> Screen {
    screen_at(((screen_index(screen) + 1) % 6) as int)->0
}

/// The tab before `screen` on the ring.
pub open spec fn screen_before(screen: Screen) -> Screen {
    screen_at(((screen_index(screen) + 5) % 6) as int)->0
}

/// The `▸` movement a vertical gesture asks for.
pub open spec fn vertical(action: Action) -> int {
    if action is CursorUp {
        -1
    } else {
        1
    }
}

/// The turn a horizontal gesture asks for.
pub open spec fn horizontal(action: Action) -> int {
    if action is AdjustLeft {
        -1
    } else {
        1
    }
}

/// Whether the typed confirm is stacked and the action edits its field.
pub open spec fn edits_the_field(f: Frontend, action: Action) -> bool {
    f.modal matches Some(Modal::PrestigeConfirm { .. }) && (action is TypeChar || action is EraseChar)
}

/// The field after an edit: a letter is added, exactly as typed, only while the field
/// is shorter than the word; an erase takes the last letter off.
pub open spec fn field_after(typed: Seq<char>, action: Action) -> Seq<char> {
    match action {
        Action::TypeChar(c) => if typed.len() < CONFIRM_WORD@.len() {
            typed.push(c)
        } else {
            typed
        },
        _ => if typed.len() > 0 {
            typed.drop_last()
        } else {
            typed
        },
    }
}

/// What the stacked modal does with `action`: `None` when it lets the action through,
/// otherwise the state and the command it leaves. The typed confirm's field edits are
/// stated by [`field_after`] instead.
pub open spec fn modal_answer(f: Frontend, action: Action) -> Option<(Frontend, Command)> {
    match f.modal {
        Some(Modal::Compress { material, direction, units }) => match action {
            Action::AdjustLeft => Some(
                (
                    f,
                    Command::SetSpinner {
                        material,
                        direction,
                        requested: if units > 0 {
                            (units - 1) as u32
                        } else {
                            0
                        },
                    },
                ),
            ),
            Action::AdjustRight => Some(
                (
                    f,
                    Command::SetSpinner {
                        material,
                        direction,
                        requested: if units < u32::MAX {
                            (units + 1) as u32
                        } else {
                            u32::MAX
                        },
                    },
                ),
            ),
            Action::AdjustMax => Some(
                (f, Command::SetSpinner { material, direction, requested: u32::MAX }),
            ),
            Action::Confirm => Some(
                (
                    Frontend { modal: None, ..f },
                    Command::ApplyConversion { material, direction, units },
                ),
            ),
            _ => None,
        },
        Some(Modal::Dip { to, buy }) => match action {
            Action::AdjustLeft => Some(
                (Frontend { modal: Some(Modal::Dip { to, buy: true }), ..f }, Command::Nothing),
            ),
            Action::AdjustRight => Some(
                (Frontend { modal: Some(Modal::Dip { to, buy: false }), ..f }, Command::Nothing),
            ),
            Action::Confirm => Some(
                (
                    Frontend { modal: None, ..f },
                    if buy {
                        Command::ClimbTo(to)
                    } else {
                        Command::Nothing
                    },
                ),
            ),
            _ => None,
        },
        Some(Modal::PrestigePreview) => match action {
            Action::Confirm => Some((f, Command::OpenPrestigeConfirm)),
            Action::GoCompress => Some(
                (
                    Frontend { modal: None, screen: Screen::Inventory, ..f },
                    Command::WalkToRefusedPile,
                ),
            ),
            _ => None,
        },
        Some(Modal::PrestigeConfirm { typed }) => match action {
            Action::Confirm => if typed@ == CONFIRM_WORD@ {
                Some((Frontend { modal: None, ..f }, Command::Prestige))
            } else {
                Some((f, Command::Nothing))
            },
            _ => None,
        },
        Some(Modal::Settings { row }) => match action {
            Action::CursorUp | Action::CursorDown => Some(
                (
                    Frontend {
                        modal: Some(Modal::Settings { row: stepped_in(rows(), row, vertical(action)) }),
                        ..f
                    },
                    Command::Nothing,
                ),
            ),
            Action::AdjustLeft | Action::AdjustRight => Some(
                (Frontend { config: adjusted(row, f.config, horizontal(action)), ..f }, Command::Nothing),
            ),
            _ => None,
        },
        Some(Modal::Dev) => match f.dev {
            None => Some((Frontend { modal: None, ..f }, Command::Nothing)),
            Some(dev) => match action {
                Action::CursorUp | Action::CursorDown => Some(
                    (Frontend { dev: Some(dev_stepped(dev, vertical(action))), ..f }, Command::Nothing),
                ),
                Action::AdjustLeft | Action::AdjustRight => Some(
                    (
                        Frontend { dev: Some(dev_adjusted(dev, horizontal(action))), ..f },
                        if dev.cursor() == DevRow::FreeUpgrades {
                            Command::AnnounceFreeUpgrades(
                                dev_adjusted(dev, horizontal(action)).free_upgrades_on(),
                            )
                        } else {
                            Command::Nothing
                        },
                    ),
                ),
                Action::Confirm => Some((f, Command::ApplyDevRow)),
                _ => None,
            },
        },
        _ => None,
    }
}

/// What an action does with no modal taking it: the rings, the boxes, the leaving, and
/// the commands that only mean something on their own tab.
pub open spec fn screen_answer(f: Frontend, action: Action) -> (Frontend, Command) {
    match action {
        Action::ToTitle => (Frontend { leaving: Some(Leaving::ToTitle), ..f }, Command::Nothing),
        Action::Quit => (Frontend { leaving: Some(Leaving::Process), ..f }, Command::Nothing),
        Action::NextScreen => (Frontend { screen: screen_after(f.screen), ..f }, Command::Nothing),
        Action::PrevScreen => (Frontend { screen: screen_before(f.screen), ..f }, Command::Nothing),
        Action::SelectScreen(index) => (
            match screen_at(index as int) {
                Some(screen) => Frontend { screen, ..f },
                None => f,
            },
            Command::Nothing,
        ),
        Action::ToMine => (Frontend { screen: Screen::Mine, ..f }, Command::Nothing),
        Action::MinePressed => (Frontend { mine_key: Some(MineKeyEdge::Down), ..f }, Command::Nothing),
        Action::MineReleased => (Frontend { mine_key: Some(MineKeyEdge::Up), ..f }, Command::Nothing),
        Action::OpenHelp => (Frontend { modal: Some(Modal::Help), ..f }, Command::Nothing),
        Action::OpenSettings => (
            Frontend { modal: Some(Modal::Settings { row: SettingsRow::Colour }), ..f },
            Command::Nothing,
        ),
        Action::CloseModal => (Frontend { modal: None, ..f }, Command::Nothing),
        Action::CursorUp => (f, Command::StepListCursor(-1isize)),
        Action::CursorDown => (f, Command::StepListCursor(1isize)),
        Action::AdjustLeft => (
            f,
            if f.screen == Screen::Mines {
                Command::StepRichnessDial(-1i32)
            } else {
                Command::Nothing
            },
        ),
        Action::AdjustRight => (
            f,
            if f.screen == Screen::Mines {
                Command::StepRichnessDial(1i32)
            } else {
                Command::Nothing
            },
        ),
        Action::Confirm => (
            f,
            match f.screen {
                Screen::Mines => Command::EnterSelectedMine,
                Screen::Upgrades => Command::Buy(Reach::ToCursor),
                Screen::Levels => Command::ClaimAtCursor,
                _ => Command::Nothing,
            },
        ),
        Action::ClaimAll => (
            f,
            if f.screen == Screen::Levels {
                Command::ClaimEverything
            } else {
                Command::Nothing
            },
        ),
        Action::JumpToCurrent => (
            f,
            if f.screen == Screen::Levels {
                Command::JumpToCurrent
            } else {
                Command::Nothing
            },
        ),
        Action::BuyMax => (
            f,
            if f.screen == Screen::Upgrades {
                Command::Buy(Reach::AsFarAsPossible)
            } else {
                Command::Nothing
            },
        ),
        Action::NextSubTab => (
            if f.screen == Screen::Upgrades {
                Frontend {
                    cursors: Cursors { upgrade_tab: upgrade_tab_after(f.cursors.upgrade_tab), ..f.cursors },
                    ..f
                }
            } else {
                f
            },
            Command::Nothing,
        ),
        Action::PrevSubTab => (
            if f.screen == Screen::Upgrades {
                Frontend {
                    cursors: Cursors { upgrade_tab: upgrade_tab_before(f.cursors.upgrade_tab), ..f.cursors },
                    ..f
                }
            } else {
                f
            },
            Command::Nothing,
        ),
        Action::AdjustMax => (f, Command::Nothing),
        Action::OpenPrestige => (
            if f.screen == Screen::Stats {
                Frontend { modal: Some(Modal::PrestigePreview), ..f }
            } else {
                f
            },
            Command::Nothing,
        ),
        Action::TypeChar(_) | Action::EraseChar => (f, Command::Nothing),
        Action::Compress => (
            f,
            if f.screen == Screen::Inventory {
                Command::OpenConversion(Conversion::Compress)
            } else {
                Command::Nothing
            },
        ),
        Action::Decompress => (
            f,
            if f.screen == Screen::Inventory {
                Command::OpenConversion(Conversion::Decompress)
            } else {
                Command::Nothing
            },
        ),
        Action::GoCompress => (Frontend { screen: Screen::Inventory, ..f }, Command::WalkToRefusedPile),
        Action::OpenDevMenu => (Frontend { modal: Some(Modal::Dev), ..f }, Command::Nothing),
        Action::FireBoost => (f, Command::FireBoost),
    }
}

/// What `action` does: the modal's answer where it has one, the screen's otherwise.
pub open spec fn reduced(f: Frontend, action: Action) -> (Frontend, Command) {
    match modal_answer(f, action) {
        Some(answer) => answer,
        None => screen_answer(f, action),
    }
}

/// How many purchases a reach asks for on a track that buys one level at a time: one
/// up to the cursor, as many as the purse allows otherwise.
pub fn steps(reach: Reach) -> (r: u32)
    ensures
        r == (match reach {
            Reach::ToCursor => 1u32,
            Reach::AsFarAsPossible => u32::MAX,
        }),
{
    match reach {
        Reach::ToCursor => 1,
        Reach::AsFarAsPossible => u32::MAX,
    }
}

/// The spinner's count for a requested one: at least one unit — a conversion of
/// nothing is not something the dialog offers — and no more than the pile covers.
pub open spec fn spinner_units_of(requested: u32, ceiling: u32) -> u32 {
    let top: u32 = if ceiling > 1 {
        ceiling
    } else {
        1
    };
    if requested < 1 {
        1
    } else if requested > top {
        top
    } else {
        requested
    }
}

/// The spinner's count for `requested`, on a pile that covers `ceiling` units.
pub fn spinner_units(requested: u32, ceiling: u32) -> (r: u32)
    ensures
        r == spinner_units_of(requested, ceiling),
        1 <= r,
        r <= ceiling || r == 1,
{
    let top = if ceiling > 1 {
        ceiling
    } else {
        1
    };
    if requested < 1 {
        1
    } else if requested > top {
        top
    } else {
        requested
    }
}

impl Frontend {
    /// A session's opening state: the Mine tab, nothing stacked, nobody leaving.
    pub fn new(cursors: Cursors, config: Config, dev: Option<DevState>) -> (f: Frontend)
        ensures
            f.screen == Screen::Mine,
            f.modal is None,
            f.leaving is None,
            f.cursors == cursors,
            f.mine_key is None,
            f.config == config,
            f.dev == dev,
    {
        Frontend {
            screen: Screen::Mine,
            modal: None,
            leaving: None,
            cursors,
            mine_key: None,
            config,
            dev,
        }
    }

    /// Offers `action` to the stacked modal; `None` when it lets the action through.
    fn answer_modal(&mut self, action: &Action) -> (r: Option<Command>)
        ensures
            !edits_the_field(*old(self), *action) ==> match modal_answer(*old(self), *action) {
                Some((f, c)) => r == Some(c) && *final(self) == f,
                None => r is None && *final(self) == *old(self),
            },
            edits_the_field(*old(self), *action) ==> r == Some(Command::Nothing),
            edits_the_field(*old(self), *action) ==> (final(self).modal matches Some(
                Modal::PrestigeConfirm { typed },
            ) && old(self).modal matches Some(Modal::PrestigeConfirm { typed: before }) && typed@
                == field_after(before@, *action)),
            edits_the_field(*old(self), *action) ==> *final(self) == (Frontend {
                modal: final(self).modal,
                ..*old(self)
            }),
    {
        let modal = self.modal.take();
        match modal {
            Some(Modal::Compress { material, direction, units }) => {
                self.modal = Some(Modal::Compress { material, direction, units });
                match action {
                    Action::AdjustLeft => Some(
                        Command::SetSpinner {
                            material,
                            direction,
                            requested: units.saturating_sub(1),
                        },
                    ),
                    Action::AdjustRight => Some(
                        Command::SetSpinner {
                            material,
                            direction,
                            requested: units.saturating_add(1),
                        },
                    ),
                    Action::AdjustMax => Some(
                        Command::SetSpinner { material, direction, requested: u32::MAX },
                    ),
                    Action::Confirm => {
                        self.modal = None;
                        Some(Command::ApplyConversion { material, direction, units })
                    },
                    _ => None,
                }
            },
            Some(Modal::Dip { to, buy }) => {
                self.modal = Some(Modal::Dip { to, buy });
                match action {
                    Action::AdjustLeft => {
                        self.modal = Some(Modal::Dip { to, buy: true });
                        Some(Command::Nothing)
                    },
                    Action::AdjustRight => {
                        self.modal = Some(Modal::Dip { to, buy: false });
                        Some(Command::Nothing)
                    },
                    Action::Confirm => {
                        self.modal = None;
                        if buy {
                            Some(Command::ClimbTo(to))
                        } else {
                            Some(Command::Nothing)
                        }
                    },
                    _ => None,
                }
            },
            Some(Modal::PrestigePreview) => {
                self.modal = Some(Modal::PrestigePreview);
                match action {
                    Action::Confirm => Some(Command::OpenPrestigeConfirm),
                    Action::GoCompress => {
                        self.modal = None;
                        self.screen = Screen::Inventory;
                        Some(Command::WalkToRefusedPile)
                    },
                    _ => None,
                }
            },
            Some(Modal::PrestigeConfirm { typed }) => match action {
                Action::TypeChar(character) => {
                    let mut typed = typed;
                    if typed.unicode_len() < CONFIRM_WORD.unicode_len() {
                        push_char(&mut typed, *character);
                    }
                    self.modal = Some(Modal::PrestigeConfirm { typed });
                    Some(Command::Nothing)
                },
                Action::EraseChar => {
                    let kept = typed.unicode_len();
                    let shorter = if kept > 0 {
                        typed.substring_char(0, kept - 1).to_owned()
                    } else {
                        typed
                    };
                    self.modal = Some(Modal::PrestigeConfirm { typed: shorter });
                    Some(Command::Nothing)
                },
                Action::Confirm => {
                    if same_text(typed.as_str(), CONFIRM_WORD) {
                        Some(Command::Prestige)
                    } else {
                        self.modal = Some(Modal::PrestigeConfirm { typed });
                        Some(Command::Nothing)
                    }
                },
                _ => {
                    self.modal = Some(Modal::PrestigeConfirm { typed });
                    None
                },
            },
            Some(Modal::Settings { row }) => match action {
                Action::CursorUp => {
                    self.modal = Some(Modal::Settings { row: row.step(-1) });
                    Some(Command::Nothing)
                },
                Action::CursorDown => {
                    self.modal = Some(Modal::Settings { row: row.step(1) });
                    Some(Command::Nothing)
                },
                Action::AdjustLeft => {
                    self.modal = Some(Modal::Settings { row });
                    row.adjust(&mut self.config, -1);
                    Some(Command::Nothing)
                },
                Action::AdjustRight => {
                    self.modal = Some(Modal::Settings { row });
                    row.adjust(&mut self.config, 1);
                    Some(Command::Nothing)
                },
                _ => {
                    self.modal = Some(Modal::Settings { row });
                    None
                },
            },
            Some(Modal::Dev) => {
                match self.dev.take() {
                    None => Some(Command::Nothing),
                    Some(mut dev) => {
                        self.modal = Some(Modal::Dev);
                        let answer = match action {
                            Action::CursorUp => {
                                dev.step_row(-1);
                                Some(Command::Nothing)
                            },
                            Action::CursorDown => {
                                dev.step_row(1);
                                Some(Command::Nothing)
                            },
                            Action::AdjustLeft | Action::AdjustRight => {
                                let delta: isize = if matches!(action, Action::AdjustLeft) {
                                    -1
                                } else {
                                    1
                                };
                                let toggled = dev.on_free_upgrades();
                                dev.adjust(delta);
                                if toggled {
                                    Some(Command::AnnounceFreeUpgrades(dev.free_upgrades_enabled()))
                                } else {
                                    Some(Command::Nothing)
                                }
                            },
                            Action::Confirm => Some(Command::ApplyDevRow),
                            _ => None,
                        };
                        self.dev = Some(dev);
                        answer
                    },
                }
            },
            Some(Modal::Help) => {
                self.modal = Some(Modal::Help);
                None
            },
            None => None,
        }
    }

    /// Applies `action` to the interface, and says what it asks of the run.
    pub fn update(&mut self, action: Action) -> (command: Command)
        ensures
            !edits_the_field(*old(self), action) ==> (*final(self), command) == reduced(
                *old(self),
                action,
            ),
            edits_the_field(*old(self), action) ==> command == Command::Nothing,
            edits_the_field(*old(self), action) ==> (final(self).modal matches Some(
                Modal::PrestigeConfirm { typed },
            ) && old(self).modal matches Some(Modal::PrestigeConfirm { typed: before }) && typed@
                == field_after(before@, action)),
            edits_the_field(*old(self), action) ==> *final(self) == (Frontend {
                modal: final(self).modal,
                ..*old(self)
            }),
    {
        match self.answer_modal(&action) {
            Some(command) => return command,
            None => {},
        }
        match action {
            Action::ToTitle => {
                self.leaving = Some(Leaving::ToTitle);
                Command::Nothing
            },
            Action::Quit => {
                self.leaving = Some(Leaving::Process);
                Command::Nothing
            },
            Action::NextScreen => {
                self.screen = self.screen.next();
                Command::Nothing
            },
            Action::PrevScreen => {
                self.screen = self.screen.prev();
                Command::Nothing
            },
            Action::SelectScreen(index) => {
                match Screen::from_index(index) {
                    Some(screen) => self.screen = screen,
                    None => {},
                }
                Command::Nothing
            },
            Action::ToMine => {
                self.screen = Screen::Mine;
                Command::Nothing
            },
            Action::MinePressed => {
                self.mine_key = Some(MineKeyEdge::Down);
                Command::Nothing
            },
            Action::MineReleased => {
                self.mine_key = Some(MineKeyEdge::Up);
                Command::Nothing
            },
            Action::OpenHelp => {
                self.modal = Some(Modal::Help);
                Command::Nothing
            },
            Action::OpenSettings => {
                self.modal = Some(Modal::Settings { row: SettingsRow::Colour });
                Command::Nothing
            },
            Action::CloseModal => {
                self.modal = None;
                Command::Nothing
            },
            Action::CursorUp => Command::StepListCursor(-1),
            Action::CursorDown => Command::StepListCursor(1),
            Action::AdjustLeft => {
                if self.screen == Screen::Mines {
                    Command::StepRichnessDial(-1)
                } else {
                    Command::Nothing
                }
            },
            Action::AdjustRight => {
                if self.screen == Screen::Mines {
                    Command::StepRichnessDial(1)
                } else {
                    Command::Nothing
                }
            },
            Action::Confirm => match self.screen {
                Screen::Mines => Command::EnterSelectedMine,
                Screen::Upgrades => Command::Buy(Reach::ToCursor),
                Screen::Levels => Command::ClaimAtCursor,
                _ => Command::Nothing,
            },
            Action::ClaimAll => {
                if self.screen == Screen::Levels {
                    Command::ClaimEverything
                } else {
                    Command::Nothing
                }
            },
            Action::JumpToCurrent => {
                if self.screen == Screen::Levels {
                    Command::JumpToCurrent
                } else {
                    Command::Nothing
                }
            },
            Action::BuyMax => {
                if self.screen == Screen::Upgrades {
                    Command::Buy(Reach::AsFarAsPossible)
                } else {
                    Command::Nothing
                }
            },
            Action::NextSubTab => {
                if self.screen == Screen::Upgrades {
                    self.cursors.upgrade_tab = self.cursors.upgrade_tab.next();
                }
                Command::Nothing
            },
            Action::PrevSubTab => {
                if self.screen == Screen::Upgrades {
                    self.cursors.upgrade_tab = self.cursors.upgrade_tab.prev();
                }
                Command::Nothing
            },
            Action::AdjustMax => Command::Nothing,
            Action::OpenPrestige => {
                if self.screen == Screen::Stats {
                    self.modal = Some(Modal::PrestigePreview);
                }
                Command::Nothing
            },
            Action::TypeChar(_) | Action::EraseChar => Command::Nothing,
            Action::Compress => {
                if self.screen == Screen::Inventory {
                    Command::OpenConversion(Conversion::Compress)
                } else {
                    Command::Nothing
                }
            },
            Action::Decompress => {
                if self.screen == Screen::Inventory {
                    Command::OpenConversion(Conversion::Decompress)
                } else {
                    Command::Nothing
                }
            },
            Action::GoCompress => {
                self.screen = Screen::Inventory;
                Command::WalkToRefusedPile
            },
            Action::OpenDevMenu => {
                self.modal = Some(Modal::Dev);
                Command::Nothing
            },
            Action::FireBoost => Command::FireBoost,
        }
    }

    /// Sets the compression dialog's spinner to `requested`, clamped by the `ceiling`
    /// the pile covers — the second half of a [`Command::SetSpinner`].
    pub fn set_spinner(&mut self, material: usize, direction: Conversion, requested: u32, ceiling: u32)
        ensures
            *final(self) == (Frontend {
                modal: Some(
                    Modal::Compress {
                        material,
                        direction,
                        units: spinner_units_of(requested, ceiling),
                    },
                ),
                ..*old(self)
            }),
    {
        self.modal = Some(
            Modal::Compress { material, direction, units: spinner_units(requested, ceiling) },
        );
    }

    /// Opens the typed confirm with an empty field — the second half of a
    /// [`Command::OpenPrestigeConfirm`] the gates and the till both allowed.
    pub fn open_prestige_confirm(&mut self)
        ensures
            final(self).modal matches Some(Modal::PrestigeConfirm { typed }) && typed@.len() == 0,
            *final(self) == (Frontend { modal: final(self).modal, ..*old(self) }),
    {
        self.modal = Some(Modal::PrestigeConfirm { typed: String::new() });
    }

    /// After a prestige the run is a new one to walk, so the interface goes back to the
    /// Mine tab.
    pub fn prestiged(&mut self)
        ensures
            *final(self) == (Frontend { screen: Screen::Mine, ..*old(self) }),
    {
        self.screen = Screen::Mine;
    }
}

/// **Closing is one implementation for every box**: no modal takes `CloseModal`, so it
/// clears whatever is stacked and touches nothing else of the interface (a dev box with
/// no menu behind it closes itself on any key, this one included).
pub proof fn lemma_close_always_closes(f: Frontend)
    requires
        !(f.modal == Some(Modal::Dev) && f.dev is None),
    ensures
        reduced(f, Action::CloseModal) == (Frontend { modal: None, ..f }, Command::Nothing),
{
}

/// **A stacked box keeps the screen**: whatever a Compress, Dip, Settings or Dev box
/// takes, the tab behind it stays where it was, and so does the player's intent to stay.
pub proof fn lemma_a_modal_gesture_keeps_the_screen(f: Frontend, action: Action)
    requires
        f.modal matches Some(m) && (m is Compress || m is Dip || m is Settings || m is Dev),
        modal_answer(f, action) is Some,
    ensures
        reduced(f, action).0.screen == f.screen,
        reduced(f, action).0.leaving == f.leaving,
{
}

/// **The dip caret clamps rather than wraps**: pressing the same arrow again changes
/// nothing, so a held key parks on `Buy it` or `Not yet` instead of flicking between them.
pub proof fn lemma_the_dip_caret_parks(f: Frontend, action: Action, to: usize, buy: bool)
    requires
        f.modal == Some(Modal::Dip { to, buy }),
        action is AdjustLeft || action is AdjustRight,
    ensures
        reduced(reduced(f, action).0, action) == reduced(f, action),
        reduced(f, action).0.modal == Some(Modal::Dip { to, buy: action is AdjustLeft }),
{
}

/// **The field never outgrows the word, and nothing but the word trades the run in**:
/// an edit keeps the field within the word's length, and the confirm issues
/// [`Command::Prestige`] exactly when what was typed is the word.
pub proof fn lemma_only_the_word_trades_the_run(f: Frontend, action: Action, typed: String)
    requires
        f.modal == Some(Modal::PrestigeConfirm { typed }),
    ensures
        typed@.len() <= CONFIRM_WORD@.len() ==> field_after(typed@, action).len()
            <= CONFIRM_WORD@.len(),
        (reduced(f, Action::Confirm).1 == Command::Prestige) <==> typed@ == CONFIRM_WORD@,
        reduced(f, Action::Confirm).1 == Command::Prestige ==> reduced(f, Action::Confirm).0.modal
            is None,
{
}

/// **Leaving is only ever asked for**: the only actions that set `leaving` are the two
/// that ask to, and — short of a dev box stacked with no menu behind it, which closes
/// itself on any key — no box stands in their way.
pub proof fn lemma_leaving_is_only_asked_for(f: Frontend, action: Action)
    requires
        f.leaving is None,
        !(f.modal == Some(Modal::Dev) && f.dev is None),
        !edits_the_field(f, action),
    ensures
        reduced(f, action).0.leaving is Some ==> (action is Quit || action is ToTitle),
        action is Quit ==> reduced(f, action).0.leaving == Some(Leaving::Process),
        action is ToTitle ==> reduced(f, action).0.leaving == Some(Leaving::ToTitle),
{
}


/// The context a key is resolved in when `f` has nothing stacked.
pub open spec fn bare_context(f: Frontend, dev_menu: bool) -> KeyContext {
    KeyContext { screen: f.screen, modal: None, dev_menu, sub_tab_keys: f.config.sub_tab_keys }
}

/// **`Enter` does what its tab says it does**: with nothing stacked it enters the mine
/// under the cursor on Mines, buys up to the cursor on Upgrades and claims the row under
/// the cursor on Levels, and is not bound on the other three tabs; it never changes the
/// interface's own state.
pub proof fn lemma_enter_does_what_its_tab_says(
    f: Frontend,
    dev_menu: bool,
    modifiers: KeyModifiers,
    kind: KeyEventKind,
)
    requires
        f.modal is None,
        !modifiers.control,
        kind != KeyEventKind::Release,
    ensures
        ({
            let key = KeyEvent { code: KeyCode::Enter, modifiers, kind };
            &&& (f.screen == Screen::Mines || f.screen == Screen::Upgrades || f.screen
                == Screen::Levels) ==> resolved(bare_context(f, dev_menu), key) == Some(
                Action::Confirm,
            )
            &&& (f.screen == Screen::Mine || f.screen == Screen::Inventory || f.screen
                == Screen::Stats) ==> resolved(bare_context(f, dev_menu), key) is None
        }),
        reduced(f, Action::Confirm).0 == f,
        f.screen == Screen::Mines ==> reduced(f, Action::Confirm).1 == Command::EnterSelectedMine,
        f.screen == Screen::Upgrades ==> reduced(f, Action::Confirm).1 == Command::Buy(
            Reach::ToCursor,
        ),
        f.screen == Screen::Levels ==> reduced(f, Action::Confirm).1 == Command::ClaimAtCursor,
        (f.screen == Screen::Mine || f.screen == Screen::Inventory || f.screen == Screen::Stats)
            ==> reduced(f, Action::Confirm).1 == Command::Nothing,
{
}

/// **The two conversion keys go opposite ways**: on the Inventory tab with nothing
/// stacked, `c` asks for the compression dialog and `C` for the decompression one, and
/// neither moves the interface.
pub proof fn lemma_the_conversion_keys_go_opposite_ways(
    f: Frontend,
    dev_menu: bool,
    modifiers: KeyModifiers,
    kind: KeyEventKind,
)
    requires
        f.modal is None,
        f.screen == Screen::Inventory,
        !modifiers.control,
        kind != KeyEventKind::Release,
    ensures
        resolved(bare_context(f, dev_menu), KeyEvent { code: KeyCode::Char('c'), modifiers, kind })
            == Some(Action::Compress),
        resolved(bare_context(f, dev_menu), KeyEvent { code: KeyCode::Char('C'), modifiers, kind })
            == Some(Action::Decompress),
        reduced(f, Action::Compress) == (f, Command::OpenConversion(Conversion::Compress)),
        reduced(f, Action::Decompress) == (f, Command::OpenConversion(Conversion::Decompress)),
{
}

/// **The arrows turn the richness dial only on Mines**: with nothing stacked, `←` and `→`
/// step the dial down and up by one there and ask nothing of the run anywhere else, and
/// `↑` `↓` step the list under the cursor by one row on every tab.
pub proof fn lemma_the_arrows_on_each_tab(f: Frontend)
    requires
        f.modal is None,
    ensures
        f.screen == Screen::Mines ==> reduced(f, Action::AdjustLeft) == (f, Command::StepRichnessDial(-1i32)),
        f.screen == Screen::Mines ==> reduced(f, Action::AdjustRight) == (f, Command::StepRichnessDial(1i32)),
        f.screen != Screen::Mines ==> reduced(f, Action::AdjustLeft) == (f, Command::Nothing),
        f.screen != Screen::Mines ==> reduced(f, Action::AdjustRight) == (f, Command::Nothing),
        reduced(f, Action::CursorUp) == (f, Command::StepListCursor(-1isize)),
        reduced(f, Action::CursorDown) == (f, Command::StepListCursor(1isize)),
{
}

/// **Each tab's own letters ask for their own thing**: `M` buys as far as the purse
/// allows and `c` walks to the pile a refusal named (Upgrades), `A` claims everything
/// and `Home` jumps to the player's level (Levels), `p` opens the prestige preview
/// (Stats); on any other tab the same actions ask nothing of the run.
pub proof fn lemma_each_tab_keeps_its_letters(f: Frontend)
    requires
        f.modal is None,
    ensures
        reduced(f, Action::BuyMax) == (f, if f.screen == Screen::Upgrades {
            Command::Buy(Reach::AsFarAsPossible)
        } else {
            Command::Nothing
        }),
        reduced(f, Action::ClaimAll) == (f, if f.screen == Screen::Levels {
            Command::ClaimEverything
        } else {
            Command::Nothing
        }),
        reduced(f, Action::JumpToCurrent) == (f, if f.screen == Screen::Levels {
            Command::JumpToCurrent
        } else {
            Command::Nothing
        }),
        reduced(f, Action::GoCompress) == (
            Frontend { screen: Screen::Inventory, ..f },
            Command::WalkToRefusedPile,
        ),
        f.screen == Screen::Stats ==> reduced(f, Action::OpenPrestige) == (
            Frontend { modal: Some(Modal::PrestigePreview), ..f },
            Command::Nothing,
        ),
        f.screen != Screen::Stats ==> reduced(f, Action::OpenPrestige) == (f, Command::Nothing),
        reduced(f, Action::Compress).1 != reduced(f, Action::Decompress).1 <==> f.screen
            == Screen::Inventory,
{
}


/// **Every key Help lists for a tab reaches the action Help describes**, with nothing
/// stacked: the arrows, `Enter` and `←` `→` on Mines; the arrows, `c` and `C` on
/// Inventory; the arrows, `Enter`, `M` and `c` on Upgrades; `p` on Stats; the arrows,
/// `Enter`, `A` and `Home` on Levels; and `b` on Mine, where Space starts mining.
pub proof fn lemma_help_keys_reach_their_actions(
    f: Frontend,
    dev_menu: bool,
    modifiers: KeyModifiers,
    kind: KeyEventKind,
)
    requires
        f.modal is None,
        !modifiers.control,
        kind != KeyEventKind::Release,
    ensures
        ({
            let ctx = bare_context(f, dev_menu);
            let key = |code: KeyCode| KeyEvent { code, modifiers, kind };
            &&& f.screen != Screen::Mine ==> resolved(ctx, key(KeyCode::Up)) == Some(Action::CursorUp)
            &&& f.screen != Screen::Mine ==> resolved(ctx, key(KeyCode::Down)) == Some(
                Action::CursorDown,
            )
            &&& f.screen == Screen::Mines ==> resolved(ctx, key(KeyCode::Left)) == Some(
                Action::AdjustLeft,
            ) && resolved(ctx, key(KeyCode::Right)) == Some(Action::AdjustRight)
            &&& f.screen == Screen::Upgrades ==> resolved(ctx, key(KeyCode::Char('M'))) == Some(
                Action::BuyMax,
            ) && resolved(ctx, key(KeyCode::Char('c'))) == Some(Action::GoCompress)
            &&& f.screen == Screen::Stats ==> resolved(ctx, key(KeyCode::Char('p'))) == Some(
                Action::OpenPrestige,
            )
            &&& f.screen == Screen::Levels ==> resolved(ctx, key(KeyCode::Char('A'))) == Some(
                Action::ClaimAll,
            ) && resolved(ctx, key(KeyCode::Home)) == Some(Action::JumpToCurrent)
            &&& f.screen == Screen::Mine ==> resolved(ctx, key(KeyCode::Char(' '))) == Some(
                Action::MinePressed,
            ) && resolved(ctx, key(KeyCode::Char('b'))) == Some(Action::FireBoost)
        }),
        reduced(f, Action::MinePressed) == (Frontend { mine_key: Some(MineKeyEdge::Down), ..f }, Command::Nothing),
        reduced(f, Action::MineReleased) == (Frontend { mine_key: Some(MineKeyEdge::Up), ..f }, Command::Nothing),
        reduced(f, Action::FireBoost) == (f, Command::FireBoost),
        reduced(f, Action::ToMine) == (Frontend { screen: Screen::Mine, ..f }, Command::Nothing),
        reduced(f, Action::OpenHelp) == (Frontend { modal: Some(Modal::Help), ..f }, Command::Nothing),
        reduced(f, Action::OpenSettings) == (
            Frontend { modal: Some(Modal::Settings { row: SettingsRow::Colour }), ..f },
            Command::Nothing,
        ),
{
}

} // verus!
