//! Where a keystroke becomes an intent.
//!
//! This is the one place that knows about keys. Everything downstream speaks
//! [`Action`]. **Three resolvers and not one**: [`resolve`] answers a run,
//! [`resolve_menu`] answers the states that are not a run at all (the title, the
//! recovery frames, the Settings screen the title opens), and [`resolve_too_small`]
//! answers the one screen drawn over every other.
//!
//! **Resolution order**, and it matters:
//! 0. A key *release* — it can only ever mean "stop mining".
//! 1. `Ctrl-C` — always quits, even if a modal would otherwise capture the key.
//! 2. An open modal captures everything else.
//! 3. The dev menu's key, where the session allows one.
//! 4. The global ring bindings.
//! 5. The configurable sub-tab binding, on the Upgrades screen only.
//! 6. The active screen's own bindings.
//!
//! Globals are consulted *before* the screen so that `Tab` cannot be shadowed by a
//! screen that forgot the ring exists.

use vstd::prelude::*;

use crate::action::{Action, MenuAction};
use crate::config::SubTabKeys;
use crate::overlay::Modal;
use crate::screen::{Screen, screen_key};

verus! {

/// Which key was pressed: a character, or one of the named keys a binding mentions.
/// Every other key of the keyboard is [`KeyCode::Other`], which nothing binds.
#[derive(Clone, Copy, Debug, PartialEq, Eq, Structural)]
pub enum KeyCode {
    /// A key that produces a character.
    Char(char),
    /// `↑`.
    Up,
    /// `↓`.
    Down,
    /// `←`.
    Left,
    /// `→`.
    Right,
    /// `Enter`.
    Enter,
    /// `Esc`.
    Esc,
    /// `Tab`.
    Tab,
    /// `⇧Tab`.
    BackTab,
    /// `Backspace`.
    Backspace,
    /// `Home`.
    Home,
    /// Any key no binding names.
    Other,
}

/// The modifiers held with a key, as far as any binding reads them.
#[derive(Clone, Copy, Debug, PartialEq, Eq, Structural)]
pub struct KeyModifiers {
    /// `Ctrl` was held.
    pub control: bool,
    /// `Shift` was held.
    pub shift: bool,
}

impl KeyModifiers {
    /// No modifier held.
    pub fn none() -> (m: KeyModifiers)
        ensures
            !m.control && !m.shift,
    {
        KeyModifiers { control: false, shift: false }
    }

    /// `Ctrl` held.
    pub fn control() -> (m: KeyModifiers)
        ensures
            m.control && !m.shift,
    {
        KeyModifiers { control: true, shift: false }
    }

    /// `Shift` held.
    pub fn shift() -> (m: KeyModifiers)
        ensures
            !m.control && m.shift,
    {
        KeyModifiers { control: false, shift: true }
    }
}

/// Whether the key went down, repeated while held, or came back up. A release is only
/// ever reported by a terminal speaking the kitty keyboard protocol.
#[derive(Clone, Copy, Debug, PartialEq, Eq, Structural)]
pub enum KeyEventKind {
    /// The key went down.
    Press,
    /// The key is held and the system repeated it.
    Repeat,
    /// The key came back up.
    Release,
}

/// One keystroke as the terminal reported it.
#[derive(Clone, Copy, Debug, PartialEq, Eq, Structural)]
pub struct KeyEvent {
    /// Which key.
    pub code: KeyCode,
    /// With which modifiers.
    pub modifiers: KeyModifiers,
    /// Down, held, or up.
    pub kind: KeyEventKind,
}

impl KeyEvent {
    /// A press of `code` with `modifiers`.
    pub fn new(code: KeyCode, modifiers: KeyModifiers) -> (k: KeyEvent)
        ensures
            k == (KeyEvent { code, modifiers, kind: KeyEventKind::Press }),
    {
        KeyEvent { code, modifiers, kind: KeyEventKind::Press }
    }

    /// `code` with `modifiers`, down, repeated or up as `kind` says.
    pub fn new_with_kind(code: KeyCode, modifiers: KeyModifiers, kind: KeyEventKind) -> (k:
        KeyEvent)
        ensures
            k == (KeyEvent { code, modifiers, kind }),
    {
        KeyEvent { code, modifiers, kind }
    }
}

/// What the keymap needs to know about the session it decodes for: which tab is up,
/// what is stacked over it, whether the dev menu exists, and the sub-tab binding.
#[derive(Clone, Debug, PartialEq, Eq)]
pub struct KeyContext {
    /// The tab on screen.
    pub screen: Screen,
    /// The modal stacked over it, if any.
    pub modal: Option<Modal>,
    /// Whether this session was started with the dev menu.
    pub dev_menu: bool,
    /// The Upgrades sub-tab switch binding the player chose.
    pub sub_tab_keys: SubTabKeys,
}

/// `Ctrl-C`, in either case.
pub open spec fn is_ctrl_c(key: KeyEvent) -> bool {
    key.modifiers.control && (key.code == KeyCode::Char('c') || key.code == KeyCode::Char('C'))
}

/// What a key means on a menu screen.
pub open spec fn menu_key(key: KeyEvent) -> Option<MenuAction> {
    if key.kind == KeyEventKind::Release {
        None
    } else if is_ctrl_c(key) {
        Some(MenuAction::Quit)
    } else {
        match key.code {
            KeyCode::Up => Some(MenuAction::Up),
            KeyCode::Down => Some(MenuAction::Down),
            KeyCode::Left => Some(MenuAction::Left),
            KeyCode::Right => Some(MenuAction::Right),
            KeyCode::Enter => Some(MenuAction::Confirm),
            KeyCode::Esc => Some(MenuAction::Cancel),
            KeyCode::Char('q') => Some(MenuAction::Quit),
            _ => None,
        }
    }
}

/// What a key means while the terminal is too small to draw anything.
pub open spec fn too_small_key(key: KeyEvent) -> Option<MenuAction> {
    if key.kind == KeyEventKind::Release {
        None
    } else if is_ctrl_c(key) || key.code == KeyCode::Char('q') {
        Some(MenuAction::Quit)
    } else {
        None
    }
}

/// What a key means to the modal stacked over the screen; everything it does not use
/// it swallows.
pub open spec fn modal_key(modal: Modal, key: KeyEvent) -> Option<Action> {
    match modal {
        Modal::Help => match key.code {
            KeyCode::Char('?') | KeyCode::Esc => Some(Action::CloseModal),
            _ => None,
        },
        Modal::Settings { .. } => match key.code {
            KeyCode::Up => Some(Action::CursorUp),
            KeyCode::Down => Some(Action::CursorDown),
            KeyCode::Left => Some(Action::AdjustLeft),
            KeyCode::Right => Some(Action::AdjustRight),
            KeyCode::Char('s') | KeyCode::Esc => Some(Action::CloseModal),
            _ => None,
        },
        Modal::Compress { .. } => match key.code {
            KeyCode::Left => Some(Action::AdjustLeft),
            KeyCode::Right => Some(Action::AdjustRight),
            KeyCode::Char('a') => Some(Action::AdjustMax),
            KeyCode::Enter => Some(Action::Confirm),
            KeyCode::Esc => Some(Action::CloseModal),
            _ => None,
        },
        Modal::Dip { .. } => match key.code {
            KeyCode::Left => Some(Action::AdjustLeft),
            KeyCode::Right => Some(Action::AdjustRight),
            KeyCode::Enter => Some(Action::Confirm),
            KeyCode::Char('n') | KeyCode::Esc => Some(Action::CloseModal),
            _ => None,
        },
        Modal::PrestigePreview => match key.code {
            KeyCode::Enter => Some(Action::Confirm),
            KeyCode::Char('c') => Some(Action::GoCompress),
            KeyCode::Esc => Some(Action::CloseModal),
            _ => None,
        },
        Modal::PrestigeConfirm { .. } => match key.code {
            KeyCode::Char(typed) => Some(Action::TypeChar(typed)),
            KeyCode::Backspace => Some(Action::EraseChar),
            KeyCode::Enter => Some(Action::Confirm),
            KeyCode::Esc => Some(Action::CloseModal),
            _ => None,
        },
        Modal::Dev => match key.code {
            KeyCode::Up => Some(Action::CursorUp),
            KeyCode::Down => Some(Action::CursorDown),
            KeyCode::Left => Some(Action::AdjustLeft),
            KeyCode::Right => Some(Action::AdjustRight),
            KeyCode::Enter => Some(Action::Confirm),
            KeyCode::Char('`') | KeyCode::Esc => Some(Action::CloseModal),
            _ => None,
        },
    }
}

/// The global ring bindings, answered the same on every tab.
pub open spec fn global_key(key: KeyEvent) -> Option<Action> {
    match key.code {
        KeyCode::Char(c) => if c == 'q' {
            Some(Action::ToTitle)
        } else if c == '?' {
            Some(Action::OpenHelp)
        } else if c == 's' {
            Some(Action::OpenSettings)
        } else if '1' <= c && c <= '6' {
            Some(Action::SelectScreen((c as int - '1' as int) as usize))
        } else {
            None
        },
        KeyCode::Esc => Some(Action::ToMine),
        KeyCode::Tab => Some(Action::NextScreen),
        KeyCode::BackTab => Some(Action::PrevScreen),
        _ => None,
    }
}

/// The configured sub-tab binding, matched whole — a `Shift+←` is the modifier and the
/// code together.
pub open spec fn sub_tab_key(key: KeyEvent, binding: SubTabKeys) -> Option<Action> {
    match binding {
        SubTabKeys::ShiftArrows => if key.modifiers.shift && key.code == KeyCode::Left {
            Some(Action::PrevSubTab)
        } else if key.modifiers.shift && key.code == KeyCode::Right {
            Some(Action::NextSubTab)
        } else {
            None
        },
        SubTabKeys::HL => if key.code == KeyCode::Char('h') {
            Some(Action::PrevSubTab)
        } else if key.code == KeyCode::Char('l') {
            Some(Action::NextSubTab)
        } else {
            None
        },
        SubTabKeys::Brackets => if key.code == KeyCode::Char('[') {
            Some(Action::PrevSubTab)
        } else if key.code == KeyCode::Char(']') {
            Some(Action::NextSubTab)
        } else {
            None
        },
    }
}

/// What a key means to a run, in the resolution order this module's header lists.
pub open spec fn resolved(ctx: KeyContext, key: KeyEvent) -> Option<Action> {
    if key.kind == KeyEventKind::Release {
        if key.code == KeyCode::Char(' ') && ctx.screen == Screen::Mine {
            Some(Action::MineReleased)
        } else {
            None
        }
    } else if is_ctrl_c(key) {
        Some(Action::Quit)
    } else if ctx.modal is Some {
        modal_key(ctx.modal->0, key)
    } else if ctx.dev_menu && key.code == KeyCode::Char('`') {
        Some(Action::OpenDevMenu)
    } else if global_key(key) is Some {
        global_key(key)
    } else if ctx.screen == Screen::Upgrades && sub_tab_key(key, ctx.sub_tab_keys) is Some {
        sub_tab_key(key, ctx.sub_tab_keys)
    } else {
        screen_key(ctx.screen, key)
    }
}

fn ctrl_c(key: KeyEvent) -> (r: bool)
    ensures
        r == is_ctrl_c(key),
{
    key.modifiers.control && match key.code {
        KeyCode::Char(c) => c == 'c' || c == 'C',
        _ => false,
    }
}

/// Translates a key press on a menu screen, or `None` if nothing is bound there.
///
/// **One resolver for the title and for the recovery frames**, because they are the
/// same interaction. It takes no state: which row `Enter` takes belongs to the caller
/// that owns the cursor. `Ctrl-C` is the same answer as `q` here — on a screen with no
/// game behind it there is no third thing quitting could mean.
pub fn resolve_menu(key: KeyEvent) -> (r: Option<MenuAction>)
    ensures
        r == menu_key(key),
{
    if key.kind == KeyEventKind::Release {
        return None;
    }
    if ctrl_c(key) {
        return Some(MenuAction::Quit);
    }
    match key.code {
        KeyCode::Up => Some(MenuAction::Up),
        KeyCode::Down => Some(MenuAction::Down),
        KeyCode::Left => Some(MenuAction::Left),
        KeyCode::Right => Some(MenuAction::Right),
        KeyCode::Enter => Some(MenuAction::Confirm),
        KeyCode::Esc => Some(MenuAction::Cancel),
        KeyCode::Char(c) => {
            if c == 'q' {
                Some(MenuAction::Quit)
            } else {
                None
            }
        },
        _ => None,
    }
}

/// Translates a key press while the terminal is too small to draw anything: `q` has to
/// mean the process, since the title is a screen this terminal cannot draw either.
pub fn resolve_too_small(key: KeyEvent) -> (r: Option<MenuAction>)
    ensures
        r == too_small_key(key),
{
    if key.kind == KeyEventKind::Release {
        return None;
    }
    let quits = ctrl_c(key) || match key.code {
        KeyCode::Char(c) => c == 'q',
        _ => false,
    };
    if quits {
        Some(MenuAction::Quit)
    } else {
        None
    }
}

fn modal_gesture(modal: &Modal, key: KeyEvent) -> (r: Option<Action>)
    ensures
        r == modal_key(*modal, key),
{
    match modal {
        Modal::Help => match key.code {
            KeyCode::Char(c) => {
                if c == '?' {
                    Some(Action::CloseModal)
                } else {
                    None
                }
            },
            KeyCode::Esc => Some(Action::CloseModal),
            _ => None,
        },
        Modal::Settings { .. } => match key.code {
            KeyCode::Up => Some(Action::CursorUp),
            KeyCode::Down => Some(Action::CursorDown),
            KeyCode::Left => Some(Action::AdjustLeft),
            KeyCode::Right => Some(Action::AdjustRight),
            KeyCode::Char(c) => {
                if c == 's' {
                    Some(Action::CloseModal)
                } else {
                    None
                }
            },
            KeyCode::Esc => Some(Action::CloseModal),
            _ => None,
        },
        Modal::Compress { .. } => match key.code {
            KeyCode::Left => Some(Action::AdjustLeft),
            KeyCode::Right => Some(Action::AdjustRight),
            KeyCode::Char(c) => {
                if c == 'a' {
                    Some(Action::AdjustMax)
                } else {
                    None
                }
            },
            KeyCode::Enter => Some(Action::Confirm),
            KeyCode::Esc => Some(Action::CloseModal),
            _ => None,
        },
        Modal::Dip { .. } => match key.code {
            KeyCode::Left => Some(Action::AdjustLeft),
            KeyCode::Right => Some(Action::AdjustRight),
            KeyCode::Enter => Some(Action::Confirm),
            KeyCode::Char(c) => {
                if c == 'n' {
                    Some(Action::CloseModal)
                } else {
                    None
                }
            },
            KeyCode::Esc => Some(Action::CloseModal),
            _ => None,
        },
        Modal::PrestigePreview => match key.code {
            KeyCode::Enter => Some(Action::Confirm),
            KeyCode::Char(c) => {
                if c == 'c' {
                    Some(Action::GoCompress)
                } else {
                    None
                }
            },
            KeyCode::Esc => Some(Action::CloseModal),
            _ => None,
        },
        Modal::PrestigeConfirm { .. } => match key.code {
            KeyCode::Char(typed) => Some(Action::TypeChar(typed)),
            KeyCode::Backspace => Some(Action::EraseChar),
            KeyCode::Enter => Some(Action::Confirm),
            KeyCode::Esc => Some(Action::CloseModal),
            _ => None,
        },
        Modal::Dev => match key.code {
            KeyCode::Up => Some(Action::CursorUp),
            KeyCode::Down => Some(Action::CursorDown),
            KeyCode::Left => Some(Action::AdjustLeft),
            KeyCode::Right => Some(Action::AdjustRight),
            KeyCode::Enter => Some(Action::Confirm),
            KeyCode::Char(c) => {
                if c == '`' {
                    Some(Action::CloseModal)
                } else {
                    None
                }
            },
            KeyCode::Esc => Some(Action::CloseModal),
            _ => None,
        },
    }
}

fn global(key: KeyEvent) -> (r: Option<Action>)
    ensures
        r == global_key(key),
{
    match key.code {
        KeyCode::Char(c) => {
            if c == 'q' {
                Some(Action::ToTitle)
            } else if c == '?' {
                Some(Action::OpenHelp)
            } else if c == 's' {
                Some(Action::OpenSettings)
            } else if '1' <= c && c <= '6' {
                Some(Action::SelectScreen((c as u32 - '1' as u32) as usize))
            } else {
                None
            }
        },
        KeyCode::Esc => Some(Action::ToMine),
        KeyCode::Tab => Some(Action::NextScreen),
        KeyCode::BackTab => Some(Action::PrevScreen),
        _ => None,
    }
}

/// Decodes the configured sub-tab binding, or `None` if this key is not it.
fn sub_tab(key: KeyEvent, binding: SubTabKeys) -> (r: Option<Action>)
    ensures
        r == sub_tab_key(key, binding),
{
    let shifted = key.modifiers.shift;
    match binding {
        SubTabKeys::ShiftArrows => match key.code {
            KeyCode::Left => {
                if shifted {
                    Some(Action::PrevSubTab)
                } else {
                    None
                }
            },
            KeyCode::Right => {
                if shifted {
                    Some(Action::NextSubTab)
                } else {
                    None
                }
            },
            _ => None,
        },
        SubTabKeys::HL => match key.code {
            KeyCode::Char(c) => {
                if c == 'h' {
                    Some(Action::PrevSubTab)
                } else if c == 'l' {
                    Some(Action::NextSubTab)
                } else {
                    None
                }
            },
            _ => None,
        },
        SubTabKeys::Brackets => match key.code {
            KeyCode::Char(c) => {
                if c == '[' {
                    Some(Action::PrevSubTab)
                } else if c == ']' {
                    Some(Action::NextSubTab)
                } else {
                    None
                }
            },
            _ => None,
        },
    }
}

/// Translates a key press into an [`Action`], or `None` if nothing is bound.
///
/// Resolution is *contextual*: the same key means different things depending on which
/// tab is up and whether a modal is stacked over it.
pub fn resolve(ctx: &KeyContext, key: KeyEvent) -> (r: Option<Action>)
    ensures
        r == resolved(*ctx, key),
{
    if key.kind == KeyEventKind::Release {
        let space = match key.code {
            KeyCode::Char(c) => c == ' ',
            _ => false,
        };
        return if space && ctx.screen == Screen::Mine {
            Some(Action::MineReleased)
        } else {
            None
        };
    }
    if ctrl_c(key) {
        return Some(Action::Quit);
    }
    match &ctx.modal {
        Some(modal) => {
            return modal_gesture(modal, key);
        },
        None => {},
    }
    if ctx.dev_menu {
        let backquote = match key.code {
            KeyCode::Char(c) => c == '`',
            _ => false,
        };
        if backquote {
            return Some(Action::OpenDevMenu);
        }
    }
    let ring = global(key);
    if ring.is_some() {
        return ring;
    }
    if ctx.screen == Screen::Upgrades {
        let lateral = sub_tab(key, ctx.sub_tab_keys);
        if lateral.is_some() {
            return lateral;
        }
    }
    ctx.screen.map_key(key)
}

/// The actions a modal can produce: its own gestures, never a global or a tab's.
pub open spec fn modal_gesture_action(action: Action) -> bool {
    match action {
        Action::CloseModal | Action::CursorUp | Action::CursorDown | Action::AdjustLeft
        | Action::AdjustRight | Action::AdjustMax | Action::Confirm | Action::GoCompress
        | Action::TypeChar(_) | Action::EraseChar => true,
        _ => false,
    }
}

/// **`Ctrl-C` outranks everything**, a stacked modal included, in all three resolvers:
/// it is never captured.
pub proof fn lemma_ctrl_c_always_quits(ctx: KeyContext, key: KeyEvent)
    requires
        is_ctrl_c(key),
        key.kind != KeyEventKind::Release,
    ensures
        resolved(ctx, key) == Some(Action::Quit),
        menu_key(key) == Some(MenuAction::Quit),
        too_small_key(key) == Some(MenuAction::Quit),
{
}

/// **A release means one thing at most**: `Space` let go on the Mine screen stops the
/// swing — a stacked modal does not swallow it — and every other release means nothing,
/// so no binding fires twice on a terminal that reports both edges.
pub proof fn lemma_a_release_only_stops_the_swing(ctx: KeyContext, key: KeyEvent)
    requires
        key.kind == KeyEventKind::Release,
    ensures
        resolved(ctx, key) == (if key.code == KeyCode::Char(' ') && ctx.screen == Screen::Mine {
            Some(Action::MineReleased)
        } else {
            None
        }),
        menu_key(key) is None,
        too_small_key(key) is None,
{
}

/// **A modal captures the keyboard**: while one is stacked, no key reaches a global,
/// the dev key or the screen behind it — everything it does not use is swallowed.
pub proof fn lemma_a_modal_captures_every_key(ctx: KeyContext, key: KeyEvent)
    requires
        ctx.modal is Some,
        key.kind != KeyEventKind::Release,
        !is_ctrl_c(key),
    ensures
        resolved(ctx, key) matches Some(action) ==> modal_gesture_action(action),
{
}

/// **The ring cannot be shadowed**: with nothing stacked, a global binding answers the
/// same on every tab whatever the tab binds, and the digit keys name the tabs that
/// exist.
pub proof fn lemma_the_globals_answer_on_every_tab(ctx: KeyContext, key: KeyEvent)
    requires
        ctx.modal is None,
        key.kind != KeyEventKind::Release,
        !is_ctrl_c(key),
        !(ctx.dev_menu && key.code == KeyCode::Char('`')),
        global_key(key) is Some,
    ensures
        resolved(ctx, key) == global_key(key),
        resolved(ctx, key) matches Some(Action::SelectScreen(i)) ==> crate::screen::screen_at(
            i as int,
        ) is Some,
{
}

/// **The sub-tab keys belong to the Upgrades screen**: nowhere else does any key switch
/// a sub-tab, so the two ordinary-character bindings are never swallowed elsewhere.
pub proof fn lemma_sub_tabs_only_switch_on_upgrades(ctx: KeyContext, key: KeyEvent)
    requires
        ctx.screen != Screen::Upgrades,
    ensures
        resolved(ctx, key) != Some(Action::NextSubTab),
        resolved(ctx, key) != Some(Action::PrevSubTab),
{
}

} // verus!
