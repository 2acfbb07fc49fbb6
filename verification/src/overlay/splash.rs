//! The title screen and its main menu.
//!
//! Its **chrome is fixed** while its **summary comes from the save**: `Continue` and
//! the two summary lines are absent on a fresh install. What arrives here is a menu, a
//! caret and at most one loaded save's headline — never a config, because config lives
//! inside a save that may be missing or refused.

use vstd::prelude::*;

use crate::format::{age, age_text, prestige_rank, prestige_rank_text};
use crate::text::{decimal, decimal_string, views};

verus! {

/// The block-letter wordmark: the whole word, five rows of one 55-column box, so the
/// widest row is the one that defines the wordmark's centre.
pub const LOGO: [&'static str; 5] = [
    "███████ ██   ██ ██   ██ ██      ███████ ██████  ███████",
    "██      ██  ██   ██ ██  ██      ██   ██ ██   ██ ██",
    "███████ █████     ███   ██      ██   ██ ██   ██ ██████",
    "     ██ ██  ██     ██   ██      ██   ██ ██   ██ ██",
    "███████ ██   ██    ██   ███████ ███████ ██████  ███████",
];

/// The build, as the title screen's corner prints it.
pub const VERSION: &'static str = "skylode 0.2.0";

/// A row of the main menu.
#[derive(Clone, Copy, Debug, PartialEq, Eq, Structural)]
pub enum SplashRow {
    /// Pick up the loaded save.
    Continue,
    /// Begin a fresh run.
    NewGame,
    /// The preferences.
    Settings,
    /// Leave.
    Quit,
}

/// A row of the *"start a new game?"* box.
#[derive(Clone, Copy, Debug, PartialEq, Eq, Structural)]
pub enum ConfirmRow {
    /// Back out, the save untouched.
    Keep,
    /// Go ahead and write over it.
    StartOver,
}

/// The confirmation's rows, top to bottom: keeping the save comes first, so a stray
/// `Enter` costs nothing.
pub const CONFIRM_ROWS: [ConfirmRow; 2] = [ConfirmRow::Keep, ConfirmRow::StartOver];

/// What the title screen knows of a loaded save: the figures its headline prints, and
/// how many seconds ago it was last played, where the file says.
#[derive(Clone, Debug, PartialEq, Eq)]
pub struct Resume {
    /// The mining level.
    pub level: u32,
    /// The pickaxe's name.
    pub pickaxe: String,
    /// The prestige rank.
    pub prestige: u32,
    /// Seconds since the run was last played.
    pub idle: Option<u64>,
}

/// The one line that names a run: `Lv 23 · Diamond Pickaxe · Prestige II`. The
/// prestige segment is absent at rank 0 — a headline does not announce what the player
/// has *not* done.
pub open spec fn headline_text(level: u32, pickaxe: Seq<char>, prestige: u32) -> Seq<char> {
    let base = "Lv "@ + decimal(level as nat) + " · "@ + pickaxe;
    if prestige > 0 {
        base + " · Prestige "@ + prestige_rank_text(prestige)
    } else {
        base
    }
}

/// What each row of the menu says.
pub open spec fn splash_label(row: SplashRow) -> Seq<char> {
    match row {
        SplashRow::Continue => "Continue"@,
        SplashRow::NewGame => "New game"@,
        SplashRow::Settings => "Settings"@,
        SplashRow::Quit => "Quit"@,
    }
}

/// The menu, top to bottom: `Continue` only over a save.
pub open spec fn menu_rows(has_save: bool) -> Seq<SplashRow> {
    let rest = seq![SplashRow::NewGame, SplashRow::Settings, SplashRow::Quit];
    if has_save {
        seq![SplashRow::Continue] + rest
    } else {
        rest
    }
}

/// One row of the menu, with the caret when `marked`.
pub open spec fn menu_line(row: SplashRow, marked: bool) -> Seq<char> {
    (if marked {
        "  ▸  "@
    } else {
        "     "@
    }) + splash_label(row)
}

/// The key hints on the bottom row: `Esc` only while there is something to decline.
pub open spec fn footer_text(confirming: bool) -> Seq<char> {
    if confirming {
        " ↑↓  select     Enter  confirm     Esc  keep the save"@
    } else {
        " ↑↓  select     Enter  confirm     q  quit"@
    }
}

/// What each row of the confirmation says.
pub open spec fn confirm_label(row: ConfirmRow) -> Seq<char> {
    match row {
        ConfirmRow::Keep => "No, keep this save"@,
        ConfirmRow::StartOver => "Yes, start over"@,
    }
}

/// One row of the confirmation, with the caret when `marked`.
pub open spec fn confirm_line(row: ConfirmRow, marked: bool) -> Seq<char> {
    (if marked {
        " ▸  "@
    } else {
        "    "@
    }) + confirm_label(row)
}

/// The body of the confirmation box: it names the run it would cost with the very
/// headline the menu was showing.
pub open spec fn confirmation_text(at_stake: Seq<char>, cursor: int) -> Seq<Seq<char>> {
    seq![
        Seq::<char>::empty(),
        " There is already a run here:"@,
        at_stake,
        Seq::<char>::empty(),
        " Starting over writes over it."@,
        Seq::<char>::empty(),
        confirm_line(ConfirmRow::Keep, cursor == 0),
        confirm_line(ConfirmRow::StartOver, cursor == 1),
        Seq::<char>::empty(),
    ]
}

/// The two lines under the menu: the headline and how long the run sat, or — where the
/// session cannot write at all — why there is no `Continue`; and on a fresh install
/// with a working disk, nothing.
pub open spec fn summary_text(resume: Option<(Seq<char>, Option<u64>)>, persists: bool) -> Seq<
    Seq<char>,
> {
    match resume {
        Some((headline, idle)) => match idle {
            Some(seconds) => seq![headline, "last played "@ + age_text(seconds) + " ago"@],
            None => seq![headline],
        },
        None => if persists {
            Seq::empty()
        } else {
            seq![
                "Skylode could not find a place to save."@,
                "Nothing from this session will be kept."@,
            ]
        },
    }
}

impl Resume {
    /// The run's headline.
    pub open spec fn headline_view(&self) -> Seq<char> {
        headline_text(self.level, self.pickaxe@, self.prestige)
    }

    /// The one line that names this run, as the menu's summary and the confirmation box
    /// both print it.
    pub fn headline(&self) -> (s: String)
        ensures
            s@ == self.headline_view(),
    {
        let mut line = "Lv ".to_owned();
        line.append(decimal_string(self.level as u64).as_str());
        line.append(" · ");
        line.append(self.pickaxe.as_str());
        if self.prestige > 0 {
            line.append(" · Prestige ");
            line.append(prestige_rank(self.prestige).as_str());
        }
        line
    }
}

/// What each row of the menu says.
pub fn label(row: SplashRow) -> (r: &'static str)
    ensures
        r@ == splash_label(row),
{
    match row {
        SplashRow::Continue => "Continue",
        SplashRow::NewGame => "New game",
        SplashRow::Settings => "Settings",
        SplashRow::Quit => "Quit",
    }
}

/// The menu's rows, top to bottom.
pub fn rows(has_save: bool) -> (r: Vec<SplashRow>)
    ensures
        r@ == menu_rows(has_save),
{
    let mut r: Vec<SplashRow> = Vec::new();
    if has_save {
        r.push(SplashRow::Continue);
    }
    r.push(SplashRow::NewGame);
    r.push(SplashRow::Settings);
    r.push(SplashRow::Quit);
    assert(r@ =~= menu_rows(has_save));
    r
}

/// The menu's lines, the caret on the `cursor`th row.
pub fn menu(has_save: bool, cursor: usize) -> (lines: Vec<String>)
    ensures
        lines@.len() == menu_rows(has_save).len(),
        forall|i: int|
            0 <= i < lines@.len() ==> #[trigger] lines@[i]@ == menu_line(menu_rows(has_save)[i], i == cursor),
{
    let entries = rows(has_save);
    let mut lines: Vec<String> = Vec::new();
    let mut i: usize = 0;
    while i < entries.len()
        invariant
            i <= entries@.len(),
            entries@ == menu_rows(has_save),
            lines@.len() == i,
            forall|j: int| 0 <= j < i ==> #[trigger] lines@[j]@ == menu_line(entries@[j], j == cursor),
        decreases entries@.len() - i,
    {
        let mut line = if i == cursor {
            "  ▸  ".to_owned()
        } else {
            "     ".to_owned()
        };
        line.append(label(entries[i]));
        lines.push(line);
        i = i + 1;
    }
    lines
}

/// The key hints on the bottom row.
pub fn footer(confirming: bool) -> (r: &'static str)
    ensures
        r@ == footer_text(confirming),
{
    if confirming {
        " ↑↓  select     Enter  confirm     Esc  keep the save"
    } else {
        " ↑↓  select     Enter  confirm     q  quit"
    }
}

/// The body of the *"start a new game?"* box over `resume`, the caret on the
/// `cursor`th row.
pub fn confirmation(resume: Option<&Resume>, cursor: usize) -> (lines: Vec<String>)
    ensures
        views(lines@) == confirmation_text(
            match resume {
                Some(r) => " "@ + r.headline_view(),
                None => Seq::<char>::empty(),
            },
            cursor as int,
        ),
{
    proof {
        reveal_strlit("");
    }
    let at_stake = match resume {
        Some(r) => {
            let mut line = " ".to_owned();
            line.append(r.headline().as_str());
            line
        },
        None => String::new(),
    };
    let mut lines: Vec<String> = Vec::new();
    lines.push(String::new());
    lines.push(" There is already a run here:".to_owned());
    lines.push(at_stake);
    lines.push(String::new());
    lines.push(" Starting over writes over it.".to_owned());
    lines.push(String::new());
    let mut keep = if cursor == 0 {
        " ▸  ".to_owned()
    } else {
        "    ".to_owned()
    };
    keep.append("No, keep this save");
    lines.push(keep);
    let mut over = if cursor == 1 {
        " ▸  ".to_owned()
    } else {
        "    ".to_owned()
    };
    over.append("Yes, start over");
    lines.push(over);
    lines.push(String::new());
    let ghost expected = confirmation_text(
        match resume {
            Some(r) => " "@ + r.headline_view(),
            None => Seq::<char>::empty(),
        },
        cursor as int,
    );
    assert(views(lines@) =~= expected);
    lines
}

/// The two lines under the menu for `resume`, or for a session whose disk `persists`
/// and that has nothing to continue.
pub fn summary(resume: Option<&Resume>, persists: bool) -> (lines: Vec<String>)
    ensures
        views(lines@) == summary_text(
            match resume {
                Some(r) => Some((r.headline_view(), r.idle)),
                None => None,
            },
            persists,
        ),
{
    let mut lines: Vec<String> = Vec::new();
    match resume {
        Some(r) => {
            lines.push(r.headline());
            match r.idle {
                Some(seconds) => {
                    let mut since = "last played ".to_owned();
                    since.append(age(seconds).as_str());
                    since.append(" ago");
                    lines.push(since);
                },
                None => {},
            }
        },
        None => {
            if !persists {
                lines.push("Skylode could not find a place to save.".to_owned());
                lines.push("Nothing from this session will be kept.".to_owned());
            }
        },
    }
    let ghost expected = summary_text(
        match resume {
            Some(r) => Some((r.headline_view(), r.idle)),
            None => None,
        },
        persists,
    );
    assert(views(lines@) =~= expected);
    lines
}

/// **One headline, two places, one rule**: the confirmation box quotes back the very
/// line the menu's summary shows, and the rank segment is there exactly when the run has
/// prestiged.
pub proof fn lemma_the_headline_names_a_rank_only_once_earned(level: u32, pickaxe: Seq<char>, prestige: u32)
    ensures
        prestige == 0 ==> headline_text(level, pickaxe, prestige) == "Lv "@ + decimal(level as nat)
            + " · "@ + pickaxe,
        prestige > 0 ==> headline_text(level, pickaxe, prestige) == "Lv "@ + decimal(level as nat)
            + " · "@ + pickaxe + " · Prestige "@ + prestige_rank_text(prestige),
        summary_text(Some((headline_text(level, pickaxe, prestige), None)), true)[0]
            == headline_text(level, pickaxe, prestige),
        confirmation_text(" "@ + headline_text(level, pickaxe, prestige), 0)[2] == " "@
            + headline_text(level, pickaxe, prestige),
{
}

/// **The menu offers `Continue` exactly over a save, and the caret opens on the first
/// row**: over a save that row is `Continue`, on a fresh install `New game`; and the
/// confirmation opens on keeping the save.
pub proof fn lemma_the_menu_opens_on_the_safe_row(has_save: bool)
    ensures
        menu_rows(has_save).contains(SplashRow::Continue) <==> has_save,
        menu_rows(has_save)[0] == (if has_save {
            SplashRow::Continue
        } else {
            SplashRow::NewGame
        }),
        menu_rows(has_save).last() == SplashRow::Quit,
        CONFIRM_ROWS@[0] == ConfirmRow::Keep,
{
    if !has_save {
        let rows = menu_rows(has_save);
        assert forall|i: int| 0 <= i < rows.len() implies rows[i] != SplashRow::Continue by {}
    } else {
        assert(menu_rows(has_save)[0] == SplashRow::Continue);
    }
}

} // verus!
