//! The dev menu — nine rows that reach the doors a debug session opens.
//!
//! Not part of the game's interface: nobody it was built for is a player. The two
//! ladders are **value ladders, not free numbers**: the menu adjusts with `←/→` like
//! every other list rather than growing a text field, and the amounts a dev actually
//! wants are powers of ten. Every row **stops at its ends**: the cursor, the ladders and
//! the counters all clamp, so a held key parks on the last rung instead of jumping back
//! to the first.

use std::time::Duration;
use vstd::prelude::*;

use crate::announce::{free_upgrades, free_upgrades_text};
use crate::config::{duration_from_secs, seconds};
use crate::format::{grouped, grouped_text, grouped_u64};
use crate::text::{decimal, decimal_string, push_spaces, repeated};

verus! {

/// The amounts the `Amount` row offers, in powers of ten.
pub const AMOUNTS: [u32; 7] = [1, 10, 100, 1_000, 10_000, 100_000, 1_000_000];

/// The absences the `Skip time` row offers, in seconds; it stops at seven days because
/// the offline accrual's cap does.
pub const SKIPS: [u64; 6] = [60, 600, 3_600, 21_600, 86_400, 604_800];

/// How each rung of [`SKIPS`] is written on its row.
pub const SKIP_LABELS: [&'static str; 6] = ["1 m", "10 m", "1 h", "6 h", "24 h", "7 d"];

/// The highest rank the prestige row dials to.
pub const MAX_PRESTIGE_DIAL: u32 = 20;

/// The highest number of charges the boost row grants at once.
pub const MAX_CHARGE_DIAL: u32 = 99;

/// The last level of the mining ladder, which the level row stops at.
pub const LEVEL_CAP: u32 = 50;

/// How many piles the inventory table holds, which the material row walks.
pub const MATERIAL_COUNT: usize = 15;

/// The column each row's value starts at, counted from the label.
pub const VALUE_COLUMN: usize = 18;

/// One line of the menu.
#[derive(Clone, Copy, Debug, PartialEq, Eq, Structural)]
pub enum DevRow {
    /// Whether the Upgrades screen charges for anything.
    FreeUpgrades,
    /// The figure the two give rows and the experience row spend.
    Amount,
    /// Which pile `Enter` credits.
    Material,
    /// Credit every pile at once.
    Everything,
    /// Credit experience, filing the levels it crosses.
    Experience,
    /// Where to put the mining level.
    Level,
    /// Where to put the prestige rank.
    Prestige,
    /// How many boost charges to add.
    Charges,
    /// How much absence the next resume should credit.
    SkipTime,
}

/// The rows, in the order they are drawn.
pub const ROWS: [DevRow; 9] = [
    DevRow::FreeUpgrades,
    DevRow::Amount,
    DevRow::Material,
    DevRow::Everything,
    DevRow::Experience,
    DevRow::Level,
    DevRow::Prestige,
    DevRow::Charges,
    DevRow::SkipTime,
];

/// A row's position in [`ROWS`].
pub open spec fn dev_row_index(row: DevRow) -> int {
    match row {
        DevRow::FreeUpgrades => 0,
        DevRow::Amount => 1,
        DevRow::Material => 2,
        DevRow::Everything => 3,
        DevRow::Experience => 4,
        DevRow::Level => 5,
        DevRow::Prestige => 6,
        DevRow::Charges => 7,
        DevRow::SkipTime => 8,
    }
}

/// The row's name, as drawn.
pub open spec fn dev_row_label(row: DevRow) -> Seq<char> {
    match row {
        DevRow::FreeUpgrades => "Free upgrades"@,
        DevRow::Amount => "Amount"@,
        DevRow::Material => "Give material"@,
        DevRow::Everything => "Give everything"@,
        DevRow::Experience => "Give experience"@,
        DevRow::Level => "Mining level"@,
        DevRow::Prestige => "Prestige rank"@,
        DevRow::Charges => "Boost charges"@,
        DevRow::SkipTime => "Skip time"@,
    }
}

/// Whether `←/→` has anything to move on a row: the two give-everything rows read the
/// `Amount` row rather than carrying a figure of their own.
pub open spec fn dev_row_adjustable(row: DevRow) -> bool {
    !(row == DevRow::Everything || row == DevRow::Experience)
}

impl DevRow {
    /// The row's name, as drawn.
    pub fn label(self) -> (r: &'static str)
        ensures
            r@ == dev_row_label(self),
    {
        match self {
            DevRow::FreeUpgrades => "Free upgrades",
            DevRow::Amount => "Amount",
            DevRow::Material => "Give material",
            DevRow::Everything => "Give everything",
            DevRow::Experience => "Give experience",
            DevRow::Level => "Mining level",
            DevRow::Prestige => "Prestige rank",
            DevRow::Charges => "Boost charges",
            DevRow::SkipTime => "Skip time",
        }
    }

    /// Whether `←/→` has anything to move on this row — an arrow that does nothing is
    /// worse than none, because it invites the press that proves it.
    pub fn adjustable(self) -> (r: bool)
        ensures
            r == dev_row_adjustable(self),
    {
        !matches!(self, DevRow::Everything | DevRow::Experience)
    }
}

/// `current + delta`, held inside `low..=high`.
pub open spec fn clamped(current: int, delta: int, low: int, high: int) -> int {
    let next = current + delta;
    if next < low {
        low
    } else if next > high {
        high
    } else {
        next
    }
}

/// Turns a plain counter by `delta`, clamped into `low..=high`: signed arithmetic and
/// then a clamp, so a counter at its floor never wraps to four billion.
pub fn dial(current: u32, delta: isize, low: u32, high: u32) -> (r: u32)
    requires
        low <= high,
    ensures
        r == clamped(current as int, delta as int, low as int, high as int),
        low <= r <= high,
{
    let next: i128 = current as i128 + delta as i128;
    if next < low as i128 {
        low
    } else if next > high as i128 {
        high
    } else {
        next as u32
    }
}

/// Moves an index by `delta` inside a list of `len` rows, stopping at either end.
fn clamp_index(current: usize, delta: isize, len: usize) -> (r: usize)
    requires
        len > 0,
    ensures
        r == clamped(current as int, delta as int, 0, len - 1),
{
    let next: i128 = current as i128 + delta as i128;
    if next < 0 {
        0
    } else if next > (len - 1) as i128 {
        len - 1
    } else {
        next as usize
    }
}

/// The menu's own state: which row, and the value each one is dialled to. The values
/// outlive a close — dialling a million and closing the box to look is the workflow.
#[derive(Clone, Debug, PartialEq, Eq)]
pub struct DevState {
    /// The row the `▸` is on.
    pub row: DevRow,
    /// Whether the Upgrades screen buys through the free doors.
    pub free_upgrades: bool,
    /// Which pile the material row credits, as its row in the inventory table.
    pub material: usize,
    /// Index into [`AMOUNTS`].
    amount: usize,
    /// The level the level row would set.
    pub level: u32,
    /// The rank the prestige row would set.
    pub prestige: u32,
    /// How many charges the boost row would add.
    pub charges: u32,
    /// Index into [`SKIPS`].
    skip: usize,
}

/// The figure the give rows spend, for a rung index of the amount ladder.
pub open spec fn amount_at(index: usize) -> u32 {
    if index < 7 {
        AMOUNTS@[index as int]
    } else {
        1
    }
}

/// The absence in seconds the skip row credits, for a rung index of its ladder.
pub open spec fn skip_at(index: usize) -> u64 {
    if index < 6 {
        SKIPS@[index as int]
    } else {
        0
    }
}

/// How a rung of the skip ladder is written.
pub open spec fn skip_label_at(index: usize) -> Seq<char> {
    if index < 6 {
        SKIP_LABELS@[index as int]@
    } else {
        Seq::empty()
    }
}

/// The state after turning the row under the cursor by `delta`: every arm clamps, the
/// two derived rows move nothing, and the toggle flips on either arrow.
pub closed spec fn dev_adjusted(s: DevState, delta: int) -> DevState {
    match s.row {
        DevRow::FreeUpgrades => DevState { free_upgrades: !s.free_upgrades, ..s },
        DevRow::Amount => DevState { amount: clamped(s.amount as int, delta, 0, 6) as usize, ..s },
        DevRow::Material => DevState {
            material: clamped(s.material as int, delta, 0, MATERIAL_COUNT - 1) as usize,
            ..s
        },
        DevRow::Level => DevState { level: clamped(s.level as int, delta, 1, LEVEL_CAP as int) as u32, ..s },
        DevRow::Prestige => DevState {
            prestige: clamped(s.prestige as int, delta, 0, MAX_PRESTIGE_DIAL as int) as u32,
            ..s
        },
        DevRow::Charges => DevState {
            charges: clamped(s.charges as int, delta, 1, MAX_CHARGE_DIAL as int) as u32,
            ..s
        },
        DevRow::SkipTime => DevState { skip: clamped(s.skip as int, delta, 0, 5) as usize, ..s },
        DevRow::Everything | DevRow::Experience => s,
    }
}

/// The state after moving the `▸` by `delta`, stopping at the first and last rows;
/// every dialled value stays as it was.
pub closed spec fn dev_stepped(s: DevState, delta: int) -> DevState {
    DevState { row: ROWS@[clamped(dev_row_index(s.row), delta, 0, 8)], ..s }
}

/// The toast that answers `Enter` on the row under the cursor, in the game's own
/// words. `material` names the pile the material row credits, `level_now` is the level
/// the run reads after the level row set it, and `skipped_blocks` is what resuming
/// over the skipped span mined, when it credited anything.
pub open spec fn dev_toast_text(
    s: DevState,
    material: Seq<char>,
    level_now: u32,
    skipped_blocks: Option<u64>,
) -> Seq<char> {
    let amount = grouped_text(amount_at(s.amount_index()) as nat);
    match s.cursor() {
        DevRow::FreeUpgrades => free_upgrades_text(s.free_upgrades_on()),
        DevRow::Amount => "Amount "@ + amount,
        DevRow::Material => "+"@ + amount + " "@ + material,
        DevRow::Everything => "+"@ + amount + " of all "@ + decimal(MATERIAL_COUNT as nat) + " piles"@,
        DevRow::Experience => "+"@ + amount + " xp"@,
        DevRow::Level => "Level "@ + decimal(level_now as nat),
        DevRow::Prestige => "Prestige rank "@ + decimal(s.prestige_dial() as nat),
        DevRow::Charges => "+"@ + decimal(s.charges_dial() as nat) + " boost charges"@,
        DevRow::SkipTime => match skipped_blocks {
            Some(blocks) => "Skipped "@ + skip_label_at(s.skip_index()) + " — "@ + grouped_text(
                blocks as nat,
            ) + " blocks mined"@,
            None => "Skipped nothing — the mark is already at the epoch"@,
        },
    }
}

/// What a row prints to the right of its label, before any arrows.
pub open spec fn bare_value(s: DevState, row: DevRow, material: Seq<char>) -> Seq<char> {
    let amount = grouped_text(amount_at(s.amount_index()) as nat);
    match row {
        DevRow::FreeUpgrades => if s.free_upgrades_on() {
            "on"@
        } else {
            "off"@
        },
        DevRow::Amount => amount,
        DevRow::Material => material,
        DevRow::Everything => amount + " of each"@,
        DevRow::Experience => amount + " xp"@,
        DevRow::Level => decimal(s.level_dial() as nat),
        DevRow::Prestige => decimal(s.prestige_dial() as nat),
        DevRow::Charges => decimal(s.charges_dial() as nat),
        DevRow::SkipTime => skip_label_at(s.skip_index()),
    }
}

/// What a row prints to the right of its label: a spinner `◄ … ►` exactly on the rows
/// the arrows move.
pub open spec fn dev_value(s: DevState, row: DevRow, material: Seq<char>) -> Seq<char> {
    if dev_row_adjustable(row) {
        "◄ "@ + bare_value(s, row, material) + " ►"@
    } else {
        bare_value(s, row, material)
    }
}

/// One row of the menu: the caret, the label padded to [`VALUE_COLUMN`], the value.
pub open spec fn dev_line(s: DevState, row: DevRow, material: Seq<char>) -> Seq<char> {
    let label = dev_row_label(row);
    let pad = if VALUE_COLUMN > label.len() {
        (VALUE_COLUMN - label.len()) as nat
    } else {
        0
    };
    " "@ + (if row == s.cursor() {
        "▸"@
    } else {
        " "@
    }) + " "@ + label + repeated(' ', pad) + dev_value(s, row, material)
}

/// How many columns the tab bar leaves for the dev marker after its six tabs.
pub const MARKER_COLUMNS: usize = 4;

/// The marker the tab bar carries while the dev menu is available: one word for both
/// states — the state is its colour — short enough to leave a blank before the last
/// tab's title.
pub const MARKER: &'static str = "DEV";

/// **The marker fits its gap**: it is at least one column shorter than the space the
/// tab bar leaves, so the blank that separates it from the last tab survives.
pub proof fn lemma_the_marker_fits_its_gap()
    ensures
        MARKER@.len() < MARKER_COLUMNS,
{
    reveal_strlit("DEV");
}

/// The key hint at the bottom of the menu.
pub const HINT: &'static str = " ↑↓ row   ←→ value   Enter apply   Esc close";

impl DevState {
    /// The amount ladder's rung index.
    pub closed spec fn amount_index(&self) -> usize {
        self.amount
    }

    /// The skip ladder's rung index.
    pub closed spec fn skip_index(&self) -> usize {
        self.skip
    }

    /// The state, fields and all.
    pub open spec fn state(&self) -> DevState {
        *self
    }

    /// The row the `▸` is on.
    pub closed spec fn cursor(&self) -> DevRow {
        self.row
    }

    /// Whether the Upgrades screen buys through the free doors.
    pub closed spec fn free_upgrades_on(&self) -> bool {
        self.free_upgrades
    }

    /// Which pile the material row credits.
    pub closed spec fn material_index(&self) -> usize {
        self.material
    }

    /// The level the level row would set.
    pub closed spec fn level_dial(&self) -> u32 {
        self.level
    }

    /// The rank the prestige row would set.
    pub closed spec fn prestige_dial(&self) -> u32 {
        self.prestige
    }

    /// How many charges the boost row would add.
    pub closed spec fn charges_dial(&self) -> u32 {
        self.charges
    }

    /// Whether the `▸` is on the free-upgrades toggle.
    pub fn on_free_upgrades(&self) -> (r: bool)
        ensures
            r == (self.cursor() == DevRow::FreeUpgrades),
    {
        self.row == DevRow::FreeUpgrades
    }

    /// Whether the Upgrades screen currently buys through the free doors.
    pub fn free_upgrades_enabled(&self) -> (r: bool)
        ensures
            r == self.free_upgrades_on(),
    {
        self.free_upgrades
    }

    /// The figure the give rows spend.
    pub fn amount(&self) -> (r: u32)
        ensures
            r == amount_at(self.amount_index()),
    {
        let ladder = AMOUNTS;
        if self.amount < 7 {
            ladder[self.amount]
        } else {
            1
        }
    }

    /// The absence the skip row would credit, in seconds.
    pub fn skip_seconds(&self) -> (r: u64)
        ensures
            r == skip_at(self.skip_index()),
    {
        let ladder = SKIPS;
        if self.skip < 6 {
            ladder[self.skip]
        } else {
            0
        }
    }

    /// The absence the skip row would credit.
    pub fn skip(&self) -> (d: Duration)
        ensures
            d == duration_from_secs(skip_at(self.skip_index())),
    {
        seconds(self.skip_seconds())
    }

    /// How that absence is written on the row — the ladder's own words, so the toast
    /// that reports a skip says what the row the player pressed said.
    pub fn skip_label(&self) -> (r: &'static str)
        ensures
            r@ == skip_label_at(self.skip_index()),
    {
        let labels = SKIP_LABELS;
        if self.skip < 6 {
            labels[self.skip]
        } else {
            proof {
                reveal_strlit("");
            }
            ""
        }
    }

    /// Moves the `▸` by `delta`, stopping at the ends.
    pub fn step_row(&mut self, delta: isize)
        ensures
            final(self).state() == dev_stepped(old(self).state(), delta as int),
            dev_row_index(final(self).cursor()) == clamped(
                dev_row_index(old(self).cursor()),
                delta as int,
                0,
                8,
            ),
    {
        proof {
            lemma_stepping_parks_at_the_ends(*self, delta as int);
        }
        let index: usize = match self.row {
            DevRow::FreeUpgrades => 0,
            DevRow::Amount => 1,
            DevRow::Material => 2,
            DevRow::Everything => 3,
            DevRow::Experience => 4,
            DevRow::Level => 5,
            DevRow::Prestige => 6,
            DevRow::Charges => 7,
            DevRow::SkipTime => 8,
        };
        let next = clamp_index(index, delta, 9);
        let rows = ROWS;
        self.row = rows[next];
    }

    /// Turns the value under the cursor by `delta`. Every arm clamps; the bounds are the
    /// ladders' own where one exists and this module's where the rules have none.
    pub fn adjust(&mut self, delta: isize)
        ensures
            final(self).state() == dev_adjusted(old(self).state(), delta as int),
    {
        match self.row {
            DevRow::FreeUpgrades => self.free_upgrades = !self.free_upgrades,
            DevRow::Amount => self.amount = clamp_index(self.amount, delta, 7),
            DevRow::Material => self.material = clamp_index(self.material, delta, MATERIAL_COUNT),
            DevRow::Level => self.level = dial(self.level, delta, 1, LEVEL_CAP),
            DevRow::Prestige => self.prestige = dial(self.prestige, delta, 0, MAX_PRESTIGE_DIAL),
            DevRow::Charges => self.charges = dial(self.charges, delta, 1, MAX_CHARGE_DIAL),
            DevRow::SkipTime => self.skip = clamp_index(self.skip, delta, 6),
            DevRow::Everything | DevRow::Experience => {},
        }
    }

    /// The toast that answers `Enter` on the row under the cursor; `material` names the
    /// pile the material row credits, `level_now` is the level the run reads once the
    /// level row has set it, and `skipped_blocks` is what resuming over the skipped
    /// span mined (`None` when it credited nothing).
    pub fn toast(&self, material: &str, level_now: u32, skipped_blocks: Option<u64>) -> (s: String)
        ensures
            s@ == dev_toast_text(self.state(), material@, level_now, skipped_blocks),
    {
        let amount = grouped(self.amount());
        let mut out: String;
        match self.row {
            DevRow::FreeUpgrades => {
                out = free_upgrades(self.free_upgrades);
            },
            DevRow::Amount => {
                out = "Amount ".to_owned();
                out.append(amount.as_str());
            },
            DevRow::Material => {
                out = "+".to_owned();
                out.append(amount.as_str());
                out.append(" ");
                out.append(material);
            },
            DevRow::Everything => {
                out = "+".to_owned();
                out.append(amount.as_str());
                out.append(" of all ");
                let piles = decimal_string(MATERIAL_COUNT as u64);
                out.append(piles.as_str());
                out.append(" piles");
            },
            DevRow::Experience => {
                out = "+".to_owned();
                out.append(amount.as_str());
                out.append(" xp");
            },
            DevRow::Level => {
                out = "Level ".to_owned();
                let level = decimal_string(level_now as u64);
                out.append(level.as_str());
            },
            DevRow::Prestige => {
                out = "Prestige rank ".to_owned();
                let rank = decimal_string(self.prestige as u64);
                out.append(rank.as_str());
            },
            DevRow::Charges => {
                out = "+".to_owned();
                let charges = decimal_string(self.charges as u64);
                out.append(charges.as_str());
                out.append(" boost charges");
            },
            DevRow::SkipTime => match skipped_blocks {
                Some(blocks) => {
                    out = "Skipped ".to_owned();
                    out.append(self.skip_label());
                    out.append(" — ");
                    let mined = grouped_u64(blocks);
                    out.append(mined.as_str());
                    out.append(" blocks mined");
                },
                None => {
                    out = "Skipped nothing — the mark is already at the epoch".to_owned();
                },
            },
        }
        out
    }

    /// What `row` prints to the right of its label; `material` is the name of the pile
    /// the material row points at.
    pub fn value(&self, row: DevRow, material: &str) -> (s: String)
        ensures
            s@ == dev_value(self.state(), row, material@),
    {
        let amount = grouped(self.amount());
        let value = match row {
            DevRow::FreeUpgrades => {
                if self.free_upgrades {
                    "on".to_owned()
                } else {
                    "off".to_owned()
                }
            },
            DevRow::Amount => amount,
            DevRow::Material => material.to_owned(),
            DevRow::Everything => {
                let mut v = amount;
                v.append(" of each");
                v
            },
            DevRow::Experience => {
                let mut v = amount;
                v.append(" xp");
                v
            },
            DevRow::Level => decimal_string(self.level as u64),
            DevRow::Prestige => decimal_string(self.prestige as u64),
            DevRow::Charges => decimal_string(self.charges as u64),
            DevRow::SkipTime => self.skip_label().to_owned(),
        };
        if row.adjustable() {
            let mut framed = "◄ ".to_owned();
            framed.append(value.as_str());
            framed.append(" ►");
            framed
        } else {
            value
        }
    }

    /// The menu's lines: a blank, the nine rows with the caret on the current one, a
    /// blank, and the key hint.
    pub fn lines(&self, material: &str) -> (lines: Vec<String>)
        ensures
            lines@.len() == 12,
            lines@[0]@ == Seq::<char>::empty(),
            forall|i: int| 1 <= i <= 9 ==> #[trigger] lines@[i]@ == dev_line(self.state(), ROWS@[i - 1], material@),
            lines@[10]@ == Seq::<char>::empty(),
            lines@[11]@ == HINT@,
    {
        proof {
            reveal_strlit("");
            reveal_strlit("▸");
            reveal_strlit(" ");
        }
        let rows = ROWS;
        let mut lines: Vec<String> = Vec::new();
        lines.push("".to_owned());
        let mut i: usize = 0;
        while i < 9
            invariant
                i <= 9,
                rows@ == ROWS@,
                lines@.len() == 1 + i,
                lines@[0]@ == Seq::<char>::empty(),
                forall|j: int| 1 <= j <= i ==> #[trigger] lines@[j]@ == dev_line(self.state(), ROWS@[j - 1], material@),
            decreases 9 - i,
        {
            let row = rows[i];
            let mut line = " ".to_owned();
            if row == self.row {
                line.append("▸");
            } else {
                line.append(" ");
            }
            line.append(" ");
            let label = row.label();
            line.append(label);
            push_spaces(&mut line, VALUE_COLUMN.saturating_sub(label.unicode_len()));
            let value = self.value(row, material);
            line.append(value.as_str());
            proof {
                reveal_strlit("▸");
                reveal_strlit(" ");
                assert(line@ =~= dev_line(self.state(), row, material@));
            }
            lines.push(line);
            i = i + 1;
        }
        lines.push("".to_owned());
        lines.push(HINT.to_owned());
        lines
    }
}

/// The menu as it first opens: nothing switched on, a thousand of the first pile, an
/// hour's skip.
pub closed spec fn fresh_dev_state() -> DevState {
    DevState {
        row: DevRow::FreeUpgrades,
        free_upgrades: false,
        material: 0,
        amount: 3,
        level: 1,
        prestige: 0,
        charges: 1,
        skip: 2,
    }
}

impl Default for DevState {
    /// **`free_upgrades` opens `false`**: a mode that changes what every purchase costs
    /// must not be something a session acquires by being started.
    fn default() -> (s: DevState)
        ensures
            s.state() == fresh_dev_state(),
            s.cursor() == DevRow::FreeUpgrades,
            !s.free_upgrades_on(),
            s.material_index() == 0,
            s.amount_index() == 3,
            amount_at(s.amount_index()) == 1_000,
            s.level_dial() == 1,
            s.prestige_dial() == 0,
            s.charges_dial() == 1,
            s.skip_index() == 2,
            skip_at(s.skip_index()) == 3_600,
    {
        DevState {
            row: DevRow::FreeUpgrades,
            free_upgrades: false,
            material: 0,
            amount: 3,
            level: 1,
            prestige: 0,
            charges: 1,
            skip: 2,
        }
    }
}

/// **Every dial stays inside its ladder**: whatever was pressed, the level never leaves
/// `1..=LEVEL_CAP`, the rank `0..=20`, the charges `1..=99`, the material row never
/// points past the last pile and the two ladders never past their last rung. Each row
/// moves its own dial and nothing else, the two derived rows move nothing, and the
/// toggle flips back on a second press.
pub proof fn lemma_the_dials_stay_inside_their_ladders(s: DevState, delta: int)
    ensures
        dev_adjusted(s, delta).cursor() == s.cursor(),
        s.amount_index() < 7 ==> dev_adjusted(s, delta).amount_index() < 7,
        s.skip_index() < 6 ==> dev_adjusted(s, delta).skip_index() < 6,
        s.cursor() == DevRow::Amount ==> dev_adjusted(s, delta).amount_index()
            == clamped(s.amount_index() as int, delta, 0, 6),
        s.cursor() == DevRow::SkipTime ==> dev_adjusted(s, delta).skip_index()
            == clamped(s.skip_index() as int, delta, 0, 5),
        s.cursor() == DevRow::Level ==> dev_adjusted(s, delta).level_dial()
            == clamped(s.level_dial() as int, delta, 1, LEVEL_CAP as int),
        s.cursor() == DevRow::Level ==> 1 <= dev_adjusted(s, delta).level_dial() <= LEVEL_CAP,
        s.cursor() == DevRow::Prestige ==> dev_adjusted(s, delta).prestige_dial()
            == clamped(s.prestige_dial() as int, delta, 0, MAX_PRESTIGE_DIAL as int),
        s.cursor() == DevRow::Prestige ==> dev_adjusted(s, delta).prestige_dial()
            <= MAX_PRESTIGE_DIAL,
        s.cursor() == DevRow::Charges ==> dev_adjusted(s, delta).charges_dial()
            == clamped(s.charges_dial() as int, delta, 1, MAX_CHARGE_DIAL as int),
        s.cursor() == DevRow::Charges ==> 1 <= dev_adjusted(s, delta).charges_dial()
            <= MAX_CHARGE_DIAL,
        s.cursor() == DevRow::Material ==> dev_adjusted(s, delta).material_index()
            == clamped(s.material_index() as int, delta, 0, MATERIAL_COUNT - 1),
        s.cursor() == DevRow::Material ==> dev_adjusted(s, delta).material_index()
            < MATERIAL_COUNT,
        s.cursor() == DevRow::FreeUpgrades ==> dev_adjusted(s, delta).free_upgrades_on()
            == !s.free_upgrades_on(),
        s.cursor() != DevRow::FreeUpgrades ==> dev_adjusted(s, delta).free_upgrades_on()
            == s.free_upgrades_on(),
        s.cursor() != DevRow::Level ==> dev_adjusted(s, delta).level_dial() == s.level_dial(),
        s.cursor() != DevRow::Prestige ==> dev_adjusted(s, delta).prestige_dial()
            == s.prestige_dial(),
        s.cursor() != DevRow::Charges ==> dev_adjusted(s, delta).charges_dial()
            == s.charges_dial(),
        s.cursor() != DevRow::Material ==> dev_adjusted(s, delta).material_index()
            == s.material_index(),
        s.cursor() != DevRow::Amount ==> dev_adjusted(s, delta).amount_index()
            == s.amount_index(),
        s.cursor() != DevRow::SkipTime ==> dev_adjusted(s, delta).skip_index()
            == s.skip_index(),
        !dev_row_adjustable(s.cursor()) ==> dev_adjusted(s, delta) == s,
        s.cursor() == DevRow::FreeUpgrades ==> dev_adjusted(dev_adjusted(s, delta), -delta) == s,
{
}

/// **The cursor stops at its ends and moves nothing else**: stepping lands on the row
/// `delta` away, held between the first and the last row, with every dial unchanged.
pub proof fn lemma_stepping_parks_at_the_ends(s: DevState, delta: int)
    ensures
        dev_row_index(dev_stepped(s, delta).cursor()) == clamped(dev_row_index(s.cursor()), delta, 0, 8),
        dev_stepped(s, delta).free_upgrades_on() == s.free_upgrades_on(),
        dev_stepped(s, delta).material_index() == s.material_index(),
        dev_stepped(s, delta).amount_index() == s.amount_index(),
        dev_stepped(s, delta).level_dial() == s.level_dial(),
        dev_stepped(s, delta).prestige_dial() == s.prestige_dial(),
        dev_stepped(s, delta).charges_dial() == s.charges_dial(),
        dev_stepped(s, delta).skip_index() == s.skip_index(),
{
    let i = clamped(dev_row_index(s.cursor()), delta, 0, 8);
    assert(0 <= i <= 8);
    assert(dev_row_index(ROWS@[i]) == i);
}

} // verus!
