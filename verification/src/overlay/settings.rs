//! The Settings screen.
//!
//! **Every config field, and no game-state field.** The rows are a closed enum walked
//! through [`ROWS`], in [`Config`]'s own field order, so *"is every preference on this
//! screen"* is answered by reading two lists side by side. A row carries no data: the
//! values are [`Config`]'s, and a payload here would be a second copy of a preference
//! that could disagree with the one the game is reading.

use vstd::prelude::*;
use vstd::laws_eq::obeys_concrete_eq;
use vstd::std_specs::cmp::PartialEqSpecImpl;

use crate::capability::{Capabilities, colour_report_text};
use crate::config::{
    ColourMode, Config, MiningInput, NumberFormat, SubTabKeys, ToastDuration,
    colour_mode_label, default_config, toast_seconds, lemma_preferences_compare_as_themselves, mining_input_label, number_format_label,
    sub_tab_keys_label, toast_label,
};
use crate::cursor::{
    lemma_step_back_from, lemma_step_forward_from, lemma_step_in_round_trip,
    lemma_stepped_times_returns, step_in, stepped_in, stepped_times,
};
use crate::text::{owned_lines, push_spaces, repeated};

verus! {

/// Where the value column starts, counted from the wireframe: a two-column mark, then
/// the label, then the value.
pub const VALUE_COLUMN: usize = 19;

/// The sentence the whole screen exists to make true, printed under every row.
pub const FOOTNOTE: [&'static str; 4] = [
    " Stored in the save. There is no config",
    " file; Settings is the only way to",
    " change these — which is what keeps the",
    " HMAC quiet when you change a colour.",
];

/// The key hints on the screen's bottom row.
pub const FOOTER: &'static str = " ↑↓  select     ← →  change     r  default     Esc  back";

/// One line of the Settings screen.
#[derive(Clone, Copy, Debug, Eq)]
pub enum SettingsRow {
    /// How many colours to ask the terminal for.
    Colour,
    /// Whether the mine key is held or toggled.
    MiningInput,
    /// How a figure's thousands are punctuated.
    NumberFormat,
    /// How long an announcement stays up.
    ToastDuration,
    /// The Upgrades sub-tab switch binding.
    SubTabKeys,
}

impl PartialEq for SettingsRow {
    fn eq(&self, other: &SettingsRow) -> (r: bool) {
        match (self, other) {
            (SettingsRow::Colour, SettingsRow::Colour) => true,
            (SettingsRow::MiningInput, SettingsRow::MiningInput) => true,
            (SettingsRow::NumberFormat, SettingsRow::NumberFormat) => true,
            (SettingsRow::ToastDuration, SettingsRow::ToastDuration) => true,
            (SettingsRow::SubTabKeys, SettingsRow::SubTabKeys) => true,
            _ => false,
        }
    }
}

impl PartialEqSpecImpl for SettingsRow {
    open spec fn obeys_eq_spec() -> bool {
        true
    }

    open spec fn eq_spec(&self, other: &SettingsRow) -> bool {
        *self == *other
    }
}

/// The rows, in the order they are drawn — which is [`Config`]'s field order.
pub const ROWS: [SettingsRow; 5] = [
    SettingsRow::Colour,
    SettingsRow::MiningInput,
    SettingsRow::NumberFormat,
    SettingsRow::ToastDuration,
    SettingsRow::SubTabKeys,
];

/// The rows as a sequence.
pub open spec fn rows() -> Seq<SettingsRow> {
    seq![
        SettingsRow::Colour,
        SettingsRow::MiningInput,
        SettingsRow::NumberFormat,
        SettingsRow::ToastDuration,
        SettingsRow::SubTabKeys,
    ]
}

/// The palette ladder the `Colour` row walks.
pub open spec fn colour_ladder() -> Seq<ColourMode> {
    seq![ColourMode::Ansi256, ColourMode::Ansi16]
}

/// The ladder the `Mining input` row walks.
pub open spec fn mining_ladder() -> Seq<MiningInput> {
    seq![MiningInput::Hold, MiningInput::PressToStart]
}

/// The ladder the `Number format` row walks.
pub open spec fn number_ladder() -> Seq<NumberFormat> {
    seq![NumberFormat::Spaced, NumberFormat::Comma, NumberFormat::Plain]
}

/// The ladder the `Toast duration` row walks.
pub open spec fn toast_ladder() -> Seq<ToastDuration> {
    seq![ToastDuration::Brief, ToastDuration::Normal, ToastDuration::Long, ToastDuration::Lingering]
}

/// The ladder the `Sub-tab keys` row walks.
pub open spec fn sub_tab_ladder() -> Seq<SubTabKeys> {
    seq![SubTabKeys::ShiftArrows, SubTabKeys::HL, SubTabKeys::Brackets]
}

/// The row's name, as drawn in the left column.
pub open spec fn row_label(row: SettingsRow) -> Seq<char> {
    match row {
        SettingsRow::Colour => "Colour"@,
        SettingsRow::MiningInput => "Mining input"@,
        SettingsRow::NumberFormat => "Number format"@,
        SettingsRow::ToastDuration => "Toast duration"@,
        SettingsRow::SubTabKeys => "Sub-tab keys"@,
    }
}

/// What `config` holds for `row`, in that preference's own words.
pub open spec fn row_value(row: SettingsRow, config: Config) -> Seq<char> {
    match row {
        SettingsRow::Colour => colour_mode_label(config.colour),
        SettingsRow::MiningInput => mining_input_label(config.mining_input),
        SettingsRow::NumberFormat => number_format_label(config.number_format),
        SettingsRow::ToastDuration => toast_label(config.toast_duration),
        SettingsRow::SubTabKeys => sub_tab_keys_label(config.sub_tab_keys),
    }
}

/// `config` with `row`'s preference turned by `delta` along its ladder, wrapping, and
/// every other preference as it was.
pub open spec fn adjusted(row: SettingsRow, config: Config, delta: int) -> Config {
    match row {
        SettingsRow::Colour => Config {
            colour: stepped_in(colour_ladder(), config.colour, delta),
            ..config
        },
        SettingsRow::MiningInput => Config {
            mining_input: stepped_in(mining_ladder(), config.mining_input, delta),
            ..config
        },
        SettingsRow::NumberFormat => Config {
            number_format: stepped_in(number_ladder(), config.number_format, delta),
            ..config
        },
        SettingsRow::ToastDuration => Config {
            toast_duration: stepped_in(toast_ladder(), config.toast_duration, delta),
            ..config
        },
        SettingsRow::SubTabKeys => Config {
            sub_tab_keys: stepped_in(sub_tab_ladder(), config.sub_tab_keys, delta),
            ..config
        },
    }
}

/// `config` with `row`'s preference put back to what a fresh install shows, and every
/// other preference as it was.
pub open spec fn restored(row: SettingsRow, config: Config) -> Config {
    let fresh = default_config();
    match row {
        SettingsRow::Colour => Config { colour: fresh.colour, ..config },
        SettingsRow::MiningInput => Config { mining_input: fresh.mining_input, ..config },
        SettingsRow::NumberFormat => Config { number_format: fresh.number_format, ..config },
        SettingsRow::ToastDuration => Config { toast_duration: fresh.toast_duration, ..config },
        SettingsRow::SubTabKeys => Config { sub_tab_keys: fresh.sub_tab_keys, ..config },
    }
}

/// What the pane on the right says about `row`: every choice spelled out, not just the
/// one in force.
pub open spec fn detail_text(row: SettingsRow, caps: Capabilities) -> Seq<Seq<char>> {
    match row {
        SettingsRow::Colour => seq![
            " 256   every block gets its own swatch"@,
            " 16    one colour per mine; the value"@,
            "       cell's stipple is what still"@,
            "       tells it from the common one"@,
            Seq::<char>::empty(),
            " Your terminal reports: "@ + colour_report_text(caps.colours()),
        ],
        SettingsRow::MiningInput => seq![
            " Hold            mine while the key is"@,
            "                 held down"@,
            " Press to start  one press starts, the"@,
            "                 next stops"@,
            Seq::<char>::empty(),
            " Mining only happens on the Mine screen"@,
            " in both modes: leaving pauses it and"@,
            " coming back resumes it."@,
            Seq::<char>::empty(),
            " On a terminal that cannot report a key"@,
            " release, allow about a second between"@,
            " two presses."@,
        ],
        SettingsRow::NumberFormat => seq![
            " How a figure's thousands are split."@,
            Seq::<char>::empty(),
            " Numbers are always exact — never"@,
            " 1.23M — so that a price and a pile"@,
            " can be compared in your head."@,
        ],
        SettingsRow::ToastDuration => seq![
            " How long an announcement stays in the"@,
            " corner before it fades."@,
            Seq::<char>::empty(),
            " Nothing is lost either way: the Stats"@,
            " screen keeps the whole history for as"@,
            " long as the session lasts."@,
        ],
        SettingsRow::SubTabKeys => seq![
            " Which key pair switches between the"@,
            " Upgrades sub-tabs."@,
            Seq::<char>::empty(),
            " ← and → are taken everywhere: they"@,
            " adjust whatever the cursor is on —"@,
            " this row included."@,
            Seq::<char>::empty(),
            " Help shows whichever pair you pick."@,
        ],
    }
}

/// The line a row is drawn as: ` ▸ Colour             256`, the caret only on the
/// selected row and the value starting at [`VALUE_COLUMN`].
pub open spec fn field_text(entry: SettingsRow, selected: SettingsRow, config: Config) -> Seq<char> {
    let mark = if entry == selected {
        "▸"@
    } else {
        " "@
    };
    let label = row_label(entry);
    let pad = if VALUE_COLUMN > label.len() {
        (VALUE_COLUMN - label.len()) as nat
    } else {
        0
    };
    " "@ + mark + " "@ + label + repeated(' ', pad) + row_value(entry, config)
}

impl SettingsRow {
    /// The row's name, as drawn in the left column.
    pub fn label(self) -> (r: &'static str)
        ensures
            r@ == row_label(self),
    {
        match self {
            SettingsRow::Colour => "Colour",
            SettingsRow::MiningInput => "Mining input",
            SettingsRow::NumberFormat => "Number format",
            SettingsRow::ToastDuration => "Toast duration",
            SettingsRow::SubTabKeys => "Sub-tab keys",
        }
    }

    /// What `config` currently holds for this row, through the preference's own
    /// `label`, so the value column and the pane cannot word one choice two ways.
    pub fn value(self, config: &Config) -> (r: &'static str)
        ensures
            r@ == row_value(self, *config),
    {
        match self {
            SettingsRow::Colour => config.colour.label(),
            SettingsRow::MiningInput => config.mining_input.label(),
            SettingsRow::NumberFormat => config.number_format.label(),
            SettingsRow::ToastDuration => config.toast_duration.label(),
            SettingsRow::SubTabKeys => config.sub_tab_keys.label(),
        }
    }

    /// Turns the value under the cursor by `delta`, **wrapping** at either end: each
    /// preference is a closed set, so the ladder a `→` walks is the enum's own
    /// variants, and a two-variant row flips on either direction.
    pub fn adjust(self, config: &mut Config, delta: isize)
        ensures
            *final(config) == adjusted(self, *old(config), delta as int),
    {
        proof {
            lemma_preferences_compare_as_themselves();
        }
        match self {
            SettingsRow::Colour => {
                let ladder = [ColourMode::Ansi256, ColourMode::Ansi16];
                assert(ladder@ =~= colour_ladder());
                config.colour = step_in(&ladder, config.colour, delta);
            },
            SettingsRow::MiningInput => {
                let ladder = [MiningInput::Hold, MiningInput::PressToStart];
                assert(ladder@ =~= mining_ladder());
                config.mining_input = step_in(&ladder, config.mining_input, delta);
            },
            SettingsRow::NumberFormat => {
                let ladder = [NumberFormat::Spaced, NumberFormat::Comma, NumberFormat::Plain];
                assert(ladder@ =~= number_ladder());
                config.number_format = step_in(&ladder, config.number_format, delta);
            },
            SettingsRow::ToastDuration => {
                let ladder = [
                    ToastDuration::Brief,
                    ToastDuration::Normal,
                    ToastDuration::Long,
                    ToastDuration::Lingering,
                ];
                assert(ladder@ =~= toast_ladder());
                config.toast_duration = step_in(&ladder, config.toast_duration, delta);
            },
            SettingsRow::SubTabKeys => {
                let ladder = [SubTabKeys::ShiftArrows, SubTabKeys::HL, SubTabKeys::Brackets];
                assert(ladder@ =~= sub_tab_ladder());
                config.sub_tab_keys = step_in(&ladder, config.sub_tab_keys, delta);
            },
        }
    }

    /// Puts **this row alone** back to what a fresh install would have shown (`r`),
    /// reading the default out of [`Config::default`] rather than writing it down again.
    pub fn reset(self, config: &mut Config)
        ensures
            *final(config) == restored(self, *old(config)),
    {
        let fresh = Config::default();
        match self {
            SettingsRow::Colour => config.colour = fresh.colour,
            SettingsRow::MiningInput => config.mining_input = fresh.mining_input,
            SettingsRow::NumberFormat => config.number_format = fresh.number_format,
            SettingsRow::ToastDuration => config.toast_duration = fresh.toast_duration,
            SettingsRow::SubTabKeys => config.sub_tab_keys = fresh.sub_tab_keys,
        }
    }

    /// The next row down by `delta`, wrapping — the tab ring's rule, on a five-row list.
    pub fn step(self, delta: isize) -> (r: SettingsRow)
        ensures
            r == stepped_in(rows(), self, delta as int),
    {
        proof {
            reveal(obeys_concrete_eq);
        }
        let list = ROWS;
        assert(list@ =~= rows());
        step_in(&list, self, delta)
    }

    /// What the pane on the right says about this row.
    pub fn detail(self, caps: Capabilities) -> (lines: Vec<String>)
        ensures
            lines@.len() == detail_text(self, caps).len(),
            forall|i: int| 0 <= i < lines@.len() ==> #[trigger] lines@[i]@ == detail_text(self, caps)[i],
    {
        proof {
            reveal_strlit("");
        }
        match self {
            SettingsRow::Colour => {
                let text = [
                    " 256   every block gets its own swatch",
                    " 16    one colour per mine; the value",
                    "       cell's stipple is what still",
                    "       tells it from the common one",
                    "",
                ];
                let mut lines = owned_lines(&text);
                let mut report = " Your terminal reports: ".to_owned();
                let tail = caps.colour_report();
                report.append(tail.as_str());
                lines.push(report);
                proof {
                    assert(lines@.len() == 6);
                    assert forall|i: int| 0 <= i < 6 implies #[trigger] lines@[i]@ == detail_text(self, caps)[i] by {
                        if i < 5 {
                            assert(lines@[i]@ == text@[i]@);
                        }
                    }
                }
                lines
            },
            SettingsRow::MiningInput => {
                let text = [
                    " Hold            mine while the key is",
                    "                 held down",
                    " Press to start  one press starts, the",
                    "                 next stops",
                    "",
                    " Mining only happens on the Mine screen",
                    " in both modes: leaving pauses it and",
                    " coming back resumes it.",
                    "",
                    " On a terminal that cannot report a key",
                    " release, allow about a second between",
                    " two presses.",
                ];
                let lines = owned_lines(&text);
                proof {
                    assert forall|i: int| 0 <= i < 12 implies #[trigger] lines@[i]@ == detail_text(self, caps)[i] by {
                        assert(lines@[i]@ == text@[i]@);
                    }
                }
                lines
            },
            SettingsRow::NumberFormat => {
                let text = [
                    " How a figure's thousands are split.",
                    "",
                    " Numbers are always exact — never",
                    " 1.23M — so that a price and a pile",
                    " can be compared in your head.",
                ];
                let lines = owned_lines(&text);
                proof {
                    assert forall|i: int| 0 <= i < 5 implies #[trigger] lines@[i]@ == detail_text(self, caps)[i] by {
                        assert(lines@[i]@ == text@[i]@);
                    }
                }
                lines
            },
            SettingsRow::ToastDuration => {
                let text = [
                    " How long an announcement stays in the",
                    " corner before it fades.",
                    "",
                    " Nothing is lost either way: the Stats",
                    " screen keeps the whole history for as",
                    " long as the session lasts.",
                ];
                let lines = owned_lines(&text);
                proof {
                    assert forall|i: int| 0 <= i < 6 implies #[trigger] lines@[i]@ == detail_text(self, caps)[i] by {
                        assert(lines@[i]@ == text@[i]@);
                    }
                }
                lines
            },
            SettingsRow::SubTabKeys => {
                let text = [
                    " Which key pair switches between the",
                    " Upgrades sub-tabs.",
                    "",
                    " ← and → are taken everywhere: they",
                    " adjust whatever the cursor is on —",
                    " this row included.",
                    "",
                    " Help shows whichever pair you pick.",
                ];
                let lines = owned_lines(&text);
                proof {
                    assert forall|i: int| 0 <= i < 8 implies #[trigger] lines@[i]@ == detail_text(self, caps)[i] by {
                        assert(lines@[i]@ == text@[i]@);
                    }
                }
                lines
            },
        }
    }
}

/// The left column's lines: every row, in [`ROWS`] order, the caret on `selected`.
pub fn fields(config: &Config, selected: SettingsRow) -> (lines: Vec<String>)
    ensures
        lines@.len() == rows().len(),
        forall|i: int|
            0 <= i < lines@.len() ==> #[trigger] lines@[i]@ == field_text(rows()[i], selected, *config),
{
    proof {
        reveal_strlit("▸");
        reveal_strlit(" ");
    }
    let list = ROWS;
    assert(list@ =~= rows());
    let mut lines: Vec<String> = Vec::new();
    let mut i: usize = 0;
    while i < 5
        invariant
            i <= 5,
            list@ == rows(),
            lines@.len() == i,
            forall|j: int| 0 <= j < i ==> #[trigger] lines@[j]@ == field_text(rows()[j], selected, *config),
        decreases 5 - i,
    {
        let entry = list[i];
        let mut line = " ".to_owned();
        if entry == selected {
            line.append("▸");
        } else {
            line.append(" ");
        }
        line.append(" ");
        let label = entry.label();
        line.append(label);
        let pad = VALUE_COLUMN.saturating_sub(label.unicode_len());
        push_spaces(&mut line, pad);
        line.append(entry.value(config));
        proof {
            reveal_strlit("▸");
            reveal_strlit(" ");
            assert(line@ =~= field_text(entry, selected, *config));
        }
        lines.push(line);
        i = i + 1;
    }
    lines
}

/// Every preference's ladder holds each of its values exactly once.
proof fn lemma_ladders_hold_every_value_once(config: Config)
    ensures
        colour_ladder().no_duplicates() && colour_ladder().contains(config.colour),
        mining_ladder().no_duplicates() && mining_ladder().contains(config.mining_input),
        number_ladder().no_duplicates() && number_ladder().contains(config.number_format),
        toast_ladder().no_duplicates() && toast_ladder().contains(config.toast_duration),
        sub_tab_ladder().no_duplicates() && sub_tab_ladder().contains(config.sub_tab_keys),
{
    let c = colour_ladder();
    assert(c[0] == ColourMode::Ansi256 && c[1] == ColourMode::Ansi16);
    let m = mining_ladder();
    assert(m[0] == MiningInput::Hold && m[1] == MiningInput::PressToStart);
    let n = number_ladder();
    assert(n[0] == NumberFormat::Spaced && n[1] == NumberFormat::Comma && n[2] == NumberFormat::Plain);
    let t = toast_ladder();
    assert(t[0] == ToastDuration::Brief && t[1] == ToastDuration::Normal && t[2] == ToastDuration::Long
        && t[3] == ToastDuration::Lingering);
    let k = sub_tab_ladder();
    assert(k[0] == SubTabKeys::ShiftArrows && k[1] == SubTabKeys::HL && k[2] == SubTabKeys::Brackets);
}

/// **Every row wraps in both directions**: turning a row by `delta` and then back by
/// the same amount restores the config exactly, whichever row it was — for every
/// `delta` whose sums stay clear of the `isize` bounds the step saturates at.
pub proof fn lemma_adjusting_back_restores_the_config(row: SettingsRow, config: Config, delta: int)
    requires
        isize::MIN + ladder_len(row) <= delta <= isize::MAX - ladder_len(row),
    ensures
        adjusted(row, adjusted(row, config, delta), -delta) == config,
{
    lemma_ladders_hold_every_value_once(config);
    match row {
        SettingsRow::Colour => lemma_step_in_round_trip(colour_ladder(), config.colour, delta),
        SettingsRow::MiningInput => lemma_step_in_round_trip(mining_ladder(), config.mining_input, delta),
        SettingsRow::NumberFormat => lemma_step_in_round_trip(number_ladder(), config.number_format, delta),
        SettingsRow::ToastDuration => lemma_step_in_round_trip(toast_ladder(), config.toast_duration, delta),
        SettingsRow::SubTabKeys => lemma_step_in_round_trip(sub_tab_ladder(), config.sub_tab_keys, delta),
    }
}

/// A row's reset touches that row alone, restores it to the fresh install's value, and
/// pressing it a second time is not a second act.
pub proof fn lemma_reset_is_one_row_and_idempotent(row: SettingsRow, config: Config, other: SettingsRow)
    requires
        other != row,
    ensures
        row_value(row, restored(row, config)) == row_value(row, default_config()),
        row_value(other, restored(row, config)) == row_value(other, config),
        restored(row, restored(row, config)) == restored(row, config),
{
}

/// Turning a row changes what that row reads and leaves every other row reading what
/// it read before.
pub proof fn lemma_adjusting_touches_one_row(row: SettingsRow, config: Config, delta: int, other: SettingsRow)
    requires
        other != row,
    ensures
        row_value(other, adjusted(row, config, delta)) == row_value(other, config),
{
}


/// How many values `row`'s ladder holds.
pub open spec fn ladder_len(row: SettingsRow) -> nat {
    match row {
        SettingsRow::Colour => colour_ladder().len(),
        SettingsRow::MiningInput => mining_ladder().len(),
        SettingsRow::NumberFormat => number_ladder().len(),
        SettingsRow::ToastDuration => toast_ladder().len(),
        SettingsRow::SubTabKeys => sub_tab_ladder().len(),
    }
}

/// `config` after `n` presses of → on `row`.
pub open spec fn adjusted_times(row: SettingsRow, config: Config, n: nat) -> Config
    decreases n,
{
    if n == 0 {
        config
    } else {
        adjusted(row, adjusted_times(row, config, (n - 1) as nat), 1)
    }
}

/// `n` presses of → on a row walk that row's ladder `n` steps and leave every other
/// preference where it was.
proof fn lemma_adjusted_times_walks_the_ladder(row: SettingsRow, config: Config, n: nat)
    ensures
        adjusted_times(row, config, n) == (match row {
            SettingsRow::Colour => Config {
                colour: stepped_times(colour_ladder(), config.colour, n),
                ..config
            },
            SettingsRow::MiningInput => Config {
                mining_input: stepped_times(mining_ladder(), config.mining_input, n),
                ..config
            },
            SettingsRow::NumberFormat => Config {
                number_format: stepped_times(number_ladder(), config.number_format, n),
                ..config
            },
            SettingsRow::ToastDuration => Config {
                toast_duration: stepped_times(toast_ladder(), config.toast_duration, n),
                ..config
            },
            SettingsRow::SubTabKeys => Config {
                sub_tab_keys: stepped_times(sub_tab_ladder(), config.sub_tab_keys, n),
                ..config
            },
        }),
    decreases n,
{
    if n > 0 {
        lemma_adjusted_times_walks_the_ladder(row, config, (n - 1) as nat);
    }
}

/// **Ladders wrap, never clamp**: `n` presses of → on a row bring the config back to
/// exactly where it started when, and only when, `n` is a whole number of laps of
/// that row's ladder — two for the colour and mining rows, three for the number
/// format and sub-tab keys, four for the toast duration.
pub proof fn lemma_pressing_right_cycles(row: SettingsRow, config: Config, n: nat)
    ensures
        (adjusted_times(row, config, n) == config) <==> (n % ladder_len(row) == 0),
{
    lemma_ladders_hold_every_value_once(config);
    lemma_adjusted_times_walks_the_ladder(row, config, n);
    match row {
        SettingsRow::Colour => lemma_stepped_times_returns(colour_ladder(), config.colour, n),
        SettingsRow::MiningInput => lemma_stepped_times_returns(mining_ladder(), config.mining_input, n),
        SettingsRow::NumberFormat => lemma_stepped_times_returns(number_ladder(), config.number_format, n),
        SettingsRow::ToastDuration => lemma_stepped_times_returns(toast_ladder(), config.toast_duration, n),
        SettingsRow::SubTabKeys => lemma_stepped_times_returns(sub_tab_ladder(), config.sub_tab_keys, n),
    }
}


/// Where one press each way lands on the colour ladder.
proof fn lemma_colour_presses()
    ensures
        stepped_in(colour_ladder(), ColourMode::Ansi256, 1) == ColourMode::Ansi16,
        stepped_in(colour_ladder(), ColourMode::Ansi256, -1) == ColourMode::Ansi16,
        stepped_in(colour_ladder(), ColourMode::Ansi16, 1) == ColourMode::Ansi256,
        stepped_in(colour_ladder(), ColourMode::Ansi16, -1) == ColourMode::Ansi256,
{
    lemma_ladders_hold_every_value_once(default_config());
    let l = colour_ladder();
    assert(l[0] == ColourMode::Ansi256 && l[1] == ColourMode::Ansi16);
    lemma_step_forward_from(l, 0);
    lemma_step_back_from(l, 0);
    lemma_step_forward_from(l, 1);
    lemma_step_back_from(l, 1);
}

/// Where one press each way lands on the mining-input ladder.
proof fn lemma_mining_presses()
    ensures
        stepped_in(mining_ladder(), MiningInput::Hold, 1) == MiningInput::PressToStart,
        stepped_in(mining_ladder(), MiningInput::Hold, -1) == MiningInput::PressToStart,
        stepped_in(mining_ladder(), MiningInput::PressToStart, 1) == MiningInput::Hold,
        stepped_in(mining_ladder(), MiningInput::PressToStart, -1) == MiningInput::Hold,
{
    lemma_ladders_hold_every_value_once(default_config());
    let l = mining_ladder();
    assert(l[0] == MiningInput::Hold && l[1] == MiningInput::PressToStart);
    lemma_step_forward_from(l, 0);
    lemma_step_back_from(l, 0);
    lemma_step_forward_from(l, 1);
    lemma_step_back_from(l, 1);
}

/// Where one press each way lands on the number-format ladder.
proof fn lemma_number_presses()
    ensures
        stepped_in(number_ladder(), NumberFormat::Spaced, 1) == NumberFormat::Comma,
        stepped_in(number_ladder(), NumberFormat::Spaced, -1) == NumberFormat::Plain,
        stepped_in(number_ladder(), NumberFormat::Comma, 1) == NumberFormat::Plain,
        stepped_in(number_ladder(), NumberFormat::Comma, -1) == NumberFormat::Spaced,
        stepped_in(number_ladder(), NumberFormat::Plain, 1) == NumberFormat::Spaced,
        stepped_in(number_ladder(), NumberFormat::Plain, -1) == NumberFormat::Comma,
{
    lemma_ladders_hold_every_value_once(default_config());
    let l = number_ladder();
    assert(l[0] == NumberFormat::Spaced && l[1] == NumberFormat::Comma && l[2] == NumberFormat::Plain);
    lemma_step_forward_from(l, 0);
    lemma_step_back_from(l, 0);
    lemma_step_forward_from(l, 1);
    lemma_step_back_from(l, 1);
    lemma_step_forward_from(l, 2);
    lemma_step_back_from(l, 2);
}

/// Where one press each way lands on the toast-duration ladder.
proof fn lemma_toast_presses()
    ensures
        stepped_in(toast_ladder(), ToastDuration::Brief, 1) == ToastDuration::Normal,
        stepped_in(toast_ladder(), ToastDuration::Brief, -1) == ToastDuration::Lingering,
        stepped_in(toast_ladder(), ToastDuration::Normal, 1) == ToastDuration::Long,
        stepped_in(toast_ladder(), ToastDuration::Normal, -1) == ToastDuration::Brief,
        stepped_in(toast_ladder(), ToastDuration::Long, 1) == ToastDuration::Lingering,
        stepped_in(toast_ladder(), ToastDuration::Long, -1) == ToastDuration::Normal,
        stepped_in(toast_ladder(), ToastDuration::Lingering, 1) == ToastDuration::Brief,
        stepped_in(toast_ladder(), ToastDuration::Lingering, -1) == ToastDuration::Long,
{
    lemma_ladders_hold_every_value_once(default_config());
    let l = toast_ladder();
    assert(l[0] == ToastDuration::Brief && l[1] == ToastDuration::Normal && l[2] == ToastDuration::Long && l[3] == ToastDuration::Lingering);
    lemma_step_forward_from(l, 0);
    lemma_step_back_from(l, 0);
    lemma_step_forward_from(l, 1);
    lemma_step_back_from(l, 1);
    lemma_step_forward_from(l, 2);
    lemma_step_back_from(l, 2);
    lemma_step_forward_from(l, 3);
    lemma_step_back_from(l, 3);
}

/// Where one press each way lands on the sub-tab-keys ladder.
proof fn lemma_sub_tab_presses()
    ensures
        stepped_in(sub_tab_ladder(), SubTabKeys::ShiftArrows, 1) == SubTabKeys::HL,
        stepped_in(sub_tab_ladder(), SubTabKeys::ShiftArrows, -1) == SubTabKeys::Brackets,
        stepped_in(sub_tab_ladder(), SubTabKeys::HL, 1) == SubTabKeys::Brackets,
        stepped_in(sub_tab_ladder(), SubTabKeys::HL, -1) == SubTabKeys::ShiftArrows,
        stepped_in(sub_tab_ladder(), SubTabKeys::Brackets, 1) == SubTabKeys::ShiftArrows,
        stepped_in(sub_tab_ladder(), SubTabKeys::Brackets, -1) == SubTabKeys::HL,
{
    lemma_ladders_hold_every_value_once(default_config());
    let l = sub_tab_ladder();
    assert(l[0] == SubTabKeys::ShiftArrows && l[1] == SubTabKeys::HL && l[2] == SubTabKeys::Brackets);
    lemma_step_forward_from(l, 0);
    lemma_step_back_from(l, 0);
    lemma_step_forward_from(l, 1);
    lemma_step_back_from(l, 1);
    lemma_step_forward_from(l, 2);
    lemma_step_back_from(l, 2);
}

/// **→ lengthens a toast by one rung and ← shortens it by one**: pressing → on the Toast
/// duration row moves to the shortest duration longer than the current one, with no
/// rung skipped, and from the longest wraps to the shortest; ← is the mirror image.
pub proof fn lemma_the_toast_row_walks_by_duration(config: Config, other: ToastDuration)
    ensures
        ({
            let now = config.toast_duration;
            let right = adjusted(SettingsRow::ToastDuration, config, 1).toast_duration;
            &&& now != ToastDuration::Lingering ==> toast_seconds(now) < toast_seconds(right)
            &&& now != ToastDuration::Lingering ==> !(toast_seconds(now) < toast_seconds(other)
                < toast_seconds(right))
            &&& now == ToastDuration::Lingering ==> toast_seconds(right) <= toast_seconds(other)
        }),
        ({
            let now = config.toast_duration;
            let left = adjusted(SettingsRow::ToastDuration, config, -1).toast_duration;
            &&& now != ToastDuration::Brief ==> toast_seconds(left) < toast_seconds(now)
            &&& now != ToastDuration::Brief ==> !(toast_seconds(left) < toast_seconds(other)
                < toast_seconds(now))
            &&& now == ToastDuration::Brief ==> toast_seconds(other) <= toast_seconds(left)
        }),
{
    lemma_toast_presses();
}

/// **The other rows walk their choices in the order the screen lists them**: → takes the
/// number format from spaced to comma to plain and back to spaced, and the sub-tab keys
/// from shift-arrows to `h` `l` to brackets and back; ← walks the same rings the other
/// way; the two-choice rows flip to the other choice either way.
pub proof fn lemma_the_other_rows_walk_in_screen_order(config: Config)
    ensures
        ({
            let right = adjusted(SettingsRow::NumberFormat, config, 1).number_format;
            let left = adjusted(SettingsRow::NumberFormat, config, -1).number_format;
            &&& config.number_format == NumberFormat::Spaced ==> right == NumberFormat::Comma
                && left == NumberFormat::Plain
            &&& config.number_format == NumberFormat::Comma ==> right == NumberFormat::Plain
                && left == NumberFormat::Spaced
            &&& config.number_format == NumberFormat::Plain ==> right == NumberFormat::Spaced
                && left == NumberFormat::Comma
        }),
        ({
            let right = adjusted(SettingsRow::SubTabKeys, config, 1).sub_tab_keys;
            let left = adjusted(SettingsRow::SubTabKeys, config, -1).sub_tab_keys;
            &&& config.sub_tab_keys == SubTabKeys::ShiftArrows ==> right == SubTabKeys::HL
                && left == SubTabKeys::Brackets
            &&& config.sub_tab_keys == SubTabKeys::HL ==> right == SubTabKeys::Brackets
                && left == SubTabKeys::ShiftArrows
            &&& config.sub_tab_keys == SubTabKeys::Brackets ==> right == SubTabKeys::ShiftArrows
                && left == SubTabKeys::HL
        }),
        adjusted(SettingsRow::Colour, config, 1).colour != config.colour,
        adjusted(SettingsRow::Colour, config, -1).colour != config.colour,
        adjusted(SettingsRow::MiningInput, config, 1).mining_input != config.mining_input,
        adjusted(SettingsRow::MiningInput, config, -1).mining_input != config.mining_input,
{
    lemma_number_presses();
    lemma_sub_tab_presses();
    lemma_colour_presses();
    lemma_mining_presses();
}

} // verus!
