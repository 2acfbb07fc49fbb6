//! The offline summary, shown once on resume.
//!
//! It **states the multiplication** — `rate × elapsed` is the whole offline mechanic, so
//! printing it makes the number checkable in the player's head. The parenthesised
//! denomination split is the same raw total shown two ways, not a compression. **The
//! cap is stated rather than applied silently**: "away for 9d 4h — counted 7d" is
//! honest, and quietly paying for seven of nine reads as a bug the day someone checks.

use vstd::prelude::*;

use crate::config::NumberFormat;
use crate::format::{
    RAW_PER_COMPRESSED, denominations_as, denominations_in, formatted, grouped_text, grouped_u64,
    number_text, span, span_text,
};
use crate::overlay::prestige::left_aligned;
use crate::text::{push_spaces, repeated, views};

verus! {

/// The width the material names are padded to, so the parenthesised splits line up.
pub const NAME_COLUMN: usize = 16;

/// How many thousandths of a block the auto-miner breaks per tick.
pub const AUTO_MINER_MILLIBLOCKS_PER_TICK: u64 = 11;

/// The simulation's ticks per second.
pub const TICKS_PER_SECOND: u64 = 20;

/// What the auto-miner credited while the game was closed.
#[derive(Clone, Debug, PartialEq, Eq)]
pub struct OfflineReport {
    /// How long the player was away, in seconds.
    pub elapsed: u64,
    /// How much of that was paid for, in seconds — less than `elapsed` when capped.
    pub counted: u64,
    /// Whether the cap cut the absence short.
    pub capped: bool,
    /// How many blocks the auto-miner broke.
    pub blocks: u64,
    /// What was credited: each pile's name and its raw total.
    pub gained: Vec<(String, u32)>,
}

/// How long the player was away, and what of it was paid for.
pub open spec fn away_text(elapsed: u64, counted: u64, capped: bool) -> Seq<char> {
    if capped {
        " You were away for  "@ + span_text(elapsed) + "  —  counted "@ + span_text(counted)
    } else {
        " You were away for  "@ + span_text(elapsed)
    }
}

/// `s`, with spaces in front out to `width` columns.
pub open spec fn right_aligned(s: Seq<char>, width: nat) -> Seq<char> {
    repeated(
        ' ',
        if width > s.len() {
            (width - s.len()) as nat
        } else {
            0
        },
    ) + s
}

/// One credited line: `+12 480  Iron            (124 Compressed + 80)`, the figures
/// right-aligned to `width`. The split appears only when it says something the figure
/// did not — under one Compressed unit it would be the same number twice.
pub open spec fn gain_text(name: Seq<char>, amount: u32, width: nat, format: NumberFormat) -> Seq<char> {
    let total = " +"@ + right_aligned(number_text(amount as nat, format), width) + "  "@;
    if amount < RAW_PER_COMPRESSED {
        total + name
    } else {
        total + left_aligned(name, NAME_COLUMN as nat) + "("@ + denominations_in(amount as nat, format)
            + ")"@
    }
}

/// The widest grouped figure among the first `n` of `gained`.
pub open spec fn widest(gained: Seq<(String, u32)>, n: int, format: NumberFormat) -> nat
    decreases n,
{
    if n <= 0 {
        0
    } else {
        let w = number_text(gained[n - 1].1 as nat, format).len();
        let rest = widest(gained, n - 1, format);
        if w > rest {
            w
        } else {
            rest
        }
    }
}

/// The auto-miner's rate in hundredths of a block per second, rounded to the nearest.
pub open spec fn rate_hundredths() -> nat {
    ((AUTO_MINER_MILLIBLOCKS_PER_TICK * TICKS_PER_SECOND + 5) / 10) as nat
}

/// The rate as the summary prints it, to two decimals: `0.22`.
pub open spec fn rate_text() -> Seq<char> {
    grouped_text(rate_hundredths() / 100) + "."@ + seq![
        crate::text::digit_char((rate_hundredths() % 100) / 10),
        crate::text::digit_char(rate_hundredths() % 10),
    ]
}

/// The mechanic, spelled out over what was *counted*, so a capped absence multiplies
/// out to the number above it.
pub open spec fn rate_line_text(counted: u64, blocks: u64, format: NumberFormat) -> Seq<char> {
    " Rate  "@ + rate_text() + " blocks/s  ×  "@ + span_text(counted) + "  =  "@ + number_text(
        blocks as nat,
        format,
    ) + " blocks"@
}

/// The whole summary body.
pub open spec fn summary_text(report: OfflineReport, format: NumberFormat) -> Seq<Seq<char>> {
    let gained = report.gained@;
    let width = widest(gained, gained.len() as int, format);
    seq![
        Seq::<char>::empty(),
        away_text(report.elapsed, report.counted, report.capped),
        " The auto-miner kept going."@,
        Seq::<char>::empty(),
    ] + Seq::new(gained.len(), |i: int| gain_text(gained[i].0@, gained[i].1, width, format)) + seq![
        Seq::<char>::empty(),
        rate_line_text(report.counted, report.blocks, format),
        Seq::<char>::empty(),
    ]
}

/// How long the player was away, and what of it was paid for.
pub fn away(elapsed: u64, counted: u64, capped: bool) -> (s: String)
    ensures
        s@ == away_text(elapsed, counted, capped),
{
    let mut s = " You were away for  ".to_owned();
    s.append(span(elapsed).as_str());
    if capped {
        s.append("  —  counted ");
        s.append(span(counted).as_str());
    }
    s
}

/// One credited line, the figure right-aligned to `width`.
pub fn gain(name: &str, amount: u32, width: usize, format: NumberFormat) -> (s: String)
    ensures
        s@ == gain_text(name@, amount, width as nat, format),
{
    let figure = formatted(amount as u64, format);
    let mut s = " +".to_owned();
    push_spaces(&mut s, width.saturating_sub(figure.unicode_len()));
    s.append(figure.as_str());
    s.append("  ");
    s.append(name);
    if amount >= RAW_PER_COMPRESSED {
        push_spaces(&mut s, NAME_COLUMN.saturating_sub(name.unicode_len()));
        s.append("(");
        s.append(denominations_as(amount, format).as_str());
        s.append(")");
    }
    s
}

/// The auto-miner's rate, to two decimals.
pub fn rate() -> (s: String)
    ensures
        s@ == rate_text(),
{
    let hundredths = (AUTO_MINER_MILLIBLOCKS_PER_TICK * TICKS_PER_SECOND + 5) / 10;
    let mut s = grouped_u64(hundredths / 100);
    s.append(".");
    s.append(crate::text::digit((hundredths % 100) / 10));
    s.append(crate::text::digit(hundredths % 10));
    proof {
        reveal_strlit(".");
    }
    assert(s@ =~= rate_text());
    s
}

/// The summary's body for `report`.
pub fn summary(report: &OfflineReport, format: NumberFormat) -> (lines: Vec<String>)
    ensures
        views(lines@) == summary_text(*report, format),
{
    proof {
        reveal_strlit("");
    }
    let gained = &report.gained;
    let mut width: usize = 0;
    let mut i: usize = 0;
    while i < gained.len()
        invariant
            i <= gained@.len(),
            gained@ == report.gained@,
            width == widest(gained@, i as int, format),
        decreases gained@.len() - i,
    {
        let w = formatted(gained[i].1 as u64, format).unicode_len();
        if w > width {
            width = w;
        }
        i = i + 1;
    }
    let mut lines: Vec<String> = Vec::new();
    lines.push(String::new());
    lines.push(away(report.elapsed, report.counted, report.capped));
    lines.push(" The auto-miner kept going.".to_owned());
    lines.push(String::new());
    let ghost top = views(lines@);
    let ghost rows = Seq::new(
        gained@.len(),
        |k: int| gain_text(gained@[k].0@, gained@[k].1, width as nat, format),
    );
    let mut k: usize = 0;
    while k < gained.len()
        invariant
            k <= gained@.len(),
            gained@ == report.gained@,
            rows == Seq::new(gained@.len(), |j: int| gain_text(gained@[j].0@, gained@[j].1, width as nat, format)),
            views(lines@) == top + rows.subrange(0, k as int),
        decreases gained@.len() - k,
    {
        let (name, amount) = &gained[k];
        let ghost before = views(lines@);
        lines.push(gain(name.as_str(), *amount, width, format));
        assert(rows.subrange(0, k + 1) =~= rows.subrange(0, k as int).push(rows[k as int]));
        assert(views(lines@) =~= before.push(rows[k as int]));
        k = k + 1;
    }
    assert(rows.subrange(0, gained@.len() as int) =~= rows);
    let ghost middle = views(lines@);
    lines.push(String::new());
    let mut line = " Rate  ".to_owned();
    line.append(rate().as_str());
    line.append(" blocks/s  ×  ");
    line.append(span(report.counted).as_str());
    line.append("  =  ");
    line.append(formatted(report.blocks, format).as_str());
    line.append(" blocks");
    lines.push(line);
    lines.push(String::new());
    assert(views(lines@) =~= middle + seq![
        Seq::<char>::empty(),
        rate_line_text(report.counted, report.blocks, format),
        Seq::<char>::empty(),
    ]);
    assert(views(lines@) =~= summary_text(*report, format));
    lines
}

/// **The cap is never applied in silence, and the product is over what was counted**:
/// a capped absence names both spans, an uncapped one only the one, and the rate line
/// multiplies the counted span, whichever it is.
pub proof fn lemma_the_cap_is_stated(report: OfflineReport, format: NumberFormat)
    ensures
        report.capped ==> away_text(report.elapsed, report.counted, report.capped) == " You were away for  "@
            + span_text(report.elapsed) + "  —  counted "@ + span_text(report.counted),
        !report.capped ==> away_text(report.elapsed, report.counted, report.capped)
            == " You were away for  "@ + span_text(report.elapsed),
        summary_text(report, format)[summary_text(report, format).len() - 2] == rate_line_text(
            report.counted,
            report.blocks,
            format,
        ),
        summary_text(report, format).len() == 7 + report.gained@.len(),
{
}

/// **A split is printed only when it says something new**: below one Compressed unit a
/// gain ends at the pile's name.
pub proof fn lemma_a_small_gain_is_not_split(
    name: Seq<char>,
    amount: u32,
    width: nat,
    format: NumberFormat,
)
    requires
        amount < RAW_PER_COMPRESSED,
    ensures
        gain_text(name, amount, width, format) == " +"@ + right_aligned(
            number_text(amount as nat, format),
            width,
        ) + "  "@ + name,
{
}

} // verus!
