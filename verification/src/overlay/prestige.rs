//! The two prestige modals: the preview, then the typed confirm.
//!
//! **The preview is two columns because the reset is a trade.** The left column is
//! deliberately brutal — the deep reset is the point. It is drawn unaffordable in the
//! common case, which is why the honest last line names the progression still owed
//! rather than a price for an ore that only drops past those gates.
//!
//! **The confirm is the one place in the game that asks for typing**: a keystroke
//! *being* possible is the point — it must break the training that nothing is final.
//!
//! Both draw from a [`PrestigeView`] and never from the run, so the box cannot
//! contradict the Stats panel the player opened it from.

use vstd::prelude::*;

use crate::format::{
    denominations, denominations_text, holding, holding_text, justified_text, multiplier,
    multiplier_text, prestige_rank, prestige_rank_text, roman, roman_text,
};
use crate::text::{decimal, decimal_string, push_spaces, repeated, run_of, views};

verus! {

/// The word the confirm asks for, and the cap on what its field will hold.
pub const CONFIRM_WORD: &'static str = "PRESTIGE";

/// How wide the confirm's field is drawn: four columns longer than the word, so a
/// completed word still sits inside a visible field.
pub const FIELD_WIDTH: usize = 12;

/// Where the preview's right-hand column starts: one column past its widest left-hand
/// entry, so the flush-right mark keeps a gap from the figure beside it.
pub const COLUMN: usize = 35;

/// The writable width inside the preview's box, which the mark is placed against.
pub const BODY_WIDTH: usize = 64;

/// The width of the "You lose" column, before the gap and the "You keep" one.
pub const LOSS_WIDTH: usize = 33;

/// What the till would say to the price.
#[derive(Clone, Copy, Debug, PartialEq, Eq, Structural)]
pub enum Verdict {
    /// The ore is there, in the shape the price is quoted in.
    Affordable,
    /// The value is there, in the wrong denomination.
    CompressFirst,
    /// There is not enough of it.
    Insufficient,
}

/// The two gates in front of a prestige: what is still missing of each, if anything.
#[derive(Clone, Debug, PartialEq, Eq)]
pub struct PrestigeLock {
    /// The mining level still to reach.
    pub missing_level: Option<u32>,
    /// The pickaxe tier still to reach, by name.
    pub missing_tier: Option<String>,
}

/// Everything the two boxes print, read off the run once.
#[derive(Clone, Debug, PartialEq, Eq)]
pub struct PrestigeView {
    /// The material the price is paid in, by name.
    pub material: String,
    /// The current rank.
    pub rank: u32,
    /// The global multiplier now, in thousandths.
    pub multiplier_permille: u32,
    /// The global multiplier after the trade, in thousandths.
    pub next_multiplier_permille: u32,
    /// The price, as a raw total.
    pub cost: u32,
    /// The purse, as a raw total.
    pub held: u32,
    /// The purse's Compressed units.
    pub held_compressed: u32,
    /// The purse's raw units.
    pub held_raw: u32,
    /// The pickaxe tier the run holds, by name.
    pub tier: String,
    /// The Efficiency level.
    pub efficiency: u8,
    /// The Fortune level.
    pub fortune: u8,
    /// How many other enchantments the run owns a level of.
    pub other_enchants: u32,
    /// The mining level.
    pub level: u32,
    /// The gates.
    pub lock: PrestigeLock,
    /// The till's answer to the price.
    pub verdict: Verdict,
}

/// Whether both gates are open.
pub open spec fn lock_open(lock: PrestigeLock) -> bool {
    lock.missing_level is None && lock.missing_tier is None
}

/// `s`, then spaces out to `width` columns; longer text is left as it is.
pub open spec fn left_aligned(s: Seq<char>, width: nat) -> Seq<char> {
    s + repeated(
        ' ',
        if width > s.len() {
            (width - s.len()) as nat
        } else {
            0
        },
    )
}

/// The mark at the end of the price row: `✓` only when the gates are open and the till
/// would take the price.
pub open spec fn mark_text(view: PrestigeView) -> Seq<char> {
    if lock_open(view.lock) && view.verdict == Verdict::Affordable {
        "✓"@
    } else {
        "✗"@
    }
}

/// A rank one past `rank`, saturating.
pub open spec fn next_rank(rank: u32) -> u32 {
    if rank == u32::MAX {
        rank
    } else {
        (rank + 1) as u32
    }
}

/// The header row: the rank before and after, then the multiplier before and after.
pub open spec fn header_text(view: PrestigeView) -> Seq<char> {
    left_aligned(
        " Rank  "@ + prestige_rank_text(view.rank) + "  →  "@ + prestige_rank_text(
            next_rank(view.rank),
        ),
        COLUMN as nat,
    ) + "Multiplier  "@ + multiplier_text(view.multiplier_permille) + "  →  "@ + multiplier_text(
        view.next_multiplier_permille,
    )
}

/// The price row: the cost and the purse in the same two denominations, the mark flush
/// right.
pub open spec fn price_text(view: PrestigeView) -> Seq<char> {
    justified_text(
        left_aligned(" Cost  "@ + quoted_price(view), COLUMN as nat) + "Held  "@ + holding_text(view.held_compressed, view.held_raw),
        mark_text(view),
        BODY_WIDTH as nat,
    )
}

/// What the reset takes, deepest loss first; an enchantment at level zero is one the
/// player does not own, so it is not billed.
pub open spec fn losses_text(view: PrestigeView) -> Seq<Seq<char>> {
    seq![view.tier@ + " Pickaxe → Wooden"@] + (if view.efficiency > 0 {
        seq!["Efficiency "@ + roman_text(view.efficiency) + " → 0"@]
    } else {
        Seq::empty()
    }) + (if view.fortune > 0 {
        seq!["Fortune "@ + roman_text(view.fortune) + " → 0"@]
    } else {
        Seq::empty()
    }) + (if view.other_enchants > 0 {
        seq!["All "@ + decimal(view.other_enchants as nat) + " enchants → 0"@]
    } else {
        Seq::empty()
    }) + seq![
        "Mining level "@ + decimal(view.level as nat) + " → 1"@,
        "Every mine's size and richness"@,
        "Your entire inventory"@,
    ]
}

/// What survives a prestige — always the same three, padded to the table's height.
pub open spec fn keeps_text() -> Seq<Seq<char>> {
    seq![
        "Prestige rank"@,
        "The global multiplier"@,
        "Your settings"@,
        Seq::<char>::empty(),
        Seq::<char>::empty(),
        Seq::<char>::empty(),
        Seq::<char>::empty(),
    ]
}

/// The `row`th line of the two-column table.
pub open spec fn trade_row(view: PrestigeView, row: int) -> Seq<char> {
    let losses = losses_text(view);
    let left = if row < losses.len() {
        losses[row]
    } else {
        Seq::empty()
    };
    left_aligned(" "@ + left, (LOSS_WIDTH + 1) as nat) + " "@ + keeps_text()[row]
}

/// The box's last sentences: while a gate is shut, what progression is still owed (the
/// price would answer a question the player did not ask); once both are open, what the
/// till would say.
pub open spec fn closing_text(view: PrestigeView) -> Seq<Seq<char>> {
    let material = view.material@;
    if !lock_open(view.lock) {
        let level_clause = match view.lock.missing_level {
            Some(level) => Some("Lv "@ + decimal(view.level as nat) + " of "@ + decimal(level as nat)),
            None => None,
        };
        let tier_clause = match view.lock.missing_tier {
            Some(tier) => Some("a "@ + view.tier@ + " pickaxe short of "@ + tier@),
            None => None,
        };
        let clauses = match (level_clause, tier_clause) {
            (Some(a), Some(b)) => a + " and "@ + b,
            (Some(a), None) => a,
            (None, Some(b)) => b,
            (None, None) => Seq::empty(),
        };
        seq![" You are "@ + clauses + " —"@, " and "@ + material + " only drops past the level."@]
    } else {
        match view.verdict {
            Verdict::Affordable => seq![
                " You hold the "@ + material + ". This cannot be undone."@,
                Seq::<char>::empty(),
            ],
            Verdict::CompressFirst => seq![
                " You hold the "@ + material + " in the wrong denomination —"@,
                " press  c  to go and convert it."@,
            ],
            Verdict::Insufficient => seq![
                " You are "@ + denominations_text(
                    (if view.cost > view.held {
                        view.cost - view.held
                    } else {
                        0
                    }) as nat,
                ) + " "@ + material + " short — the End's richness dial is what"@,
                " turns a run into a rank."@,
            ],
        }
    }
}

/// The whole preview body.
pub open spec fn preview_text(view: PrestigeView) -> Seq<Seq<char>> {
    seq![
        Seq::<char>::empty(),
        header_text(view),
        price_text(view),
        Seq::<char>::empty(),
        " You lose                          You keep"@,
        " ────────────────────────────      ────────────────────────"@,
    ] + Seq::new(7, |row: int| trade_row(view, row)) + seq![Seq::<char>::empty()] + closing_text(
        view,
    )
}

/// The confirm's field: what was typed, then underscores for the rest of its width.
pub open spec fn field_text(typed: Seq<char>) -> Seq<char> {
    typed + repeated(
        '_',
        if FIELD_WIDTH > typed.len() {
            (FIELD_WIDTH - typed.len()) as nat
        } else {
            0
        },
    )
}

/// The confirm's title: the rank the trade buys.
pub open spec fn confirm_title_text(view: PrestigeView) -> Seq<char> {
    " Prestige "@ + prestige_rank_text(next_rank(view.rank)) + " "@
}

/// The confirm's body, quoting the same price as the preview.
pub open spec fn confirm_text(view: PrestigeView, typed: Seq<char>) -> Seq<Seq<char>> {
    seq![
        Seq::<char>::empty(),
        " This cannot be undone."@,
        Seq::<char>::empty(),
        " "@ + quoted_price(view) + "  →  rank "@ + prestige_rank_text(next_rank(view.rank)) + "  ("@ + multiplier_text(
            view.next_multiplier_permille,
        ) + ")"@,
        " Everything else resets."@,
        Seq::<char>::empty(),
        " Type  "@ + CONFIRM_WORD@ + "  to confirm:"@,
        " > "@ + field_text(typed),
    ]
}

/// Pads `line` with spaces out to `width` columns.
fn align_left(line: &mut String, width: usize)
    ensures
        final(line)@ == left_aligned(old(line)@, width as nat),
{
    let len = line.unicode_len();
    push_spaces(line, width.saturating_sub(len));
}

/// The preview's header row.
pub fn header(view: &PrestigeView) -> (s: String)
    ensures
        s@ == header_text(*view),
{
    let mut ranks = " Rank  ".to_owned();
    ranks.append(prestige_rank(view.rank).as_str());
    ranks.append("  →  ");
    ranks.append(prestige_rank(view.rank.saturating_add(1)).as_str());
    align_left(&mut ranks, COLUMN);
    ranks.append("Multiplier  ");
    ranks.append(multiplier(view.multiplier_permille).as_str());
    ranks.append("  →  ");
    ranks.append(multiplier(view.next_multiplier_permille).as_str());
    ranks
}

/// The preview's price row.
pub fn price(view: &PrestigeView) -> (s: String)
    ensures
        s@ == price_text(*view),
{
    let open = view.lock.missing_level.is_none() && view.lock.missing_tier.is_none();
    let mark = if open && view.verdict == Verdict::Affordable {
        "✓"
    } else {
        "✗"
    };
    let mut row = " Cost  ".to_owned();
    row.append(denominations(view.cost).as_str());
    row.append(" ");
    row.append(view.material.as_str());
    align_left(&mut row, COLUMN);
    row.append("Held  ");
    row.append(holding(view.held_compressed, view.held_raw).as_str());
    let used = row.unicode_len().saturating_add(mark.unicode_len());
    push_spaces(&mut row, BODY_WIDTH.saturating_sub(used));
    row.append(mark);
    row
}

/// What the reset takes, deepest loss first.
pub fn losses(view: &PrestigeView) -> (lines: Vec<String>)
    ensures
        views(lines@) == losses_text(*view),
{
    let mut lines: Vec<String> = Vec::new();
    let mut first = view.tier.clone();
    first.append(" Pickaxe → Wooden");
    lines.push(first);
    if view.efficiency > 0 {
        let mut line = "Efficiency ".to_owned();
        line.append(roman(view.efficiency));
        line.append(" → 0");
        lines.push(line);
    }
    if view.fortune > 0 {
        let mut line = "Fortune ".to_owned();
        line.append(roman(view.fortune));
        line.append(" → 0");
        lines.push(line);
    }
    if view.other_enchants > 0 {
        let mut line = "All ".to_owned();
        line.append(decimal_string(view.other_enchants as u64).as_str());
        line.append(" enchants → 0");
        lines.push(line);
    }
    let mut level = "Mining level ".to_owned();
    level.append(decimal_string(view.level as u64).as_str());
    level.append(" → 1");
    lines.push(level);
    lines.push("Every mine's size and richness".to_owned());
    lines.push("Your entire inventory".to_owned());
    assert(views(lines@) =~= losses_text(*view));
    lines
}

/// The box's last sentences.
pub fn closing_lines(view: &PrestigeView) -> (lines: Vec<String>)
    ensures
        views(lines@) == closing_text(*view),
{
    proof {
        reveal_strlit("");
    }
    let material = view.material.as_str();
    let mut lines: Vec<String> = Vec::new();
    if view.lock.missing_level.is_some() || view.lock.missing_tier.is_some() {
        let mut first = " You are ".to_owned();
        match view.lock.missing_level {
            Some(level) => {
                first.append("Lv ");
                first.append(decimal_string(view.level as u64).as_str());
                first.append(" of ");
                first.append(decimal_string(level as u64).as_str());
                if view.lock.missing_tier.is_some() {
                    first.append(" and ");
                }
            },
            None => {},
        }
        match &view.lock.missing_tier {
            Some(tier) => {
                first.append("a ");
                first.append(view.tier.as_str());
                first.append(" pickaxe short of ");
                first.append(tier.as_str());
            },
            None => {},
        }
        first.append(" —");
        proof {
            let v = *view;
            let level_clause = match v.lock.missing_level {
                Some(level) => Some("Lv "@ + decimal(v.level as nat) + " of "@ + decimal(level as nat)),
                None => None,
            };
            let tier_clause = match v.lock.missing_tier {
                Some(tier) => Some("a "@ + v.tier@ + " pickaxe short of "@ + tier@),
                None => None,
            };
            let clauses = match (level_clause, tier_clause) {
                (Some(a), Some(b)) => a + " and "@ + b,
                (Some(a), None) => a,
                (None, Some(b)) => b,
                (None, None) => Seq::empty(),
            };
            assert(first@ =~= " You are "@ + clauses + " —"@);
        }
        let mut second = " and ".to_owned();
        second.append(material);
        second.append(" only drops past the level.");
        lines.push(first);
        lines.push(second);
    } else {
        match view.verdict {
            Verdict::Affordable => {
                let mut first = " You hold the ".to_owned();
                first.append(material);
                first.append(". This cannot be undone.");
                lines.push(first);
                lines.push(String::new());
            },
            Verdict::CompressFirst => {
                let mut first = " You hold the ".to_owned();
                first.append(material);
                first.append(" in the wrong denomination —");
                lines.push(first);
                lines.push(" press  c  to go and convert it.".to_owned());
            },
            Verdict::Insufficient => {
                let mut first = " You are ".to_owned();
                first.append(denominations(view.cost.saturating_sub(view.held)).as_str());
                first.append(" ");
                first.append(material);
                first.append(" short — the End's richness dial is what");
                lines.push(first);
                lines.push(" turns a run into a rank.".to_owned());
            },
        }
    }
    assert(views(lines@) =~= closing_text(*view));
    lines
}

/// The preview's body: the two figures rows, the two-column trade, and the closing
/// sentences.
pub fn preview(view: &PrestigeView) -> (lines: Vec<String>)
    ensures
        views(lines@) == preview_text(*view),
{
    proof {
        reveal_strlit("");
    }
    let mut lines: Vec<String> = Vec::new();
    lines.push(String::new());
    lines.push(header(view));
    lines.push(price(view));
    lines.push(String::new());
    lines.push(" You lose                          You keep".to_owned());
    lines.push(" ────────────────────────────      ────────────────────────".to_owned());
    let taken = losses(view);
    let keeps = ["Prestige rank", "The global multiplier", "Your settings", "", "", "", ""];
    let ghost table = Seq::new(7, |row: int| trade_row(*view, row));
    let ghost top = views(lines@);
    assert(top =~= seq![
        Seq::<char>::empty(),
        header_text(*view),
        price_text(*view),
        Seq::<char>::empty(),
        " You lose                          You keep"@,
        " ────────────────────────────      ────────────────────────"@,
    ]);
    let mut row: usize = 0;
    while row < 7
        invariant
            row <= 7,
            views(taken@) == losses_text(*view),
            keeps@.len() == 7,
            forall|k: int| 0 <= k < 7 ==> #[trigger] keeps@[k]@ == keeps_text()[k],
            table == Seq::new(7, |r: int| trade_row(*view, r)),
            views(lines@) == top + table.subrange(0, row as int),
        decreases 7 - row,
    {
        let mut line = " ".to_owned();
        if row < taken.len() {
            line.append(taken[row].as_str());
        }
        align_left(&mut line, LOSS_WIDTH + 1);
        line.append(" ");
        line.append(keeps[row]);
        proof {
            let losses = losses_text(*view);
            assert(losses.len() == taken@.len());
            if row < taken@.len() {
                assert(taken@[row as int]@ == losses[row as int]);
            }
            let left = if row < losses.len() {
                losses[row as int]
            } else {
                Seq::<char>::empty()
            };
            assert(line@ =~= trade_row(*view, row as int));
            assert(table.subrange(0, row + 1) =~= table.subrange(0, row as int).push(
                trade_row(*view, row as int),
            ));
        }
        let ghost before = views(lines@);
        lines.push(line);
        assert(views(lines@) =~= before.push(trade_row(*view, row as int)));
        row = row + 1;
    }
    assert(table.subrange(0, 7) =~= table);
    let ghost with_table = views(lines@);
    lines.push(String::new());
    assert(views(lines@) =~= with_table.push(Seq::<char>::empty()));
    let closing = closing_lines(view);
    let ghost middle = views(lines@);
    let mut k: usize = 0;
    while k < closing.len()
        invariant
            k <= closing@.len(),
            views(lines@) == middle + views(closing@).subrange(0, k as int),
        decreases closing@.len() - k,
    {
        let ghost before = views(lines@);
        lines.push(closing[k].clone());
        assert(views(closing@).subrange(0, k + 1) =~= views(closing@).subrange(0, k as int).push(
            closing@[k as int]@,
        ));
        assert(views(lines@) =~= before.push(closing@[k as int]@));
        k = k + 1;
    }
    assert(views(closing@).subrange(0, closing@.len() as int) =~= views(closing@));
    assert(views(lines@) =~= top + table + seq![Seq::<char>::empty()] + closing_text(*view));
    assert(views(lines@) =~= preview_text(*view));
    lines
}

/// The confirm's field for what has been `typed` so far, mistakes included.
pub fn field(typed: &str) -> (s: String)
    ensures
        s@ == field_text(typed@),
{
    proof {
        reveal_strlit("_");
    }
    let mut s = typed.to_owned();
    let filled = typed.unicode_len();
    s.append(run_of("_", FIELD_WIDTH.saturating_sub(filled)).as_str());
    proof {
        reveal_strlit("_");
    }
    s
}

/// The confirm's title.
pub fn confirm_title(view: &PrestigeView) -> (s: String)
    ensures
        s@ == confirm_title_text(*view),
{
    let mut s = " Prestige ".to_owned();
    s.append(prestige_rank(view.rank.saturating_add(1)).as_str());
    s.append(" ");
    s
}

/// The confirm's body for `view`, with `typed` in its field.
pub fn confirm(view: &PrestigeView, typed: &str) -> (lines: Vec<String>)
    ensures
        views(lines@) == confirm_text(*view, typed@),
{
    proof {
        reveal_strlit("");
    }
    let mut price = " ".to_owned();
    price.append(denominations(view.cost).as_str());
    price.append(" ");
    price.append(view.material.as_str());
    price.append("  →  rank ");
    price.append(prestige_rank(view.rank.saturating_add(1)).as_str());
    price.append("  (");
    price.append(multiplier(view.next_multiplier_permille).as_str());
    price.append(")");
    assert(price@ =~= " "@ + quoted_price(*view) + "  →  rank "@ + prestige_rank_text(
        next_rank(view.rank),
    ) + "  ("@ + multiplier_text(view.next_multiplier_permille) + ")"@);
    let mut prompt = " Type  ".to_owned();
    prompt.append(CONFIRM_WORD);
    prompt.append("  to confirm:");
    let mut input = " > ".to_owned();
    input.append(field(typed).as_str());
    let mut lines: Vec<String> = Vec::new();
    lines.push(String::new());
    lines.push(" This cannot be undone.".to_owned());
    lines.push(String::new());
    lines.push(price);
    lines.push(" Everything else resets.".to_owned());
    lines.push(String::new());
    lines.push(prompt);
    lines.push(input);
    assert(views(lines@) =~= confirm_text(*view, typed@));
    lines
}

/// **The trade is drawn honestly**: the box always has the same height of table, the
/// mark is `✓` exactly when both gates are open and the till takes the price, and while
/// a gate is shut the closing lines never quote the price.
pub proof fn lemma_the_preview_is_honest(view: PrestigeView)
    ensures
        preview_text(view).len() == 14 + closing_text(view).len(),
        closing_text(view).len() == 2,
        (mark_text(view) == "✓"@) <==> (lock_open(view.lock) && view.verdict == Verdict::Affordable),
        4 <= losses_text(view).len() <= 7,
{
    reveal_strlit("✓");
    reveal_strlit("✗");
    if mark_text(view) == "✓"@ {
        if !(lock_open(view.lock) && view.verdict == Verdict::Affordable) {
            assert("✗"@[0] != "✓"@[0]);
        }
    }
}

/// The price as both boxes quote it: the cost in its denominations, then the material.
pub open spec fn quoted_price(view: PrestigeView) -> Seq<char> {
    denominations_text(view.cost as nat) + " "@ + view.material@
}

/// **The confirm quotes the preview's price**: the cost and material the confirm shows
/// are the very words the preview's cost column opens with.
pub proof fn lemma_the_confirm_quotes_the_same_price(view: PrestigeView, typed: Seq<char>)
    ensures
        confirm_text(view, typed)[3].subrange(1, 1 + quoted_price(view).len() as int) == quoted_price(
            view,
        ),
        price_text(view).subrange(7, 7 + quoted_price(view).len() as int) == quoted_price(view),
{
    reveal_strlit(" ");
    reveal_strlit(" Cost  ");
    let cost = quoted_price(view);
    let n = cost.len() as int;
    let opening = " "@ + cost;
    let quoted = confirm_text(view, typed)[3];
    let rest = "  →  rank "@ + prestige_rank_text(next_rank(view.rank)) + "  ("@ + multiplier_text(
        view.next_multiplier_permille,
    ) + ")"@;
    assert(quoted =~= opening + rest);
    assert((opening + rest).subrange(0, opening.len() as int) =~= opening);
    assert(opening.subrange(1, 1 + n) =~= cost);
    assert(quoted.subrange(1, 1 + n) =~= opening.subrange(1, 1 + n));
    let labelled = " Cost  "@ + cost;
    let left = left_aligned(labelled, COLUMN as nat) + "Held  "@ + holding_text(
        view.held_compressed,
        view.held_raw,
    );
    let row = price_text(view);
    assert(row.subrange(0, left.len() as int) == left) by {
        crate::format::lemma_justified_fills_the_width(left, mark_text(view), BODY_WIDTH as nat);
    }
    assert(left.subrange(0, labelled.len() as int) =~= labelled);
    assert(labelled.subrange(7, 7 + n) =~= cost);
    assert(row.subrange(7, 7 + n) =~= left.subrange(7, 7 + n));
    assert(left.subrange(7, 7 + n) =~= labelled.subrange(7, 7 + n));
}


/// **The closing line quotes the gap, not the price**: with both gates open and the
/// till short, the box says how much of the material is still missing — the price less
/// what is held, nothing once the purse covers it — so for one price the figure falls
/// as the purse grows; the second line says what closes the gap.
pub proof fn lemma_the_closing_line_quotes_the_gap(view: PrestigeView)
    requires
        view.lock.missing_level is None,
        view.lock.missing_tier is None,
        view.verdict == Verdict::Insufficient,
    ensures
        closing_text(view).len() == 2,
        closing_text(view)[0] == " You are "@ + denominations_text(
            if view.held < view.cost {
                (view.cost - view.held) as nat
            } else {
                0
            },
        ) + " "@ + view.material@ + " short — the End's richness dial is what"@,
        closing_text(view)[1] == " turns a run into a rank."@,
        view.held >= view.cost ==> closing_text(view)[0] == " You are "@ + denominations_text(0)
            + " "@ + view.material@ + " short — the End's richness dial is what"@,
{
}


/// **With both gates open, the closing lines follow the till**: enough of the material
/// in the price's shape is a warning that the trade is final; the right value in the
/// wrong denomination sends the player to convert it with `c`.
pub proof fn lemma_the_closing_lines_follow_the_till(view: PrestigeView)
    requires
        view.lock.missing_level is None,
        view.lock.missing_tier is None,
    ensures
        view.verdict == Verdict::Affordable ==> closing_text(view) == seq![
            " You hold the "@ + view.material@ + ". This cannot be undone."@,
            Seq::<char>::empty(),
        ],
        view.verdict == Verdict::CompressFirst ==> closing_text(view) == seq![
            " You hold the "@ + view.material@ + " in the wrong denomination —"@,
            " press  c  to go and convert it."@,
        ],
{
}

} // verus!
