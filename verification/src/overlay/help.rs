//! The Help screen.
//!
//! **Full screen, not a modal box**, because ~20 bindings plus the legend do not fit a
//! centred box without scrolling. It prints the globals plus **only the screen it was
//! opened from**, and the legend for the glyphs a screen shows. The sub-tab binding is
//! rendered from config: an aid that showed the default while the player chose an
//! alternative would teach a dead key.

use vstd::prelude::*;

use crate::config::{Config, SubTabKeys, sub_tab_keys_label};
use crate::screen::{Screen, screen_title};
use crate::text::{extend_lines, owned_lines, push_spaces, repeated};

verus! {

/// The globals — the "Anywhere" block, shown whatever screen Help was opened from.
pub const GLOBALS: [&'static str; 9] = [
    "",
    "Anywhere",
    " Tab  ⇧Tab     next / previous screen",
    " 1 … 6         jump to a screen",
    " ← →           adjust the value under",
    "               the cursor",
    " s             Settings",
    " ?             this help",
    " q             back to title screen",
];

/// The Mining block — shown always, since mining is the game's core act.
pub const MINING: [&'static str; 4] = [
    "Mining",
    " Space         hold to mine. Settings",
    "               can make it press to",
    "               start, press to stop.",
];

/// The right pane: the glyph legend, twenty-one lines — the pane's whole height at the
/// reference size, counted so that adding an entry is a build error until it fits.
pub const LEGEND: [&'static str; 21] = [
    "",
    "The mine grid",
    "  a solid colour  an intact cell, in",
    "                  its material colour",
    "  a stippled cell the cell of value,",
    "                  in every colour mode",
    "  · : #           the cell you are",
    "                  breaking, filling up",
    "  nothing at all  already broken",
    "",
    "Marks",
    "  ✓   you can buy it",
    "  ~   you hold the ore but not the",
    "      denomination — compress first",
    "  ✗   not enough ore",
    "  ●   where you are now",
    "  —   nothing to buy: maxed, or gated",
    "",
    "  On Levels and on Stats, ✓ reads",
    "  \"already yours\": nothing is bought",
    "  on those two screens.",
];

/// The left pane's title.
pub const KEYS_TITLE: &'static str = " Keys ";

/// The right pane's title — a heading only Help draws.
pub const LEGEND_TITLE: &'static str = " Reading the screen ";

/// The key hint on the bottom row.
pub const FOOTER: &'static str = " Esc  or  ?   close";

/// The lines of a constant block, as text.
pub open spec fn block_text<const N: usize>(block: [&'static str; N]) -> Seq<Seq<char>> {
    block@.map_values(|line: &'static str| line@)
}

/// The bindings unique to `screen`, the Upgrades sub-tab line drawn from `keys`.
pub open spec fn contextual_text(screen: Screen, keys: SubTabKeys) -> Seq<Seq<char>> {
    match screen {
        Screen::Mine => Seq::empty(),
        Screen::Mines => seq![
            " ↑ ↓           select a mine"@,
            " Enter         mine it"@,
            " ← →           move the richness dial"@,
        ],
        Screen::Inventory => seq![
            " ↑ ↓           select a material"@,
            " c             compress"@,
            " C             decompress"@,
        ],
        Screen::Upgrades => seq![
            " "@ + sub_tab_keys_label(keys) + repeated(
                ' ',
                if sub_tab_keys_label(keys).len() < 14 {
                    (14 - sub_tab_keys_label(keys).len()) as nat
                } else {
                    0
                },
            ) + "switch sub-tab"@,
            " ↑ ↓           select a row"@,
            " Enter         buy up to the cursor"@,
            " M             buy as many as you can"@,
            " c             go compress what is short"@,
        ],
        Screen::Stats => seq![" ↑ ↓           scroll the history"@, " p             prestige"@],
        Screen::Levels => seq![" ↑ ↓           scroll"@, " Home          jump to your level"@],
    }
}

/// The whole Keys pane: the globals, the block for the screen Help was opened from
/// under its own heading (absent where the screen binds nothing of its own), then
/// Mining.
pub open spec fn keys_text(screen: Screen, keys: SubTabKeys) -> Seq<Seq<char>> {
    let context = contextual_text(screen, keys);
    let middle = if context.len() == 0 {
        Seq::<Seq<char>>::empty()
    } else {
        seq![Seq::<char>::empty(), "On this screen — "@ + screen_title(screen)] + context
    };
    block_text(GLOBALS) + middle + seq![Seq::<char>::empty()] + block_text(MINING)
}

/// The bindings unique to `screen` — the "On this screen" block, empty on Mine, whose
/// only key (`Space`) already lives under Mining.
pub fn contextual(screen: Screen, config: &Config) -> (lines: Vec<String>)
    ensures
        lines@.len() == contextual_text(screen, config.sub_tab_keys).len(),
        forall|i: int|
            0 <= i < lines@.len() ==> #[trigger] lines@[i]@ == contextual_text(
                screen,
                config.sub_tab_keys,
            )[i],
{
    match screen {
        Screen::Mine => Vec::new(),
        Screen::Mines => {
            let text = [
                " ↑ ↓           select a mine",
                " Enter         mine it",
                " ← →           move the richness dial",
            ];
            let lines = owned_lines(&text);
            assert forall|i: int| 0 <= i < 3 implies #[trigger] lines@[i]@ == contextual_text(
                screen,
                config.sub_tab_keys,
            )[i] by {
                assert(lines@[i]@ == text@[i]@);
            }
            lines
        },
        Screen::Inventory => {
            let text = [
                " ↑ ↓           select a material",
                " c             compress",
                " C             decompress",
            ];
            let lines = owned_lines(&text);
            assert forall|i: int| 0 <= i < 3 implies #[trigger] lines@[i]@ == contextual_text(
                screen,
                config.sub_tab_keys,
            )[i] by {
                assert(lines@[i]@ == text@[i]@);
            }
            lines
        },
        Screen::Upgrades => {
            let label = config.sub_tab_keys.label();
            let mut first = " ".to_owned();
            first.append(label);
            push_spaces(&mut first, 14usize.saturating_sub(label.unicode_len()));
            first.append("switch sub-tab");
            let mut lines: Vec<String> = Vec::new();
            lines.push(first);
            let text = [
                " ↑ ↓           select a row",
                " Enter         buy up to the cursor",
                " M             buy as many as you can",
                " c             go compress what is short",
            ];
            extend_lines(&mut lines, &text);
            assert forall|i: int| 0 <= i < 5 implies #[trigger] lines@[i]@ == contextual_text(
                screen,
                config.sub_tab_keys,
            )[i] by {
                if i >= 1 {
                    assert(lines@[i]@ == text@[i - 1]@);
                }
            }
            lines
        },
        Screen::Stats => {
            let text = [" ↑ ↓           scroll the history", " p             prestige"];
            let lines = owned_lines(&text);
            assert forall|i: int| 0 <= i < 2 implies #[trigger] lines@[i]@ == contextual_text(
                screen,
                config.sub_tab_keys,
            )[i] by {
                assert(lines@[i]@ == text@[i]@);
            }
            lines
        },
        Screen::Levels => {
            let text = [" ↑ ↓           scroll", " Home          jump to your level"];
            let lines = owned_lines(&text);
            assert forall|i: int| 0 <= i < 2 implies #[trigger] lines@[i]@ == contextual_text(
                screen,
                config.sub_tab_keys,
            )[i] by {
                assert(lines@[i]@ == text@[i]@);
            }
            lines
        },
    }
}

/// The Keys pane for Help opened from `screen`.
pub fn keys(screen: Screen, config: &Config) -> (lines: Vec<String>)
    ensures
        lines@.len() == keys_text(screen, config.sub_tab_keys).len(),
        forall|i: int|
            0 <= i < lines@.len() ==> #[trigger] lines@[i]@ == keys_text(screen, config.sub_tab_keys)[i],
{
    proof {
        reveal_strlit("");
    }
    let ghost expected = keys_text(screen, config.sub_tab_keys);
    let mut lines = owned_lines(&GLOBALS);
    let ghost after_globals = lines@;
    let context = contextual(screen, config);
    let ghost context_text = contextual_text(screen, config.sub_tab_keys);
    if context.len() > 0 {
        lines.push("".to_owned());
        let mut heading = "On this screen — ".to_owned();
        heading.append(screen.title());
        lines.push(heading);
        let mut k: usize = 0;
        let ghost base = lines@;
        assert(base.len() == 11);
        while k < context.len()
            invariant
                k <= context@.len(),
                lines@.len() == base.len() + k,
                forall|j: int| 0 <= j < base.len() ==> #[trigger] lines@[j] == base[j],
                forall|j: int| 0 <= j < k ==> #[trigger] lines@[base.len() + j]@ == context@[j]@,
            decreases context@.len() - k,
        {
            lines.push(context[k].clone());
            k = k + 1;
        }
    }
    let ghost before_mining = lines@;
    lines.push("".to_owned());
    extend_lines(&mut lines, &MINING);
    proof {
        let middle = if context_text.len() == 0 {
            Seq::<Seq<char>>::empty()
        } else {
            seq![Seq::<char>::empty(), "On this screen — "@ + screen_title(screen)] + context_text
        };
        assert(expected =~= block_text(GLOBALS) + middle + seq![Seq::<char>::empty()] + block_text(MINING));
        assert(lines@.len() == expected.len());
        assert forall|i: int| 0 <= i < lines@.len() implies #[trigger] lines@[i]@ == expected[i] by {
            if i < 9 {
                assert(lines@[i]@ == GLOBALS@[i]@);
            } else if i < 9 + middle.len() {
                if i == 9 {
                } else if i == 10 {
                } else {
                    let j = i - 11;
                    assert(lines@[i] == before_mining[i]);
                    assert(before_mining[11 + j]@ == context@[j]@);
                    assert(context@[j]@ == context_text[j]);
                }
            } else if i == 9 + middle.len() {
            } else {
                assert(lines@[i]@ == MINING@[i - 10 - middle.len()]@);
            }
        }
    }
    lines
}

/// The legend pane's lines.
pub fn legend() -> (lines: Vec<String>)
    ensures
        lines@.len() == 21,
        forall|i: int| 0 <= i < 21 ==> #[trigger] lines@[i]@ == block_text(LEGEND)[i],
{
    owned_lines(&LEGEND)
}

/// **Help fits the pane at the reference size**: the legend is exactly the pane's
/// twenty-one rows, and the Keys pane never exceeds them — Upgrades, the screen with
/// the most bindings, fills it exactly.
pub proof fn lemma_help_fits_its_panes(screen: Screen, keys: SubTabKeys)
    ensures
        block_text(LEGEND).len() == 21,
        keys_text(screen, keys).len() <= 21,
        keys_text(Screen::Upgrades, keys).len() == 21,
        keys_text(Screen::Mine, keys).len() == 14,
{
}

} // verus!
