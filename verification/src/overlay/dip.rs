//! The dip modal's sentences.
//!
//! The modal fires **only on a net regression** — a pickaxe chain that crosses a tier
//! jump and ends below the power it started at. It is not a warning: the dip is a
//! chosen decision point, so the frame states the trade in ticks per block and offers
//! the deal, `Not yet` the default.

use vstd::prelude::*;

use crate::text::{decimal, decimal_string};

verus! {

/// What a reading with no number prints: a block this pickaxe cannot break at all.
pub const NOTHING: &'static str = "—";

/// The opening sentence for a chain of `chain` rung names.
pub open spec fn buying_text(chain: Seq<Seq<char>>) -> Seq<char> {
    if chain.len() <= 1 {
        " Buying the tier jump."@
    } else if chain.len() == 2 {
        " Buying "@ + chain[0] + ", then the tier jump."@
    } else {
        " Buying "@ + decimal(chain.len()) + " rungs, ending in the tier jump."@
    }
}

/// The opening sentence: what is being bought, named where naming it fits.
///
/// **Three shapes for one sentence**: the frame's own is written for a chain of exactly
/// two, the commonest case; a longer chain is counted rather than listed, since nine
/// rung names would bury the two numbers the modal exists to show.
pub fn buying(chain: &[String]) -> (s: String)
    ensures
        s@ == buying_text(chain@.map_values(|rung: String| rung@)),
{
    let ghost names = chain@.map_values(|rung: String| rung@);
    if chain.len() <= 1 {
        " Buying the tier jump.".to_owned()
    } else if chain.len() == 2 {
        let mut s = " Buying ".to_owned();
        s.append(chain[0].as_str());
        s.append(", then the tier jump.");
        assert(names[0] == chain@[0]@);
        s
    } else {
        let mut s = " Buying ".to_owned();
        let count = decimal_string(chain.len() as u64);
        s.append(count.as_str());
        s.append(" rungs, ending in the tier jump.");
        s
    }
}

/// `27 ticks`, or the dash for a block this pickaxe cannot break at all.
pub open spec fn ticks_text(count: Option<u32>) -> Seq<char> {
    match count {
        Some(n) => decimal(n as nat) + " ticks"@,
        None => "—"@,
    }
}

/// `27 ticks`, or `—` — never `0 ticks` — for a block this pickaxe cannot break.
pub fn ticks(count: Option<u32>) -> (s: String)
    ensures
        s@ == ticks_text(count),
{
    match count {
        Some(n) => {
            let mut s = decimal_string(n as u64);
            s.append(" ticks");
            s
        },
        None => NOTHING.to_owned(),
    }
}

/// `5 purchases`, and `1 purchase` in the singular.
pub open spec fn purchases_text(count: usize) -> Seq<char> {
    if count == 1 {
        "1 purchase"@
    } else {
        decimal(count as nat) + " purchases"@
    }
}

/// `five purchases` — pluralised, since a dip repaid one rung on is the interesting
/// case and `1 purchases` would undercut a sentence meant to reassure.
pub fn purchases(count: usize) -> (s: String)
    ensures
        s@ == purchases_text(count),
{
    if count == 1 {
        "1 purchase".to_owned()
    } else {
        let mut s = decimal_string(count as u64);
        s.append(" purchases");
        s
    }
}

/// The two options, the caret on `Buy it` when `buy` and on `Not yet` otherwise.
pub open spec fn choices_text(buy: bool) -> Seq<char> {
    let (left, right) = if buy {
        ("▸"@, " "@)
    } else {
        (" "@, "▸"@)
    };
    " "@ + left + "  Buy it       "@ + right + " n  Not yet"@
}

/// The two options, with the caret on the focused one. The caret moves rather than the
/// options: their order is the frame's.
pub fn choices(buy: bool) -> (s: String)
    ensures
        s@ == choices_text(buy),
{
    let (left, right) = if buy {
        ("▸", " ")
    } else {
        (" ", "▸")
    };
    let mut s = " ".to_owned();
    s.append(left);
    s.append("  Buy it       ");
    s.append(right);
    s.append(" n  Not yet");
    s
}

} // verus!
