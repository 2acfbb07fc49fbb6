//! Where a tick's news becomes a sentence.
//!
//! One function, one `match`, and it is the **only** place a tick's news is worded: the
//! sentence a toast shows and the sentence the history keeps cannot be written in two
//! places. **The tone is part of the answer**: a toast has no glyph for a colour to
//! double, so the pairing is made here, where the event that justifies it is in hand.
//!
//! The events arrive as [`GameEvent`], which carries the names and counts the sentence
//! needs as plain values — the item and enchantment names already spelled the way the
//! rules spell them.

use vstd::prelude::*;

use crate::config::NumberFormat;
use crate::format::{
    RAW_PER_COMPRESSED, formatted, number_text, denominations, denominations_text, grouped, grouped_text, multiplier,
    multiplier_text, prestige_rank, prestige_rank_text,
};
use crate::cursor::MineTrack;
use crate::overlay::Conversion;
use crate::text::decimal;
use crate::text::decimal_string;

verus! {

/// The voice a toast speaks in.
#[derive(Clone, Copy, Debug, PartialEq, Eq, Structural)]
pub enum Tone {
    /// Something the player did or earned went through.
    Success,
    /// Plain news: nothing granted, nothing denied.
    Neutral,
    /// Something asked for was refused.
    Refusal,
    /// Refused, and the ore is there but not in the denomination asked for.
    CompressFirst,
}

/// How loudly news may interrupt.
#[derive(Clone, Copy, Debug, PartialEq, Eq, Structural)]
pub enum Salience {
    /// Kept in the history, never shown: the screen is already saying it.
    Silent,
    /// Shown, and may be replaced by the next toast.
    Normal,
    /// Shown, and not to be erased by anything less.
    Major,
}

/// What a level hands over.
#[derive(Clone, Debug, PartialEq, Eq)]
pub enum Payout {
    /// A dimension opens; the name is the world's.
    World(String),
    /// A bundle of ore, each line an item's name and how many of it.
    Ore(Vec<(String, u32)>),
}

/// The news a tick can carry.
#[derive(Clone, Debug, PartialEq, Eq)]
pub enum GameEvent {
    /// A level was reached, with what it files for the Levels screen, if anything.
    LevelUp { level: u32, reward: Option<Payout> },
    /// An area enchantment fired; `broken` is how many blocks it actually broke, not
    /// how many cells its shape covered.
    SpatialProc { kind: String, broken: usize },
    /// The Excavator substituted a compressed unit, named by `item`.
    ExcavatorProc { item: String },
    /// The mine the player stands in filled back up.
    MineRefilled,
    /// The boost ran out.
    BoostExpired,
}

/// A payout line's text and amount.
pub open spec fn ore_lines(lines: Seq<(String, u32)>) -> Seq<(Seq<char>, u32)> {
    lines.map_values(|line: (String, u32)| (line.0@, line.1))
}

/// One line of a bundle: `+115 Quartz`.
pub open spec fn ore_entry(name: Seq<char>, amount: u32, format: NumberFormat) -> Seq<char> {
    "+"@ + number_text(amount as nat, format) + " "@ + name
}

/// A bundle as one comma-separated phrase: `+115 Quartz, +80 Ancient Debris`.
pub open spec fn ore_text(lines: Seq<(Seq<char>, u32)>, format: NumberFormat) -> Seq<char>
    decreases lines.len(),
{
    if lines.len() == 0 {
        Seq::empty()
    } else if lines.len() == 1 {
        ore_entry(lines[0].0, lines[0].1, format)
    } else {
        ore_text(lines.drop_last(), format) + ", "@ + ore_entry(lines.last().0, lines.last().1, format)
    }
}

/// What a payout hands over, as one phrase with no leading punctuation.
pub open spec fn payout_text(payout: Payout, format: NumberFormat) -> Seq<char> {
    match payout {
        Payout::World(world) => "The "@ + world@ + " opens"@,
        Payout::Ore(lines) => ore_text(ore_lines(lines@), format),
    }
}

/// The tail of a level-up line: what the level handed over, or nothing at all.
pub open spec fn granted_text(reward: Option<Payout>, format: NumberFormat) -> Seq<char> {
    match reward {
        Some(payout) => " — "@ + payout_text(payout, format),
        None => Seq::empty(),
    }
}

/// A block count as the `u32` the grouping takes, saturating at its ceiling.
pub open spec fn block_count(blocks: usize) -> u32 {
    if blocks > u32::MAX {
        u32::MAX
    } else {
        blocks as u32
    }
}

/// What the player is told about `event`, in what voice, and how loudly. The sentence
/// for a level-up says what is waiting and where to claim it; the three kinds of news
/// the screen already shows — a blast, an Excavator's unit, a refill — stay silent;
/// a lapsed boost, which has no picture of its own, keeps the slot.
pub open spec fn announcement(event: GameEvent, format: NumberFormat) -> (Seq<char>, Tone, Salience) {
    match event {
        GameEvent::LevelUp { level, reward } => (
            if granted_text(reward, format).len() == 0 {
                "Level "@ + decimal(level as nat)
            } else {
                "Level "@ + decimal(level as nat) + granted_text(reward, format) + " — claim on 6"@
            },
            Tone::Success,
            Salience::Major,
        ),
        GameEvent::SpatialProc { kind, broken } => (
            kind@ + " — "@ + number_text(block_count(broken) as nat, format) + " blocks"@,
            Tone::Neutral,
            Salience::Silent,
        ),
        GameEvent::ExcavatorProc { item } => (
            "Excavator!  +1 "@ + item@,
            Tone::Success,
            Salience::Silent,
        ),
        GameEvent::MineRefilled => ("Mine refilled"@, Tone::Neutral, Salience::Silent),
        GameEvent::BoostExpired => ("Redstone boost ended"@, Tone::Neutral, Salience::Normal),
    }
}

/// A block count as the `u32` the grouping takes; the saturation is unreachable in
/// play, since the largest blast covers a few hundred cells.
pub fn count(blocks: usize) -> (r: u32)
    ensures
        r == block_count(blocks),
{
    if blocks > u32::MAX as usize {
        u32::MAX
    } else {
        blocks as u32
    }
}

/// A bundle's lines as one comma-separated phrase, the amounts in `format`.
pub fn ore(lines: &[(String, u32)], format: NumberFormat) -> (s: String)
    ensures
        s@ == ore_text(ore_lines(lines@), format),
{
    let ghost all = ore_lines(lines@);
    let mut s = String::new();
    let mut i: usize = 0;
    while i < lines.len()
        invariant
            i <= lines@.len(),
            all == ore_lines(lines@),
            s@ == ore_text(all.subrange(0, i as int), format),
        decreases lines@.len() - i,
    {
        let (name, amount) = &lines[i];
        if i > 0 {
            s.append(", ");
        }
        s.append("+");
        s.append(formatted(*amount as u64, format).as_str());
        s.append(" ");
        s.append(name.as_str());
        proof {
            let taken = all.subrange(0, i + 1);
            assert(taken.drop_last() =~= all.subrange(0, i as int));
            assert(taken.last() == all[i as int]);
            assert(all[i as int] == (name@, *amount));
            if i == 0 {
                assert(all.subrange(0, 0) =~= Seq::<(Seq<char>, u32)>::empty());
            }
        }
        i = i + 1;
    }
    assert(all.subrange(0, lines@.len() as int) =~= all);
    s
}

/// What a payout hands over, as one phrase with no leading punctuation — shared with
/// the Levels roadmap's `Grants` column, so the toast and the row quote the same words.
pub fn payout(reward: &Payout, format: NumberFormat) -> (s: String)
    ensures
        s@ == payout_text(*reward, format),
{
    match reward {
        Payout::World(world) => {
            let mut s = "The ".to_owned();
            s.append(world.as_str());
            s.append(" opens");
            s
        },
        Payout::Ore(lines) => ore(lines.as_slice(), format),
    }
}

/// The tail of a level-up line.
fn granted(reward: Option<&Payout>, format: NumberFormat) -> (s: String)
    ensures
        s@ == granted_text(
            match reward {
                Some(p) => Some(*p),
                None => None,
            },
            format,
        ),
{
    match reward {
        Some(reward) => {
            let mut s = " — ".to_owned();
            s.append(payout(reward, format).as_str());
            s
        },
        None => String::new(),
    }
}

/// What the player should be told about `event`, in what voice, and how loudly; the
/// figures are written in the player's number `format`.
pub fn of(event: &GameEvent, format: NumberFormat) -> (r: (String, Tone, Salience))
    ensures
        r.0@ == announcement(*event, format).0,
        r.1 == announcement(*event, format).1,
        r.2 == announcement(*event, format).2,
{
    match event {
        GameEvent::LevelUp { level, reward } => {
            let grants = granted(reward.as_ref(), format);
            let mut text = "Level ".to_owned();
            text.append(decimal_string(*level as u64).as_str());
            if grants.unicode_len() > 0 {
                text.append(grants.as_str());
                text.append(" — claim on 6");
            }
            (text, Tone::Success, Salience::Major)
        },
        GameEvent::SpatialProc { kind, broken } => {
            let mut text = kind.clone();
            text.append(" — ");
            text.append(formatted(count(*broken) as u64, format).as_str());
            text.append(" blocks");
            (text, Tone::Neutral, Salience::Silent)
        },
        GameEvent::ExcavatorProc { item } => {
            let mut text = "Excavator!  +1 ".to_owned();
            text.append(item.as_str());
            (text, Tone::Success, Salience::Silent)
        },
        GameEvent::MineRefilled => ("Mine refilled".to_owned(), Tone::Neutral, Salience::Silent),
        GameEvent::BoostExpired => (
            "Redstone boost ended".to_owned(),
            Tone::Neutral,
            Salience::Normal,
        ),
    }
}

/// **Only a level-up may not be covered, and its tone does not say so**: it is the one
/// `Major` announcement; a blast, an Excavator's unit and a refill are silent; and a
/// level-up shares its voice with the Excavator, so loudness is never read off tone.
pub proof fn lemma_only_a_level_up_is_major(event: GameEvent, format: NumberFormat)
    ensures
        (announcement(event, format).2 == Salience::Major) <==> (event is LevelUp),
        (announcement(event, format).2 == Salience::Silent) <==> (event is SpatialProc
            || event is ExcavatorProc || event is MineRefilled),
        event is LevelUp ==> announcement(event, format).1 == announcement(
            GameEvent::ExcavatorProc { item: arbitrary() },
            format,
        ).1,
{
}

/// **A level that pays nothing is still announced, and only a paying one sends the
/// player to claim**: with no reward the sentence is the level alone.
pub proof fn lemma_a_bare_level_is_still_news(level: u32, format: NumberFormat)
    ensures
        announcement(GameEvent::LevelUp { level, reward: None }, format).0 == "Level "@ + decimal(
            level as nat,
        ),
{
}

/// What a purse lacks for one line of a price: the item as the price names it, the
/// pile's material, and the two raw counts.
#[derive(Clone, Debug, PartialEq, Eq)]
pub struct Shortfall {
    /// The item, denomination included: `Compressed Stone`.
    pub item: String,
    /// The pile's material alone: `Stone`.
    pub material: String,
    /// How many the price asks for.
    pub needed: u32,
    /// How many the purse holds.
    pub held: u32,
}

/// The till's answer to a price.
#[derive(Clone, Debug, PartialEq, Eq)]
pub enum Affordability {
    /// The purse covers it, in the denominations asked for.
    Affordable,
    /// The value is there in the wrong denomination; the lines it is short on.
    CompressFirst(Vec<Shortfall>),
    /// The value is not there; the lines it is short on.
    Insufficient(Vec<Shortfall>),
}

/// What a refused purchase is told, for the till's answer with `first` its first
/// shortfall. The tone is the branch, not a reading of the sentence; the
/// compress-first refusal is the one that ends in the keystroke that fixes it.
pub open spec fn refusal_text(verdict: Affordability) -> (Seq<char>, Tone) {
    match verdict {
        Affordability::Affordable => ("Nothing to buy here"@, Tone::Neutral),
        Affordability::CompressFirst(lines) => (
            if lines@.len() > 0 {
                "Compress first — need "@ + grouped_text(lines@[0].needed as nat) + " "@
                    + lines@[0].item@ + ", you have "@ + grouped_text(lines@[0].held as nat)
                    + " · c to go"@
            } else {
                "Compress first · c to go"@
            },
            Tone::CompressFirst,
        ),
        Affordability::Insufficient(lines) => (
            if lines@.len() > 0 {
                "Not enough "@ + lines@[0].material@ + " — "@ + denominations_text(
                    lines@[0].needed as nat,
                ) + " needed, "@ + denominations_text(lines@[0].held as nat) + " held"@
            } else {
                "Not enough ore"@
            },
            Tone::Refusal,
        ),
    }
}

/// What a refused purchase is told, and in what voice.
pub fn refusal(verdict: &Affordability) -> (r: (String, Tone))
    ensures
        r.0@ == refusal_text(*verdict).0,
        r.1 == refusal_text(*verdict).1,
{
    match verdict {
        Affordability::Affordable => ("Nothing to buy here".to_owned(), Tone::Neutral),
        Affordability::CompressFirst(lines) => {
            if lines.len() > 0 {
                let first = &lines[0];
                let mut text = "Compress first — need ".to_owned();
                text.append(grouped(first.needed).as_str());
                text.append(" ");
                text.append(first.item.as_str());
                text.append(", you have ");
                text.append(grouped(first.held).as_str());
                text.append(" · c to go");
                (text, Tone::CompressFirst)
            } else {
                ("Compress first · c to go".to_owned(), Tone::CompressFirst)
            }
        },
        Affordability::Insufficient(lines) => {
            if lines.len() > 0 {
                let first = &lines[0];
                let mut text = "Not enough ".to_owned();
                text.append(first.material.as_str());
                text.append(" — ");
                text.append(denominations(first.needed).as_str());
                text.append(" needed, ");
                text.append(denominations(first.held).as_str());
                text.append(" held");
                (text, Tone::Refusal)
            } else {
                ("Not enough ore".to_owned(), Tone::Refusal)
            }
        },
    }
}

/// What a `c` or `C` on a pile with nothing to convert is told.
pub open spec fn nothing_to_convert_text(direction: Conversion, name: Seq<char>, raw_held: u32) -> Seq<char> {
    match direction {
        Conversion::Compress => "Nothing to compress — "@ + grouped_text(RAW_PER_COMPRESSED as nat)
            + " raw "@ + name + " needed, "@ + grouped_text(raw_held as nat) + " held"@,
        Conversion::Decompress => "Nothing to decompress — no Compressed "@ + name + " held"@,
    }
}

/// What a `c` or `C` on a pile with nothing to convert is told — a toast rather than a
/// dialog the player could only cancel.
pub fn nothing_to_convert(direction: Conversion, name: &str, raw_held: u32) -> (s: String)
    ensures
        s@ == nothing_to_convert_text(direction, name@, raw_held),
{
    match direction {
        Conversion::Compress => {
            let mut s = "Nothing to compress — ".to_owned();
            s.append(grouped(RAW_PER_COMPRESSED).as_str());
            s.append(" raw ");
            s.append(name);
            s.append(" needed, ");
            s.append(grouped(raw_held).as_str());
            s.append(" held");
            s
        },
        Conversion::Decompress => {
            let mut s = "Nothing to decompress — no Compressed ".to_owned();
            s.append(name);
            s.append(" held");
            s
        },
    }
}

/// What a completed prestige announces: the rank reached and the multiplier it now
/// puts on everything.
pub open spec fn prestiged_text(rank: u32, multiplier_permille: u32) -> Seq<char> {
    "Prestige "@ + prestige_rank_text(rank) + " — "@ + multiplier_text(multiplier_permille)
        + " on everything"@
}

/// What a completed prestige announces.
pub fn prestiged(rank: u32, multiplier_permille: u32) -> (s: String)
    ensures
        s@ == prestiged_text(rank, multiplier_permille),
{
    let mut s = "Prestige ".to_owned();
    s.append(prestige_rank(rank).as_str());
    s.append(" — ");
    s.append(multiplier(multiplier_permille).as_str());
    s.append(" on everything");
    s
}

/// What turning the free-upgrades toggle announces.
pub open spec fn free_upgrades_text(on: bool) -> Seq<char> {
    "Free upgrades "@ + if on {
        "on"@
    } else {
        "off"@
    }
}

/// What turning the free-upgrades toggle announces — the channel that catches the
/// press, beside the row's own `◄ on ►`.
pub fn free_upgrades(on: bool) -> (s: String)
    ensures
        s@ == free_upgrades_text(on),
{
    let mut s = "Free upgrades ".to_owned();
    if on {
        s.append("on");
    } else {
        s.append("off");
    }
    s
}

/// **A refusal takes the colour its own mark would**: the tone follows the till's
/// three-way answer and nothing else, and only the compress-first refusal names the key.
pub proof fn lemma_a_refusal_is_toned_by_its_verdict(verdict: Affordability)
    ensures
        verdict is Affordable ==> refusal_text(verdict).1 == Tone::Neutral,
        verdict is CompressFirst ==> refusal_text(verdict).1 == Tone::CompressFirst,
        verdict is Insufficient ==> refusal_text(verdict).1 == Tone::Refusal,
{
}


/// The word a mine track goes by in a toast.
pub open spec fn track_word(track: MineTrack) -> Seq<char> {
    match track {
        MineTrack::Size => "size"@,
        MineTrack::Richness => "richness"@,
    }
}

/// What buying up a mine's track announces: the mine, the track, and the level it
/// reads now.
pub open spec fn track_bought_text(mine: Seq<char>, track: MineTrack, level: u32) -> Seq<char> {
    mine + " "@ + track_word(track) + " → level "@ + decimal(level as nat)
}

/// What buying up a mine's track announces, in the success voice; `level` is the
/// level the track reads after the purchase.
pub fn track_bought(mine: &str, track: MineTrack, level: u32) -> (r: (String, Tone))
    ensures
        r.0@ == track_bought_text(mine@, track, level),
        r.1 == Tone::Success,
{
    let mut s = mine.to_owned();
    s.append(" ");
    match track {
        MineTrack::Size => s.append("size"),
        MineTrack::Richness => s.append("richness"),
    }
    s.append(" → level ");
    s.append(decimal_string(level as u64).as_str());
    (s, Tone::Success)
}


/// **A refusal quotes the price and the purse as they are**: an `Insufficient` verdict
/// names the first short pile's material, then the *whole* amount the price asks for,
/// then what the purse holds, each in denominations; so the figure quoted as needed is
/// the same whatever is held. A compress-first verdict quotes the same two figures,
/// grouped, beside the item in the denomination the price wants.
pub proof fn lemma_a_refusal_quotes_the_price_and_the_purse(lines: Vec<Shortfall>)
    requires
        lines@.len() > 0,
    ensures
        ({
            let first = lines@[0];
            let needed_part = "Not enough "@ + first.material@ + " — "@ + denominations_text(
                first.needed as nat,
            ) + " needed, "@;
            &&& refusal_text(Affordability::Insufficient(lines)) == (
                needed_part + denominations_text(first.held as nat) + " held"@,
                Tone::Refusal,
            )
            &&& refusal_text(Affordability::Insufficient(lines)).0.subrange(0, needed_part.len() as int)
                == needed_part
        }),
        refusal_text(Affordability::CompressFirst(lines)) == (
            "Compress first — need "@ + grouped_text(lines@[0].needed as nat) + " "@ + lines@[0].item@
                + ", you have "@ + grouped_text(lines@[0].held as nat) + " · c to go"@,
            Tone::CompressFirst,
        ),
{
    let first = lines@[0];
    let needed_part = "Not enough "@ + first.material@ + " — "@ + denominations_text(first.needed as nat)
        + " needed, "@;
    let text = refusal_text(Affordability::Insufficient(lines)).0;
    assert(text =~= needed_part + (denominations_text(first.held as nat) + " held"@));
    assert(text.subrange(0, needed_part.len() as int) =~= needed_part);
}

} // verus!
