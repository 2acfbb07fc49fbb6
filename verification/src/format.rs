//! Text formatting shared across screens.
//!
//! [`grouped`] enforces the cross-cutting rule that numbers are **exact, with a
//! thousands separator, and never abbreviated**: `1 240`, `418 297`, never `1.2k`.
//! [`justified`] lays a label and a value on one row with the value flush right.
//! [`xp_progress`] is the one reading with a non-numeric answer, written once so every
//! screen that prints it gives the same one. [`roman`] and [`rung_label`] name a
//! pickaxe rung, which the roadmap and the toast announcing a purchase must do alike.

use vstd::prelude::*;
use crate::config::{NumberFormat, number_format_separator};
use crate::text::{decimal, decimal_string, digit, digit_char, push_spaces, repeated};

verus! {

/// How many raw units one Compressed unit is worth — the exchange every price quoted
/// in two denominations is split by.
pub const RAW_PER_COMPRESSED: u32 = 100;

/// What a track with nothing left to sell reads, and what the XP readout says once
/// there is no next level.
pub const MAXED: &'static str = "maxed";

/// `r`, below a thousand, as exactly three digits (`007`): a group after a separator.
pub open spec fn three_digits(r: nat) -> Seq<char> {
    seq![digit_char(r / 100), digit_char((r / 10) % 10), digit_char(r % 10)]
}

/// `n` in space-separated thousands: `1240` is `1 240`.
pub open spec fn grouped_text(n: nat) -> Seq<char>
    decreases n,
{
    if n < 1000 {
        decimal(n)
    } else {
        grouped_text(n / 1000) + seq![' '] + three_digits(n % 1000)
    }
}

/// Groups `n` into space-separated thousands: `1240` becomes `"1 240"`.
///
/// A **plain space** — the wireframes are drawn that way, and the two punctuation
/// marks are the two that collide with a decimal point in the locales this reader
/// lives between.
pub fn grouped(n: u32) -> (s: String)
    ensures
        s@ == grouped_text(n as nat),
    decreases n,
{
    if n < 1000 {
        decimal_string(n as u64)
    } else {
        let mut s = grouped(n / 1000);
        let r = n % 1000;
        proof {
            reveal_strlit(" ");
        }
        s.append(" ");
        s.append(digit((r / 100) as u64));
        s.append(digit(((r / 10) % 10) as u64));
        s.append(digit((r % 10) as u64));
        assert(s@ =~= grouped_text(n as nat));
        s
    }
}

/// Whether a character is anything but a space.
pub open spec fn not_space() -> spec_fn(char) -> bool {
    |c: char| c != ' '
}

/// `s` with its spaces taken out.
pub open spec fn without_spaces(s: Seq<char>) -> Seq<char> {
    s.filter(not_space())
}

/// Appending three more digits to a number of a thousand or more is the same as
/// writing the number a thousand times larger.
proof fn lemma_decimal_thousands(n: nat)
    requires
        n >= 1000,
    ensures
        decimal(n) == decimal(n / 1000) + three_digits(n % 1000),
{
    let a = n / 10;
    let b = a / 10;
    let c = b / 10;
    assert(a == n / 10);
    assert(b == n / 100) by {
        vstd::arithmetic::div_mod::lemma_div_denominator(n as int, 10, 10);
    }
    assert(c == n / 1000) by {
        vstd::arithmetic::div_mod::lemma_div_denominator(n as int, 100, 10);
    }
    assert(a >= 100);
    assert(b >= 10);
    assert(n % 10 == (n % 1000) % 10) by {
        vstd::arithmetic::div_mod::lemma_mod_mod(n as int, 10, 100);
    }
    assert(a % 10 == ((n % 1000) / 10) % 10) by (nonlinear_arith)
        requires a == n / 10, n >= 0;
    assert(b % 10 == (n % 1000) / 100) by (nonlinear_arith)
        requires b == n / 100, n >= 0;
    let r = n % 1000;
    assert(decimal(n) == decimal(a).push(digit_char(n % 10)));
    assert(decimal(a) == decimal(b).push(digit_char(a % 10)));
    assert(decimal(b) == decimal(c).push(digit_char(b % 10)));
    assert(three_digits(r) == seq![digit_char(r / 100), digit_char((r / 10) % 10), digit_char(r % 10)]);
    assert(decimal(n) =~= decimal(c) + three_digits(r));
}

/// A decimal number holds no space.
proof fn lemma_decimal_has_no_space(n: nat)
    ensures
        without_spaces(decimal(n)) == decimal(n),
    decreases n,
{
    if n < 10 {
        Seq::<char>::empty().lemma_filter_push(digit_char(n), not_space());
        reveal(Seq::filter);
        assert(Seq::<char>::empty().push(digit_char(n)) =~= decimal(n));
    } else {
        lemma_decimal_has_no_space(n / 10);
        decimal(n / 10).lemma_filter_push(digit_char(n % 10), not_space());
    }
}

/// **Numbers are exact**: take the separators out of a grouped figure and what is left
/// is the number itself, every digit of it.
pub proof fn lemma_grouping_keeps_every_digit(n: nat)
    ensures
        without_spaces(grouped_text(n)) == decimal(n),
    decreases n,
{
    if n < 1000 {
        lemma_decimal_has_no_space(n);
    } else {
        lemma_grouping_keeps_every_digit(n / 1000);
        lemma_decimal_thousands(n);
        let head = grouped_text(n / 1000);
        let tail = three_digits(n % 1000);
        let pred = not_space();
        Seq::filter_distributes_over_add(head + seq![' '], tail, pred);
        Seq::filter_distributes_over_add(head, seq![' '], pred);
        Seq::<char>::empty().lemma_filter_push(' ', pred);
        assert(Seq::<char>::empty().push(' ') =~= seq![' ']);
        reveal(Seq::filter);
        assert(Seq::<char>::empty().filter(pred) =~= Seq::<char>::empty());
        let t0 = Seq::<char>::empty();
        let t1 = t0.push(tail[0]);
        let t2 = t1.push(tail[1]);
        let t3 = t2.push(tail[2]);
        assert(t3 =~= tail);
        t0.lemma_filter_push(tail[0], pred);
        t1.lemma_filter_push(tail[1], pred);
        t2.lemma_filter_push(tail[2], pred);
        assert(tail.filter(pred) =~= tail);
        assert(head + seq![' '] + tail == (head + seq![' ']) + tail);
    }
}

/// `left`, then enough spaces, then `right`: the row is `width` columns when the two
/// fit, and the two simply abut when they do not.
pub open spec fn justified_text(left: Seq<char>, right: Seq<char>, width: nat) -> Seq<char> {
    let used = left.len() + right.len();
    let pad = if width > used {
        (width - used) as nat
    } else {
        0
    };
    left + repeated(' ', pad) + right
}

/// A line of exactly `width` columns with `left` at the start and `right` flush to
/// the end — the shape a roadmap row, a stat line and a table row all repeat.
///
/// Columns are counted in characters, not bytes: `▸` and `·` are one column wide. When
/// the two already exceed `width` the pad is zero and the row overflows visibly.
pub fn justified(left: &str, right: &str, width: usize) -> (s: String)
    requires
        left@.len() + right@.len() <= usize::MAX,
    ensures
        s@ == justified_text(left@, right@, width as nat),
{
    let used = left.unicode_len() + right.unicode_len();
    let pad = width.saturating_sub(used);
    let mut out = left.to_owned();
    push_spaces(&mut out, pad);
    out.append(right);
    out
}

/// A justified row is exactly as wide as asked whenever its two halves fit, and it
/// always opens with its label and closes with its value.
pub proof fn lemma_justified_fills_the_width(left: Seq<char>, right: Seq<char>, width: nat)
    ensures
        left.len() + right.len() <= width ==> justified_text(left, right, width).len() == width,
        justified_text(left, right, width).subrange(0, left.len() as int) == left,
        justified_text(left, right, width).subrange(
            justified_text(left, right, width).len() - right.len(),
            justified_text(left, right, width).len() as int,
        ) == right,
{
    let t = justified_text(left, right, width);
    assert(t.subrange(0, left.len() as int) =~= left);
    assert(t.subrange(t.len() - right.len(), t.len() as int) =~= right);
}

/// A raw total in the denominations a price is quoted in, the material unnamed.
pub open spec fn denominations_text(total: nat) -> Seq<char> {
    let compressed = total / (RAW_PER_COMPRESSED as nat);
    let raw = total % (RAW_PER_COMPRESSED as nat);
    if compressed == 0 {
        grouped_text(raw)
    } else if raw == 0 {
        grouped_text(compressed) + " Compressed"@
    } else {
        grouped_text(compressed) + " Compressed + "@ + grouped_text(raw)
    }
}

/// A raw total in the denominations a price is quoted in: `1 Compressed`,
/// `6 Compressed + 50`, `40`, `0`.
///
/// A total under one Compressed unit is bare, zero included: `0 Compressed + 0` states
/// a penniless purse twice. A denomination that rounds to nothing is not named.
pub fn denominations(total: u32) -> (s: String)
    ensures
        s@ == denominations_text(total as nat),
{
    let compressed = total / RAW_PER_COMPRESSED;
    let raw = total % RAW_PER_COMPRESSED;
    if compressed == 0 {
        grouped(raw)
    } else if raw == 0 {
        let mut s = grouped(compressed);
        s.append(" Compressed");
        s
    } else {
        let mut s = grouped(compressed);
        s.append(" Compressed + ");
        let tail = grouped(raw);
        s.append(tail.as_str());
        s
    }
}

/// `level` as a Roman numeral, `I` to `XV`, or `?` outside that range.
pub open spec fn roman_text(level: u8) -> Seq<char> {
    if level == 1 {
        "I"@
    } else if level == 2 {
        "II"@
    } else if level == 3 {
        "III"@
    } else if level == 4 {
        "IV"@
    } else if level == 5 {
        "V"@
    } else if level == 6 {
        "VI"@
    } else if level == 7 {
        "VII"@
    } else if level == 8 {
        "VIII"@
    } else if level == 9 {
        "IX"@
    } else if level == 10 {
        "X"@
    } else if level == 11 {
        "XI"@
    } else if level == 12 {
        "XII"@
    } else if level == 13 {
        "XIII"@
    } else if level == 14 {
        "XIV"@
    } else if level == 15 {
        "XV"@
    } else {
        "?"@
    }
}

/// `level` as a Roman numeral, or `"?"` past the table.
///
/// The table spans `I`..=`XV` — exactly the range an Efficiency level can take — and
/// the fallback keeps the lookup total: a panic while drawing a frame is the worst way
/// for a front-end to report that a cap moved.
pub fn roman(level: u8) -> (r: &'static str)
    ensures
        r@ == roman_text(level),
{
    if level == 1 {
        "I"
    } else if level == 2 {
        "II"
    } else if level == 3 {
        "III"
    } else if level == 4 {
        "IV"
    } else if level == 5 {
        "V"
    } else if level == 6 {
        "VI"
    } else if level == 7 {
        "VII"
    } else if level == 8 {
        "VIII"
    } else if level == 9 {
        "IX"
    } else if level == 10 {
        "X"
    } else if level == 11 {
        "XI"
    } else if level == 12 {
        "XII"
    } else if level == 13 {
        "XIII"
    } else if level == 14 {
        "XIV"
    } else if level == 15 {
        "XV"
    } else {
        "?"
    }
}

/// A rung of the pickaxe ladder, named by its tier's word and its Efficiency.
pub open spec fn rung_label_text(tier: Seq<char>, efficiency: u8) -> Seq<char> {
    if efficiency == 0 {
        tier + " Pickaxe"@
    } else {
        tier + " Eff "@ + roman_text(efficiency)
    }
}

/// A rung of the pickaxe ladder: `Netherite Pickaxe` for a tier jump, `Diamond Eff IV`
/// for an Efficiency level. `tier` is the tier's own bare word; a rung at Efficiency 0
/// is the tier itself.
pub fn rung_label(tier: &str, efficiency: u8) -> (s: String)
    ensures
        s@ == rung_label_text(tier@, efficiency),
{
    let mut s = tier.to_owned();
    if efficiency == 0 {
        s.append(" Pickaxe");
    } else {
        s.append(" Eff ");
        s.append(roman(efficiency));
    }
    s
}

/// The XP readout for `xp` towards a level costing `to_next`, or the capped word.
pub open spec fn xp_progress_text(xp: u32, to_next: Option<u32>) -> Seq<char> {
    match to_next {
        Some(needed) => grouped_text(xp as nat) + " / "@ + grouped_text(needed as nat),
        None => "maxed"@,
    }
}

/// The XP readout: `1 240 / 2 300`, or [`MAXED`] once there is no next level.
pub fn xp_progress(xp: u32, to_next: Option<u32>) -> (s: String)
    ensures
        s@ == xp_progress_text(xp, to_next),
{
    match to_next {
        Some(needed) => {
            let mut s = grouped(xp);
            s.append(" / ");
            let tail = grouped(needed);
            s.append(tail.as_str());
            s
        },
        None => MAXED.to_owned(),
    }
}

/// A prestige rank as a headline writes it: a numeral up to `XV`, a grouped number past
/// the numerals or at zero — a rank has no cap, so it must never read `?`.
pub open spec fn prestige_rank_text(rank: u32) -> Seq<char> {
    if 1 <= rank <= 15 {
        roman_text(rank as u8)
    } else {
        grouped_text(rank as nat)
    }
}

/// A prestige rank, `II` or `16` or `1 200`.
pub fn prestige_rank(rank: u32) -> (s: String)
    ensures
        s@ == prestige_rank_text(rank),
{
    if 1 <= rank && rank <= 15 {
        roman(rank as u8).to_owned()
    } else {
        grouped(rank)
    }
}

/// An elapsed time in the crate's one vocabulary for ages: the largest whole unit,
/// `8s`, `5m`, `1h`, `3d`.
pub open spec fn age_text(seconds: u64) -> Seq<char> {
    if seconds < 60 {
        decimal(seconds as nat) + "s"@
    } else if seconds < 3_600 {
        decimal((seconds / 60) as nat) + "m"@
    } else if seconds < 86_400 {
        decimal((seconds / 3_600) as nat) + "h"@
    } else {
        decimal((seconds / 86_400) as nat) + "d"@
    }
}

/// How long ago something was, as its largest whole unit: `8s`, `1h`.
pub fn age(seconds: u64) -> (s: String)
    ensures
        s@ == age_text(seconds),
{
    if seconds < 60 {
        let mut s = decimal_string(seconds);
        s.append("s");
        s
    } else if seconds < 3_600 {
        let mut s = decimal_string(seconds / 60);
        s.append("m");
        s
    } else if seconds < 86_400 {
        let mut s = decimal_string(seconds / 3_600);
        s.append("h");
        s
    } else {
        let mut s = decimal_string(seconds / 86_400);
        s.append("d");
        s
    }
}

/// A multiplier held in thousandths, as the preview quotes it: `×1.00`, `×1.10`,
/// `×12.35` — whole part grouped, then exactly two decimals, the third truncated.
pub open spec fn multiplier_text(permille: u32) -> Seq<char> {
    let hundredths = (permille % 1000) / 10;
    "×"@ + grouped_text((permille / 1000) as nat) + "."@ + seq![
        digit_char((hundredths / 10) as nat),
        digit_char((hundredths % 10) as nat),
    ]
}

/// A multiplier held in thousandths: `1100` is `×1.10`.
pub fn multiplier(permille: u32) -> (s: String)
    ensures
        s@ == multiplier_text(permille),
{
    let hundredths = (permille % 1000) / 10;
    let mut s = "×".to_owned();
    s.append(grouped(permille / 1000).as_str());
    s.append(".");
    s.append(digit((hundredths / 10) as u64));
    s.append(digit((hundredths % 10) as u64));
    proof {
        reveal_strlit("×");
        reveal_strlit(".");
    }
    assert(s@ =~= multiplier_text(permille));
    s
}

/// A purse as the two counts it is actually held in: `65 Compressed + 40`.
pub open spec fn holding_text(compressed: u32, raw: u32) -> Seq<char> {
    grouped_text(compressed as nat) + " Compressed + "@ + grouped_text(raw as nat)
}

/// A purse as the two counts read off the inventory, both always named. **Read, never
/// recomputed**: twenty thousand raw units hold no Compressed unit at all, and re-split
/// like a price they would claim two hundred.
pub fn holding(compressed: u32, raw: u32) -> (s: String)
    ensures
        s@ == holding_text(compressed, raw),
{
    let mut s = grouped(compressed);
    s.append(" Compressed + ");
    s.append(grouped(raw).as_str());
    s
}

/// `n` in space-separated thousands, for the counts that outgrow a `u32`.
pub fn grouped_u64(n: u64) -> (s: String)
    ensures
        s@ == grouped_text(n as nat),
    decreases n,
{
    if n < 1000 {
        decimal_string(n)
    } else {
        let mut s = grouped_u64(n / 1000);
        let r = n % 1000;
        proof {
            reveal_strlit(" ");
        }
        s.append(" ");
        s.append(digit(r / 100));
        s.append(digit((r / 10) % 10));
        s.append(digit(r % 10));
        assert(s@ =~= grouped_text(n as nat));
        s
    }
}

/// A length of time as its largest unit and, where it is not zero, the next one down:
/// `45s`, `3m 5s`, `6h 12m`, `9d 4h`, `7d`.
pub open spec fn span_text(seconds: u64) -> Seq<char> {
    if seconds < 60 {
        decimal(seconds as nat) + "s"@
    } else if seconds < 3_600 {
        let rest = seconds % 60;
        decimal((seconds / 60) as nat) + "m"@ + if rest > 0 {
            " "@ + decimal(rest as nat) + "s"@
        } else {
            Seq::empty()
        }
    } else if seconds < 86_400 {
        let rest = (seconds % 3_600) / 60;
        decimal((seconds / 3_600) as nat) + "h"@ + if rest > 0 {
            " "@ + decimal(rest as nat) + "m"@
        } else {
            Seq::empty()
        }
    } else {
        let rest = (seconds % 86_400) / 3_600;
        decimal((seconds / 86_400) as nat) + "d"@ + if rest > 0 {
            " "@ + decimal(rest as nat) + "h"@
        } else {
            Seq::empty()
        }
    }
}

/// Appends `" {count}{unit}"` to `s` when `count` is not zero.
fn push_part(s: &mut String, count: u64, unit: &str)
    ensures
        final(s)@ == old(s)@ + if count > 0 {
            " "@ + decimal(count as nat) + unit@
        } else {
            Seq::empty()
        },
{
    if count > 0 {
        s.append(" ");
        s.append(decimal_string(count).as_str());
        s.append(unit);
    }
}

/// A length of time as its two largest units.
pub fn span(seconds: u64) -> (s: String)
    ensures
        s@ == span_text(seconds),
{
    if seconds < 60 {
        let mut s = decimal_string(seconds);
        s.append("s");
        s
    } else if seconds < 3_600 {
        let mut s = decimal_string(seconds / 60);
        s.append("m");
        push_part(&mut s, seconds % 60, "s");
        s
    } else if seconds < 86_400 {
        let mut s = decimal_string(seconds / 3_600);
        s.append("h");
        push_part(&mut s, (seconds % 3_600) / 60, "m");
        s
    } else {
        let mut s = decimal_string(seconds / 86_400);
        s.append("d");
        push_part(&mut s, (seconds % 86_400) / 3_600, "h");
        s
    }
}

/// `n` in thousands split by `sep`: `1240` is `1,240` with a comma.
pub open spec fn grouped_by(n: nat, sep: char) -> Seq<char>
    decreases n,
{
    if n < 1000 {
        decimal(n)
    } else {
        grouped_by(n / 1000, sep) + seq![sep] + three_digits(n % 1000)
    }
}

/// `n` as the player's number format writes it: split by its separator, or not split
/// at all.
pub open spec fn number_text(n: nat, format: NumberFormat) -> Seq<char> {
    match number_format_separator(format) {
        Some(sep) => grouped_by(n, sep),
        None => decimal(n),
    }
}

/// The spaced format is the crate's grouping: `number_text` under the default format
/// and [`grouped_text`] are one text.
pub proof fn lemma_spaced_is_grouped(n: nat)
    ensures
        number_text(n, NumberFormat::Spaced) == grouped_text(n),
    decreases n,
{
    if n >= 1000 {
        lemma_spaced_is_grouped(n / 1000);
    }
}

/// `n` as `format` writes it: `1 240`, `1,240` or `1240`.
pub fn formatted(n: u64, format: NumberFormat) -> (s: String)
    ensures
        s@ == number_text(n as nat, format),
    decreases n,
{
    let sep = match format {
        NumberFormat::Spaced => " ",
        NumberFormat::Comma => ",",
        NumberFormat::Plain => "",
    };
    proof {
        reveal_strlit(" ");
        reveal_strlit(",");
        reveal_strlit("");
    }
    if n < 1000 || sep.unicode_len() == 0 {
        decimal_string(n)
    } else {
        let mut s = formatted(n / 1000, format);
        let r = n % 1000;
        s.append(sep);
        s.append(digit(r / 100));
        s.append(digit((r / 10) % 10));
        s.append(digit(r % 10));
        assert(s@ =~= number_text(n as nat, format));
        s
    }
}

/// A raw total in its denominations, each count written in `format`.
pub open spec fn denominations_in(total: nat, format: NumberFormat) -> Seq<char> {
    let compressed = total / (RAW_PER_COMPRESSED as nat);
    let raw = total % (RAW_PER_COMPRESSED as nat);
    if compressed == 0 {
        number_text(raw, format)
    } else if raw == 0 {
        number_text(compressed, format) + " Compressed"@
    } else {
        number_text(compressed, format) + " Compressed + "@ + number_text(raw, format)
    }
}

/// A raw total in its denominations, each count written in `format`.
pub fn denominations_as(total: u32, format: NumberFormat) -> (s: String)
    ensures
        s@ == denominations_in(total as nat, format),
{
    let compressed = total / RAW_PER_COMPRESSED;
    let raw = total % RAW_PER_COMPRESSED;
    if compressed == 0 {
        formatted(raw as u64, format)
    } else if raw == 0 {
        let mut s = formatted(compressed as u64, format);
        s.append(" Compressed");
        s
    } else {
        let mut s = formatted(compressed as u64, format);
        s.append(" Compressed + ");
        s.append(formatted(raw as u64, format).as_str());
        s
    }
}

} // verus!
