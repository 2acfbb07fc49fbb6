//! The compression dialog.
//!
//! A bounded spinner (`◄ 12 ►`), not a typed number, because the amount has a known
//! maximum and a spinner cannot be wrong. The inverse — decompress — is **the same
//! frame with the arithmetic reversed**: same lines, same height, each number read in
//! the other denomination. `Costs` is what the operation spends and `Leaves` what
//! remains of the pile it spends from.

use vstd::prelude::*;

use super::Conversion;
use crate::format::{RAW_PER_COMPRESSED, grouped, grouped_text};
use crate::announce::{nothing_to_convert, nothing_to_convert_text};
use crate::text::{push_spaces, repeated};

verus! {

/// The column the bare held figure is right-aligned to, from the counted frame.
pub const HELD_COLUMN: usize = 21;

/// The column the `Costs` / `Leaves` figures end at — three earlier, because a
/// denomination word follows them on the same line.
pub const AMOUNT_COLUMN: usize = 18;

/// How many units a conversion could convert at most, from the two piles of one
/// material: a raw pile converts in whole hundreds and floors, a Compressed pile
/// converts one for one.
pub open spec fn max_units_of(raw_held: u32, compressed_held: u32, direction: Conversion) -> u32 {
    match direction {
        Conversion::Compress => raw_held / RAW_PER_COMPRESSED,
        Conversion::Decompress => compressed_held,
    }
}

/// How many units of one material a conversion in `direction` could convert at most,
/// given how much of it is held raw and Compressed — the one place the ceiling is
/// computed, read to draw `all (13)`, to clamp the spinner, and to decide whether there
/// is anything to open a dialog *for*.
pub fn max_units(raw_held: u32, compressed_held: u32, direction: Conversion) -> (r: u32)
    ensures
        r == max_units_of(raw_held, compressed_held, direction),
{
    match direction {
        Conversion::Compress => raw_held / RAW_PER_COMPRESSED,
        Conversion::Decompress => compressed_held,
    }
}

/// One `label … figure` line, the figure right-aligned to end at `column`.
pub open spec fn aligned_text(label: Seq<char>, figure: Seq<char>, column: nat) -> Seq<char> {
    let width = if column > label.len() {
        (column - label.len()) as nat
    } else {
        0
    };
    let pad = if width > figure.len() {
        (width - figure.len()) as nat
    } else {
        0
    };
    " "@ + label + repeated(' ', pad) + figure
}

/// One `label … figure` line, the figure right-aligned to end at `column`: the padding
/// is computed from the label, which is what lets the two directions share a layout,
/// and a label longer than the column pushes the figure along rather than underflowing.
pub fn aligned(label: &str, figure: &str, column: usize) -> (s: String)
    ensures
        s@ == aligned_text(label@, figure@, column as nat),
{
    proof {
        reveal_strlit(" ");
    }
    let width = column.saturating_sub(label.unicode_len());
    let pad = width.saturating_sub(figure.unicode_len());
    let mut s = " ".to_owned();
    s.append(label);
    push_spaces(&mut s, pad);
    s.append(figure);
    s
}

/// The verb the box is titled with and the spinner is labelled by.
pub open spec fn verb_text(direction: Conversion) -> Seq<char> {
    match direction {
        Conversion::Compress => "Compress"@,
        Conversion::Decompress => "Decompress"@,
    }
}

/// `units` centred in four columns, the odd space going to the right — so the spinner
/// does not shuffle sideways as the count crosses ten and a hundred.
pub open spec fn centred_count(units: u32) -> Seq<char> {
    let digits = grouped_text(units as nat);
    let spare = if 4 > digits.len() {
        (4 - digits.len()) as nat
    } else {
        0
    };
    repeated(' ', spare / 2) + digits + repeated(' ', (spare - spare / 2) as nat)
}

/// The figures the frame reads in the denomination the direction spends from:
/// what is held, and what `units` of the operation spend.
pub open spec fn held_and_spent(
    raw_held: u32,
    compressed_held: u32,
    direction: Conversion,
    units: u32,
) -> (u32, u32) {
    match direction {
        Conversion::Compress => (
            raw_held,
            if units * RAW_PER_COMPRESSED > u32::MAX {
                u32::MAX
            } else {
                (units * RAW_PER_COMPRESSED) as u32
            },
        ),
        Conversion::Decompress => (compressed_held, units),
    }
}

/// The dialog's body, line by line.
pub open spec fn dialog_text(
    raw_held: u32,
    compressed_held: u32,
    direction: Conversion,
    units: u32,
) -> Seq<Seq<char>> {
    let (held, spent) = held_and_spent(raw_held, compressed_held, direction, units);
    let held_label = match direction {
        Conversion::Compress => "Raw held"@,
        Conversion::Decompress => "Compressed held"@,
    };
    let denomination = match direction {
        Conversion::Compress => " raw"@,
        Conversion::Decompress => " Compressed"@,
    };
    let verb = verb_text(direction);
    let left = if held >= spent {
        (held - spent) as nat
    } else {
        0
    };
    seq![
        Seq::<char>::empty(),
        aligned_text(held_label, grouped_text(held as nat), HELD_COLUMN as nat),
        Seq::<char>::empty(),
        " "@ + verb + repeated(' ', (11 - verb.len()) as nat) + "◄ "@ + centred_count(units) + " ►"@,
        aligned_text("Costs"@, grouped_text(spent as nat), AMOUNT_COLUMN as nat) + denomination,
        aligned_text("Leaves"@, grouped_text(left), AMOUNT_COLUMN as nat) + denomination,
        Seq::<char>::empty(),
    ]
}

/// The dialog's body for `units` on the spinner, read from the two piles held: every
/// figure is derived here from *(what is held, how many units)*, so the box cannot be
/// handed a set of numbers that does not add up.
pub fn dialog(raw_held: u32, compressed_held: u32, direction: Conversion, units: u32) -> (lines:
    Vec<String>)
    ensures
        lines@.len() == 7,
        forall|i: int|
            0 <= i < 7 ==> #[trigger] lines@[i]@ == dialog_text(
                raw_held,
                compressed_held,
                direction,
                units,
            )[i],
{
    proof {
        reveal_strlit("");
        reveal_strlit(" ");
        reveal_strlit("Compress");
        reveal_strlit("Decompress");
    }
    let (verb, held_label, held, spent, denomination) = match direction {
        Conversion::Compress => (
            "Compress",
            "Raw held",
            raw_held,
            if units > u32::MAX / RAW_PER_COMPRESSED {
                u32::MAX
            } else {
                units * RAW_PER_COMPRESSED
            },
            " raw",
        ),
        Conversion::Decompress => (
            "Decompress",
            "Compressed held",
            compressed_held,
            units,
            " Compressed",
        ),
    };
    let held_figure = grouped(held);
    let spent_figure = grouped(spent);
    let left_figure = grouped(held.saturating_sub(spent));

    let mut spinner = " ".to_owned();
    spinner.append(verb);
    push_spaces(&mut spinner, 11 - verb.unicode_len());
    spinner.append("◄ ");
    let count = grouped(units);
    let spare = 4usize.saturating_sub(count.as_str().unicode_len());
    push_spaces(&mut spinner, spare / 2);
    spinner.append(count.as_str());
    push_spaces(&mut spinner, spare - spare / 2);
    spinner.append(" ►");

    let mut costs = aligned("Costs", spent_figure.as_str(), AMOUNT_COLUMN);
    costs.append(denomination);
    let mut leaves = aligned("Leaves", left_figure.as_str(), AMOUNT_COLUMN);
    leaves.append(denomination);

    let mut lines: Vec<String> = Vec::new();
    lines.push("".to_owned());
    lines.push(aligned(held_label, held_figure.as_str(), HELD_COLUMN));
    lines.push("".to_owned());
    lines.push(spinner);
    lines.push(costs);
    lines.push(leaves);
    lines.push("".to_owned());
    proof {
        let expected = dialog_text(raw_held, compressed_held, direction, units);
        assert(lines@[3]@ =~= expected[3]);
    }
    lines
}

/// The box's title: the verb and the pile it converts.
pub fn title(direction: Conversion, material: &str) -> (s: String)
    ensures
        s@ == " "@ + verb_text(direction) + " "@ + material@ + " "@,
{
    proof {
        reveal_strlit(" ");
    }
    let mut s = " ".to_owned();
    match direction {
        Conversion::Compress => s.append("Compress"),
        Conversion::Decompress => s.append("Decompress"),
    }
    s.append(" ");
    s.append(material);
    s.append(" ");
    s
}

/// The key hint under the box, quoting the ceiling `a` jumps the spinner to.
pub fn hint(max: u32) -> (s: String)
    ensures
        s@ == " a  all ("@ + grouped_text(max as nat) + ")   Enter  do it"@,
{
    let mut s = " a  all (".to_owned();
    let figure = grouped(max);
    s.append(figure.as_str());
    s.append(")   Enter  do it");
    s
}


/// What asking to convert `material` in `direction` comes to: the dialog opens at one
/// unit — the smallest real conversion, so an `Enter` straight away never converts
/// more than was meant — whenever there is anything to convert; otherwise a refusal
/// that says what is missing.
pub open spec fn opening_of(
    raw_held: u32,
    compressed_held: u32,
    direction: Conversion,
    material: Seq<char>,
) -> Result<u32, Seq<char>> {
    if max_units_of(raw_held, compressed_held, direction) > 0 {
        Ok(1)
    } else {
        Err(nothing_to_convert_text(direction, material, raw_held))
    }
}

/// Opens the conversion dialog for `material`, or says why not: `Ok` with the units
/// the spinner starts at, or `Err` with the refusal to toast.
pub fn open_conversion(
    raw_held: u32,
    compressed_held: u32,
    direction: Conversion,
    material: &str,
) -> (r: Result<u32, String>)
    ensures
        match r {
            Ok(units) => opening_of(raw_held, compressed_held, direction, material@) == Ok::<
                u32,
                Seq<char>,
            >(units),
            Err(refusal) => opening_of(raw_held, compressed_held, direction, material@) == Err::<
                u32,
                Seq<char>,
            >(refusal@),
        },
{
    if max_units(raw_held, compressed_held, direction) > 0 {
        Ok(1)
    } else {
        Err(nothing_to_convert(direction, material, raw_held))
    }
}

} // verus!
