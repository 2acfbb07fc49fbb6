//! The terminal-too-small filter.
//!
//! This is **not** a screen and **not** a [`Modal`](super::Modal): it is a pure
//! function of the frame's size, drawn in front of everything when the terminal is below
//! the 80×24 budget every frame is counted against, and gone the moment the window
//! grows. It is the one screen with **no minimum**: below the box's own footprint it
//! degrades to the bare `80 x 24` target.

use vstd::prelude::*;

use super::Rect;
use crate::text::{decimal, decimal_string, push_spaces, repeated, run_of};

verus! {

/// The reference width every frame is counted against.
pub const MIN_WIDTH: u16 = 80;

/// The reference height.
pub const MIN_HEIGHT: u16 = 24;

/// The message box's width; below it, or below [`BOX_HEIGHT`], only the target remains.
pub const BOX_WIDTH: u16 = 44;

/// The message box's height.
pub const BOX_HEIGHT: u16 = 10;

/// Whether `area` meets the 80×24 budget — *both* dimensions, not either.
pub fn fits(area: Rect) -> (r: bool)
    ensures
        r == (area.width >= MIN_WIDTH && area.height >= MIN_HEIGHT),
{
    area.width >= MIN_WIDTH && area.height >= MIN_HEIGHT
}

/// Whether the message box itself fits in `area`; when it does not, the filter draws
/// the bare target with no border at all.
pub fn box_fits(area: Rect) -> (r: bool)
    ensures
        r == (area.width >= BOX_WIDTH && area.height >= BOX_HEIGHT),
{
    area.width >= BOX_WIDTH && area.height >= BOX_HEIGHT
}

/// How many columns the prefix `This terminal is ` spans.
pub open spec fn prefix_columns() -> nat {
    17
}

/// The caret row under `This terminal is W x H`: carets under whichever dimension is
/// short, and one continuous run under the whole reading when both are.
pub open spec fn underline_text(area: Rect) -> Seq<char> {
    let width_len = decimal(area.width as nat).len();
    let height_len = decimal(area.height as nat).len();
    let width_bad = area.width < MIN_WIDTH;
    let height_bad = area.height < MIN_HEIGHT;
    let marks = if width_bad && height_bad {
        repeated('^', width_len + 3 + height_len)
    } else {
        repeated(if width_bad { '^' } else { ' ' }, width_len) + repeated(' ', 3) + repeated(
            if height_bad { '^' } else { ' ' },
            height_len,
        )
    };
    repeated(' ', prefix_columns()) + marks
}

/// Builds the caret row that underlines whichever dimension is too small: a player at
/// 80×18 must learn it is the *height* that is short, not the width.
pub fn underline(area: Rect) -> (s: String)
    ensures
        s@ == underline_text(area),
{
    proof {
        reveal_strlit("^");
        reveal_strlit(" ");
    }
    let width_str = decimal_string(area.width as u64);
    let height_str = decimal_string(area.height as u64);
    let width_len = width_str.as_str().unicode_len();
    let height_len = height_str.as_str().unicode_len();
    proof {
        crate::text::lemma_decimal_len(area.width as nat);
        crate::text::lemma_decimal_len(area.height as nat);
        assert(width_len <= 5) by {
            lemma_decimal_short(area.width as nat);
        }
        assert(height_len <= 5) by {
            lemma_decimal_short(area.height as nat);
        }
    }
    let width_bad = area.width < MIN_WIDTH;
    let height_bad = area.height < MIN_HEIGHT;
    let mut s = String::new();
    push_spaces(&mut s, 17);
    if width_bad && height_bad {
        let marks = run_of("^", width_len + 3 + height_len);
        s.append(marks.as_str());
    } else {
        let width_marks = if width_bad {
            run_of("^", width_len)
        } else {
            run_of(" ", width_len)
        };
        let height_marks = if height_bad {
            run_of("^", height_len)
        } else {
            run_of(" ", height_len)
        };
        s.append(width_marks.as_str());
        push_spaces(&mut s, 3);
        s.append(height_marks.as_str());
    }
    assert(s@ =~= underline_text(area));
    s
}

/// A number below a hundred thousand takes at most five digits.
proof fn lemma_decimal_short(n: nat)
    requires
        n < 100_000,
    ensures
        decimal(n).len() <= 5,
    decreases n,
{
    if n >= 10 {
        lemma_decimal_short(n / 10);
        if n / 10 < 10 {
        } else {
            assert(decimal(n / 10).len() <= 4) by {
                lemma_decimal_shorter(n / 10);
            }
        }
    }
}

/// A number below ten thousand takes at most four digits.
proof fn lemma_decimal_shorter(n: nat)
    requires
        n < 10_000,
    ensures
        decimal(n).len() <= 4,
    decreases n,
{
    if n >= 10 {
        lemma_decimal_shorter(n / 10);
        if n / 10 >= 10 {
            assert(decimal(n / 10).len() <= 3) by {
                lemma_decimal_shortest(n / 10);
            }
        }
    }
}

/// A number below a thousand takes at most three digits.
proof fn lemma_decimal_shortest(n: nat)
    requires
        n < 1_000,
    ensures
        decimal(n).len() <= 3,
    decreases n,
{
    if n >= 10 {
        lemma_decimal_shortest(n / 10);
        if n / 10 >= 10 {
            assert(decimal(n / 10 / 10).len() == 1);
        }
    }
}

/// The lines inside the message box: the target, the size this terminal is, the caret
/// row under whichever part is short, and the one affordance.
pub open spec fn message_text(area: Rect) -> Seq<Seq<char>> {
    seq![
        Seq::<char>::empty(),
        "Skylode needs 80 x 24"@,
        Seq::<char>::empty(),
        "This terminal is "@ + decimal(area.width as nat) + " x "@ + decimal(area.height as nat),
        underline_text(area),
        Seq::<char>::empty(),
        "Enlarge the window, or press q to quit."@,
    ]
}

/// The lines the message box prints for a terminal of `area`'s size.
pub fn message(area: Rect) -> (lines: Vec<String>)
    ensures
        lines@.len() == message_text(area).len(),
        forall|i: int| 0 <= i < lines@.len() ==> #[trigger] lines@[i]@ == message_text(area)[i],
{
    proof {
        reveal_strlit("");
    }
    let mut size = "This terminal is ".to_owned();
    let width = decimal_string(area.width as u64);
    size.append(width.as_str());
    size.append(" x ");
    let height = decimal_string(area.height as u64);
    size.append(height.as_str());
    let mut lines: Vec<String> = Vec::new();
    lines.push("".to_owned());
    lines.push("Skylode needs 80 x 24".to_owned());
    lines.push("".to_owned());
    lines.push(size);
    lines.push(underline(area));
    lines.push("".to_owned());
    lines.push("Enlarge the window, or press q to quit.".to_owned());
    assert forall|i: int| 0 <= i < 7 implies #[trigger] lines@[i]@ == message_text(area)[i] by {}
    lines
}

} // verus!
