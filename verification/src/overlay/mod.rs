//! Overlays: things drawn *over* a screen without costing it a row.
//!
//! Some are **pulled** — the player opens them, they capture input, and they live in
//! [`Modal`] so that the key decoder gives them first refusal on every key. Others are
//! **pushed** — the game raises them, and they are states of their own rather than
//! modals. What each one says is decided here; drawing it is the program's edge.

use vstd::prelude::*;

pub mod compression;
pub mod dev;
pub mod dip;
pub mod help;
pub mod offline;
pub mod prestige;
pub mod settings;
pub mod splash;
pub mod save_recovery;
pub mod too_small;

verus! {

/// Which way a compression dialog converts — one dialog read in either direction.
#[derive(Clone, Copy, Debug, PartialEq, Eq, Structural)]
pub enum Conversion {
    /// Raw into Compressed units: `c`.
    Compress,
    /// Compressed units back into raw: `C`.
    Decompress,
}

/// A modal overlay that captures input, carrying its own state so that *"a count of
/// 12 with no dialog open"* is a state nobody can write down.
#[derive(Clone, Debug, PartialEq, Eq)]
pub enum Modal {
    /// The full-screen key reference, opened with `?` from any screen.
    Help,
    /// The Settings screen, opened with `s` from any screen.
    Settings {
        /// Which of the five rows the `▸` is on.
        row: settings::SettingsRow,
    },
    /// The compression dialog, opened with `c` / `C` from the Inventory.
    Compress {
        /// Which pile is being converted, as its row in the inventory table — read
        /// from the cursor at the moment of opening rather than followed live.
        material: usize,
        /// Which way.
        direction: Conversion,
        /// How many units the spinner currently reads, always `1..=max`.
        units: u32,
    },
    /// The tier-jump confirmation, opened by a chain that ends below the power it
    /// started at.
    Dip {
        /// The ladder index the chain would climb to.
        to: usize,
        /// Whether `Buy it` is the focused option; it opens `false`.
        buy: bool,
    },
    /// The prestige preview, opened with `p` from the Stats screen.
    PrestigePreview,
    /// The typed prestige confirm, reached by `Enter` on an affordable preview.
    PrestigeConfirm {
        /// What the player has typed so far, verbatim.
        typed: String,
    },
    /// The dev menu, opened with `` ` `` on a session that asked for it.
    Dev,
}

/// A rectangle of terminal cells: its top-left corner and its size.
#[derive(Clone, Copy, Debug, PartialEq, Eq, Structural)]
pub struct Rect {
    /// The column of the left edge.
    pub x: u16,
    /// The row of the top edge.
    pub y: u16,
    /// How many columns wide.
    pub width: u16,
    /// How many rows tall.
    pub height: u16,
}

impl Rect {
    /// A rectangle at `(x, y)`, `width × height` cells.
    pub fn new(x: u16, y: u16, width: u16, height: u16) -> (r: Rect)
        ensures
            r == (Rect { x, y, width, height }),
    {
        Rect { x, y, width, height }
    }
}

/// A `width × height` box centred inside `area`, each dimension clamped to the area's.
pub open spec fn centred_in(area: Rect, width: u16, height: u16) -> Rect {
    let w = if width < area.width {
        width
    } else {
        area.width
    };
    let h = if height < area.height {
        height
    } else {
        area.height
    };
    Rect {
        x: (area.x + (area.width - w) / 2) as u16,
        y: (area.y + (area.height - h) / 2) as u16,
        width: w,
        height: h,
    }
}

/// Centres a `width × height` box inside `area`.
///
/// Absolute dimensions rather than percentages, because every modal is specified at a
/// counted size. Both dimensions are clamped, so an oversized box on a small terminal
/// is truncated rather than overflowing.
pub fn centered_rect(area: Rect, width: u16, height: u16) -> (r: Rect)
    requires
        area.x + area.width <= u16::MAX,
        area.y + area.height <= u16::MAX,
    ensures
        r == centred_in(area, width, height),
{
    let width = if width < area.width {
        width
    } else {
        area.width
    };
    let height = if height < area.height {
        height
    } else {
        area.height
    };
    Rect {
        x: area.x + (area.width - width) / 2,
        y: area.y + (area.height - height) / 2,
        width,
        height,
    }
}

/// A centred box never leaves its area, and the margins either side of it differ by at
/// most one cell.
pub proof fn lemma_a_centred_box_stays_inside(area: Rect, width: u16, height: u16)
    requires
        area.x + area.width <= u16::MAX,
        area.y + area.height <= u16::MAX,
    ensures
        ({
            let r = centred_in(area, width, height);
            &&& area.x <= r.x
            &&& r.x + r.width <= area.x + area.width
            &&& area.y <= r.y
            &&& r.y + r.height <= area.y + area.height
            &&& (r.x - area.x) <= (area.x + area.width) - (r.x + r.width) <= (r.x - area.x) + 1
            &&& (r.y - area.y) <= (area.y + area.height) - (r.y + r.height) <= (r.y - area.y) + 1
        }),
{
}

} // verus!
