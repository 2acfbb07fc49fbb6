//! What the terminal says about itself — read once, at startup.
//!
//! One question so far: **how many colours**. The Settings screen prints the answer
//! beside the `Colour` row so that a player choosing between 256 and 16 is choosing
//! against a fact rather than a guess. It reports; it never decides — the preference
//! is the authority, and this is a hint printed next to it.
//!
//! The environment itself is read at the program's edge; what is decided from the two
//! variables it hands over is [`Capabilities::declared`].

use vstd::prelude::*;
use crate::text::{decimal, decimal_string, occurs_in, contains_text, same_text};

verus! {

/// The terminal facts the interface is allowed to mention.
#[derive(Clone, Copy, Debug, PartialEq, Eq, Structural)]
pub struct Capabilities {
    /// How many colours the environment claims, or [`None`] when it claims nothing —
    /// *"the terminal says nothing"* and *"the terminal says sixteen"* are different
    /// sentences, and the screen prints them differently.
    colours: Option<u16>,
}

/// Whether the two variables declare a wide palette: `COLORTERM` naming truecolour,
/// or `TERM` mentioning `256color`. Either one is enough, and neither is evidence
/// against the other.
pub open spec fn declares_wide(colorterm: Option<Seq<char>>, term: Option<Seq<char>>) -> bool {
    (colorterm == Some("truecolor"@) || colorterm == Some("24bit"@)) || (term is Some
        && occurs_in("256color"@, term->0))
}

/// The clause the Settings screen prints after *"Your terminal reports:"*.
pub open spec fn colour_report_text(colours: Option<u16>) -> Seq<char> {
    match colours {
        Some(count) => decimal(count as nat) + " supported"@,
        None => "nothing at all"@,
    }
}

impl Capabilities {
    /// The palette size this value reports.
    pub closed spec fn colours(self) -> Option<u16> {
        self.colours
    }

    /// Decides the facts from what the environment declared: `colorterm` and `term` are
    /// the two variables' values, [`None`] where one is unset or unreadable. A wide
    /// palette is reported as 256, the most the game draws with.
    pub fn declared(colorterm: Option<&str>, term: Option<&str>) -> (caps: Capabilities)
        ensures
            caps.colours() == (if declares_wide(
                match colorterm {
                    Some(c) => Some(c@),
                    None => None,
                },
                match term {
                    Some(t) => Some(t@),
                    None => None,
                },
            ) {
                Some(256u16)
            } else {
                None
            }),
    {
        proof {
            reveal_strlit("truecolor");
            reveal_strlit("24bit");
        }
        let named_truecolour = match colorterm {
            Some(c) => same_text(c, "truecolor") || same_text(c, "24bit"),
            None => false,
        };
        let term_wide = match term {
            Some(t) => contains_text(t, "256color"),
            None => false,
        };
        if named_truecolour || term_wide {
            Capabilities { colours: Some(256) }
        } else {
            Capabilities { colours: None }
        }
    }

    /// What the Settings screen prints after *"Your terminal reports:"* — a whole
    /// clause and not a number, so the unknown case reads as a sentence.
    pub fn colour_report(self) -> (r: String)
        ensures
            r@ == colour_report_text(self.colours()),
    {
        match self.colours {
            Some(count) => {
                let mut text = decimal_string(count as u64);
                text.append(" supported");
                text
            },
            None => "nothing at all".to_owned(),
        }
    }

    /// The same facts, stated rather than detected.
    pub fn with_colours(colours: Option<u16>) -> (caps: Capabilities)
        ensures
            caps.colours() == colours,
    {
        Capabilities { colours }
    }
}

impl Default for Capabilities {
    /// What a session gets when nobody asked: a terminal that declared nothing.
    fn default() -> (caps: Capabilities)
        ensures
            caps.colours() == None::<u16>,
    {
        Capabilities { colours: None }
    }
}

} // verus!
