//! Skylode's terminal front-end logic: the preferences, the cursors, the key
//! decoding and the text the screens print, each with its contract.

use vstd::prelude::*;

pub mod action;
pub mod announce;
pub mod capability;
pub mod cli;
pub mod clock;
pub mod config;
pub mod event;
pub mod flash;
pub mod format;
pub mod keymap;
pub mod overlay;
pub mod reducer;
pub mod screen;
pub mod cursor;
pub mod text;

verus! {

} // verus!
