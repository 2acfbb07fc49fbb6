//! Front-end configuration — the player preferences the interface reads while drawing.
//!
//! These are the fields the Settings screen edits and the ones stored **inside the
//! save**, so there is no config file to desync from it. Every preference is a closed
//! enum, the duration included: a ladder of four rungs makes `toast_seconds: 0` — a
//! preference that would silently switch every announcement off — a state nobody can
//! write down. The field order of [`Config`] is the Settings screen's row order.
//!
//! Each preference implements `==` by hand, variant against variant, because the one
//! stepping rule every list follows ([`step_in`](crate::cursor::step_in)) compares the
//! value under the cursor with the rows of its ladder, and it needs that comparison to
//! mean equality.

use std::time::Duration;
use vstd::prelude::*;
use vstd::laws_eq::obeys_concrete_eq;
use vstd::std_specs::cmp::PartialEqSpecImpl;

verus! {

/// What `Duration::from_secs` builds from a count of seconds.
pub uninterp spec fn duration_from_secs(secs: u64) -> Duration;

/// Calls `std::time::Duration::from_secs`, which builds the span of `secs` whole
/// seconds; the contract claims only that the same count builds the same span.
#[verifier::external_body]
pub(crate) fn seconds(secs: u64) -> (d: Duration)
    ensures
        d == duration_from_secs(secs),
{
    Duration::from_secs(secs)
}

/// How many seconds every toast lasted before the duration was a preference — the
/// wireframe's figure, and what the default rung is defined from.
pub const TOAST_TTL_SECS: u64 = 3;

/// How many colours to ask the terminal for.
#[derive(Clone, Copy, Debug, Eq)]
pub enum ColourMode {
    /// The full 256-colour palette, where every block gets its own swatch.
    Ansi256,
    /// Sixteen colours, one per mine.
    Ansi16,
}

impl PartialEq for ColourMode {
    fn eq(&self, other: &ColourMode) -> (r: bool) {
        match (self, other) {
            (ColourMode::Ansi256, ColourMode::Ansi256) => true,
            (ColourMode::Ansi16, ColourMode::Ansi16) => true,
            _ => false,
        }
    }
}

impl PartialEqSpecImpl for ColourMode {
    open spec fn obeys_eq_spec() -> bool {
        true
    }

    open spec fn eq_spec(&self, other: &ColourMode) -> bool {
        *self == *other
    }
}

impl Default for ColourMode {
    fn default() -> (r: ColourMode)
        ensures
            r == ColourMode::Ansi256,
    {
        ColourMode::Ansi256
    }
}

/// The value column's text for a palette size.
pub open spec fn colour_mode_label(mode: ColourMode) -> Seq<char> {
    match mode {
        ColourMode::Ansi256 => "256"@,
        ColourMode::Ansi16 => "16"@,
    }
}

impl ColourMode {
    /// The value column's text on the Settings screen: the palette's size.
    pub fn label(self) -> (r: &'static str)
        ensures
            r@ == colour_mode_label(self),
    {
        match self {
            ColourMode::Ansi256 => "256",
            ColourMode::Ansi16 => "16",
        }
    }
}

/// How the mine key is read — the one preference that changes behaviour, not looks.
#[derive(Clone, Copy, Debug, Eq)]
pub enum MiningInput {
    /// Mine while the key is held.
    Hold,
    /// One press starts mining, the next stops it.
    PressToStart,
}

impl PartialEq for MiningInput {
    fn eq(&self, other: &MiningInput) -> (r: bool) {
        match (self, other) {
            (MiningInput::Hold, MiningInput::Hold) => true,
            (MiningInput::PressToStart, MiningInput::PressToStart) => true,
            _ => false,
        }
    }
}

impl PartialEqSpecImpl for MiningInput {
    open spec fn obeys_eq_spec() -> bool {
        true
    }

    open spec fn eq_spec(&self, other: &MiningInput) -> bool {
        *self == *other
    }
}

impl Default for MiningInput {
    fn default() -> (r: MiningInput)
        ensures
            r == MiningInput::Hold,
    {
        MiningInput::Hold
    }
}

/// The value column's text for a mining mode: the gesture, not the mechanism.
pub open spec fn mining_input_label(mode: MiningInput) -> Seq<char> {
    match mode {
        MiningInput::Hold => "Hold"@,
        MiningInput::PressToStart => "Press to start"@,
    }
}

impl MiningInput {
    /// The value column's text on the Settings screen.
    pub fn label(self) -> (r: &'static str)
        ensures
            r@ == mining_input_label(self),
    {
        match self {
            MiningInput::Hold => "Hold",
            MiningInput::PressToStart => "Press to start",
        }
    }
}

/// How a figure's thousands are grouped. Only the separator is a preference:
/// numbers are exact and never abbreviated.
#[derive(Clone, Copy, Debug, Eq)]
pub enum NumberFormat {
    /// `1 234 567` — an ASCII space, and the crate's default.
    Spaced,
    /// `1,234,567`.
    Comma,
    /// `1234567`, ungrouped.
    Plain,
}

impl PartialEq for NumberFormat {
    fn eq(&self, other: &NumberFormat) -> (r: bool) {
        match (self, other) {
            (NumberFormat::Spaced, NumberFormat::Spaced) => true,
            (NumberFormat::Comma, NumberFormat::Comma) => true,
            (NumberFormat::Plain, NumberFormat::Plain) => true,
            _ => false,
        }
    }
}

impl PartialEqSpecImpl for NumberFormat {
    open spec fn obeys_eq_spec() -> bool {
        true
    }

    open spec fn eq_spec(&self, other: &NumberFormat) -> bool {
        *self == *other
    }
}

impl Default for NumberFormat {
    fn default() -> (r: NumberFormat)
        ensures
            r == NumberFormat::Spaced,
    {
        NumberFormat::Spaced
    }
}

/// The value column's text for a number format — the format shown *as itself*.
pub open spec fn number_format_label(format: NumberFormat) -> Seq<char> {
    match format {
        NumberFormat::Spaced => "1 234 567"@,
        NumberFormat::Comma => "1,234,567"@,
        NumberFormat::Plain => "1234567"@,
    }
}

/// What a number format inserts between groups of three, if anything.
pub open spec fn number_format_separator(format: NumberFormat) -> Option<char> {
    match format {
        NumberFormat::Spaced => Some(' '),
        NumberFormat::Comma => Some(','),
        NumberFormat::Plain => None,
    }
}

impl NumberFormat {
    /// The value column's text — the format shown *as itself*, rather than named.
    pub fn label(self) -> (r: &'static str)
        ensures
            r@ == number_format_label(self),
    {
        match self {
            NumberFormat::Spaced => "1 234 567",
            NumberFormat::Comma => "1,234,567",
            NumberFormat::Plain => "1234567",
        }
    }

    /// What to insert between groups of three, or [`None`] to insert nothing.
    pub fn separator(self) -> (r: Option<char>)
        ensures
            r == number_format_separator(self),
    {
        match self {
            NumberFormat::Spaced => Some(' '),
            NumberFormat::Comma => Some(','),
            NumberFormat::Plain => None,
        }
    }
}

/// How long an announcement stays on screen — a ladder and not a number.
#[derive(Clone, Copy, Debug, Eq)]
pub enum ToastDuration {
    /// Two seconds.
    Brief,
    /// Three — the wireframe's figure.
    Normal,
    /// Five.
    Long,
    /// Eight, for a reader who wants time to finish the line.
    Lingering,
}

impl PartialEq for ToastDuration {
    fn eq(&self, other: &ToastDuration) -> (r: bool) {
        match (self, other) {
            (ToastDuration::Brief, ToastDuration::Brief) => true,
            (ToastDuration::Normal, ToastDuration::Normal) => true,
            (ToastDuration::Long, ToastDuration::Long) => true,
            (ToastDuration::Lingering, ToastDuration::Lingering) => true,
            _ => false,
        }
    }
}

impl PartialEqSpecImpl for ToastDuration {
    open spec fn obeys_eq_spec() -> bool {
        true
    }

    open spec fn eq_spec(&self, other: &ToastDuration) -> bool {
        *self == *other
    }
}

impl Default for ToastDuration {
    fn default() -> (r: ToastDuration)
        ensures
            r == ToastDuration::Normal,
    {
        ToastDuration::Normal
    }
}

/// How many seconds a rung is worth; the default rung is [`TOAST_TTL_SECS`].
pub open spec fn toast_seconds(rung: ToastDuration) -> u64 {
    match rung {
        ToastDuration::Brief => 2,
        ToastDuration::Normal => TOAST_TTL_SECS,
        ToastDuration::Long => 5,
        ToastDuration::Lingering => 8,
    }
}

/// The value column's text for a rung, in the crate's elapsed-time vocabulary.
pub open spec fn toast_label(rung: ToastDuration) -> Seq<char> {
    match rung {
        ToastDuration::Brief => "2s"@,
        ToastDuration::Normal => "3s"@,
        ToastDuration::Long => "5s"@,
        ToastDuration::Lingering => "8s"@,
    }
}

impl ToastDuration {
    /// How many seconds this rung is worth.
    fn seconds(self) -> (r: u64)
        ensures
            r == toast_seconds(self),
    {
        match self {
            ToastDuration::Brief => 2,
            ToastDuration::Normal => TOAST_TTL_SECS,
            ToastDuration::Long => 5,
            ToastDuration::Lingering => 8,
        }
    }

    /// The same, as the [`Duration`] every toast is pushed with.
    pub fn ttl(self) -> (d: Duration)
        ensures
            d == duration_from_secs(toast_seconds(self)),
    {
        seconds(self.seconds())
    }

    /// The value column's text, in the crate's own elapsed-time vocabulary (`3s`).
    pub fn label(self) -> (r: &'static str)
        ensures
            r@ == toast_label(self),
    {
        match self {
            ToastDuration::Brief => "2s",
            ToastDuration::Normal => "3s",
            ToastDuration::Long => "5s",
            ToastDuration::Lingering => "8s",
        }
    }
}

/// The key pair that switches Upgrades sub-tabs — three choices, `⇧←→` by default.
#[derive(Clone, Copy, Debug, Eq)]
pub enum SubTabKeys {
    /// `Shift+←` / `Shift+→`, printed `⇧← ⇧→`.
    ShiftArrows,
    /// The vi pair `h` / `l`.
    HL,
    /// The bracket pair `[` / `]`.
    Brackets,
}

impl PartialEq for SubTabKeys {
    fn eq(&self, other: &SubTabKeys) -> (r: bool) {
        match (self, other) {
            (SubTabKeys::ShiftArrows, SubTabKeys::ShiftArrows) => true,
            (SubTabKeys::HL, SubTabKeys::HL) => true,
            (SubTabKeys::Brackets, SubTabKeys::Brackets) => true,
            _ => false,
        }
    }
}

impl PartialEqSpecImpl for SubTabKeys {
    open spec fn obeys_eq_spec() -> bool {
        true
    }

    open spec fn eq_spec(&self, other: &SubTabKeys) -> bool {
        *self == *other
    }
}

impl Default for SubTabKeys {
    fn default() -> (r: SubTabKeys)
        ensures
            r == SubTabKeys::ShiftArrows,
    {
        SubTabKeys::ShiftArrows
    }
}

/// How a sub-tab binding prints in a footer or help line.
pub open spec fn sub_tab_keys_label(keys: SubTabKeys) -> Seq<char> {
    match keys {
        SubTabKeys::ShiftArrows => "⇧← ⇧→"@,
        SubTabKeys::HL => "h  l"@,
        SubTabKeys::Brackets => "[  ]"@,
    }
}

impl SubTabKeys {
    /// How the binding prints in a footer or help line — from config, never from the
    /// default, so an aid cannot teach a key that does nothing.
    pub fn label(self) -> (r: &'static str)
        ensures
            r@ == sub_tab_keys_label(self),
    {
        match self {
            SubTabKeys::ShiftArrows => "⇧← ⇧→",
            SubTabKeys::HL => "h  l",
            SubTabKeys::Brackets => "[  ]",
        }
    }
}

/// The front-end preferences held while a session runs, in the order the Settings
/// screen draws them.
#[derive(Clone, Debug, PartialEq, Eq)]
pub struct Config {
    /// How many colours to ask the terminal for.
    pub colour: ColourMode,
    /// Whether the mine key is held or toggled.
    pub mining_input: MiningInput,
    /// How a figure's thousands are punctuated.
    pub number_format: NumberFormat,
    /// How long an announcement stays up.
    pub toast_duration: ToastDuration,
    /// The Upgrades sub-tab switch binding.
    pub sub_tab_keys: SubTabKeys,
}

/// What a fresh install reads: the game exactly as it played before settings existed.
pub open spec fn default_config() -> Config {
    Config {
        colour: ColourMode::Ansi256,
        mining_input: MiningInput::Hold,
        number_format: NumberFormat::Spaced,
        toast_duration: ToastDuration::Normal,
        sub_tab_keys: SubTabKeys::ShiftArrows,
    }
}

impl Default for Config {
    fn default() -> (r: Config)
        ensures
            r == default_config(),
    {
        Config {
            colour: ColourMode::default(),
            mining_input: MiningInput::default(),
            number_format: NumberFormat::default(),
            toast_duration: ToastDuration::default(),
            sub_tab_keys: SubTabKeys::default(),
        }
    }
}

impl Config {
    /// How long a toast this session pushes should live.
    pub fn toast_ttl(&self) -> (d: Duration)
        ensures
            d == duration_from_secs(toast_seconds(self.toast_duration)),
    {
        self.toast_duration.ttl()
    }
}

/// Each preference's `==` is equality of the preference itself, which is what lets the
/// stepping rule find the value under the cursor on its ladder.
pub proof fn lemma_preferences_compare_as_themselves()
    ensures
        obeys_concrete_eq::<ColourMode>(),
        obeys_concrete_eq::<MiningInput>(),
        obeys_concrete_eq::<NumberFormat>(),
        obeys_concrete_eq::<ToastDuration>(),
        obeys_concrete_eq::<SubTabKeys>(),
{
    reveal(obeys_concrete_eq);
}

/// A fresh config lasts toasts the wireframe's three seconds, and every rung's label
/// names the number of seconds it actually lasts.
pub proof fn lemma_toast_rungs_say_what_they_last(rung: ToastDuration)
    ensures
        toast_seconds(default_config().toast_duration) == TOAST_TTL_SECS,
        toast_label(rung) == crate::text::decimal(toast_seconds(rung) as nat) + "s"@,
{
    reveal_strlit("s");
    reveal_strlit("2s");
    reveal_strlit("3s");
    reveal_strlit("5s");
    reveal_strlit("8s");
    assert(toast_label(rung) =~= crate::text::decimal(toast_seconds(rung) as nat) + "s"@);
}

} // verus!
