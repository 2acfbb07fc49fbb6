//! The terminal event source's decisions.
//!
//! A background loop polls the terminal and forwards what it reads, so the render loop
//! can block on one queue and receive both real input *and* a periodic
//! [`Event::Tick`]. The loop itself — the thread, the poll, the channel — belongs to the
//! program's edge; what it decides on each turn is here: how long to wait, whether a
//! tick is due, and which terminal reports are worth forwarding.

use vstd::prelude::*;

use crate::keymap::KeyEvent;

verus! {

/// What the render loop receives.
#[derive(Clone, Copy, Debug, PartialEq, Eq, Structural)]
pub enum Event {
    /// The sampling period has passed.
    Tick,
    /// A key went down, repeated or came up — releases included, since the mine key's
    /// stop is a release.
    Key(KeyEvent),
    /// The terminal changed size.
    Resize,
}

/// What the terminal reported.
#[derive(Clone, Copy, Debug, PartialEq, Eq, Structural)]
pub enum TerminalInput {
    /// A key event of any kind.
    Key(KeyEvent),
    /// A new size.
    Resize,
    /// Mouse, focus, paste: nothing this game reads.
    Other,
}

/// What the loop forwards for a terminal report.
pub open spec fn forwarded_event(input: TerminalInput) -> Option<Event> {
    match input {
        TerminalInput::Key(key) => Some(Event::Key(key)),
        TerminalInput::Resize => Some(Event::Resize),
        TerminalInput::Other => None,
    }
}

/// How long to wait for input, in nanoseconds: what is left of the period, or a whole
/// period when the last tick is already further back than one.
pub open spec fn poll_timeout_of(tick_rate: u64, since_tick: u64) -> u64 {
    if since_tick <= tick_rate {
        (tick_rate - since_tick) as u64
    } else {
        tick_rate
    }
}

/// What the loop forwards for a terminal report: keys of every kind and resizes;
/// everything else is dropped.
pub fn forwarded(input: TerminalInput) -> (r: Option<Event>)
    ensures
        r == forwarded_event(input),
{
    match input {
        TerminalInput::Key(key) => Some(Event::Key(key)),
        TerminalInput::Resize => Some(Event::Resize),
        TerminalInput::Other => None,
    }
}

/// How long the next poll may wait, `since_tick` nanoseconds after the last tick, on a
/// period of `tick_rate` nanoseconds.
pub fn poll_timeout(tick_rate: u64, since_tick: u64) -> (r: u64)
    ensures
        r == poll_timeout_of(tick_rate, since_tick),
        r <= tick_rate,
{
    match tick_rate.checked_sub(since_tick) {
        Some(left) => left,
        None => tick_rate,
    }
}

/// Whether a tick is owed, `since_tick` nanoseconds after the last one.
pub fn tick_due(tick_rate: u64, since_tick: u64) -> (r: bool)
    ensures
        r == (since_tick >= tick_rate),
{
    since_tick >= tick_rate
}

/// **The loop never waits past a tick it owes**: the wait plus the time already gone is
/// exactly one period while the period is still running, and a tick is due exactly when
/// nothing of the period is left to wait.
pub proof fn lemma_a_wait_ends_at_the_next_tick(tick_rate: u64, since_tick: u64)
    ensures
        since_tick <= tick_rate ==> poll_timeout_of(tick_rate, since_tick) + since_tick == tick_rate,
        poll_timeout_of(tick_rate, since_tick) <= tick_rate,
        (since_tick >= tick_rate && since_tick <= tick_rate) ==> poll_timeout_of(tick_rate, since_tick)
            == 0,
{
}

} // verus!
