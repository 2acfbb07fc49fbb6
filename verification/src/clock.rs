//! The frame clock's two decisions: how many simulation steps fall due, and whether
//! the player is mining.
//!
//! **A deadline, not a countdown.** The run keeps the instant its next step falls due;
//! a pass over the loop runs steps *until* that deadline passes `now`, adding one
//! period each time, so a frame that took 80 ms runs the step it owed and stays on the
//! same grid. A remaining-time counter decremented by the elapsed time would drift by
//! whatever each frame overshot.
//!
//! Instants are plain nanosecond counts from one origin the caller keeps, as in
//! [`crate::flash`], so both decisions can be stated and tested without a clock.

use vstd::prelude::*;

use crate::config::MiningInput;
use crate::flash::since;
use crate::reducer::MineKeyEdge;

verus! {

/// One simulation step, in nanoseconds: the game runs twenty steps a second, and
/// nanoseconds make the division exact.
pub const SIM_PERIOD: u64 = 50_000_000;

/// How long after the mine key was last heard from the player still counts as holding
/// it, in nanoseconds.
///
/// **1100 ms is not a preference.** A terminal that cannot report a release leaves only
/// auto-repeat to observe, and this window must outlast the longest *initial* repeat
/// delay a user setting can produce — a thousand milliseconds — or mining would cut out
/// between the first press and the second.
pub const HOLD_WINDOW: u64 = 1_100_000_000;

/// The most simulation steps one pass runs before giving up and resynchronising: a
/// second's worth. A laptop closed mid-session would otherwise hand the loop an hour of
/// arrears to replay in one frame; what the player is owed for that hour is the
/// offline accrual's answer, not a replay.
pub const MAX_CATCHUP_TICKS: u32 = 20;

/// How many steps have fallen due by `now` when the next was due at `next_tick`: none
/// before the deadline, one on it, and one more for each whole period after it.
pub open spec fn owed(next_tick: u64, now: u64, period: u64) -> nat {
    if now < next_tick {
        0
    } else {
        ((now - next_tick) as nat / period as nat + 1) as nat
    }
}

/// How many steps a pass runs, and when the next one falls due after it: every step
/// owed, up to [`MAX_CATCHUP_TICKS`]; the deadline moves one period per step run, and a
/// pass that hit the cap re-anchors it one period after `now` instead of owing the
/// surplus.
pub open spec fn scheduled(next_tick: u64, now: u64, period: u64) -> (nat, int) {
    let due = owed(next_tick, now, period);
    if due >= MAX_CATCHUP_TICKS {
        (MAX_CATCHUP_TICKS as nat, now + period)
    } else {
        (due, next_tick + due * period)
    }
}

/// Step `s` (counting from zero) is due by `now` exactly when fewer than `owed` steps
/// come before it.
proof fn lemma_step_due(next_tick: u64, now: u64, period: u64, s: nat)
    requires
        period > 0,
    ensures
        (now >= next_tick + s * period) <==> (s < owed(next_tick, now, period)),
{
    if now >= next_tick {
        let d = (now - next_tick) as int;
        let p = period as int;
        let q = d / p;
        vstd::arithmetic::div_mod::lemma_fundamental_div_mod(d, p);
        vstd::arithmetic::div_mod::lemma_mod_bound(d, p);
        let r = d % p;
        if s <= q {
            assert(s * p <= q * p) by (nonlinear_arith)
                requires s <= q, p > 0;
            assert(d == p * q + r);
            assert(s * p <= d) by (nonlinear_arith)
                requires s * p <= q * p, d == p * q + r, r >= 0;
        } else {
            assert(s * p >= (q + 1) * p) by (nonlinear_arith)
                requires s >= q + 1, p > 0;
            assert(s * p > d) by (nonlinear_arith)
                requires s * p >= (q + 1) * p, d == p * q + r, r < p;
        }
    } else {
        assert(s * period >= 0) by (nonlinear_arith);
    }
}

/// Runs the deadline forward to `now`: how many steps fall due, and the deadline after
/// them.
///
/// **Arrears past the cap are dropped rather than owed**: a session that was suspended
/// comes back to a deadline one period in the future instead of an hour of steps to
/// replay.
pub fn catch_up(next_tick: u64, now: u64, period: u64) -> (r: (u32, u64))
    requires
        period > 0,
        now + period <= u64::MAX,
    ensures
        r.0 as nat == scheduled(next_tick, now, period).0,
        r.1 as int == scheduled(next_tick, now, period).1,
{
    let mut next = next_tick;
    let mut steps: u32 = 0;
    while now >= next && steps < MAX_CATCHUP_TICKS
        invariant
            period > 0,
            now + period <= u64::MAX,
            steps <= MAX_CATCHUP_TICKS,
            steps <= owed(next_tick, now, period),
            next == next_tick + steps * period,
        decreases MAX_CATCHUP_TICKS - steps,
    {
        proof {
            lemma_step_due(next_tick, now, period, steps as nat);
        }
        next = next + period;
        steps = steps + 1;
        proof {
            assert(next == next_tick + steps * period) by (nonlinear_arith)
                requires next == next_tick + (steps - 1) * period + period;
        }
    }
    proof {
        lemma_step_due(next_tick, now, period, steps as nat);
    }
    if steps == MAX_CATCHUP_TICKS {
        next = now + period;
    }
    (steps, next)
}

/// What the mine-key reader carries from one pass to the next.
#[derive(Clone, Copy, Debug, PartialEq, Eq, Structural)]
pub struct MineKey {
    /// When the key was last heard from, or [`None`] if it is up.
    pub last_heard: Option<u64>,
    /// Whether the key read as down on the previous pass.
    pub was_down: bool,
    /// The press-to-start latch: whether mining was switched on.
    pub latched: bool,
}

/// A key that has never been heard from, and mining switched off.
pub open spec fn quiet_key() -> MineKey {
    MineKey { last_heard: None, was_down: false, latched: false }
}

/// A reader that has heard nothing yet.
pub fn quiet() -> (k: MineKey)
    ensures
        k == quiet_key(),
{
    MineKey { last_heard: None, was_down: false, latched: false }
}

/// When the key was last heard from after `edge`: a press stamps `now`, a release
/// forgets the key at once, and no edge leaves the stamp alone.
pub open spec fn heard_after(last_heard: Option<u64>, edge: Option<MineKeyEdge>, now: u64) -> Option<u64> {
    match edge {
        Some(MineKeyEdge::Down) => Some(now),
        Some(MineKeyEdge::Up) => None,
        None => last_heard,
    }
}

/// Whether a key last heard from at `last_heard` still reads as down at `now`: heard
/// from, and less than [`HOLD_WINDOW`] ago.
pub open spec fn key_down(last_heard: Option<u64>, now: u64) -> bool {
    match last_heard {
        Some(at) => since(now, at) < HOLD_WINDOW,
        None => false,
    }
}

/// The reader after one pass at `now`, with `edge` the key's latest edge since the
/// last pass. The latch flips on the **rising edge** of "the key is down", and only in
/// press-to-start mode: auto-repeat refreshes that predicate without letting it fall,
/// so holding the key toggles once, whatever the repeat rate.
pub open spec fn key_after(key: MineKey, edge: Option<MineKeyEdge>, now: u64, mode: MiningInput) -> MineKey {
    let heard = heard_after(key.last_heard, edge, now);
    let down = key_down(heard, now);
    let latched = if mode == MiningInput::PressToStart && down && !key.was_down {
        !key.latched
    } else {
        key.latched
    };
    MineKey { last_heard: heard, was_down: down, latched }
}

/// Whether the player is mining on this pass: the key is down in hold mode; the latch
/// is on in press-to-start mode.
pub open spec fn mining_after(key: MineKey, edge: Option<MineKeyEdge>, now: u64, mode: MiningInput) -> bool {
    match mode {
        MiningInput::Hold => key_after(key, edge, now, mode).was_down,
        MiningInput::PressToStart => key_after(key, edge, now, mode).latched,
    }
}

/// Reads the mine key on a pass at `now`: whether the player is mining, and what the
/// reader carries to the next pass.
pub fn read_mine_key(key: MineKey, edge: Option<MineKeyEdge>, now: u64, mode: MiningInput) -> (r: (
    bool,
    MineKey,
))
    ensures
        r.0 == mining_after(key, edge, now, mode),
        r.1 == key_after(key, edge, now, mode),
{
    let heard = match edge {
        Some(MineKeyEdge::Down) => Some(now),
        Some(MineKeyEdge::Up) => None,
        None => key.last_heard,
    };
    let down = match heard {
        Some(at) => {
            let elapsed = if now >= at {
                now - at
            } else {
                0
            };
            elapsed < HOLD_WINDOW
        },
        None => false,
    };
    let press_to_start = match mode {
        MiningInput::Hold => false,
        MiningInput::PressToStart => true,
    };
    let latched = if press_to_start && down && !key.was_down {
        !key.latched
    } else {
        key.latched
    };
    let mining = if press_to_start {
        latched
    } else {
        down
    };
    (mining, MineKey { last_heard: heard, was_down: down, latched })
}

/// **A release cuts the window early rather than taking a second path**: after a
/// reported release the key reads as up at once, in either mode's terms, and a held
/// key stays down for exactly the window after it was last heard from.
pub proof fn lemma_release_and_window(key: MineKey, now: u64, later: u64, mode: MiningInput)
    requires
        now <= later,
    ensures
        !key_after(key, Some(MineKeyEdge::Up), later, mode).was_down,
        key_after(key, Some(MineKeyEdge::Down), now, mode).was_down,
        key_down(Some(now), later) <==> later - now < HOLD_WINDOW,
{
}

/// **Holding the key toggles once**: in press-to-start mode, a pass on which the key
/// was already down leaves the latch as it was, however many repeats refreshed it; and
/// a fresh press (the key up before, down now) flips it.
pub proof fn lemma_a_held_key_toggles_once(key: MineKey, edge: Option<MineKeyEdge>, now: u64)
    ensures
        key.was_down ==> key_after(key, edge, now, MiningInput::PressToStart).latched == key.latched,
        !key.was_down && key_down(heard_after(key.last_heard, edge, now), now) ==> key_after(
            key,
            edge,
            now,
            MiningInput::PressToStart,
        ).latched == !key.latched,
{
}

/// **Hold mode never latches**: in hold mode the player mines exactly while the key
/// reads as down, and the latch is left as it was.
pub proof fn lemma_hold_mode_follows_the_key(key: MineKey, edge: Option<MineKeyEdge>, now: u64)
    ensures
        mining_after(key, edge, now, MiningInput::Hold) == key_down(heard_after(key.last_heard, edge, now), now),
        key_after(key, edge, now, MiningInput::Hold).latched == key.latched,
{
}

} // verus!
