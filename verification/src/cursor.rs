//! Where the player is *pointing*, as opposed to where they are.
//!
//! A cursor is front-end state and nothing else: which row of a list is
//! highlighted, which sub-tab is showing. Every list in the crate wraps past either
//! end, and the two functions that say how — [`step_index`] for a bare index and
//! [`step_in`] for a typed value — are the one place that rule is written.

use vstd::prelude::*;
use vstd::arithmetic::div_mod::{
    lemma_add_mod_noop, lemma_add_mod_noop_right, lemma_fundamental_div_mod,
    lemma_fundamental_div_mod_converse, lemma_mod_bound, lemma_small_mod,
};
use vstd::laws_eq::obeys_concrete_eq;

use crate::overlay::dev::{LEVEL_CAP, MATERIAL_COUNT};
use crate::screen::Screen;

verus! {

/// Which sub-tab of the Upgrades screen is showing.
#[derive(Clone, Copy, Debug, PartialEq, Eq, Structural)]
pub enum UpgradeTab {
    /// The pickaxe ladder — a single linear roadmap, no rung skippable.
    Pickaxe,
    /// The six enchant tracks, each at its frontier.
    Enchants,
    /// The twelve mines' size and richness tracks.
    Mines,
}

/// The sub-tab after `tab`, wrapping past the last back to the first.
pub open spec fn upgrade_tab_after(tab: UpgradeTab) -> UpgradeTab {
    match tab {
        UpgradeTab::Pickaxe => UpgradeTab::Enchants,
        UpgradeTab::Enchants => UpgradeTab::Mines,
        UpgradeTab::Mines => UpgradeTab::Pickaxe,
    }
}

/// The sub-tab before `tab`, wrapping past the first back to the last.
pub open spec fn upgrade_tab_before(tab: UpgradeTab) -> UpgradeTab {
    match tab {
        UpgradeTab::Pickaxe => UpgradeTab::Mines,
        UpgradeTab::Enchants => UpgradeTab::Pickaxe,
        UpgradeTab::Mines => UpgradeTab::Enchants,
    }
}

impl UpgradeTab {
    /// The three, in the order the sub-tab bar prints them.
    pub const ALL: [UpgradeTab; 3] = [UpgradeTab::Pickaxe, UpgradeTab::Enchants, UpgradeTab::Mines];

    /// The next sub-tab, **wrapping** past the last back to the first: the three are
    /// equivalent destinations, so passing the end of them is not a jump across anything.
    pub fn next(self) -> (r: UpgradeTab)
        ensures
            r == upgrade_tab_after(self),
    {
        match self {
            UpgradeTab::Pickaxe => UpgradeTab::Enchants,
            UpgradeTab::Enchants => UpgradeTab::Mines,
            UpgradeTab::Mines => UpgradeTab::Pickaxe,
        }
    }

    /// The previous sub-tab, wrapping the other way.
    pub fn prev(self) -> (r: UpgradeTab)
        ensures
            r == upgrade_tab_before(self),
    {
        match self {
            UpgradeTab::Pickaxe => UpgradeTab::Mines,
            UpgradeTab::Enchants => UpgradeTab::Pickaxe,
            UpgradeTab::Mines => UpgradeTab::Enchants,
        }
    }
}

/// The sub-tabs are a ring: a step forward and a step back, in either order, lands
/// where it started.
pub proof fn lemma_upgrade_tabs_are_a_ring(tab: UpgradeTab)
    ensures
        upgrade_tab_before(upgrade_tab_after(tab)) == tab,
        upgrade_tab_after(upgrade_tab_before(tab)) == tab,
        upgrade_tab_after(upgrade_tab_after(upgrade_tab_after(tab))) == tab,
{
}

/// Which of a mine's two paid tracks a row of the Mines sub-tab is about.
#[derive(Clone, Copy, Debug, PartialEq, Eq, Structural)]
pub enum MineTrack {
    /// The grid's size level.
    Size,
    /// The richness *ceiling* — never the free dial, which lives on the Mines screen.
    Richness,
}

impl MineTrack {
    /// Both tracks, in the order each mine's two rows are drawn.
    pub const ALL: [MineTrack; 2] = [MineTrack::Size, MineTrack::Richness];
}

/// `current + delta`, held inside the range an `isize` can count.
pub open spec fn saturated(current: int, delta: int) -> int {
    let sum = current + delta;
    if sum < isize::MIN {
        isize::MIN as int
    } else if sum > isize::MAX {
        isize::MAX as int
    } else {
        sum
    }
}

/// Where an index lands after a step of `delta` through `len` rows, wrapping.
///
/// The sum is the mathematical modulo — always non-negative — so a step back from
/// row zero lands on the last row; an empty list answers zero.
pub open spec fn stepped_index(len: nat, current: nat, delta: int) -> nat {
    if len == 0 {
        0
    } else {
        (saturated(current as int, delta) % (len as int)) as nat
    }
}

/// Steps an **index** by `delta`, **wrapping** around a list of `len` rows.
///
/// A `current` past the end folds back in (`50` in a list of `46` reads as row `4`),
/// and a `len` of zero answers `0`, since there is no row to land on.
pub fn step_index(len: usize, current: usize, delta: isize) -> (r: usize)
    requires
        len <= isize::MAX,
        current <= isize::MAX,
    ensures
        r == stepped_index(len as nat, current as nat, delta as int),
        len > 0 ==> r < len,
        len == 0 ==> r == 0,
{
    if len == 0 {
        return 0;
    }
    let sum: i128 = current as i128 + delta as i128;
    let next: i128 = if sum < isize::MIN as i128 {
        isize::MIN as i128
    } else if sum > isize::MAX as i128 {
        isize::MAX as i128
    } else {
        sum
    };
    let size: i128 = len as i128;
    let back: i128 = if next >= 0 {
        0
    } else {
        (-next) % size
    };
    let folded: i128 = if next >= 0 {
        next % size
    } else if back == 0 {
        0
    } else {
        size - back
    };
    proof {
        let n = next as int;
        let m = size as int;
        assert(next == saturated(current as int, delta as int));
        if n < 0 {
            let b = (-n) % m;
            assert(b == back);
            lemma_fundamental_div_mod(-n, m);
            lemma_mod_bound(-n, m);
            let q = (-n) / m;
            if b == 0 {
                assert(n == (-q) * m + 0) by (nonlinear_arith)
                    requires -n == m * q + b, b == 0;
                lemma_fundamental_div_mod_converse(n, m, -q, 0);
            } else {
                assert(n == (-q - 1) * m + (m - b)) by (nonlinear_arith)
                    requires -n == m * q + b;
                lemma_fundamental_div_mod_converse(n, m, -q - 1, m - b);
            }
        } else {
            lemma_mod_bound(n, m);
        }
    }
    folded as usize
}

/// Stepping forward and then back by the same amount returns to the row it started
/// on, whenever the start is a row of the list and nothing saturated on the way.
pub proof fn lemma_step_index_round_trip(len: nat, current: nat, delta: int)
    requires
        0 < len <= isize::MAX,
        current < len,
        isize::MIN <= current + delta <= isize::MAX,
        isize::MIN + delta <= 0,
        len - 1 - delta <= isize::MAX,
    ensures
        stepped_index(len, stepped_index(len, current, delta), -delta) == current,
{
    let l = len as int;
    let c = current as int;
    let there = c + delta;
    assert(saturated(c, delta) == there);
    lemma_fundamental_div_mod(there, l);
    lemma_mod_bound(there, l);
    let landed = there % l;
    let q = there / l;
    assert(stepped_index(len, current, delta) == landed);
    assert(saturated(landed, -delta) == landed - delta);
    assert(landed - delta == (-q) * l + c) by (nonlinear_arith)
        requires there == l * q + landed, there == c + delta;
    lemma_fundamental_div_mod_converse(landed - delta, l, -q, c);
}

/// The first position at which `x` occurs in `s`, or zero when it does not occur.
pub open spec fn first_position<T>(s: Seq<T>, x: T) -> int {
    if s.contains(x) {
        choose|i: int|
            0 <= i < s.len() && s[i] == x && forall|j: int| 0 <= j < i ==> s[j] != x
    } else {
        0
    }
}

/// The value [`step_in`] lands on.
#[verifier::opaque]
pub open spec fn stepped_in<T>(list: Seq<T>, current: T, delta: int) -> T {
    if list.len() == 0 {
        current
    } else {
        list[stepped_index(list.len(), first_position(list, current) as nat, delta) as int]
    }
}

/// Steps `current` by `delta` along `list`, **wrapping past either end**.
///
/// Every list in the crate wraps, and so do the two rings. Two totality guards: an
/// empty `list` has nowhere to step, and a `current` the list does not hold reads as
/// position zero rather than refusing.
pub fn step_in<T: Copy + PartialEq>(list: &[T], current: T, delta: isize) -> (r: T)
    requires
        list@.len() <= isize::MAX,
        obeys_concrete_eq::<T>(),
    ensures
        r == stepped_in(list@, current, delta as int),
{
    reveal(stepped_in);
    if list.len() == 0 {
        return current;
    }
    let mut index: usize = 0;
    while index < list.len()
        invariant
            index <= list@.len(),
            list@.len() <= isize::MAX,
            obeys_concrete_eq::<T>(),
            forall|j: int| 0 <= j < index ==> list@[j] != current,
        decreases list@.len() - index,
    {
        proof {
            reveal(obeys_concrete_eq);
        }
        if list[index] == current {
            proof {
                reveal(stepped_in);
                assert(list@[index as int] == current);
                assert(list@.contains(current));
                let chosen = first_position(list@, current);
                assert(0 <= chosen < list@.len() && list@[chosen] == current && forall|j: int|
                    0 <= j < chosen ==> list@[j] != current);
                if chosen < index {
                    assert(list@[chosen] != current);
                }
                if index < chosen {
                    assert(list@[index as int] != current);
                }
            }
            let next = step_index(list.len(), index, delta);
            return list[next];
        }
        index = index + 1;
    }
    proof {
        assert(!list@.contains(current)) by {
            if list@.contains(current) {
                let k = choose|k: int| 0 <= k < list@.len() && list@[k] == current;
                assert(list@[k] != current);
            }
        }
    }
    let next = step_index(list.len(), 0, delta);
    list[next]
}

/// In a list that holds no value twice, the first position of the value at row `i`
/// is `i` itself.
pub proof fn lemma_first_position_of_distinct<T>(s: Seq<T>, i: int)
    requires
        s.no_duplicates(),
        0 <= i < s.len(),
    ensures
        first_position(s, s[i]) == i,
{
    assert(s.contains(s[i]));
    let chosen = first_position(s, s[i]);
    assert(0 <= chosen < s.len() && s[chosen] == s[i]);
}

/// In a list that holds no value twice, a step and the opposite step land back on the
/// value the cursor started at, whatever the list is a ladder of — for every step
/// that stays clear of the `isize` bounds the sum saturates at.
pub proof fn lemma_step_in_round_trip<T>(s: Seq<T>, x: T, delta: int)
    requires
        s.no_duplicates(),
        s.contains(x),
        s.len() <= isize::MAX,
        isize::MIN + s.len() <= delta <= isize::MAX - s.len(),
    ensures
        stepped_in(s, stepped_in(s, x, delta), -delta) == x,
{
    reveal(stepped_in);
    let k = choose|k: int| 0 <= k < s.len() && s[k] == x;
    lemma_first_position_of_distinct(s, k);
    let i = first_position(s, x);
    assert(i == k);
    let j = stepped_index(s.len(), i as nat, delta);
    assert(j < s.len()) by {
        lemma_mod_bound(saturated(i, delta), s.len() as int);
    }
    lemma_first_position_of_distinct(s, j as int);
    lemma_step_index_round_trip(s.len(), i as nat, delta);
}

/// `x` stepped forward one row at a time, `n` times over.
pub open spec fn stepped_times<T>(s: Seq<T>, x: T, n: nat) -> T
    decreases n,
{
    if n == 0 {
        x
    } else {
        stepped_in(s, stepped_times(s, x, (n - 1) as nat), 1)
    }
}

/// One step forward from row `p` of a list that holds no value twice lands on the
/// next row, and on the first row from the last.
pub proof fn lemma_step_forward_from<T>(s: Seq<T>, p: int)
    requires
        s.no_duplicates(),
        0 <= p < s.len(),
        s.len() <= isize::MAX,
    ensures
        stepped_in(s, s[p], 1) == s[(p + 1) % (s.len() as int)],
{
    reveal(stepped_in);
    lemma_first_position_of_distinct(s, p);
    assert(saturated(p, 1) == p + 1);
}

/// One step back from row `q` of a list that holds no value twice lands on the row
/// before, and on the last row from the first.
pub proof fn lemma_step_back_from<T>(s: Seq<T>, q: int)
    requires
        s.no_duplicates(),
        0 <= q < s.len(),
        s.len() < isize::MAX,
    ensures
        stepped_in(s, s[q], -1) == s[(q + s.len() - 1) % (s.len() as int)],
{
    let len = s.len() as int;
    let p = (q + len - 1) % len;
    if q >= 1 {
        lemma_small_mod((q - 1) as nat, len as nat);
        lemma_fundamental_div_mod_converse(q + len - 1, len, 1, q - 1);
        assert(p == q - 1);
        lemma_small_mod(q as nat, len as nat);
    } else {
        lemma_small_mod((len - 1) as nat, len as nat);
        lemma_fundamental_div_mod_converse(len, len, 1, 0);
    }
    assert((p + 1) % len == q);
    lemma_step_forward_from(s, p);
    assert(s.contains(s[p]));
    lemma_step_in_round_trip(s, s[p], 1);
}

/// `n` single steps forward from `x` land `n` rows further on, counted round the list.
pub proof fn lemma_stepped_times_lands<T>(s: Seq<T>, x: T, n: nat)
    requires
        s.no_duplicates(),
        s.contains(x),
        s.len() <= isize::MAX,
    ensures
        stepped_times(s, x, n) == s[(first_position(s, x) + n) % (s.len() as int)],
    decreases n,
{
    let len = s.len() as int;
    let k = choose|k: int| 0 <= k < s.len() && s[k] == x;
    lemma_first_position_of_distinct(s, k);
    let i = first_position(s, x);
    if n == 0 {
        lemma_small_mod(i as nat, len as nat);
    } else {
        lemma_stepped_times_lands(s, x, (n - 1) as nat);
        let p = (i + n - 1) % len;
        lemma_mod_bound(i + n - 1, len);
        lemma_step_forward_from(s, p);
        lemma_add_mod_noop(i + n - 1, 1, len);
        if len > 1 {
            lemma_small_mod(1, len as nat);
        } else {
            lemma_mod_bound(p + 1, len);
            lemma_mod_bound(i + n, len);
        }
    }
}

/// `n` single steps forward bring a cursor back to where it started exactly when `n`
/// is a whole number of laps of the list.
pub proof fn lemma_stepped_times_returns<T>(s: Seq<T>, x: T, n: nat)
    requires
        s.no_duplicates(),
        s.contains(x),
        s.len() <= isize::MAX,
    ensures
        (stepped_times(s, x, n) == x) <==> (n % s.len() == 0),
{
    let len = s.len() as int;
    let k = choose|k: int| 0 <= k < s.len() && s[k] == x;
    lemma_first_position_of_distinct(s, k);
    let i = first_position(s, x);
    lemma_stepped_times_lands(s, x, n);
    let r = (n as int) % len;
    lemma_mod_bound(n as int, len);
    lemma_add_mod_noop_right(i, n as int, len);
    let landed = (i + n) % len;
    if r == 0 {
        lemma_small_mod(i as nat, len as nat);
    } else if i + r < len {
        lemma_small_mod((i + r) as nat, len as nat);
        assert(landed == i + r);
        assert(s[landed] != x);
    } else {
        lemma_fundamental_div_mod_converse(i + r, len, 1, i + r - len);
        assert(landed == i + r - len);
        assert(s[landed] != x);
    }
}

/// How many mines a run owns.
pub const MINE_KINDS: u8 = 12;

/// The rows of the Mines sub-tab: every mine's two tracks, mine by mine, size first.
pub open spec fn mine_track_at(index: nat) -> (u8, MineTrack) {
    (
        (index / 2) as u8,
        if index % 2 == 0 {
            MineTrack::Size
        } else {
            MineTrack::Richness
        },
    )
}

/// A Mines sub-tab row's position; a row that is not in the list reads as the first.
pub open spec fn mine_track_index(track: (u8, MineTrack)) -> nat {
    if track.0 < MINE_KINDS {
        (2 * track.0 + if track.1 == MineTrack::Size {
            0int
        } else {
            1int
        }) as nat
    } else {
        0
    }
}

/// The Mines sub-tab's rows: every mine's two tracks, mine by mine.
pub fn mine_tracks() -> (tracks: Vec<(u8, MineTrack)>)
    ensures
        tracks@.len() == 2 * MINE_KINDS,
        forall|i: int| 0 <= i < tracks@.len() ==> #[trigger] tracks@[i] == mine_track_at(i as nat),
{
    let mut tracks: Vec<(u8, MineTrack)> = Vec::new();
    let mut kind: u8 = 0;
    while kind < MINE_KINDS
        invariant
            kind <= MINE_KINDS,
            tracks@.len() == 2 * kind,
            forall|i: int| 0 <= i < tracks@.len() ==> #[trigger] tracks@[i] == mine_track_at(i as nat),
        decreases MINE_KINDS - kind,
    {
        tracks.push((kind, MineTrack::Size));
        tracks.push((kind, MineTrack::Richness));
        kind = kind + 1;
    }
    tracks
}

/// How long the lists are that the rules, not the interface, decide.
#[derive(Clone, Copy, Debug, PartialEq, Eq, Structural)]
pub struct ListLengths {
    /// Rungs on the pickaxe ladder.
    pub pickaxe_rungs: usize,
    /// Enchantment tracks on sale.
    pub enchant_tracks: usize,
    /// Announcements in the history.
    pub history: usize,
}

/// Where every list's cursor points.
#[derive(Clone, Copy, Debug, PartialEq, Eq)]
pub struct Cursors {
    /// The Mines screen's row, as the mine's place among the twelve.
    pub mine: u8,
    /// The Inventory's row, as the pile's place in the table.
    pub material: usize,
    /// The Upgrades sub-tab.
    pub upgrade_tab: UpgradeTab,
    /// The pickaxe ladder's row.
    pub pickaxe_rung: usize,
    /// The enchantment track's row.
    pub enchant: usize,
    /// The Mines sub-tab's row.
    pub mine_track: (u8, MineTrack),
    /// The Levels roadmap's row, as the level itself, one-based.
    pub level: u32,
    /// The Stats history's row.
    pub history: usize,
}

/// The cursors after a vertical step of `delta` on `screen`: every list wraps, one
/// screen moves one cursor — on Upgrades, the sub-tab showing — and the rest stay put.
pub open spec fn cursors_stepped(c: Cursors, screen: Screen, delta: int, lengths: ListLengths) -> Cursors {
    match screen {
        Screen::Mines => Cursors {
            mine: stepped_index(MINE_KINDS as nat, c.mine as nat, delta) as u8,
            ..c
        },
        Screen::Inventory => Cursors {
            material: stepped_index(MATERIAL_COUNT as nat, c.material as nat, delta) as usize,
            ..c
        },
        Screen::Upgrades => match c.upgrade_tab {
            UpgradeTab::Pickaxe => Cursors {
                pickaxe_rung: stepped_index(lengths.pickaxe_rungs as nat, c.pickaxe_rung as nat, delta) as usize,
                ..c
            },
            UpgradeTab::Enchants => Cursors {
                enchant: stepped_index(lengths.enchant_tracks as nat, c.enchant as nat, delta) as usize,
                ..c
            },
            UpgradeTab::Mines => Cursors {
                mine_track: mine_track_at(
                    stepped_index((2 * MINE_KINDS) as nat, mine_track_index(c.mine_track), delta),
                ),
                ..c
            },
        },
        Screen::Levels => Cursors {
            level: (stepped_index(
                LEVEL_CAP as nat,
                if c.level > 0 {
                    (c.level - 1) as nat
                } else {
                    0
                },
                delta,
            ) + 1) as u32,
            ..c
        },
        Screen::Stats => Cursors {
            history: stepped_index(lengths.history as nat, c.history as nat, delta) as usize,
            ..c
        },
        Screen::Mine => c,
    }
}

impl Cursors {
    /// Where each cursor opens on a run standing in `mine`, on ladder rung
    /// `pickaxe_rung`, at `level`: the Mines row on the mine itself, every other list
    /// on its first row, the Mines sub-tab on that mine's size track.
    pub fn new(mine: u8, pickaxe_rung: usize, level: u32) -> (c: Cursors)
        ensures
            c == (Cursors {
                mine,
                material: 0,
                upgrade_tab: UpgradeTab::Pickaxe,
                pickaxe_rung,
                enchant: 0,
                mine_track: (mine, MineTrack::Size),
                level,
                history: 0,
            }),
    {
        Cursors {
            mine,
            material: 0,
            upgrade_tab: UpgradeTab::Pickaxe,
            pickaxe_rung,
            enchant: 0,
            mine_track: (mine, MineTrack::Size),
            level,
            history: 0,
        }
    }

    /// Moves the open screen's list cursor by `delta`, wrapping.
    pub fn step(&mut self, screen: Screen, delta: isize, lengths: ListLengths)
        requires
            lengths.pickaxe_rungs <= isize::MAX,
            lengths.enchant_tracks <= isize::MAX,
            lengths.history <= isize::MAX,
            old(self).material <= isize::MAX,
            old(self).pickaxe_rung <= isize::MAX,
            old(self).enchant <= isize::MAX,
            old(self).history <= isize::MAX,
            old(self).level <= isize::MAX,
        ensures
            *final(self) == cursors_stepped(*old(self), screen, delta as int, lengths),
    {
        match screen {
            Screen::Mines => {
                self.mine = step_index(MINE_KINDS as usize, self.mine as usize, delta) as u8;
            },
            Screen::Inventory => {
                self.material = step_index(MATERIAL_COUNT, self.material, delta);
            },
            Screen::Upgrades => match self.upgrade_tab {
                UpgradeTab::Pickaxe => {
                    self.pickaxe_rung = step_index(lengths.pickaxe_rungs, self.pickaxe_rung, delta);
                },
                UpgradeTab::Enchants => {
                    self.enchant = step_index(lengths.enchant_tracks, self.enchant, delta);
                },
                UpgradeTab::Mines => {
                    let (kind, track) = self.mine_track;
                    let index: usize = if kind < MINE_KINDS {
                        2 * (kind as usize) + match track {
                            MineTrack::Size => 0usize,
                            MineTrack::Richness => 1usize,
                        }
                    } else {
                        0
                    };
                    let next = step_index(2 * (MINE_KINDS as usize), index, delta);
                    let track = if next % 2 == 0 {
                        MineTrack::Size
                    } else {
                        MineTrack::Richness
                    };
                    self.mine_track = ((next / 2) as u8, track);
                },
            },
            Screen::Levels => {
                let index = (self.level as usize).saturating_sub(1);
                let next = step_index(LEVEL_CAP as usize, index, delta);
                self.level = (next + 1) as u32;
            },
            Screen::Stats => {
                self.history = step_index(lengths.history, self.history, delta);
            },
            Screen::Mine => {},
        }
    }
}

/// A step and the opposite step through a list of `len` rows land where they started,
/// and every step lands on a row.
proof fn lemma_a_step_stays_and_returns(len: nat, current: nat, delta: int)
    requires
        0 < len <= 1_000,
        current < len,
        -1_000_000 <= delta <= 1_000_000,
    ensures
        stepped_index(len, current, delta) < len,
        stepped_index(len, stepped_index(len, current, delta), -delta) == current,
{
    lemma_mod_bound(saturated(current as int, delta), len as int);
    lemma_step_index_round_trip(len, current, delta);
}

/// **Every list cursor stays on its list**: after any step the mine, the pile, the
/// Mines sub-tab row and the level all point at a row that exists, and a step back
/// undoes a step forward.
pub proof fn lemma_list_cursors_stay_on_their_lists(
    c: Cursors,
    screen: Screen,
    delta: int,
    lengths: ListLengths,
)
    requires
        c.mine < MINE_KINDS,
        c.material < MATERIAL_COUNT,
        c.mine_track.0 < MINE_KINDS,
        1 <= c.level <= LEVEL_CAP,
        -1_000_000 <= delta <= 1_000_000,
    ensures
        cursors_stepped(c, screen, delta, lengths).mine < MINE_KINDS,
        cursors_stepped(c, screen, delta, lengths).material < MATERIAL_COUNT,
        cursors_stepped(c, screen, delta, lengths).mine_track.0 < MINE_KINDS,
        1 <= cursors_stepped(c, screen, delta, lengths).level <= LEVEL_CAP,
        cursors_stepped(cursors_stepped(c, screen, delta, lengths), screen, -delta, lengths).mine
            == c.mine,
        cursors_stepped(cursors_stepped(c, screen, delta, lengths), screen, -delta, lengths).material
            == c.material,
        cursors_stepped(cursors_stepped(c, screen, delta, lengths), screen, -delta, lengths).level
            == c.level,
{
    match screen {
        Screen::Mines => {
            lemma_a_step_stays_and_returns(MINE_KINDS as nat, c.mine as nat, delta);
        },
        Screen::Inventory => {
            lemma_a_step_stays_and_returns(MATERIAL_COUNT as nat, c.material as nat, delta);
        },
        Screen::Levels => {
            lemma_a_step_stays_and_returns(LEVEL_CAP as nat, (c.level - 1) as nat, delta);
        },
        Screen::Upgrades => {
            if c.upgrade_tab == UpgradeTab::Mines {
                let i = mine_track_index(c.mine_track);
                lemma_mod_bound(saturated(i as int, delta), 24);
            }
        },
        _ => {},
    }
}

} // verus!
