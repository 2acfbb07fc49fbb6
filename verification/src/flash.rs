//! The spatial proc flash: which cells a blast just covered, and how bright.
//!
//! The shape **is** the reward: a blast's cells are painted *before* they are erased,
//! for two beats of ~100 ms, and then they are the holes the model has said they were
//! all along. An animation is nothing but an ambient clock, which is why the whole
//! feature is front-end: the game produced the geometry and stops there.
//!
//! A map from a grid cell to **the instant a blast last claimed it**, and a function
//! that turns that instant into a beat when someone is about to draw. Two blasts inside
//! one window: the newer one owns the cells they share — inserting the instant into
//! every cell the blast covered makes *last write wins* literal. Nothing is ever
//! removed for being old; expiry is decided in [`Flashes::resolve`], the one place that
//! knows how long a flash lasts.
//!
//! Instants are plain nanosecond counts from one origin the caller keeps, so the
//! buffer can be stated and tested without a clock.

use std::collections::BTreeMap;
use vstd::prelude::*;
use vstd::std_specs::iter::IteratorSpec;

verus! {

broadcast use {vstd::laws_cmp::group_laws_cmp, vstd::std_specs::btree::group_btree_axioms};

/// How long the first beat lasts, in nanoseconds: 100 ms, two redraws at the
/// simulation's 20 frames a second — the floor at which two beats can be told apart.
pub const BRIGHT: u64 = 100_000_000;

/// How long the flash lasts in total, in nanoseconds: twice [`BRIGHT`], so the fade is
/// a beat of the same length.
pub const TOTAL: u64 = 200_000_000;

/// Which beat of the flash a cell is on, when it is on one at all.
#[derive(Clone, Copy, Debug, PartialEq, Eq, Structural)]
pub enum FlashStage {
    /// `0..BRIGHT` — the cells painted solid in the blast colour, still *there*.
    Bright,
    /// `BRIGHT..TOTAL` — the same cells at half the ink, becoming the hole they are.
    Fading,
}

/// The beat a cell is on `elapsed` nanoseconds after a blast claimed it: half-open
/// bands on both sides, so exactly [`BRIGHT`] is already the fade and exactly [`TOTAL`]
/// is already gone.
pub open spec fn stage_at(elapsed: nat) -> Option<FlashStage> {
    if elapsed < BRIGHT {
        Some(FlashStage::Bright)
    } else if elapsed < TOTAL {
        Some(FlashStage::Fading)
    } else {
        None
    }
}

/// The beat a cell is on `elapsed` nanoseconds after the blast claimed it, or [`None`]
/// once it is over.
pub fn stage(elapsed: u64) -> (r: Option<FlashStage>)
    ensures
        r == stage_at(elapsed as nat),
{
    if elapsed < BRIGHT {
        Some(FlashStage::Bright)
    } else if elapsed < TOTAL {
        Some(FlashStage::Fading)
    } else {
        None
    }
}

/// A beat never comes back: once a cell has faded it is not bright again later, and
/// once it is gone it stays gone.
pub proof fn lemma_a_flash_only_moves_forward(earlier: nat, later: nat)
    requires
        earlier <= later,
    ensures
        stage_at(earlier) is None ==> stage_at(later) is None,
        stage_at(earlier) == Some(FlashStage::Fading) ==> stage_at(later) != Some(
            FlashStage::Bright,
        ),
{
}

/// How long ago `at` was, seen from `now`; an instant in the future reads as no time
/// at all rather than as a negative span.
pub open spec fn since(now: u64, at: u64) -> nat {
    if now >= at {
        (now - at) as nat
    } else {
        0
    }
}

/// The cells a blast has claimed, and when — stamped with the mine the coordinates are
/// about, so a flash cannot paint a blast onto a grid it did not happen in.
#[derive(Clone, Debug)]
pub struct Flashes {
    /// Which grid the coordinates below index into; [`None`] until the first blast.
    mine: Option<u8>,
    /// Cell to the instant a blast last covered it. Last write wins, literally.
    cells: BTreeMap<(u8, u8), u64>,
}

/// The cells `painted` stamped at `now` over what was already there: every painted
/// cell takes `now`, every other cell keeps its own instant.
pub open spec fn stamped(
    before: Map<(u8, u8), u64>,
    painted: Seq<(u8, u8)>,
    now: u64,
) -> Map<(u8, u8), u64> {
    Map::new(
        |cell: (u8, u8)| before.contains_key(cell) || painted.contains(cell),
        |cell: (u8, u8)|
            if painted.contains(cell) {
                now
            } else {
                before[cell]
            },
    )
}

/// Which beat every still-flashing cell is on at `now`.
pub open spec fn beats(cells: Map<(u8, u8), u64>, now: u64) -> Map<(u8, u8), FlashStage> {
    Map::new(
        |cell: (u8, u8)| cells.contains_key(cell) && stage_at(since(now, cells[cell])) is Some,
        |cell: (u8, u8)| stage_at(since(now, cells[cell]))->0,
    )
}

/// A blast as the buffer hears of it: the grid it happened in, the cells it covered,
/// and the instant it did.
pub type Blast = (u8, Seq<(u8, u8)>, u64);

/// A buffer holding `state` (its mine and its stamps) after it hears of `blast`: the
/// blast's grid becomes the buffer's, and its cells are stamped over what that grid
/// already held — over nothing, when the grid changed.
pub open spec fn pushed(
    state: (Option<u8>, Map<(u8, u8), u64>),
    blast: Blast,
) -> (Option<u8>, Map<(u8, u8), u64>) {
    (
        Some(blast.0),
        stamped(
            if state.0 == Some(blast.0) {
                state.1
            } else {
                Map::empty()
            },
            blast.1,
            blast.2,
        ),
    )
}

/// A fresh buffer after hearing of `blasts`, oldest first.
pub open spec fn replayed(blasts: Seq<Blast>) -> (Option<u8>, Map<(u8, u8), u64>)
    decreases blasts.len(),
{
    if blasts.len() == 0 {
        (None, Map::empty())
    } else {
        pushed(replayed(blasts.drop_last()), blasts.last())
    }
}

/// The blasts since the grid last changed: the longest tail of `blasts` that all
/// happened in the grid of the newest one.
pub open spec fn latest_run(blasts: Seq<Blast>) -> Seq<Blast>
    decreases blasts.len(),
{
    if blasts.len() == 0 {
        Seq::empty()
    } else {
        let earlier = blasts.drop_last();
        if earlier.len() > 0 && earlier.last().0 == blasts.last().0 {
            latest_run(earlier).push(blasts.last())
        } else {
            seq![blasts.last()]
        }
    }
}

/// The instant the newest of `blasts` that covered `cell` happened, if any did.
pub open spec fn latest_stamp(blasts: Seq<Blast>, cell: (u8, u8)) -> Option<u64>
    decreases blasts.len(),
{
    if blasts.len() == 0 {
        None
    } else if blasts.last().1.contains(cell) {
        Some(blasts.last().2)
    } else {
        latest_stamp(blasts.drop_last(), cell)
    }
}

/// Each cell a blast since the last change of grid covered, with the instant the
/// newest of them did.
pub open spec fn run_stamps(blasts: Seq<Blast>) -> Map<(u8, u8), u64> {
    Map::new(
        |cell: (u8, u8)| latest_stamp(latest_run(blasts), cell) is Some,
        |cell: (u8, u8)| latest_stamp(latest_run(blasts), cell)->0,
    )
}

/// What a buffer that heard of `blasts` paints for grid `mine` at `now`: nothing
/// unless `mine` is the grid of the newest blast; otherwise each cell covered since the
/// grid last changed, on the beat its newest stamp puts it at, expired cells left out.
pub open spec fn painted_after(blasts: Seq<Blast>, mine: u8, now: u64) -> Map<(u8, u8), FlashStage> {
    if blasts.len() > 0 && blasts.last().0 == mine {
        Map::new(
            |cell: (u8, u8)|
                latest_stamp(latest_run(blasts), cell) is Some && stage_at(
                    since(now, latest_stamp(latest_run(blasts), cell)->0),
                ) is Some,
            |cell: (u8, u8)| stage_at(since(now, latest_stamp(latest_run(blasts), cell)->0))->0,
        )
    } else {
        Map::empty()
    }
}

impl Flashes {
    /// The mine the buffer is about, if any blast has been recorded.
    pub closed spec fn mine(&self) -> Option<u8> {
        self.mine
    }

    /// Each cell a blast has claimed, and the instant it last did.
    pub closed spec fn cells(&self) -> Map<(u8, u8), u64> {
        self.cells@
    }

    /// The mine the buffer is about, if any blast has been recorded.
    pub fn current_mine(&self) -> (r: Option<u8>)
        ensures
            r == self.mine(),
    {
        self.mine
    }

    /// How many cells the buffer holds a stamp for, flashing or long expired.
    pub fn stamped_count(&self) -> (r: usize)
        ensures
            r == self.cells().len(),
    {
        self.cells.len()
    }

    /// A buffer with nothing flashing, about no mine at all.
    pub fn new() -> (f: Flashes)
        ensures
            f.mine() == None::<u8>,
            f.cells() == Map::<(u8, u8), u64>::empty(),
            (f.mine(), f.cells()) == replayed(Seq::empty()),
    {
        Flashes { mine: None, cells: BTreeMap::new() }
    }

    /// Records that a blast covered `cells` of grid `mine` at `now`.
    ///
    /// **Every cell of the shape, holes included**: a blast the player watches must look
    /// like a blast. A blast in a different mine from the one stamped first clears what
    /// the old one left.
    pub fn push(&mut self, mine: u8, cells: &[(u8, u8)], now: u64)
        ensures
            final(self).mine() == Some(mine),
            final(self).cells() == stamped(
                if old(self).mine() == Some(mine) {
                    old(self).cells()
                } else {
                    Map::empty()
                },
                cells@,
                now,
            ),
            (final(self).mine(), final(self).cells()) == pushed(
                (old(self).mine(), old(self).cells()),
                (mine, cells@, now),
            ),
    {
        if self.mine != Some(mine) {
            self.cells = BTreeMap::new();
            self.mine = Some(mine);
        }
        let ghost base = self.cells@;
        let mut i: usize = 0;
        while i < cells.len()
            invariant
                i <= cells@.len(),
                self.mine == Some(mine),
                self.cells@ == stamped(base, cells@.take(i as int), now),
            decreases cells@.len() - i,
        {
            let cell = cells[i];
            self.cells.insert(cell, now);
            proof {
                assert(cells@.take(i + 1) == cells@.take(i as int).push(cell));
                assert forall|c: (u8, u8)| #[trigger] cells@.take(i + 1).contains(c) <==> (
                cells@.take(i as int).contains(c) || c == cell) by {
                    if cells@.take(i + 1).contains(c) {
                        let k = choose|k: int|
                            0 <= k < cells@.take(i + 1).len() && #[trigger] cells@.take(i + 1)[k] == c;
                        if k < i {
                            assert(cells@.take(i as int)[k] == c);
                        }
                    }
                    if cells@.take(i as int).contains(c) {
                        let k = choose|k: int|
                            0 <= k < cells@.take(i as int).len() && #[trigger] cells@.take(i as int)[k] == c;
                        assert(cells@.take(i + 1)[k] == c);
                    }
                    if c == cell {
                        assert(cells@.take(i + 1)[i as int] == c);
                    }
                }
                assert(self.cells@ =~= stamped(base, cells@.take(i + 1), now));
            }
            i = i + 1;
        }
        proof {
            assert(cells@.take(cells@.len() as int) =~= cells@);
        }
    }

    /// Which beat each still-flashing cell of grid `mine` is on, at `now`.
    ///
    /// **This is where a flash expires**, and expiring is not something that happens to
    /// the buffer. A mine that is not the stamped one yields nothing rather than an
    /// error: a renderer that could refuse to draw is worse than one that draws less.
    pub fn resolve(&self, mine: u8, now: u64) -> (painted: BTreeMap<(u8, u8), FlashStage>)
        ensures
            painted@ == (if self.mine() == Some(mine) {
                beats(self.cells(), now)
            } else {
                Map::empty()
            }),
    {
        let mut painted: BTreeMap<(u8, u8), FlashStage> = BTreeMap::new();
        if self.mine != Some(mine) {
            return painted;
        }
        let ghost everything = self.cells@;
        let ghost entries = vstd::std_specs::btree::spec_btree_map_iter(&self.cells).remaining();
        let ghost mut visited: int = 0;
        for entry in it: self.cells.iter()
            invariant
                everything == self.cells@,
                it.seq() == entries,
                visited == it.index(),
                forall|c: (u8, u8)| #[trigger]
                    painted@.contains_key(c) ==> everything.contains_key(c) && stage_at(
                        since(now, everything[c]),
                    ) == Some(painted@[c]),
                forall|k: int|
                    0 <= k < it.index() ==> (stage_at(since(now, *it.seq()[k].1)) is Some
                        ==> #[trigger] painted@.contains_key(*it.seq()[k].0)),
        {
            let (cell, at) = entry;
            let elapsed = if now >= *at {
                now - *at
            } else {
                0
            };
            match stage(elapsed) {
                Some(beat) => {
                    painted.insert(*cell, beat);
                },
                None => {},
            }
            proof {
                visited = visited + 1;
            }
        }
        proof {
            let seq = entries;
            assert(visited == seq.len());
            assert forall|c: (u8, u8)|
                everything.contains_key(c) && stage_at(since(now, everything[c])) is Some
                    implies #[trigger] painted@.contains_key(c) by {
                assert(seq.contains((&c, &everything[c])));
                let k = choose|k: int| 0 <= k < seq.len() && #[trigger] seq[k] == (&c, &everything[c]);
                assert(*seq[k].0 == c);
            }
            assert(painted@ =~= beats(everything, now));
        }
        painted
    }
}

/// **The newer blast owns a shared cell**: after a blast at `now`, every cell it covered
/// reads that instant, whatever an earlier blast left there, and every cell it did not
/// cover keeps its own.
pub proof fn lemma_the_last_blast_owns_its_cells(
    before: Map<(u8, u8), u64>,
    painted: Seq<(u8, u8)>,
    now: u64,
    cell: (u8, u8),
)
    ensures
        painted.contains(cell) ==> stamped(before, painted, now)[cell] == now,
        !painted.contains(cell) && before.contains_key(cell) ==> stamped(before, painted, now)[cell]
            == before[cell],
        stamped(before, painted, now).contains_key(cell) <==> (before.contains_key(cell)
            || painted.contains(cell)),
{
}


/// **A buffer is what its blasts made it**: after any sequence of blasts, the buffer is
/// about the grid of the newest one, and holds exactly the cells covered since the grid
/// last changed, each with the instant the newest blast to cover it happened.
pub proof fn lemma_replayed_blasts(blasts: Seq<Blast>)
    ensures
        replayed(blasts).0 == (if blasts.len() == 0 {
            None
        } else {
            Some(blasts.last().0)
        }),
        replayed(blasts).1 == run_stamps(blasts),
    decreases blasts.len(),
{
    if blasts.len() > 0 {
        let earlier = blasts.drop_last();
        let b = blasts.last();
        lemma_replayed_blasts(earlier);
        let run = latest_run(blasts);
        if earlier.len() > 0 && earlier.last().0 == b.0 {
            assert(run.drop_last() =~= latest_run(earlier));
            assert forall|c: (u8, u8)|
                #[trigger] latest_stamp(run, c) == (if b.1.contains(c) {
                    Some(b.2)
                } else {
                    latest_stamp(latest_run(earlier), c)
                }) by {}
            assert(replayed(blasts).1 =~= run_stamps(blasts));
        } else {
            assert(run.drop_last() =~= Seq::<Blast>::empty());
            assert forall|c: (u8, u8)|
                #[trigger] latest_stamp(run, c) == (if b.1.contains(c) {
                    Some(b.2)
                } else {
                    None
                }) by {
                assert(latest_stamp(run.drop_last(), c) == None::<u64>);
            }
            assert(replayed(blasts).1 =~= run_stamps(blasts));
        }
    }
}

/// **What a buffer paints is decided by its blasts**: after any sequence of blasts, a
/// grid other than the newest blast's paints nothing, and the newest blast's grid
/// paints each cell covered since the grid last changed, on the beat of its newest
/// stamp, expired cells left out. A stamp later than `now` reads as the bright beat.
pub proof fn lemma_replayed_blasts_paint(blasts: Seq<Blast>, mine: u8, now: u64)
    ensures
        (if replayed(blasts).0 == Some(mine) {
            beats(replayed(blasts).1, now)
        } else {
            Map::empty()
        }) == painted_after(blasts, mine, now),
        forall|cell: (u8, u8)|
            #[trigger] painted_after(blasts, mine, now).contains_key(cell) && latest_stamp(
                latest_run(blasts),
                cell,
            )->0 > now ==> painted_after(blasts, mine, now)[cell] == FlashStage::Bright,
{
    lemma_replayed_blasts(blasts);
    if blasts.len() > 0 && blasts.last().0 == mine {
        assert(beats(replayed(blasts).1, now) =~= painted_after(blasts, mine, now));
    } else {
        assert(Map::<(u8, u8), FlashStage>::empty() =~= painted_after(blasts, mine, now));
    }
}

} // verus!
