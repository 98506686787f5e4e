//! The per-tick intent buffer.
//!
//! Between two ticks the game loop accumulates movement intents in an
//! [`IntentBuffer`]: a finite map from a `(player, bee)` pair to the
//! direction that bee should move on the next tick. Submitting a new intent
//! for a pair overwrites the previous one (last writer wins), and submitting
//! an empty action clears whatever was pending for the pair. The buffer is
//! surrendered and emptied when a tick fires.

use vstd::prelude::*;

use crate::assoc;
use crate::player::Player;

verus! {

/// Uniquely identifies a bee within one game.
#[derive(Clone, Copy, PartialEq, Eq, Structural, Hash, Debug)]
pub struct BeeID {
    /// The raw numeric identifier, issued by the simulation.
    pub raw: u64,
}

impl BeeID {
    /// Wrap an identifier issued by the simulation.
    pub fn new(raw: u64) -> (b: BeeID)
        ensures
            b.raw == raw,
    {
        BeeID { raw }
    }
}

/// The cardinal directions a bee can be ordered to move in.
#[derive(Clone, Copy, PartialEq, Eq, Structural, Debug)]
pub enum Direction {
    North,
    East,
    South,
    West,
}

/// One movement order for one bee; no direction means "stand still", and
/// clears any pending order for that bee.
#[derive(Clone, Copy, PartialEq, Eq, Debug)]
pub struct Move {
    /// The bee the order is for.
    pub bee: BeeID,
    /// Where the bee should go, or nothing to clear the pending order.
    pub direction: Option<Direction>,
}

/// The key under which an intent is stored: the player and bee identities.
pub open spec fn intent_key(player: Player, bee: BeeID) -> (u64, u64) {
    (player.id, bee.raw)
}

/// One pending intent.
#[derive(Clone, Copy, Debug)]
pub struct IntentEntry {
    /// The player the order came from.
    pub player: Player,
    /// The bee to move.
    pub bee: BeeID,
    /// The direction to move it in.
    pub direction: Direction,
}

/// The pending intents for the next tick, owned by the game loop alone.
pub struct IntentBuffer {
    /// The pending entries; `(player, bee)` keys are pairwise distinct.
    entries: Vec<IntentEntry>,
}

/// The effect of one movement order on the pending map.
pub open spec fn apply_move_spec(
    m: Map<(u64, u64), Direction>,
    player: Player,
    mv: Move,
) -> Map<(u64, u64), Direction> {
    match mv.direction {
        Some(d) => m.insert(intent_key(player, mv.bee), d),
        None => m.remove(intent_key(player, mv.bee)),
    }
}

/// The effect of a batch of movement orders, applied in arrival order.
pub open spec fn apply_moves_spec(
    m: Map<(u64, u64), Direction>,
    player: Player,
    moves: Seq<Move>,
) -> Map<(u64, u64), Direction>
    decreases moves.len(),
{
    if moves.len() == 0 {
        m
    } else {
        apply_move_spec(apply_moves_spec(m, player, moves.drop_last()), player, moves.last())
    }
}

/// The action of the last order in `moves` that targets key `k`, if any.
pub open spec fn last_action_for(
    player: Player,
    moves: Seq<Move>,
    k: (u64, u64),
) -> Option<Option<Direction>>
    decreases moves.len(),
{
    if moves.len() == 0 {
        None
    } else if intent_key(player, moves.last().bee) == k {
        Some(moves.last().direction)
    } else {
        last_action_for(player, moves.drop_last(), k)
    }
}

impl IntentBuffer {
    /// The pending entries as key/value pairs, in insertion order.
    pub closed spec fn entries_seq(self) -> Seq<((u64, u64), Direction)> {
        self.entries@.map_values(
            |e: IntentEntry| (intent_key(e.player, e.bee), e.direction),
        )
    }

    /// The map from `(player, bee)` keys to pending directions.
    pub open spec fn as_map(self) -> Map<(u64, u64), Direction> {
        assoc::map_of(self.entries_seq())
    }

    /// Well-formedness: each `(player, bee)` pair is stored at most once.
    pub closed spec fn wf(self) -> bool {
        assoc::keys_distinct(self.entries_seq())
    }

    /// An empty buffer.
    pub fn new() -> (r: IntentBuffer)
        ensures
            r.wf(),
            r.as_map() == Map::<(u64, u64), Direction>::empty(),
            r.entries_seq().len() == 0,
    {
        let r = IntentBuffer { entries: Vec::new() };
        proof {
            assert(r.entries_seq() =~= Seq::<((u64, u64), Direction)>::empty());
        }
        r
    }

    /// The index holding the given key, if any.
    fn find(&self, player: Player, bee: BeeID) -> (r: Option<usize>)
        requires
            self.wf(),
        ensures
            match r {
                Some(i) => i < self.entries_seq().len() && self.entries_seq()[i as int].0
                    == intent_key(player, bee),
                None => forall|j: int|
                    0 <= j < self.entries_seq().len() ==> #[trigger] self.entries_seq()[j].0
                        != intent_key(player, bee),
            },
    {
        let n = self.entries.len();
        let mut i: usize = 0;
        while i < n
            invariant
                n == self.entries.len(),
                i <= n,
                forall|j: int|
                    0 <= j < i ==> #[trigger] self.entries_seq()[j].0 != intent_key(player, bee),
            decreases n - i,
        {
            if self.entries[i].player.id == player.id && self.entries[i].bee.raw == bee.raw {
                proof {
                    assert(self.entries_seq()[i as int].0 == intent_key(player, bee));
                }
                return Some(i);
            }
            proof {
                assert(self.entries_seq()[i as int].0 == intent_key(
                    self.entries@[i as int].player,
                    self.entries@[i as int].bee,
                ));
            }
            i += 1;
        }
        None
    }

    /// Record that `player` wants `bee` to move in `direction` next tick,
    /// overwriting any earlier order for the pair.
    pub fn set_intent(&mut self, player: Player, bee: BeeID, direction: Direction)
        requires
            old(self).wf(),
        ensures
            final(self).wf(),
            final(self).as_map() == old(self).as_map().insert(intent_key(player, bee), direction),
    {
        let ghost pre = self.entries_seq();
        match self.find(player, bee) {
            Some(i) => {
                proof {
                    assoc::lemma_map_of_update(pre, i as int, direction);
                }
                self.entries[i] = IntentEntry { player, bee, direction };
                proof {
                    assert(self.entries_seq() =~= pre.update(
                        i as int,
                        (intent_key(player, bee), direction),
                    ));
                }
            },
            None => {
                proof {
                    assoc::lemma_map_of_push(pre, intent_key(player, bee), direction);
                }
                self.entries.push(IntentEntry { player, bee, direction });
                proof {
                    assert(self.entries_seq() =~= pre.push(
                        (intent_key(player, bee), direction),
                    ));
                }
            },
        }
    }

    /// Drop any pending order for the pair; doing so twice is harmless.
    pub fn clear_intent(&mut self, player: Player, bee: BeeID)
        requires
            old(self).wf(),
        ensures
            final(self).wf(),
            final(self).as_map() == old(self).as_map().remove(intent_key(player, bee)),
    {
        let ghost pre = self.entries_seq();
        match self.find(player, bee) {
            Some(i) => {
                proof {
                    assoc::lemma_map_of_remove(pre, i as int);
                }
                self.entries.remove(i);
                proof {
                    assert(self.entries_seq() =~= pre.remove(i as int));
                }
            },
            None => {
                proof {
                    assoc::lemma_map_of_dom(pre);
                    assert(!old(self).as_map().dom().contains(intent_key(player, bee)));
                    assert(final(self).as_map() =~= old(self).as_map().remove(
                        intent_key(player, bee),
                    ));
                }
            },
        }
    }

    /// Merge a batch of orders from one player, in arrival order: each order
    /// with a direction overwrites the pair's pending intent, each without
    /// one clears it.
    pub fn apply(&mut self, player: Player, moves: &Vec<Move>)
        requires
            old(self).wf(),
        ensures
            final(self).wf(),
            final(self).as_map() == apply_moves_spec(old(self).as_map(), player, moves@),
    {
        let ghost m0 = self.as_map();
        let n = moves.len();
        let mut i: usize = 0;
        while i < n
            invariant
                n == moves.len(),
                i <= n,
                self.wf(),
                self.as_map() == apply_moves_spec(m0, player, moves@.take(i as int)),
            decreases n - i,
        {
            let mv = moves[i];
            match mv.direction {
                Some(d) => self.set_intent(player, mv.bee, d),
                None => self.clear_intent(player, mv.bee),
            }
            proof {
                assert(moves@.take(i + 1).drop_last() =~= moves@.take(i as int));
                assert(moves@.take(i + 1).last() == moves@[i as int]);
            }
            i += 1;
        }
        proof {
            assert(moves@.take(n as int) =~= moves@);
        }
    }

    /// Look up the pending direction for a pair.
    pub fn get(&self, player: Player, bee: BeeID) -> (r: Option<Direction>)
        requires
            self.wf(),
        ensures
            match r {
                Some(d) => self.as_map().dom().contains(intent_key(player, bee)) && self.as_map()[
                    intent_key(player, bee)
                ] == d,
                None => !self.as_map().dom().contains(intent_key(player, bee)),
            },
    {
        proof {
            assoc::lemma_map_of_dom(self.entries_seq());
        }
        match self.find(player, bee) {
            Some(i) => {
                proof {
                    assoc::lemma_map_of_index(self.entries_seq(), i as int);
                }
                Some(self.entries[i].direction)
            },
            None => None,
        }
    }

    /// How many pairs have a pending intent.
    pub fn len(&self) -> (n: usize)
        ensures
            n == self.entries_seq().len(),
    {
        self.entries.len()
    }

    /// Surrender the whole buffer, leaving this one empty: the hand-over a
    /// tick performs.
    pub fn take(&mut self) -> (r: IntentBuffer)
        requires
            old(self).wf(),
        ensures
            final(self).wf(),
            final(self).as_map() == Map::<(u64, u64), Direction>::empty(),
            final(self).entries_seq().len() == 0,
            r.wf(),
            r.as_map() == old(self).as_map(),
            r.entries_seq() == old(self).entries_seq(),
    {
        let mut r = IntentBuffer::new();
        core::mem::swap(&mut r, self);
        r
    }

    /// Read access to the pending entries, for handing a tick's intents on.
    pub fn entries(&self) -> (r: &Vec<IntentEntry>)
        ensures
            r@.len() == self.entries_seq().len(),
            forall|i: int|
                0 <= i < r@.len() ==> #[trigger] self.entries_seq()[i] == (intent_key(
                    r@[i].player,
                    r@[i].bee,
                ), r@[i].direction),
    {
        &self.entries
    }
}

/// Last writer wins: after a batch of orders is merged, a pair holds exactly
/// what the last order for that pair said — a direction leaves the pair
/// mapped to it, an empty action leaves the pair cleared — and a pair no
/// order targeted keeps whatever was pending before.
pub proof fn lemma_last_writer_wins(
    m: Map<(u64, u64), Direction>,
    player: Player,
    moves: Seq<Move>,
    k: (u64, u64),
)
    ensures
        ({
            let r = apply_moves_spec(m, player, moves);
            match last_action_for(player, moves, k) {
                None => r.dom().contains(k) == m.dom().contains(k) && (m.dom().contains(k)
                    ==> r[k] == m[k]),
                Some(Some(d)) => r.dom().contains(k) && r[k] == d,
                Some(None) => !r.dom().contains(k),
            }
        }),
    decreases moves.len(),
{
    if moves.len() > 0 {
        lemma_last_writer_wins(m, player, moves.drop_last(), k);
    }
}

/// The buffer after a whole tick window: each submitted batch of orders
/// merged in arrival order.
pub open spec fn apply_window_spec(
    m: Map<(u64, u64), Direction>,
    batches: Seq<(Player, Seq<Move>)>,
) -> Map<(u64, u64), Direction>
    decreases batches.len(),
{
    if batches.len() == 0 {
        m
    } else {
        apply_moves_spec(
            apply_window_spec(m, batches.drop_last()),
            batches.last().0,
            batches.last().1,
        )
    }
}

/// The action of the last order in the whole window that targets key `k`,
/// if any.
pub open spec fn last_action_in_window(
    batches: Seq<(Player, Seq<Move>)>,
    k: (u64, u64),
) -> Option<Option<Direction>>
    decreases batches.len(),
{
    if batches.len() == 0 {
        None
    } else {
        match last_action_for(batches.last().0, batches.last().1, k) {
            Some(a) => Some(a),
            None => last_action_in_window(batches.drop_last(), k),
        }
    }
}

/// Last writer wins across a whole tick window: however batches from any
/// players interleave before a tick, a pair holds exactly what the last
/// order targeting it said — a direction leaves the pair mapped to it, an
/// empty action leaves it cleared — and a pair nothing targeted keeps what
/// was pending when the window opened.
pub proof fn lemma_window_last_writer_wins(
    m: Map<(u64, u64), Direction>,
    batches: Seq<(Player, Seq<Move>)>,
    k: (u64, u64),
)
    ensures
        ({
            let r = apply_window_spec(m, batches);
            match last_action_in_window(batches, k) {
                None => r.dom().contains(k) == m.dom().contains(k) && (m.dom().contains(k)
                    ==> r[k] == m[k]),
                Some(Some(d)) => r.dom().contains(k) && r[k] == d,
                Some(None) => !r.dom().contains(k),
            }
        }),
    decreases batches.len(),
{
    if batches.len() > 0 {
        lemma_window_last_writer_wins(m, batches.drop_last(), k);
        lemma_last_writer_wins(
            apply_window_spec(m, batches.drop_last()),
            batches.last().0,
            batches.last().1,
            k,
        );
    }
}

} // verus!
