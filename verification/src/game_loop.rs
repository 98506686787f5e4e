//! The authoritative game loop, as a state machine.
//!
//! The loop task owns the only handle to the simulation and is the single
//! writer of game state. Its driver races the next queued [`GameEvent`]
//! against the tick timer and feeds whichever arrives into the
//! [`GameLoopCore`] methods here; everything the loop decides — who is
//! admitted, who is active, which intents a tick applies, when the loop
//! stops — is specified and verified in this module. The channels, the timer
//! and the simulation calls themselves live with the driver.

use vstd::prelude::*;

use crate::assoc;
use crate::intents::{apply_moves_spec, Direction, IntentBuffer, Move};
use crate::player::Player;

verus! {

/// The set of players currently admitted into the simulation.
///
/// Observers are never members. A player is a member at most once; members
/// are added on successful admission and removed only by an explicit
/// disconnect notification.
pub struct ActiveSet {
    /// The member identities, pairwise distinct.
    members: Vec<u64>,
}

impl ActiveSet {
    /// The members paired with themselves, for the association-list lemmas.
    closed spec fn pairs(self) -> Seq<(u64, u64)> {
        self.members@.map_values(|x: u64| (x, x))
    }

    /// The membership set this vector represents.
    pub closed spec fn as_set(self) -> Set<u64> {
        assoc::map_of(self.pairs()).dom()
    }

    /// Well-formedness: no identity is stored twice.
    pub closed spec fn wf(self) -> bool {
        assoc::keys_distinct(self.pairs())
    }

    /// An empty membership set.
    pub fn new() -> (r: ActiveSet)
        ensures
            r.wf(),
            r.as_set() == Set::<u64>::empty(),
    {
        let r = ActiveSet { members: Vec::new() };
        proof {
            assert(r.pairs() =~= Seq::<(u64, u64)>::empty());
            assert(r.as_set() =~= Set::<u64>::empty());
        }
        r
    }

    /// The index holding `id`, if it is a member.
    fn find(&self, id: u64) -> (r: Option<usize>)
        ensures
            match r {
                Some(i) => i < self.pairs().len() && self.pairs()[i as int].0 == id,
                None => forall|j: int|
                    0 <= j < self.pairs().len() ==> #[trigger] self.pairs()[j].0 != id,
            },
    {
        let n = self.members.len();
        let mut i: usize = 0;
        while i < n
            invariant
                n == self.members.len(),
                i <= n,
                forall|j: int| 0 <= j < i ==> #[trigger] self.pairs()[j].0 != id,
            decreases n - i,
        {
            if self.members[i] == id {
                proof {
                    assert(self.pairs()[i as int].0 == id);
                }
                return Some(i);
            }
            proof {
                assert(self.pairs()[i as int].0 == self.members@[i as int]);
            }
            i += 1;
        }
        None
    }

    /// Whether `id` is a member.
    pub fn contains(&self, id: u64) -> (r: bool)
        ensures
            r == self.as_set().contains(id),
    {
        proof {
            assoc::lemma_map_of_dom(self.pairs());
        }
        self.find(id).is_some()
    }

    /// Add `id`; reports whether it was new. An existing member is left as
    /// it is.
    pub fn insert(&mut self, id: u64) -> (added: bool)
        requires
            old(self).wf(),
        ensures
            final(self).wf(),
            added == !old(self).as_set().contains(id),
            final(self).as_set() == old(self).as_set().insert(id),
    {
        proof {
            assoc::lemma_map_of_dom(self.pairs());
        }
        let ghost pre = self.pairs();
        match self.find(id) {
            Some(i) => {
                proof {
                    assoc::lemma_map_of_dom(pre);
                    assert(old(self).as_set().contains(id));
                    assert(final(self).as_set() =~= old(self).as_set().insert(id));
                }
                false
            },
            None => {
                proof {
                    assoc::lemma_map_of_push(pre, id, id);
                }
                self.members.push(id);
                proof {
                    assert(self.pairs() =~= pre.push((id, id)));
                }
                true
            },
        }
    }

    /// Remove `id`; reports whether it was a member. Removing a non-member
    /// changes nothing.
    pub fn remove(&mut self, id: u64) -> (removed: bool)
        requires
            old(self).wf(),
        ensures
            final(self).wf(),
            removed == old(self).as_set().contains(id),
            final(self).as_set() == old(self).as_set().remove(id),
    {
        proof {
            assoc::lemma_map_of_dom(self.pairs());
        }
        let ghost pre = self.pairs();
        match self.find(id) {
            Some(i) => {
                proof {
                    assoc::lemma_map_of_remove(pre, i as int);
                }
                self.members.remove(i);
                proof {
                    assert(self.pairs() =~= pre.remove(i as int));
                }
                true
            },
            None => {
                proof {
                    assert(!old(self).as_set().contains(id));
                    assert(final(self).as_set() =~= old(self).as_set().remove(id));
                }
                false
            },
        }
    }

}

/// The lifecycle of the game loop: it runs, then drains once told to
/// finish, then stops and the loop task exits.
#[derive(Clone, Copy, PartialEq, Eq, Structural, Debug)]
pub enum Phase {
    /// Accepting events and ticking.
    Running,
    /// No further ticks are accepted; the loop stops after flushing.
    Draining,
    /// The loop task has exited.
    Stopped,
}

/// An event carried on the queue from the client sessions to the game loop.
///
/// Each event is created by one session, consumed exactly once by the loop,
/// and — for `AddPlayer` — answered exactly once on a reply channel the
/// driver keeps alongside the event.
#[derive(Debug)]
pub enum GameEvent {
    /// Admit a player or observer, also on reconnection.
    AddPlayer {
        /// The identity to admit; the observer sentinel is admitted
        /// trivially, without touching the simulation.
        player: Player,
    },
    /// A player's session ended without a clean shutdown; its identity
    /// becomes admissible again.
    Disconnect {
        /// The player that disconnected.
        player: Player,
    },
    /// Movement orders for the next tick.
    Move {
        /// The player the orders came from.
        player: Player,
        /// The orders, in arrival order.
        moves: Vec<Move>,
    },
    /// Finish the game.
    Finish,
}

/// How an event must be delivered to the loop's bounded queue.
#[derive(Clone, Copy, PartialEq, Eq, Structural, Debug)]
pub enum DeliveryPolicy {
    /// The sender must wait for queue capacity; the event may not be lost.
    Reliable,
    /// The sender may drop the event when the queue is full rather than
    /// block; losing it costs at most one tick's worth of intents.
    BestEffort,
}

/// The delivery required for each event kind: movement orders are
/// best-effort, everything else must arrive.
pub open spec fn delivery_policy_spec(ev: GameEvent) -> DeliveryPolicy {
    match ev {
        GameEvent::Move { .. } => DeliveryPolicy::BestEffort,
        _ => DeliveryPolicy::Reliable,
    }
}

/// How `ev` must be submitted to the event queue.
pub fn delivery_policy(ev: &GameEvent) -> (p: DeliveryPolicy)
    ensures
        p == delivery_policy_spec(*ev),
{
    match ev {
        GameEvent::Move { .. } => DeliveryPolicy::BestEffort,
        _ => DeliveryPolicy::Reliable,
    }
}

/// What the simulation said when asked to admit a player.
#[derive(Debug)]
pub enum SimAdmission {
    /// The simulation gave the player a foothold.
    Admitted,
    /// The simulation refused, with its reason.
    Refused {
        /// The simulation's description of the failure.
        msg: String,
    },
}

/// Why the loop refused an admission.
#[derive(Debug)]
pub enum RefuseReason {
    /// The identity is already active: a live session already holds it.
    DuplicatePlayer,
    /// The simulation refused, with its reason.
    Simulation {
        /// The simulation's description of the failure.
        msg: String,
    },
}

/// The loop's answer to an `AddPlayer` event, sent back exactly once on the
/// event's reply channel.
#[derive(Debug)]
pub enum AdmitReply {
    /// The player is admitted; the session may go active.
    Granted,
    /// The player is not admitted; the session must close.
    Refused {
        /// Why not.
        reason: RefuseReason,
    },
}

/// The reply an admission gets, given the active set and what the
/// simulation said.
pub open spec fn admit_reply_spec(active: Set<u64>, player: Player, sim: SimAdmission) -> AdmitReply {
    if player.spec_is_observer() {
        AdmitReply::Granted
    } else {
        match sim {
            SimAdmission::Refused { msg } => AdmitReply::Refused {
                reason: RefuseReason::Simulation { msg },
            },
            SimAdmission::Admitted => if active.contains(player.id) {
                AdmitReply::Refused { reason: RefuseReason::DuplicatePlayer }
            } else {
                AdmitReply::Granted
            },
        }
    }
}

/// The active set after an admission attempt: it grows exactly when a
/// non-observer the simulation accepted was not already active.
pub open spec fn admit_next_active(active: Set<u64>, player: Player, sim: SimAdmission) -> Set<u64> {
    if !player.spec_is_observer() && (sim matches SimAdmission::Admitted) && !active.contains(
        player.id,
    ) {
        active.insert(player.id)
    } else {
        active
    }
}

/// The state the game loop carries between events: its lifecycle phase, the
/// intents pending for the next tick, and the set of active players.
pub struct GameLoopCore {
    /// Where the loop is in its lifecycle.
    phase: Phase,
    /// The intents to apply on the next tick.
    pending: IntentBuffer,
    /// The players currently admitted into the simulation.
    active: ActiveSet,
}

impl GameLoopCore {
    /// The loop's lifecycle phase.
    pub closed spec fn spec_phase(self) -> Phase {
        self.phase
    }

    /// The pending intents as a map from `(player, bee)` to direction.
    pub closed spec fn pending_map(self) -> Map<(u64, u64), Direction> {
        self.pending.as_map()
    }

    /// The identities of the currently active players.
    pub closed spec fn active_set(self) -> Set<u64> {
        self.active.as_set()
    }

    /// Well-formedness of the internal collections.
    pub closed spec fn wf(self) -> bool {
        self.pending.wf() && self.active.wf()
    }

    /// A fresh loop: running, nothing pending, nobody active.
    pub fn new() -> (r: GameLoopCore)
        ensures
            r.wf(),
            r.spec_phase() == Phase::Running,
            r.pending_map() == Map::<(u64, u64), Direction>::empty(),
            r.active_set() == Set::<u64>::empty(),
    {
        GameLoopCore { phase: Phase::Running, pending: IntentBuffer::new(), active: ActiveSet::new() }
    }

    /// The loop's lifecycle phase.
    pub fn phase(&self) -> (p: Phase)
        ensures
            p == self.spec_phase(),
    {
        self.phase
    }

    /// Whether `player` is currently active.
    pub fn is_active(&self, player: Player) -> (r: bool)
        ensures
            r == self.active_set().contains(player.id),
    {
        self.active.contains(player.id)
    }

    /// The pending direction for a `(player, bee)` pair, if any.
    pub fn pending_intent(&self, player: Player, bee: crate::intents::BeeID) -> (r: Option<
        Direction,
    >)
        requires
            self.wf(),
        ensures
            match r {
                Some(d) => self.pending_map().dom().contains(crate::intents::intent_key(player, bee))
                    && self.pending_map()[crate::intents::intent_key(player, bee)] == d,
                None => !self.pending_map().dom().contains(
                    crate::intents::intent_key(player, bee),
                ),
            },
    {
        self.pending.get(player, bee)
    }

    /// Answer an `AddPlayer` event.
    ///
    /// `sim` is what the simulation said for a non-observer (the driver asks
    /// it first); an observer is admitted trivially and `sim` is ignored.
    /// Exactly one reply comes back for every admission: a refusal reports
    /// either the simulation's reason or a duplicate identity, and the
    /// active set grows exactly on a granted non-observer admission.
    pub fn handle_add_player(&mut self, player: Player, sim: SimAdmission) -> (r: AdmitReply)
        requires
            old(self).wf(),
            old(self).spec_phase() == Phase::Running,
        ensures
            final(self).wf(),
            final(self).spec_phase() == old(self).spec_phase(),
            final(self).pending_map() == old(self).pending_map(),
            r == admit_reply_spec(old(self).active_set(), player, sim),
            final(self).active_set() == admit_next_active(old(self).active_set(), player, sim),
    {
        if player.is_observer() {
            AdmitReply::Granted
        } else {
            match sim {
                SimAdmission::Refused { msg } => AdmitReply::Refused {
                    reason: RefuseReason::Simulation { msg },
                },
                SimAdmission::Admitted => {
                    if self.active.insert(player.id) {
                        AdmitReply::Granted
                    } else {
                        AdmitReply::Refused { reason: RefuseReason::DuplicatePlayer }
                    }
                },
            }
        }
    }

    /// Handle a `Disconnect` event: the identity leaves the active set and
    /// becomes admissible again. Reports whether the player was active; a
    /// disconnect may race an earlier removal, so a non-member is tolerated.
    pub fn handle_disconnect(&mut self, player: Player) -> (was_active: bool)
        requires
            old(self).wf(),
            old(self).spec_phase() == Phase::Running,
        ensures
            final(self).wf(),
            final(self).spec_phase() == old(self).spec_phase(),
            final(self).pending_map() == old(self).pending_map(),
            was_active == old(self).active_set().contains(player.id),
            final(self).active_set() == old(self).active_set().remove(player.id),
    {
        self.active.remove(player.id)
    }

    /// Handle a `Move` event: merge one player's orders into the pending
    /// intents, last writer winning. Observers never submit intents; the
    /// sessions guarantee it.
    pub fn handle_moves(&mut self, player: Player, moves: &Vec<Move>)
        requires
            old(self).wf(),
            old(self).spec_phase() == Phase::Running,
            !player.spec_is_observer(),
        ensures
            final(self).wf(),
            final(self).spec_phase() == old(self).spec_phase(),
            final(self).active_set() == old(self).active_set(),
            final(self).pending_map() == apply_moves_spec(old(self).pending_map(), player, moves@),
    {
        self.pending.apply(player, moves);
    }

    /// Handle a tick-timer expiry: surrender the pending intents for the
    /// driver to hand to the simulation's advance, leaving the buffer empty
    /// for the next tick window.
    pub fn handle_tick(&mut self) -> (intents: IntentBuffer)
        requires
            old(self).wf(),
            old(self).spec_phase() == Phase::Running,
        ensures
            final(self).wf(),
            final(self).spec_phase() == old(self).spec_phase(),
            final(self).active_set() == old(self).active_set(),
            final(self).pending_map() == Map::<(u64, u64), Direction>::empty(),
            intents.wf(),
            intents.as_map() == old(self).pending_map(),
    {
        self.pending.take()
    }

    /// Handle a `Finish` event or the event queue closing: stop accepting
    /// ticks and begin draining.
    pub fn handle_finish(&mut self)
        requires
            old(self).wf(),
            old(self).spec_phase() == Phase::Running,
        ensures
            final(self).wf(),
            final(self).spec_phase() == Phase::Draining,
            final(self).pending_map() == old(self).pending_map(),
            final(self).active_set() == old(self).active_set(),
    {
        self.phase = Phase::Draining;
    }

    /// Finish draining: the loop task exits.
    pub fn complete_drain(&mut self)
        requires
            old(self).wf(),
            old(self).spec_phase() == Phase::Draining,
        ensures
            final(self).wf(),
            final(self).spec_phase() == Phase::Stopped,
            final(self).pending_map() == old(self).pending_map(),
            final(self).active_set() == old(self).active_set(),
    {
        self.phase = Phase::Stopped;
    }
}

/// The observer sentinel never enters the active set: neither an admission
/// step nor a disconnect step can add it, so a set that starts without it
/// stays without it for the life of the loop.
pub proof fn lemma_observer_never_active(active: Set<u64>, player: Player, sim: SimAdmission)
    requires
        !active.contains(0),
    ensures
        !admit_next_active(active, player, sim).contains(0),
        !active.remove(player.id).contains(0),
{
}

/// Admission is idempotent-safe: while a granted admission for a player is
/// still active, a second attempt for the same identity is refused as a
/// duplicate and leaves the active set unchanged; once a disconnect has
/// removed the identity, a fresh attempt the simulation accepts is granted
/// again.
pub proof fn lemma_admission_idempotent(active: Set<u64>, player: Player)
    requires
        !player.spec_is_observer(),
        !active.contains(player.id),
    ensures
        ({
            let granted = admit_next_active(active, player, SimAdmission::Admitted);
            let after_dup = admit_next_active(granted, player, SimAdmission::Admitted);
            let after_disc = granted.remove(player.id);
            &&& admit_reply_spec(active, player, SimAdmission::Admitted) matches AdmitReply::Granted
            &&& admit_reply_spec(granted, player, SimAdmission::Admitted) matches AdmitReply::Refused {
                reason: RefuseReason::DuplicatePlayer,
            }
            &&& after_dup == granted
            &&& admit_reply_spec(after_disc, player, SimAdmission::Admitted)
                matches AdmitReply::Granted
        }),
{
}

} // verus!
