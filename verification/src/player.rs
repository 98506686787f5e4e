//! Player identities and the name-to-identity registry.
//!
//! A [`Player`] is an opaque numeric identity issued for the lifetime of one
//! server process. The identity `0` is the reserved *observer* sentinel: an
//! observer receives snapshots but has no presence in the simulation and may
//! not submit intents. The [`PlayerRegistry`] maps each non-empty display
//! name to the identity it was first registered under and never forgets an
//! entry, so a client reconnecting under the same name always recovers the
//! same identity.

use vstd::prelude::*;

use crate::assoc;

verus! {

/// A player identity. The value `0` denotes the observer sentinel.
#[derive(Clone, Copy, PartialEq, Eq, Structural, Hash, Debug)]
pub struct Player {
    /// The raw numeric identity.
    pub id: u64,
}

impl Player {
    /// Whether this identity is the observer sentinel, in specifications.
    pub open spec fn spec_is_observer(self) -> bool {
        self.id == 0
    }

    /// Create an identity from a number issued elsewhere in the core.
    ///
    /// The observer sentinel is reserved; use [`Player::observer`] for it.
    pub fn new(id: u64) -> (p: Player)
        requires
            id != 0,
        ensures
            p.id == id,
            !p.spec_is_observer(),
    {
        Player { id }
    }

    /// The observer sentinel identity.
    pub fn observer() -> (p: Player)
        ensures
            p.spec_is_observer(),
            p.id == 0,
    {
        Player { id: 0 }
    }

    /// Whether this identity is the observer sentinel.
    pub fn is_observer(&self) -> (r: bool)
        ensures
            r == self.spec_is_observer(),
    {
        self.id == 0
    }
}

/// One registered display name and the identity issued for it.
struct RegistryEntry {
    /// The display name, non-empty.
    name: String,
    /// The identity issued when the name was first seen.
    player: Player,
}

/// The append-only map from display names to player identities.
pub struct PlayerRegistry {
    /// The entries, in registration order; names are pairwise distinct.
    entries: Vec<RegistryEntry>,
    /// The next identity to issue; starts at 1 and only grows.
    next_id: u64,
}

impl PlayerRegistry {
    /// The registered names and identities as key/value pairs, in order.
    pub closed spec fn entries_seq(self) -> Seq<(Seq<char>, u64)> {
        self.entries@.map_values(|e: RegistryEntry| (e.name@, e.player.id))
    }

    /// The name-to-identity map this registry represents.
    pub open spec fn as_map(self) -> Map<Seq<char>, u64> {
        assoc::map_of(self.entries_seq())
    }

    /// The next identity that will be issued.
    pub closed spec fn spec_next_id(self) -> u64 {
        self.next_id
    }

    /// Well-formedness: names distinct and non-empty, identities issued
    /// monotonically below `next_id` and never the observer sentinel.
    pub closed spec fn wf(self) -> bool {
        &&& assoc::keys_distinct(self.entries_seq())
        &&& self.next_id >= 1
        &&& forall|i: int|
            0 <= i < self.entries_seq().len() ==> 0 < #[trigger] self.entries_seq()[i].1
                < self.next_id
        &&& forall|i: int| 0 <= i < self.entries_seq().len() ==> #[trigger] self.entries_seq()[i].0.len() > 0
    }

    /// The identity a lookup-or-register of `name` returns, given the map
    /// and the next identity to issue.
    pub open spec fn register_result(m: Map<Seq<char>, u64>, next: u64, name: Seq<char>) -> u64 {
        if m.dom().contains(name) {
            m[name]
        } else {
            next
        }
    }

    /// The map after a lookup-or-register of `name`.
    pub open spec fn register_next_map(m: Map<Seq<char>, u64>, next: u64, name: Seq<char>) -> Map<
        Seq<char>,
        u64,
    > {
        if m.dom().contains(name) {
            m
        } else {
            m.insert(name, next)
        }
    }

    /// The next identity to issue after a lookup-or-register of `name`.
    pub open spec fn register_next_id(m: Map<Seq<char>, u64>, next: u64, name: Seq<char>) -> u64 {
        if m.dom().contains(name) {
            next
        } else {
            (next + 1) as u64
        }
    }

    /// An empty registry.
    pub fn new() -> (r: PlayerRegistry)
        ensures
            r.wf(),
            r.as_map() == Map::<Seq<char>, u64>::empty(),
            r.spec_next_id() == 1,
    {
        let r = PlayerRegistry { entries: Vec::new(), next_id: 1 };
        proof {
            assert(r.entries_seq() =~= Seq::<(Seq<char>, u64)>::empty());
        }
        r
    }

    /// Look a name up, registering it under a fresh identity if it is new.
    ///
    /// The returned identity is never the observer sentinel, and a name once
    /// registered keeps its identity for the life of the registry.
    pub fn register_or_get(&mut self, name: &String) -> (p: Player)
        requires
            old(self).wf(),
            name@.len() > 0,
            old(self).spec_next_id() < u64::MAX,
        ensures
            final(self).wf(),
            !p.spec_is_observer(),
            p.id == Self::register_result(old(self).as_map(), old(self).spec_next_id(), name@),
            final(self).as_map() == Self::register_next_map(
                old(self).as_map(),
                old(self).spec_next_id(),
                name@,
            ),
            final(self).spec_next_id() == Self::register_next_id(
                old(self).as_map(),
                old(self).spec_next_id(),
                name@,
            ),
    {
        proof {
            assoc::lemma_map_of_dom(self.entries_seq());
        }
        let n = self.entries.len();
        let mut i: usize = 0;
        while i < n
            invariant
                n == self.entries.len(),
                i <= n,
                self.wf(),
                forall|j: int| 0 <= j < i ==> #[trigger] self.entries_seq()[j].0 != name@,
            decreases n - i,
        {
            if self.entries[i].name.eq(name) {
                let p = self.entries[i].player;
                proof {
                    assert(self.entries_seq()[i as int] == (name@, p.id));
                    assoc::lemma_map_of_index(self.entries_seq(), i as int);
                }
                return p;
            }
            proof {
                assert(self.entries_seq()[i as int].0 == self.entries[i as int].name@);
            }
            i += 1;
        }
        let p = Player { id: self.next_id };
        let ghost pre = self.entries_seq();
        proof {
            assert(!self.as_map().dom().contains(name@));
            assoc::lemma_map_of_push(pre, name@, p.id);
        }
        self.entries.push(RegistryEntry { name: name.clone(), player: p });
        self.next_id = self.next_id + 1;
        proof {
            assert(self.entries_seq() =~= pre.push((name@, p.id)));
        }
        p
    }

    /// Resolve a display name to an identity.
    ///
    /// The empty name requests no persistent identity: it resolves to the
    /// observer sentinel and bypasses the registry entirely. Any other name
    /// goes through [`PlayerRegistry::register_or_get`].
    pub fn resolve_player(&mut self, name: &String) -> (p: Player)
        requires
            old(self).wf(),
            old(self).spec_next_id() < u64::MAX,
        ensures
            final(self).wf(),
            name@.len() == 0 ==> {
                &&& p.spec_is_observer()
                &&& final(self).as_map() == old(self).as_map()
                &&& final(self).spec_next_id() == old(self).spec_next_id()
            },
            name@.len() > 0 ==> {
                &&& !p.spec_is_observer()
                &&& old(self).as_map().dom().contains(name@) ==> p.id == old(self).as_map()[name@]
                    && final(self).as_map() == old(self).as_map()
                &&& !old(self).as_map().dom().contains(name@) ==> p.id == old(self).spec_next_id()
                    && final(self).as_map() == old(self).as_map().insert(name@, p.id)
            },
    {
        if name.as_str().unicode_len() == 0 {
            Player::observer()
        } else {
            self.register_or_get(name)
        }
    }

    /// How many names have been registered.
    pub fn len(&self) -> (n: usize)
        ensures
            n == self.entries_seq().len(),
    {
        self.entries.len()
    }

    /// The next identity that will be issued; lets a caller check the
    /// identity space is not exhausted before registering.
    pub fn next_id(&self) -> (n: u64)
        ensures
            n == self.spec_next_id(),
    {
        self.next_id
    }
}

/// Identities are issued monotonically: every registered identity lies
/// below the next one to issue, so a fresh registration can never collide
/// with an existing identity.
pub proof fn lemma_identities_bounded(r: PlayerRegistry)
    requires
        r.wf(),
    ensures
        forall|n: Seq<char>|
            r.as_map().dom().contains(n) ==> 0 < #[trigger] r.as_map()[n] < r.spec_next_id(),
{
    assoc::lemma_map_of_dom(r.entries_seq());
    assert forall|n: Seq<char>| r.as_map().dom().contains(n) implies 0 < #[trigger] r.as_map()[n]
        < r.spec_next_id() by {
        let i = choose|i: int| 0 <= i < r.entries_seq().len() && r.entries_seq()[i].0 == n;
        assoc::lemma_map_of_index(r.entries_seq(), i);
    }
}

/// Registering the same name twice yields the same identity both times, even
/// when a different name is registered in between: the registry is
/// append-only and an existing entry is never replaced.
pub proof fn lemma_reconnection_stable(
    m: Map<Seq<char>, u64>,
    next: u64,
    name: Seq<char>,
    other: Seq<char>,
    next1: u64,
)
    requires
        other != name,
    ensures
        ({
            let first = PlayerRegistry::register_result(m, next, name);
            let m1 = PlayerRegistry::register_next_map(m, next, name);
            let m2 = PlayerRegistry::register_next_map(m1, next1, other);
            &&& m1.dom().contains(name) && m1[name] == first
            &&& PlayerRegistry::register_result(m1, next1, name) == first
            &&& m2.dom().contains(name) && m2[name] == first
            &&& PlayerRegistry::register_result(m2, next1, name) == first
        }),
{
}

} // verus!
