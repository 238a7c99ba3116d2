//! A registry of live entries keyed by 128-bit ids: the rooms of the room service and the
//! connections of the TCP gateway. Callers that share one guard it with a lock.

use std::collections::HashMap;
use vstd::prelude::*;

verus! {

broadcast use vstd::std_specs::hash::group_hash_axioms;

/// Whether one of the first `n` listed keys is `k`.
pub open spec fn listed_before(keys: Seq<u128>, n: int, k: u128) -> bool {
    exists|j: int| 0 <= j < n && keys[j] == k
}

/// Live entries (rooms, connections) by their 128-bit id, each with the handle that reaches it.
pub struct Registry<H> {
    entries: HashMap<u128, H>,
}

impl<H> View for Registry<H> {
    type V = Map<u128, H>;

    closed spec fn view(&self) -> Map<u128, H> {
        self.entries@
    }
}

impl<H> Registry<H> {
    /// An empty registry.
    pub fn new() -> (r: Registry<H>)
        ensures
            r@ == Map::<u128, H>::empty(),
    {
        Registry { entries: HashMap::new() }
    }

    /// Registers a handle (replacing any earlier one under that key).
    pub fn insert(&mut self, key: u128, handle: H)
        ensures
            final(self)@ == old(self)@.insert(key, handle),
    {
        self.entries.insert(key, handle);
    }

    /// Forgets an entry; gives back its handle when it was registered.
    pub fn remove(&mut self, key: u128) -> (r: Option<H>)
        ensures
            final(self)@ == old(self)@.remove(key),
            old(self)@.contains_key(key) ==> r == Some(old(self)@[key]),
            !old(self)@.contains_key(key) ==> r is None,
    {
        self.entries.remove(&key)
    }

    /// The handle registered under `key`.
    pub fn get(&self, key: u128) -> (r: Option<&H>)
        ensures
            self@.contains_key(key) ==> r == Some(&self@[key]),
            !self@.contains_key(key) ==> r is None,
    {
        self.entries.get(&key)
    }

    /// The entries, for walking them (in no particular order).
    pub fn entries(&self) -> (r: &HashMap<u128, H>)
        ensures
            r@ == self@,
    {
        &self.entries
    }

    /// Number of entries.
    pub fn len(&self) -> (n: usize)
        ensures
            n == self@.len(),
    {
        self.entries.len()
    }

    /// Forgets every listed key (such as rooms whose actors have stopped).
    pub fn prune(&mut self, stopped: &[u128])
        ensures
            forall|k: u128|
                #[trigger] final(self)@.contains_key(k) <==> (old(self)@.contains_key(k)
                    && !listed_before(stopped@, stopped@.len() as int, k)),
            forall|k: u128| #[trigger] final(self)@.contains_key(k) ==> final(self)@[k] == old(self)@[k],
    {
        let ghost start = self@;
        let mut i: usize = 0;
        while i < stopped.len()
            invariant
                i <= stopped@.len(),
                forall|k: u128|
                    #[trigger] self@.contains_key(k) <==> (start.contains_key(k)
                        && !listed_before(stopped@, i as int, k)),
                forall|k: u128| #[trigger] self@.contains_key(k) ==> self@[k] == start[k],
            decreases stopped@.len() - i,
        {
            let id = stopped[i];
            let ghost before = self@;
            self.entries.remove(&id);
            proof {
                assert(self@ == before.remove(id));
                assert forall|k: u128|
                    listed_before(stopped@, i + 1, k) <==> (listed_before(stopped@, i as int, k)
                        || stopped@[i as int] == k) by {
                    if listed_before(stopped@, i + 1, k) {
                        let j = choose|j: int| 0 <= j < i + 1 && stopped@[j] == k;
                        if j < i {
                            assert(0 <= j < i && stopped@[j] == k);
                        }
                    }
                    if stopped@[i as int] == k {
                        assert(0 <= i < i + 1 && stopped@[i as int] == k);
                    }
                    if listed_before(stopped@, i as int, k) {
                        let j = choose|j: int| 0 <= j < i && stopped@[j] == k;
                        assert(0 <= j < i + 1 && stopped@[j] == k);
                    }
                }
                assert forall|k: u128|
                    #[trigger] self@.contains_key(k) <==> (start.contains_key(k)
                        && !listed_before(stopped@, i + 1, k)) by {
                    assert(before.contains_key(k) <==> (start.contains_key(k)
                        && !listed_before(stopped@, i as int, k)));
                }
                assert forall|k: u128| #[trigger] self@.contains_key(k) implies self@[k] == start[k] by {
                    assert(before.contains_key(k));
                }
            }
            i = i + 1;
        }
    }

    /// Empties the registry and gives back everything it held.
    pub fn take_all(&mut self) -> (r: HashMap<u128, H>)
        ensures
            r@ == old(self)@,
            final(self)@ == Map::<u128, H>::empty(),
    {
        let mut taken: HashMap<u128, H> = HashMap::new();
        std::mem::swap(&mut taken, &mut self.entries);
        taken
    }
}

/// Registering an id that was absent and then removing it gives back the registry as it was
/// (a connection that opens and closes leaves the count where it was).
pub proof fn law_insert_then_remove_restores<H>(m: Map<u128, H>, k: u128, h: H)
    requires
        !m.contains_key(k),
    ensures
        m.insert(k, h).remove(k) == m,
{
    assert(m.insert(k, h).remove(k) =~= m);
}

} // verus!
