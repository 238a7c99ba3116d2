//! Cap on unauthenticated connections per peer address: stops floods of connections that
//! never send anything.

use std::collections::HashMap;
use std::hash::Hash;
use vstd::prelude::*;
use vstd::std_specs::hash::obeys_key_model;

verus! {

broadcast use vstd::std_specs::hash::group_hash_axioms;

/// A peer address: IPv4 as its 32-bit value, IPv6 as its 128-bit value.
#[derive(Debug, Clone, Copy, PartialEq, Eq, Hash, Structural)]
pub enum PeerIp {
    V4(u32),
    V6(u128),
}

/// Model of `AuthGate`: its per-address cap and the slots each address holds.
pub struct AuthGateView {
    pub max_per_ip: usize,
    pub counts: Map<PeerIp, usize>,
}

/// Count held for `ip` (0 when none is stored).
pub open spec fn count_of(counts: Map<PeerIp, usize>, ip: PeerIp) -> usize {
    if counts.contains_key(ip) {
        counts[ip]
    } else {
        0
    }
}

/// `acquire`: with the count below the cap one more slot is taken; at the cap it is
/// refused (the address's entry is created at 0 if it had none).
pub open spec fn acquire_spec(g: AuthGateView, ip: PeerIp) -> (AuthGateView, bool) {
    let c = count_of(g.counts, ip);
    if c >= g.max_per_ip {
        (AuthGateView { counts: g.counts.insert(ip, c), ..g }, false)
    } else {
        (AuthGateView { counts: g.counts.insert(ip, (c + 1) as usize), ..g }, true)
    }
}

/// `release`: one slot is given back; an entry that reaches 0 is removed; an address with
/// no entry is left alone.
pub open spec fn release_spec(g: AuthGateView, ip: PeerIp) -> AuthGateView {
    if g.counts.contains_key(ip) {
        let c = if g.counts[ip] > 0 { (g.counts[ip] - 1) as usize } else { 0usize };
        if c == 0 {
            AuthGateView { counts: g.counts.remove(ip), ..g }
        } else {
            AuthGateView { counts: g.counts.insert(ip, c), ..g }
        }
    } else {
        g
    }
}

/// Per-address slot counter; callers sharing one wrap it in a lock.
pub struct AuthGate {
    max_per_ip: usize,
    v4: HashMap<u32, usize>,
    v6: HashMap<u128, usize>,
}

/// Both maps seen as one map over addresses.
pub open spec fn joined(v4: Map<u32, usize>, v6: Map<u128, usize>) -> Map<PeerIp, usize> {
    Map::new(
        |ip: PeerIp|
            match ip {
                PeerIp::V4(a) => v4.contains_key(a),
                PeerIp::V6(a) => v6.contains_key(a),
            },
        |ip: PeerIp|
            match ip {
                PeerIp::V4(a) => v4[a],
                PeerIp::V6(a) => v6[a],
            },
    )
}

impl View for AuthGate {
    type V = AuthGateView;

    closed spec fn view(&self) -> AuthGateView {
        AuthGateView { max_per_ip: self.max_per_ip, counts: joined(self.v4@, self.v6@) }
    }
}

/// Count in one map (0 when absent).
pub open spec fn count_in<K>(m: Map<K, usize>, k: K) -> usize {
    if m.contains_key(k) {
        m[k]
    } else {
        0
    }
}

fn get_count<K: Hash + Eq + Copy>(m: &HashMap<K, usize>, k: K) -> (c: usize)
    requires
        obeys_key_model::<K>(),
    ensures
        c == count_in(m@, k),
{
    match m.get(&k) {
        Some(c) => *c,
        None => 0,
    }
}

fn acquire_in<K: Hash + Eq + Copy>(m: &mut HashMap<K, usize>, k: K, max: usize) -> (b: bool)
    requires
        obeys_key_model::<K>(),
    ensures
        b == (count_in(old(m)@, k) < max),
        final(m)@ == old(m)@.insert(k, if b { (count_in(old(m)@, k) + 1) as usize } else { count_in(old(m)@, k) }),
{
    let c = get_count(m, k);
    if c >= max {
        m.insert(k, c);
        return false;
    }
    m.insert(k, c + 1);
    true
}

fn release_in<K: Hash + Eq + Copy>(m: &mut HashMap<K, usize>, k: K)
    requires
        obeys_key_model::<K>(),
    ensures
        old(m)@.contains_key(k) && old(m)@[k] <= 1 ==> final(m)@ == old(m)@.remove(k),
        old(m)@.contains_key(k) && old(m)@[k] > 1 ==> final(m)@ == old(m)@.insert(k, (old(m)@[k] - 1) as usize),
        !old(m)@.contains_key(k) ==> final(m)@ == old(m)@,
{
    match m.get(&k) {
        Some(c) => {
            let n = if *c > 0 { *c - 1 } else { 0 };
            if n == 0 {
                m.remove(&k);
            } else {
                m.insert(k, n);
            }
        },
        None => {},
    }
}

impl AuthGate {
    /// A gate allowing `max_per_ip` unauthenticated connections per address.
    pub fn new(max_per_ip: usize) -> (g: AuthGate)
        ensures
            g@.max_per_ip == max_per_ip,
            g@.counts == Map::<PeerIp, usize>::empty(),
    {
        let g = AuthGate { max_per_ip, v4: HashMap::new(), v6: HashMap::new() };
        assert(g@.counts =~= Map::<PeerIp, usize>::empty());
        g
    }

    /// Takes an unauthenticated slot for `ip`; `false` when its cap is reached.
    pub fn acquire(&mut self, ip: PeerIp) -> (b: bool)
        ensures
            (final(self)@, b) == acquire_spec(old(self)@, ip),
    {
        let ghost g0 = self@;
        let b = match ip {
            PeerIp::V4(a) => acquire_in(&mut self.v4, a, self.max_per_ip),
            PeerIp::V6(a) => acquire_in(&mut self.v6, a, self.max_per_ip),
        };
        proof {
            assert(self@.counts =~= acquire_spec(g0, ip).0.counts);
        }
        b
    }

    /// Gives back an unauthenticated slot of `ip` (on authentication or disconnect).
    pub fn release(&mut self, ip: PeerIp)
        ensures
            final(self)@ == release_spec(old(self)@, ip),
    {
        let ghost g0 = self@;
        match ip {
            PeerIp::V4(a) => release_in(&mut self.v4, a),
            PeerIp::V6(a) => release_in(&mut self.v6, a),
        }
        proof {
            assert(self@.counts =~= release_spec(g0, ip).counts);
        }
    }

    /// Number of unauthenticated slots `ip` holds.
    pub fn unauth_count(&self, ip: PeerIp) -> (c: usize)
        ensures
            c == count_of(self@.counts, ip),
    {
        match ip {
            PeerIp::V4(a) => get_count(&self.v4, a),
            PeerIp::V6(a) => get_count(&self.v6, a),
        }
    }
}

/// No address ever holds more slots than the cap.
pub open spec fn gate_within_cap(g: AuthGateView) -> bool {
    forall|ip: PeerIp| #[trigger] count_of(g.counts, ip) <= g.max_per_ip
}

/// Acquiring and releasing keep every address within its cap.
pub proof fn law_gate_never_exceeds_cap(g: AuthGateView, ip: PeerIp)
    requires
        gate_within_cap(g),
    ensures
        gate_within_cap(acquire_spec(g, ip).0),
        gate_within_cap(release_spec(g, ip)),
{
    let a = acquire_spec(g, ip).0;
    assert forall|q: PeerIp| #[trigger] count_of(a.counts, q) <= a.max_per_ip by {
        assert(count_of(g.counts, q) <= g.max_per_ip);
    }
    let r = release_spec(g, ip);
    assert forall|q: PeerIp| #[trigger] count_of(r.counts, q) <= r.max_per_ip by {
        assert(count_of(g.counts, q) <= g.max_per_ip);
    }
}

/// A successful acquire followed by a release gives the address back its count, and other
/// addresses are never touched.
pub proof fn law_acquire_then_release_restores_count(g: AuthGateView, ip: PeerIp, other: PeerIp)
    requires
        other != ip,
    ensures
        acquire_spec(g, ip).1 ==> count_of(release_spec(acquire_spec(g, ip).0, ip).counts, ip)
            == count_of(g.counts, ip),
        count_of(acquire_spec(g, ip).0.counts, other) == count_of(g.counts, other),
        count_of(release_spec(g, ip).counts, other) == count_of(g.counts, other),
{
}

/// Releasing an address that holds nothing changes nothing.
pub proof fn law_release_without_acquire_is_noop(g: AuthGateView, ip: PeerIp)
    requires
        count_of(g.counts, ip) == 0,
        forall|q: PeerIp| #[trigger] g.counts.contains_key(q) ==> g.counts[q] > 0,
    ensures
        release_spec(g, ip) == g,
{
}

} // verus!
