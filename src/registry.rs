//! The peer registry: connected peers, addresses with a dial in flight and
//! addresses under a feeler probe, with the check-and-reserve step that
//! guards every dial.
use vstd::prelude::*;

use crate::result::Error;

verus! {

/// A dialable address and the peer identity that it names, when one could be
/// extracted from it.
#[derive(Clone, Debug)]
pub struct PeerAddress {
    pub addr: String,
    pub peer_id: Option<String>,
}

impl PeerAddress {
    pub fn new(addr: String, peer_id: Option<String>) -> (r: Self)
        ensures
            r.addr == addr,
            r.peer_id == peer_id,
    {
        PeerAddress { addr, peer_id }
    }

    /// A field-by-field copy.
    pub fn duplicate(&self) -> (r: Self)
        ensures
            r == *self,
    {
        let peer_id = match &self.peer_id {
            Some(p) => Some(p.clone()),
            None => None,
        };
        PeerAddress { addr: self.addr.clone(), peer_id }
    }
}

/// A connected peer and the direction of its connection.
#[derive(Clone, Debug)]
pub struct Peer {
    pub id: String,
    pub inbound: bool,
}

/// Connection counts taken from the registry at call time.
#[derive(Clone, Copy, Debug, PartialEq, Eq, Structural)]
pub struct ConnectionStatus {
    pub inbound: usize,
    pub outbound: usize,
}

/// Why an address is dialed: to keep a connection, or to probe it once.
#[derive(Clone, Copy, Debug, PartialEq, Eq, Structural)]
pub enum DialRole {
    Identify,
    Feeler,
}

pub open spec fn str_views(s: Seq<String>) -> Seq<Seq<char>> {
    s.map_values(|a: String| a@)
}

/// Number of inbound peers in `s`.
pub open spec fn inbound_in(s: Seq<Peer>) -> nat
    decreases s.len(),
{
    if s.len() == 0 {
        0
    } else {
        inbound_in(s.drop_last()) + if s.last().inbound {
            1nat
        } else {
            0nat
        }
    }
}

/// Whether an address with identity `pid` can be reserved: the identity is
/// not connected and the address is neither being dialed nor probed.
pub open spec fn reservable(
    ids: Set<Seq<char>>,
    dialing: Set<Seq<char>>,
    feeler: Set<Seq<char>>,
    pid: Seq<char>,
    addr: Seq<char>,
) -> bool {
    !ids.contains(pid) && !dialing.contains(addr) && !feeler.contains(addr)
}

pub struct Registry {
    peers: Vec<Peer>,
    dialing: Vec<String>,
    feeler: Vec<String>,
}

impl Registry {
    pub closed spec fn peer_seq(self) -> Seq<Peer> {
        self.peers@
    }

    /// Identities of the connected peers.
    pub open spec fn peer_ids(self) -> Set<Seq<char>> {
        self.peer_seq().map_values(|p: Peer| p.id@).to_set()
    }

    /// Addresses with a dial in flight.
    pub closed spec fn dialing_set(self) -> Set<Seq<char>> {
        str_views(self.dialing@).to_set()
    }

    /// Addresses under a feeler probe.
    pub closed spec fn feeler_set(self) -> Set<Seq<char>> {
        str_views(self.feeler@).to_set()
    }

    pub closed spec fn wf(self) -> bool {
        &&& self.peer_seq().map_values(|p: Peer| p.id@).no_duplicates()
        &&& str_views(self.dialing@).no_duplicates()
        &&& str_views(self.feeler@).no_duplicates()
        &&& self.dialing_set().disjoint(self.feeler_set())
    }

    /// What one reservation of `addr` (identity `pid`) for `role` does: it
    /// succeeds exactly when the address is reservable, and then adds the
    /// address to the set that `role` names; nothing else changes.
    pub open spec fn reserves(
        self,
        pid: Seq<char>,
        addr: Seq<char>,
        role: DialRole,
        r: bool,
        next: Self,
    ) -> bool {
        &&& r == reservable(self.peer_ids(), self.dialing_set(), self.feeler_set(), pid, addr)
        &&& next.wf()
        &&& next.peer_seq() == self.peer_seq()
        &&& next.dialing_set() == if r && role == DialRole::Identify {
            self.dialing_set().insert(addr)
        } else {
            self.dialing_set()
        }
        &&& next.feeler_set() == if r && role == DialRole::Feeler {
            self.feeler_set().insert(addr)
        } else {
            self.feeler_set()
        }
    }

    pub fn new() -> (r: Self)
        ensures
            r.wf(),
            r.peer_seq().len() == 0,
            r.dialing_set().is_empty(),
            r.feeler_set().is_empty(),
    {
        let r = Registry { peers: Vec::new(), dialing: Vec::new(), feeler: Vec::new() };
        assert(str_views(r.dialing@) =~= Seq::empty());
        assert(str_views(r.feeler@) =~= Seq::empty());
        assert(r.dialing_set() =~= Set::empty());
        assert(r.feeler_set() =~= Set::empty());
        r
    }

    fn position(v: &Vec<String>, s: &String) -> (r: Option<usize>)
        ensures
            r matches Some(i) ==> i < v@.len() && v@[i as int]@ == s@,
            r is None ==> !str_views(v@).contains(s@),
    {
        let mut i: usize = 0;
        while i < v.len()
            invariant
                i <= v@.len(),
                forall|j: int| 0 <= j < i ==> v@[j]@ != s@,
            decreases v@.len() - i,
        {
            if v[i] == *s {
                return Some(i);
            }
            i = i + 1;
        }
        proof {
            if str_views(v@).contains(s@) {
                let j = choose|j: int| 0 <= j < str_views(v@).len() && str_views(v@)[j] == s@;
                assert(v@[j]@ == s@);
            }
        }
        None
    }

    /// Whether a peer with identity `id` is connected.
    pub fn is_connected(&self, id: &String) -> (r: bool)
        ensures
            r == self.peer_ids().contains(id@),
    {
        let mut i: usize = 0;
        while i < self.peers.len()
            invariant
                i <= self.peers@.len(),
                forall|j: int| 0 <= j < i ==> self.peers@[j].id@ != id@,
            decreases self.peers@.len() - i,
        {
            if self.peers[i].id == *id {
                proof {
                    let ids = self.peer_seq().map_values(|p: Peer| p.id@);
                    assert(ids[i as int] == id@);
                }
                return true;
            }
            i = i + 1;
        }
        proof {
            let ids = self.peer_seq().map_values(|p: Peer| p.id@);
            if ids.to_set().contains(id@) {
                let j = choose|j: int| 0 <= j < ids.len() && ids[j] == id@;
                assert(self.peers@[j].id@ == id@);
            }
        }
        false
    }

    pub fn is_dialing(&self, addr: &String) -> (r: bool)
        ensures
            r == self.dialing_set().contains(addr@),
    {
        match Self::position(&self.dialing, addr) {
            Some(i) => {
                assert(str_views(self.dialing@)[i as int] == addr@);
                true
            },
            None => false,
        }
    }

    pub fn is_feeler(&self, addr: &String) -> (r: bool)
        ensures
            r == self.feeler_set().contains(addr@),
    {
        match Self::position(&self.feeler, addr) {
            Some(i) => {
                assert(str_views(self.feeler@)[i as int] == addr@);
                true
            },
            None => false,
        }
    }

    proof fn lemma_push_view(v: Seq<String>, s: String)
        requires
            str_views(v).no_duplicates(),
            !str_views(v).to_set().contains(s@),
        ensures
            str_views(v.push(s)) == str_views(v).push(s@),
            str_views(v.push(s)).no_duplicates(),
            str_views(v.push(s)).to_set() == str_views(v).to_set().insert(s@),
    {
        assert(str_views(v.push(s)) =~= str_views(v).push(s@));
        let w = str_views(v);
        assert forall|x: Seq<char>| w.push(s@).to_set().contains(x) == w.to_set().insert(s@).contains(x) by {
            if w.push(s@).contains(x) && x != s@ {
                let j = choose|j: int| 0 <= j < w.push(s@).len() && w.push(s@)[j] == x;
                assert(w[j] == x);
            }
            if w.contains(x) {
                let j = choose|j: int| 0 <= j < w.len() && w[j] == x;
                assert(w.push(s@)[j] == x);
            }
            if x == s@ {
                assert(w.push(s@)[w.len() as int] == x);
            }
        }
        assert(w.push(s@).to_set() =~= w.to_set().insert(s@));
        assert forall|i: int, j: int| 0 <= i < j < w.push(s@).len() implies w.push(s@)[i] != w.push(s@)[j] by {
            if j == w.len() {
                assert(w.contains(w[i]));
            }
        }
    }

    /// Checks and reserves `addr` (identity `pid`) for a dial in one step;
    /// true when the reservation was made.
    pub fn reserve(&mut self, pid: &String, addr: &String, role: DialRole) -> (r: bool)
        requires
            old(self).wf(),
        ensures
            old(self).reserves(pid@, addr@, role, r, *final(self)),
    {
        if self.is_connected(pid) || self.is_dialing(addr) || self.is_feeler(addr) {
            return false;
        }
        proof {
            Self::lemma_push_view(self.dialing@, *addr);
            Self::lemma_push_view(self.feeler@, *addr);
        }
        match role {
            DialRole::Identify => self.dialing.push(addr.clone()),
            DialRole::Feeler => self.feeler.push(addr.clone()),
        }
        true
    }

    /// Records `addr` as being dialed, or probed, for `role` without the
    /// identity check: for addresses whose dial the engine itself started.
    /// False, with nothing changed, when the address is already in either set.
    pub fn record(&mut self, addr: &String, role: DialRole) -> (r: bool)
        requires
            old(self).wf(),
        ensures
            r == (!old(self).dialing_set().contains(addr@) && !old(self).feeler_set().contains(
                addr@,
            )),
            final(self).wf(),
            final(self).peer_seq() == old(self).peer_seq(),
            final(self).dialing_set() == if r && role == DialRole::Identify {
                old(self).dialing_set().insert(addr@)
            } else {
                old(self).dialing_set()
            },
            final(self).feeler_set() == if r && role == DialRole::Feeler {
                old(self).feeler_set().insert(addr@)
            } else {
                old(self).feeler_set()
            },
    {
        if self.is_dialing(addr) || self.is_feeler(addr) {
            return false;
        }
        proof {
            Self::lemma_push_view(self.dialing@, *addr);
            Self::lemma_push_view(self.feeler@, *addr);
        }
        match role {
            DialRole::Identify => self.dialing.push(addr.clone()),
            DialRole::Feeler => self.feeler.push(addr.clone()),
        }
        true
    }

    /// Reserves `target` for `role`. An address without a peer identity is
    /// an error and leaves the registry as it was; otherwise the result says
    /// whether the address was reserved, and so is to be dialed.
    pub fn dial(&mut self, target: &PeerAddress, role: DialRole) -> (r: Result<bool, Error>)
        requires
            old(self).wf(),
        ensures
            target.peer_id is None ==> (r == Err::<bool, Error>(Error::Network(target.addr))
                && *final(self) == *old(self)),
            target.peer_id matches Some(pid) ==> (r matches Ok(b) && old(self).reserves(
                pid@,
                target.addr@,
                role,
                b,
                *final(self),
            )),
    {
        match &target.peer_id {
            None => Err(Error::Network(target.addr.clone())),
            Some(pid) => Ok(self.reserve(pid, &target.addr, role)),
        }
    }

    /// Records a connected peer; false, with nothing changed, when a peer with
    /// that identity is already connected.
    pub fn add_peer(&mut self, id: String, inbound: bool) -> (r: bool)
        requires
            old(self).wf(),
        ensures
            final(self).wf(),
            r == !old(self).peer_ids().contains(id@),
            final(self).peer_seq() == if r {
                old(self).peer_seq().push(Peer { id, inbound })
            } else {
                old(self).peer_seq()
            },
            final(self).peer_ids() == old(self).peer_ids().insert(id@),
            final(self).dialing_set() == old(self).dialing_set(),
            final(self).feeler_set() == old(self).feeler_set(),
    {
        if self.is_connected(&id) {
            return false;
        }
        let ghost before = self.peer_seq();
        let ghost ids = before.map_values(|p: Peer| p.id@);
        let ghost idv = id@;
        self.peers.push(Peer { id, inbound });
        proof {
            let after = self.peer_seq().map_values(|p: Peer| p.id@);
            assert(after =~= ids.push(idv));
            assert forall|x: Seq<char>| after.to_set().contains(x) == ids.to_set().insert(idv).contains(x) by {
                if after.contains(x) && x != idv {
                    let j = choose|j: int| 0 <= j < after.len() && after[j] == x;
                    assert(ids[j] == x);
                }
                if ids.contains(x) {
                    let j = choose|j: int| 0 <= j < ids.len() && ids[j] == x;
                    assert(after[j] == x);
                }
                if x == idv {
                    assert(after[ids.len() as int] == x);
                }
            }
            assert(after.to_set() =~= ids.to_set().insert(idv));
            assert forall|i: int, j: int| 0 <= i < j < after.len() implies after[i] != after[j] by {
                if j == ids.len() {
                    assert(ids.contains(ids[i]));
                }
            }
        }
        true
    }

    /// Counts of inbound and outbound connections.
    pub fn connection_status(&self) -> (r: ConnectionStatus)
        ensures
            r.inbound == inbound_in(self.peer_seq()),
            r.inbound + r.outbound == self.peer_seq().len(),
    {
        let mut inbound: usize = 0;
        let mut i: usize = 0;
        while i < self.peers.len()
            invariant
                i <= self.peers@.len(),
                inbound == inbound_in(self.peers@.subrange(0, i as int)),
                inbound <= i,
            decreases self.peers@.len() - i,
        {
            assert(self.peers@.subrange(0, i + 1).drop_last() == self.peers@.subrange(0, i as int));
            if self.peers[i].inbound {
                inbound = inbound + 1;
            }
            i = i + 1;
        }
        assert(self.peers@.subrange(0, i as int) == self.peers@);
        ConnectionStatus { inbound, outbound: self.peers.len() - inbound }
    }
}

/// A reservation for an identity that is already connected fails and
/// changes nothing, whatever the role: no dial follows it.
pub proof fn lemma_connected_never_reserved(
    before: Registry,
    after: Registry,
    pid: Seq<char>,
    addr: Seq<char>,
    role: DialRole,
    r: bool,
)
    requires
        before.reserves(pid, addr, role, r, after),
        before.peer_ids().contains(pid),
    ensures
        !r,
        after.peer_seq() == before.peer_seq(),
        after.dialing_set() == before.dialing_set(),
        after.feeler_set() == before.feeler_set(),
{
}

/// Two reservations of one address, one after the other under the
/// registry's exclusion, never both succeed, whatever their roles and the
/// identities they carry.
pub proof fn lemma_reservation_exclusive(
    r0: Registry,
    r1: Registry,
    r2: Registry,
    pid1: Seq<char>,
    pid2: Seq<char>,
    addr: Seq<char>,
    role1: DialRole,
    role2: DialRole,
    b1: bool,
    b2: bool,
)
    requires
        r0.wf(),
        r0.reserves(pid1, addr, role1, b1, r1),
        r1.reserves(pid2, addr, role2, b2, r2),
    ensures
        !(b1 && b2),
{
    if b1 {
        if role1 == DialRole::Identify {
            assert(r1.dialing_set().contains(addr));
        } else {
            assert(r1.feeler_set().contains(addr));
        }
    }
}

} // verus!
