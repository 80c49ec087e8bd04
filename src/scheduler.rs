//! Connection scheduling policy: how many dial slots are free, which
//! strategy a round uses and what it dials.
use rand::seq::IteratorRandom;
use vstd::prelude::*;

use crate::registry::{inbound_in, reservable, DialRole, PeerAddress, Registry};

verus! {

/// Seconds between two dial ticks.
pub const DIAL_INTERVAL_SECS: u64 = 10;

/// Seconds between two dumps of the peer store.
pub const DUMP_INTERVAL_SECS: u64 = 600;

/// Addresses probed by one feeler round.
pub const FEELER_COUNT: usize = 10;

/// Consecutive store-driven rounds after which a round prefers the
/// bootstrap addresses.
pub const BOOTSTRAP_ROUND_THRESHOLD: u8 = 3;

/// Free dial slots: `max_connections - inbound_conn_limit - inbound`, or zero
/// when that is not positive.
pub open spec fn free_slots_spec(max_connections: int, inbound_conn_limit: int, inbound: int) -> int {
    let d = max_connections - inbound_conn_limit - inbound;
    if d > 0 {
        d
    } else {
        0
    }
}

/// Number of addresses one identify round may dial.
pub fn free_slots(max_connections: usize, inbound_conn_limit: usize, inbound: usize) -> (r: usize)
    ensures
        r as int == free_slots_spec(max_connections as int, inbound_conn_limit as int, inbound as int),
{
    max_connections.saturating_sub(inbound_conn_limit).saturating_sub(inbound)
}

/// The round counter after a round with `slots` free slots.
pub open spec fn count_after(count: int, slots: int) -> int {
    if slots == 0 || count + 1 > BOOTSTRAP_ROUND_THRESHOLD {
        0
    } else {
        count + 1
    }
}

/// Whether a round with `slots` free slots, after `count` store-driven
/// rounds, prefers the bootstrap addresses.
pub open spec fn prefers_bootstraps(count: int, slots: int) -> bool {
    slots > 0 && count + 1 > BOOTSTRAP_ROUND_THRESHOLD
}

/// `picked` holds distinct positions of `from`, as many as `picked` is long.
pub open spec fn drawn_from(picked: Seq<PeerAddress>, from: Seq<PeerAddress>) -> bool {
    exists|idx: Seq<int>|
        {
            &&& idx.len() == picked.len()
            &&& forall|i: int|
                0 <= i < idx.len() ==> 0 <= #[trigger] idx[i] < from.len() && picked[i] == from[idx[i]]
            &&& forall|i: int, j: int| 0 <= i < j < idx.len() ==> idx[i] != idx[j]
        }
}

/// The bootstrap addresses of `boots` whose identity is known and not
/// connected, in their order.
pub open spec fn unconnected_spec(ids: Set<Seq<char>>, boots: Seq<PeerAddress>) -> Seq<PeerAddress>
    decreases boots.len(),
{
    if boots.len() == 0 {
        Seq::empty()
    } else {
        let rest = unconnected_spec(ids, boots.drop_last());
        let a = boots.last();
        if a.peer_id is Some && !ids.contains(a.peer_id->0@) {
            rest.push(a)
        } else {
            rest
        }
    }
}

/// Relies on rand's `IteratorRandom::choose_multiple` (reservoir sampling)
/// over `0..len` with the thread-local generator: it returns `min(len, amount)`
/// of the range's values, each at most once, in no fixed order.
#[verifier::external_body]
fn choose_indices(len: usize, amount: usize) -> (r: Vec<usize>)
    ensures
        r@.len() == if len < amount {
            len
        } else {
            amount
        },
        forall|i: int| 0 <= i < r@.len() ==> #[trigger] r@[i] < len,
        forall|i: int, j: int| 0 <= i < j < r@.len() ==> r@[i] != r@[j],
{
    (0..len).choose_multiple(&mut rand::thread_rng(), amount)
}

/// Draws `count` of `boots` uniformly, without replacement.
pub fn sample_bootstraps(boots: &Vec<PeerAddress>, count: usize) -> (r: Vec<PeerAddress>)
    requires
        count <= boots@.len(),
    ensures
        r@.len() == count,
        drawn_from(r@, boots@),
{
    let idx = choose_indices(boots.len(), count);
    let mut r: Vec<PeerAddress> = Vec::new();
    let mut i: usize = 0;
    while i < idx.len()
        invariant
            i <= idx@.len(),
            r@.len() == i,
            forall|k: int| 0 <= k < idx@.len() ==> #[trigger] idx@[k] < boots@.len(),
            forall|k: int| 0 <= k < i ==> r@[k] == boots@[idx@[k] as int],
        decreases idx@.len() - i,
    {
        r.push(boots[idx[i]].duplicate());
        i = i + 1;
    }
    let ghost w = idx@.map_values(|k: usize| k as int);
    assert(w.len() == r@.len());
    assert forall|a: int| 0 <= a < w.len() implies 0 <= #[trigger] w[a] < boots@.len() && r@[a] == boots@[w[a]] by {
        assert(idx@[a] < boots@.len());
    }
    assert forall|a: int, b: int| 0 <= a < b < w.len() implies w[a] != w[b] by {
        assert(idx@[a] != idx@[b]);
    }
    r
}

/// The bootstrap addresses whose identity is known and not connected.
pub fn unconnected_bootstraps(reg: &Registry, boots: &Vec<PeerAddress>) -> (r: Vec<PeerAddress>)
    ensures
        r@ == unconnected_spec(reg.peer_ids(), boots@),
{
    let mut r: Vec<PeerAddress> = Vec::new();
    let mut i: usize = 0;
    while i < boots.len()
        invariant
            i <= boots@.len(),
            r@ == unconnected_spec(reg.peer_ids(), boots@.subrange(0, i as int)),
        decreases boots@.len() - i,
    {
        assert(boots@.subrange(0, i + 1).drop_last() == boots@.subrange(0, i as int));
        let keep = match &boots[i].peer_id {
            Some(pid) => !reg.is_connected(pid),
            None => false,
        };
        if keep {
            r.push(boots[i].duplicate());
        }
        i = i + 1;
    }
    assert(boots@.subrange(0, i as int) == boots@);
    r
}

/// What an identify round dials.
pub enum IdentifyPlan {
    /// No slot is free: nothing is dialed.
    Idle,
    /// Dial the peer store's top `count` attempt candidates.
    FromStore { count: usize },
    /// Dial `store_count` attempt candidates of the peer store, then every
    /// unconnected bootstrap address.
    StoreThenBootstraps { store_count: usize, bootstraps: Vec<PeerAddress> },
    /// Dial these bootstrap addresses, drawn at random.
    Bootstraps { bootstraps: Vec<PeerAddress> },
}

impl IdentifyPlan {
    /// How many attempt candidates the peer store is asked for.
    pub open spec fn store_count_spec(&self) -> nat {
        match self {
            IdentifyPlan::Idle => 0,
            IdentifyPlan::FromStore { count } => *count as nat,
            IdentifyPlan::StoreThenBootstraps { store_count, .. } => *store_count as nat,
            IdentifyPlan::Bootstraps { .. } => 0,
        }
    }

    /// The addresses dialed once the store has returned `picks`.
    pub open spec fn targets_spec(&self, picks: Seq<PeerAddress>) -> Seq<PeerAddress> {
        match self {
            IdentifyPlan::Idle => Seq::empty(),
            IdentifyPlan::FromStore { .. } => picks,
            IdentifyPlan::StoreThenBootstraps { bootstraps, .. } => picks + bootstraps@,
            IdentifyPlan::Bootstraps { bootstraps } => bootstraps@,
        }
    }

    pub fn store_count(&self) -> (r: usize)
        ensures
            r == self.store_count_spec(),
    {
        match self {
            IdentifyPlan::Idle => 0,
            IdentifyPlan::FromStore { count } => *count,
            IdentifyPlan::StoreThenBootstraps { store_count, .. } => *store_count,
            IdentifyPlan::Bootstraps { .. } => 0,
        }
    }

    /// The addresses to dial, given the attempt candidates `picks` that the
    /// peer store returned for this plan.
    pub fn targets(self, picks: Vec<PeerAddress>) -> (r: Vec<PeerAddress>)
        ensures
            r@ == self.targets_spec(picks@),
    {
        match self {
            IdentifyPlan::Idle => Vec::new(),
            IdentifyPlan::FromStore { .. } => picks,
            IdentifyPlan::StoreThenBootstraps { bootstraps, .. } => {
                let mut r = picks;
                let mut b = bootstraps;
                r.append(&mut b);
                r
            },
            IdentifyPlan::Bootstraps { bootstraps } => bootstraps,
        }
    }
}

/// The scheduler's own state: the number of consecutive store-driven
/// identify rounds.
pub struct Scheduler {
    try_identify_count: u8,
}

/// Limits on connections, from the network configuration.
#[derive(Clone, Copy, Debug, PartialEq, Eq, Structural)]
pub struct DialLimits {
    pub max_connections: usize,
    pub inbound_conn_limit: usize,
}

impl Scheduler {
    pub closed spec fn count(&self) -> int {
        self.try_identify_count as int
    }

    pub closed spec fn wf(&self) -> bool {
        self.try_identify_count <= BOOTSTRAP_ROUND_THRESHOLD
    }

    pub fn new() -> (r: Self)
        ensures
            r.wf(),
            r.count() == 0,
    {
        Scheduler { try_identify_count: 0 }
    }

    pub fn rounds(&self) -> (r: u8)
        ensures
            r == self.count(),
    {
        self.try_identify_count
    }

    /// Decides an identify round. With no free slot the counter drops to zero
    /// and nothing is dialed. Otherwise the counter grows; past the threshold
    /// it drops to zero and the round prefers the unconnected bootstrap
    /// addresses: all of them and store candidates for the remaining slots
    /// when they are fewer than the slots, else exactly as many as the slots,
    /// drawn at random. Otherwise the round dials the store's top candidates.
    pub fn plan_identify_round(
        &mut self,
        reg: &Registry,
        limits: &DialLimits,
        boots: &Vec<PeerAddress>,
    ) -> (r: IdentifyPlan)
        requires
            old(self).wf(),
        ensures
            final(self).wf(),
            ({
                let slots = free_slots_spec(
                    limits.max_connections as int,
                    limits.inbound_conn_limit as int,
                    inbound_in(reg.peer_seq()) as int,
                );
                let unconnected = unconnected_spec(reg.peer_ids(), boots@);
                &&& final(self).count() == count_after(old(self).count(), slots)
                &&& slots == 0 ==> r is Idle
                &&& slots > 0 && !prefers_bootstraps(old(self).count(), slots) ==> r
                    == IdentifyPlan::FromStore { count: slots as usize }
                &&& prefers_bootstraps(old(self).count(), slots) && unconnected.len() < slots ==> (
                r matches IdentifyPlan::StoreThenBootstraps { store_count, bootstraps }
                    && store_count == slots - unconnected.len() && bootstraps@ == unconnected)
                &&& prefers_bootstraps(old(self).count(), slots) && unconnected.len() >= slots ==> (
                r matches IdentifyPlan::Bootstraps { bootstraps } && bootstraps@.len() == slots
                    && drawn_from(bootstraps@, unconnected))
            }),
    {
        let status = reg.connection_status();
        let slots = free_slots(limits.max_connections, limits.inbound_conn_limit, status.inbound);
        if slots == 0 {
            self.try_identify_count = 0;
            return IdentifyPlan::Idle;
        }
        self.try_identify_count = self.try_identify_count + 1;
        if self.try_identify_count > BOOTSTRAP_ROUND_THRESHOLD {
            self.try_identify_count = 0;
            let bootstraps = unconnected_bootstraps(reg, boots);
            let len = bootstraps.len();
            if len < slots {
                IdentifyPlan::StoreThenBootstraps { store_count: slots - len, bootstraps }
            } else {
                IdentifyPlan::Bootstraps { bootstraps: sample_bootstraps(&bootstraps, slots) }
            }
        } else {
            IdentifyPlan::FromStore { count: slots }
        }
    }
}

/// What a round of dials over `targets` leaves: the addresses reserved, in
/// order, and the dialing and feeler sets after it. An address without an
/// identity is skipped; the others are reserved when reservable at their turn.
pub open spec fn round_outcome(
    ids: Set<Seq<char>>,
    dialing: Set<Seq<char>>,
    feeler: Set<Seq<char>>,
    targets: Seq<PeerAddress>,
    role: DialRole,
) -> (Seq<PeerAddress>, Set<Seq<char>>, Set<Seq<char>>)
    decreases targets.len(),
{
    if targets.len() == 0 {
        (Seq::empty(), dialing, feeler)
    } else {
        let prev = round_outcome(ids, dialing, feeler, targets.drop_last(), role);
        let a = targets.last();
        if a.peer_id is Some && reservable(ids, prev.1, prev.2, a.peer_id->0@, a.addr@) {
            (
                prev.0.push(a),
                if role == DialRole::Identify {
                    prev.1.insert(a.addr@)
                } else {
                    prev.1
                },
                if role == DialRole::Feeler {
                    prev.2.insert(a.addr@)
                } else {
                    prev.2
                },
            )
        } else {
            prev
        }
    }
}

/// Reserves each of `targets` for `role` in turn and returns those that were
/// reserved, which are the ones to dial. An address without an identity
/// abandons that attempt only.
pub fn dial_round(reg: &mut Registry, targets: &Vec<PeerAddress>, role: DialRole) -> (r: Vec<
    PeerAddress,
>)
    requires
        old(reg).wf(),
    ensures
        final(reg).wf(),
        final(reg).peer_seq() == old(reg).peer_seq(),
        ({
            let o = round_outcome(
                old(reg).peer_ids(),
                old(reg).dialing_set(),
                old(reg).feeler_set(),
                targets@,
                role,
            );
            &&& r@ == o.0
            &&& final(reg).dialing_set() == o.1
            &&& final(reg).feeler_set() == o.2
        }),
{
    let ghost ids = reg.peer_ids();
    let ghost d0 = reg.dialing_set();
    let ghost f0 = reg.feeler_set();
    let ghost s0 = reg.peer_seq();
    let mut r: Vec<PeerAddress> = Vec::new();
    let mut i: usize = 0;
    while i < targets.len()
        invariant
            i <= targets@.len(),
            reg.wf(),
            reg.peer_seq() == s0,
            reg.peer_ids() == ids,
            ({
                let o = round_outcome(ids, d0, f0, targets@.subrange(0, i as int), role);
                &&& r@ == o.0
                &&& reg.dialing_set() == o.1
                &&& reg.feeler_set() == o.2
            }),
        decreases targets@.len() - i,
    {
        assert(targets@.subrange(0, i + 1).drop_last() == targets@.subrange(0, i as int));
        match reg.dial(&targets[i], role) {
            Ok(true) => {
                r.push(targets[i].duplicate());
            },
            _ => {},
        }
        i = i + 1;
    }
    assert(targets@.subrange(0, i as int) == targets@);
    r
}

/// With no free slot a round dials nothing, resets the counter and does not
/// prefer the bootstrap addresses.
pub proof fn lemma_no_free_slot_no_dial(count: int, picks: Seq<PeerAddress>)
    ensures
        count_after(count, 0) == 0,
        !prefers_bootstraps(count, 0),
        IdentifyPlan::Idle.targets_spec(picks).len() == 0,
{
}

/// From a fresh counter, four rounds in a row with free slots: the first
/// three dial from the peer store, the fourth prefers the bootstrap
/// addresses, and the counter is zero right after it.
pub proof fn lemma_fourth_round_prefers_bootstraps(s1: int, s2: int, s3: int, s4: int)
    requires
        s1 > 0,
        s2 > 0,
        s3 > 0,
        s4 > 0,
    ensures
        !prefers_bootstraps(0, s1),
        !prefers_bootstraps(count_after(0, s1), s2),
        !prefers_bootstraps(count_after(count_after(0, s1), s2), s3),
        prefers_bootstraps(count_after(count_after(count_after(0, s1), s2), s3), s4),
        count_after(count_after(count_after(count_after(0, s1), s2), s3), s4) == 0,
{
}

/// A round that draws from the bootstrap addresses dials exactly as many
/// addresses as it drew, whatever the store returned.
pub proof fn lemma_drawn_round_dials_slot_count(
    bootstraps: Vec<PeerAddress>,
    picks: Seq<PeerAddress>,
    slots: int,
)
    requires
        bootstraps@.len() == slots,
    ensures
        (IdentifyPlan::Bootstraps { bootstraps }).targets_spec(picks).len() == slots,
{
}

/// An event of the scheduling loop.
pub enum LoopEvent {
    /// The dial tick fired.
    DialTick,
    /// The dump tick fired.
    DumpTick,
    /// A dump of the peer store ended, with the error text on failure.
    DumpDone(Result<(), String>),
    /// No event source is left.
    Closed,
}

/// What the scheduling loop does next.
#[derive(Debug, PartialEq, Eq)]
pub enum LoopAction {
    /// Run an identify round, then a feeler round of `FEELER_COUNT`.
    RunRounds,
    /// Dump the peer store to its path.
    Dump,
    /// Log this text as a warning and wait for the next event.
    Warn(String),
    /// Wait for the next event.
    Wait,
    /// Signal shutdown to the dial control and leave the loop.
    Shutdown,
}

pub open spec fn loop_step(e: LoopEvent) -> LoopAction {
    match e {
        LoopEvent::DialTick => LoopAction::RunRounds,
        LoopEvent::DumpTick => LoopAction::Dump,
        LoopEvent::DumpDone(Ok(())) => LoopAction::Wait,
        LoopEvent::DumpDone(Err(m)) => LoopAction::Warn(m),
        LoopEvent::Closed => LoopAction::Shutdown,
    }
}

/// The loop's answer to one event. Only the end of all event sources stops
/// it; a failed dump is a warning.
pub fn next_action(e: LoopEvent) -> (r: LoopAction)
    ensures
        r == loop_step(e),
{
    match e {
        LoopEvent::DialTick => LoopAction::RunRounds,
        LoopEvent::DumpTick => LoopAction::Dump,
        LoopEvent::DumpDone(Ok(())) => LoopAction::Wait,
        LoopEvent::DumpDone(Err(m)) => LoopAction::Warn(m),
        LoopEvent::Closed => LoopAction::Shutdown,
    }
}

/// A failed dump does not end the scheduling loop, and the dial tick after
/// it still runs the dial rounds.
pub proof fn lemma_dump_failure_keeps_loop(m: String)
    ensures
        loop_step(LoopEvent::DumpDone(Err(m))) != LoopAction::Shutdown,
        loop_step(LoopEvent::DialTick) == LoopAction::RunRounds,
{
}

} // verus!
