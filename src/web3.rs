//! The broadcast endpoint: the decisions around one submitted transaction,
//! from its decoding to the reply.
use vstd::prelude::*;

use crate::endpoints::EndpointId;
use crate::result::{RpcError, BROADCAST_ERROR_CODE};

verus! {

/// Delivery priority of a gossip message.
#[derive(Clone, Copy, Debug, PartialEq, Eq, Structural)]
pub enum Priority {
    Low,
    Normal,
    High,
}

/// One gossip send: where, at which priority, and the batch of items.
pub struct GossipOrder<T> {
    pub endpoint: EndpointId,
    pub priority: Priority,
    pub batch: Vec<T>,
}

/// Whether `r` is the broadcast endpoint's error with reason `m`.
pub open spec fn is_broadcast_error<T>(r: Result<T, RpcError>, m: String) -> bool {
    r matches Err(e) && e.code() == BROADCAST_ERROR_CODE && e.reason() == m
}

fn broadcast_error(m: String) -> (r: RpcError)
    ensures
        r.code() == BROADCAST_ERROR_CODE,
        r.reason() == m,
{
    RpcError::new(BROADCAST_ERROR_CODE, m)
}

/// The endpoint, holding the gossip client `G` that it sends through.
pub struct Web3RpcImpl<G> {
    gossip: G,
}

impl<G> Web3RpcImpl<G> {
    pub fn new(gossip: G) -> (r: Self)
        ensures
            r.gossip_spec() == gossip,
    {
        Web3RpcImpl { gossip }
    }

    pub closed spec fn gossip_spec(&self) -> G {
        self.gossip
    }

    pub fn gossip(&self) -> (r: &G)
        ensures
            *r == self.gossip_spec(),
    {
        &self.gossip
    }

    /// First stage: the raw bytes decoded into an unverified transaction, or
    /// the decoding error's text, which becomes the caller's error.
    pub fn check_decoded<U>(&self, decoded: Result<U, String>) -> (r: Result<U, RpcError>)
        ensures
            decoded matches Ok(u) ==> r == Ok::<U, RpcError>(u),
            decoded matches Err(m) ==> is_broadcast_error(r, m),
    {
        match decoded {
            Ok(u) => Ok(u),
            Err(m) => Err(broadcast_error(m)),
        }
    }

    /// Second stage: the verified transaction goes out as a batch of one, at
    /// high priority, on the new-transactions endpoint; a verification error's
    /// text becomes the caller's error and nothing is sent.
    pub fn gossip_order<T>(&self, verified: Result<T, String>) -> (r: Result<GossipOrder<T>, RpcError>)
        ensures
            verified matches Ok(t) ==> (r matches Ok(o) && o.endpoint == EndpointId::GossipNewTxs
                && o.priority == Priority::High && o.batch@ == seq![t]),
            verified matches Err(m) ==> is_broadcast_error(r, m),
    {
        match verified {
            Ok(t) => {
                let mut batch: Vec<T> = Vec::new();
                batch.push(t);
                Ok(GossipOrder { endpoint: EndpointId::GossipNewTxs, priority: Priority::High, batch })
            },
            Err(m) => Err(broadcast_error(m)),
        }
    }

    /// Last stage: the transaction's hash when the send went out, else the
    /// send error's text as the caller's error.
    pub fn reply<H>(&self, hash: H, sent: Result<(), String>) -> (r: Result<H, RpcError>)
        ensures
            sent is Ok ==> r == Ok::<H, RpcError>(hash),
            sent matches Err(m) ==> is_broadcast_error(r, m),
    {
        match sent {
            Ok(()) => Ok(hash),
            Err(m) => Err(broadcast_error(m)),
        }
    }
}

} // verus!
