//! The message endpoints that the node registers on the network and does not
//! act on: a table of endpoints and handler kinds, read by one registration
//! routine.
use std::marker::PhantomData;
use vstd::prelude::*;

verus! {

/// A logical message channel of the gossip protocol.
#[derive(Clone, Copy, Debug, PartialEq, Eq, Structural)]
pub enum EndpointId {
    GossipNewTxs,
    RpcPullTxs,
    GossipSignedProposal,
    GossipAggregatedVote,
    GossipSignedVote,
    GossipSignedChoke,
    BroadcastHeight,
    RpcSyncPullBlock,
    RpcSyncPullProof,
    RpcSyncPullTxs,
    RpcRespSyncPullBlock,
    RpcRespSyncPullProof,
    RpcRespSyncPullTxs,
    RpcRespPullTxs,
    RpcRespPullTxsSync,
}

/// How a registered endpoint is handled.
#[derive(Clone, Copy, Debug, PartialEq, Eq, Structural)]
pub enum HandlerKind {
    /// Messages arrive and are dropped.
    IgnoredMessage,
    /// Responses to remote calls are accepted and not used.
    RpcResponse,
}

/// One row of the registration table.
#[derive(Clone, Copy, Debug, PartialEq, Eq, Structural)]
pub struct Registration {
    pub endpoint: EndpointId,
    pub kind: HandlerKind,
}

pub open spec fn row(endpoint: EndpointId, kind: HandlerKind) -> Registration {
    Registration { endpoint, kind }
}

/// Every endpoint the node registers, in registration order.
pub open spec fn registration_table() -> Seq<Registration> {
    seq![
        row(EndpointId::GossipNewTxs, HandlerKind::IgnoredMessage),
        row(EndpointId::RpcPullTxs, HandlerKind::IgnoredMessage),
        row(EndpointId::GossipSignedProposal, HandlerKind::IgnoredMessage),
        row(EndpointId::GossipAggregatedVote, HandlerKind::IgnoredMessage),
        row(EndpointId::GossipSignedVote, HandlerKind::IgnoredMessage),
        row(EndpointId::GossipSignedChoke, HandlerKind::IgnoredMessage),
        row(EndpointId::BroadcastHeight, HandlerKind::IgnoredMessage),
        row(EndpointId::RpcSyncPullBlock, HandlerKind::IgnoredMessage),
        row(EndpointId::RpcSyncPullProof, HandlerKind::IgnoredMessage),
        row(EndpointId::RpcSyncPullTxs, HandlerKind::IgnoredMessage),
        row(EndpointId::RpcRespSyncPullBlock, HandlerKind::RpcResponse),
        row(EndpointId::RpcRespSyncPullProof, HandlerKind::RpcResponse),
        row(EndpointId::RpcRespSyncPullTxs, HandlerKind::RpcResponse),
        row(EndpointId::RpcRespPullTxs, HandlerKind::RpcResponse),
        row(EndpointId::RpcRespPullTxsSync, HandlerKind::RpcResponse),
    ]
}

/// The registration table.
pub fn registrations() -> (r: Vec<Registration>)
    ensures
        r@ == registration_table(),
{
    let r = vec![
        Registration { endpoint: EndpointId::GossipNewTxs, kind: HandlerKind::IgnoredMessage },
        Registration { endpoint: EndpointId::RpcPullTxs, kind: HandlerKind::IgnoredMessage },
        Registration { endpoint: EndpointId::GossipSignedProposal, kind: HandlerKind::IgnoredMessage },
        Registration { endpoint: EndpointId::GossipAggregatedVote, kind: HandlerKind::IgnoredMessage },
        Registration { endpoint: EndpointId::GossipSignedVote, kind: HandlerKind::IgnoredMessage },
        Registration { endpoint: EndpointId::GossipSignedChoke, kind: HandlerKind::IgnoredMessage },
        Registration { endpoint: EndpointId::BroadcastHeight, kind: HandlerKind::IgnoredMessage },
        Registration { endpoint: EndpointId::RpcSyncPullBlock, kind: HandlerKind::IgnoredMessage },
        Registration { endpoint: EndpointId::RpcSyncPullProof, kind: HandlerKind::IgnoredMessage },
        Registration { endpoint: EndpointId::RpcSyncPullTxs, kind: HandlerKind::IgnoredMessage },
        Registration { endpoint: EndpointId::RpcRespSyncPullBlock, kind: HandlerKind::RpcResponse },
        Registration { endpoint: EndpointId::RpcRespSyncPullProof, kind: HandlerKind::RpcResponse },
        Registration { endpoint: EndpointId::RpcRespSyncPullTxs, kind: HandlerKind::RpcResponse },
        Registration { endpoint: EndpointId::RpcRespPullTxs, kind: HandlerKind::RpcResponse },
        Registration { endpoint: EndpointId::RpcRespPullTxsSync, kind: HandlerKind::RpcResponse },
    ];
    assert(r@ =~= registration_table());
    r
}

/// A message that is never looked at: it encodes to nothing and decodes from
/// anything.
#[derive(Clone, Copy, Debug, PartialEq, Eq, Structural)]
pub struct IgnoredMessage;

impl IgnoredMessage {
    pub fn encode_msg(&mut self) -> (r: Vec<u8>)
        ensures
            r@.len() == 0,
    {
        Vec::new()
    }

    pub fn decode_msg(_bytes: Vec<u8>) -> (r: Self) {
        IgnoredMessage
    }
}

/// The handler of an endpoint whose messages of type `M` are dropped.
pub struct IgnoredMessageHandler<M> {
    endpoint: EndpointId,
    phantom: PhantomData<M>,
}

impl<M> IgnoredMessageHandler<M> {
    pub fn new(endpoint: EndpointId) -> (r: Self)
        ensures
            r.endpoint_spec() == endpoint,
    {
        IgnoredMessageHandler { endpoint, phantom: PhantomData }
    }

    pub closed spec fn endpoint_spec(&self) -> EndpointId {
        self.endpoint
    }

    pub fn endpoint(&self) -> (r: EndpointId)
        ensures
            r == self.endpoint_spec(),
    {
        self.endpoint
    }
}

} // verus!
