//! Messages between nodes, and the interfaces through which they travel.
use crate::model::address::Address;
use crate::model::identifier::Identifier;
use crate::model::join::BuddyReq;
use crate::model::join::CheckNeighborReq;
use crate::model::join::LinkReq;
use crate::model::join::LinkRes;
use crate::model::join::MaxLevelReq;
use crate::model::join::MaxLevelRes;
use crate::model::join::NeighborReq;
use crate::model::join::NeighborRes;
use crate::model::search::IdSearchReq;
use crate::model::search::IdSearchRes;
use vstd::prelude::*;

verus! {

/// The payload of a message between nodes.
#[derive(Clone, PartialEq, Eq, Debug)]
pub enum Event {
    /// A plain string, for tests only.
    TestMessage(String),
    /// An identifier search request.
    SearchByIdRequest(IdSearchReq),
    /// An identifier search response.
    SearchByIdResponse(IdSearchRes),
    /// A request for the receiver's highest populated level.
    GetMaxLevelOp(MaxLevelReq),
    /// The response carrying the responder's highest populated level.
    RetMaxLevelOp(MaxLevelRes),
    /// A request for the receiver's neighbor at a level and direction.
    GetNeighborOp(NeighborReq),
    /// The response carrying the queried neighbor, if any.
    RetNeighborOp(NeighborRes),
    /// A forwardable request to link the candidate.
    GetLinkOp(LinkReq),
    /// The confirmation of a link, also used as a repair correction.
    SetLinkOp(LinkRes),
    /// A forwardable request for a prefix-matching neighbor.
    BuddyOp(BuddyReq),
    /// A forwardable repair probe.
    CheckNeighborOp(CheckNeighborReq),
}

/// The network could not take an event.
#[derive(Clone, PartialEq, Eq, Debug)]
pub struct NetworkError {
    pub reason: String,
}

/// Something that consumes events delivered to it.
pub trait EventProcessorCore {
    /// What the processor wants done once it has handled an event.
    type Effect;

    /// Why the processor could not handle an event.
    type Failure;

    /// Handles an event sent by the node `origin_id`.
    fn process_incoming_event(&mut self, origin_id: Identifier, event: Event) -> Result<
        Self::Effect,
        Self::Failure,
    >;
}

/// A transport that carries events to other nodes.
pub trait Network: Send + Sync {
    /// Sends an event to the node `dest`.
    fn send_event(&self, dest: Identifier, event: Event) -> Result<(), NetworkError>;

    /// Returns the address at which this node is reached.
    fn address(&self) -> Address;
}

} // verus!
