//! Payloads of the join protocol and of its backpointer repair.
//!
//! Every direction in a payload names a slot of the receiving node's own table and is
//! never re-interpreted from hop to hop. Requests that can be forwarded carry the full
//! identity of their originator, so that the node at the end of the chain can install the
//! entry and reply to the originator directly.
use crate::lookup::LookupTableLevel;
use crate::model::direction::Direction;
use crate::model::identifier::Identifier;
use crate::model::identity::Identity;
use crate::model::search::Nonce;
use vstd::prelude::*;

verus! {

/// Asks the introducer for the highest level at which it has a populated entry.
#[derive(Copy, Clone, PartialEq, Eq, Debug)]
pub struct MaxLevelReq {
    /// Correlation nonce.
    pub nonce: Nonce,
    /// The joining node that sent the request.
    pub origin: Identifier,
}

/// The introducer's reply to a [`MaxLevelReq`].
#[derive(Copy, Clone, PartialEq, Eq, Debug)]
pub struct MaxLevelRes {
    /// Correlation nonce of the request.
    pub nonce: Nonce,
    /// The highest level at which the responder has a populated entry.
    pub max_level: LookupTableLevel,
}

/// Asks a node for its neighbor at a level and direction.
#[derive(Copy, Clone, PartialEq, Eq, Debug)]
pub struct NeighborReq {
    /// Correlation nonce.
    pub nonce: Nonce,
    /// The node that sent the request.
    pub origin: Identifier,
    /// The level being queried.
    pub level: LookupTableLevel,
    /// The receiver's own side being queried.
    pub direction: Direction,
}

/// The reply to a [`NeighborReq`].
#[derive(Copy, Clone, PartialEq, Eq, Debug)]
pub struct NeighborRes {
    /// Correlation nonce of the request.
    pub nonce: Nonce,
    /// The level that was queried.
    pub level: LookupTableLevel,
    /// The responder's own side that was queried.
    pub direction: Direction,
    /// The responder's neighbor there, if it has one.
    pub neighbor: Option<Identity>,
}

/// Asks the receiver to adopt the candidate as its neighbor. A receiver whose neighbor
/// sits between itself and the candidate passes the request on to that neighbor.
#[derive(Copy, Clone, PartialEq, Eq, Debug)]
pub struct LinkReq {
    /// Correlation nonce.
    pub nonce: Nonce,
    /// The node that proposes itself as a neighbor.
    pub candidate: Identity,
    /// The receiver's own side for which the candidate is proposed.
    pub dir: Direction,
    /// The level at which the link is requested.
    pub level: LookupTableLevel,
}

/// Reports how a link request ended. It also arrives unsolicited, as a correction pushed
/// during backpointer repair, so a receiver must not assume that it answers a request.
#[derive(Copy, Clone, PartialEq, Eq, Debug)]
pub struct LinkRes {
    /// Correlation nonce of the request.
    pub nonce: Nonce,
    /// The receiver's own side that the link concerns.
    pub dir: Direction,
    /// The level that the link concerns.
    pub level: LookupTableLevel,
    /// The node that adopted the receiver, or `None` when no node did.
    pub linked: Option<Identity>,
}

/// Searches outward for the nearest node that shares `level` leading membership-vector
/// bits with the candidate.
#[derive(Copy, Clone, PartialEq, Eq, Debug)]
pub struct BuddyReq {
    /// Correlation nonce.
    pub nonce: Nonce,
    /// The node that seeks a neighbor at this level.
    pub candidate: Identity,
    /// The receiver's own side for which the candidate is proposed.
    pub side: Direction,
    /// The level at which a neighbor is sought.
    pub level: LookupTableLevel,
}

/// A repair probe that asks whether the receiver's slot points back at the claimant.
#[derive(Copy, Clone, PartialEq, Eq, Debug)]
pub struct CheckNeighborReq {
    /// Correlation nonce.
    pub nonce: Nonce,
    /// The node that claims to be the receiver's neighbor.
    pub claimant: Identity,
    /// The receiver's own side being checked.
    pub side: Direction,
    /// The level being checked.
    pub level: LookupTableLevel,
}

} // verus!
