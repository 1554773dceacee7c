//! How a node answers each event, as a relation between its states.
use crate::lookup;
use crate::lookup::LinkOutcome;
use crate::lookup::LookupTableLevel;
use crate::lookup::Slots;
use crate::lookup::LOOKUP_TABLE_LEVELS;
use crate::model::address::Address;
use crate::model::direction::Direction;
use crate::model::identifier::Identifier;
use crate::model::identity::Identity;
use crate::model::join::LinkReq;
use crate::model::join::LinkRes;
use crate::model::join::MaxLevelReq;
use crate::model::join::MaxLevelRes;
use crate::model::join::NeighborReq;
use crate::model::join::NeighborRes;
use crate::model::memvec::MembershipVector;
use crate::model::search::IdSearchReq;
use crate::model::search::IdSearchRes;
use crate::network::Event;
use crate::node::base_core;
use crate::node::base_core::SearchError;
use crate::node::error::NodeError;
use crate::node::error::SendPurpose;
use crate::node::waiter;
use crate::node::waiter::ReplyChannels;
use crate::node::waiter::Waiter;
use crate::node::waiter::WaiterKind;
use crate::node::waiter::Waiters;
use vstd::prelude::*;

verus! {

/// A message for the network.
#[derive(PartialEq, Eq, Debug)]
pub struct Outbound {
    /// The node to send to.
    pub dest: Identifier,
    /// What to send.
    pub event: Event,
    /// What the message is for.
    pub purpose: SendPurpose,
}

/// A reply for a caller that waits.
pub enum Delivery<C: ReplyChannels> {
    Search(C::Search, IdSearchRes),
    MaxLevel(C::MaxLevel, MaxLevelRes),
    Neighbor(C::Neighbor, NeighborRes),
    Link(C::Link, LinkRes),
}

/// What a node wants done after it has handled an event.
pub enum Effect<C: ReplyChannels> {
    /// Nothing.
    Idle,
    /// Send a message.
    Send(Outbound),
    /// Pass a reply to the caller that waits for it.
    Deliver(Delivery<C>),
}

/// The state of a node.
#[verifier::ext_equal]
pub struct NodeModel<C: ReplyChannels> {
    pub id: Identifier,
    pub mem_vec: MembershipVector,
    pub address: Address,
    pub slots: Slots,
    pub waiters: Waiters<C>,
}

impl<C: ReplyChannels> NodeModel<C> {
    /// How the node presents itself to others.
    pub open spec fn identity(self) -> Identity {
        Identity { id: self.id, mem_vec: self.mem_vec, address: self.address }
    }

    /// The node with other waiters.
    pub open spec fn with_waiters(self, waiters: Waiters<C>) -> NodeModel<C> {
        NodeModel { waiters, ..self }
    }

    /// The node with a slot set to `entry`.
    pub open spec fn with_slot(
        self,
        level: LookupTableLevel,
        direction: Direction,
        entry: Option<Identity>,
    ) -> NodeModel<C> {
        NodeModel { slots: self.slots.insert((level, direction), Ok(entry)), ..self }
    }
}

/// A search request: a node that is itself the answer replies to the origin, any other
/// passes the request to the answer, at the level where it was found.
pub open spec fn handles_search_request<C: ReplyChannels>(
    before: NodeModel<C>,
    req: IdSearchReq,
    after: NodeModel<C>,
    r: Result<Effect<C>, NodeError>,
) -> bool {
    &&& after == before
    &&& exists|found: Result<IdSearchRes, SearchError>|
        {
            &&& #[trigger] base_core::answers_search(before.slots, before.id, req, found)
            &&& match found {
                Err(e) => r == Err::<Effect<C>, NodeError>(NodeError::Search(e)),
                Ok(res) => if res.result == before.id {
                    r == Ok::<Effect<C>, NodeError>(
                        Effect::Send(
                            Outbound {
                                dest: req.origin,
                                event: Event::SearchByIdResponse(res),
                                purpose: SendPurpose::SearchResponse,
                            },
                        ),
                    )
                } else {
                    r == Ok::<Effect<C>, NodeError>(
                        Effect::Send(
                            Outbound {
                                dest: res.result,
                                event: Event::SearchByIdRequest(
                                    IdSearchReq { level: res.termination_level, ..req },
                                ),
                                purpose: SendPurpose::SearchRelay,
                            },
                        ),
                    )
                },
            }
        }
}

/// A search response: resolves the search that waits for it, if there is one.
pub open spec fn handles_search_response<C: ReplyChannels>(
    before: NodeModel<C>,
    res: IdSearchRes,
    after: NodeModel<C>,
    r: Result<Effect<C>, NodeError>,
) -> bool {
    if waiter::awaits(before.waiters, res.nonce, WaiterKind::AsyncSearch) {
        &&& after == before.with_waiters(before.waiters.remove(res.nonce.value))
        &&& before.waiters[res.nonce.value] matches Waiter::AsyncSearch(reply_to) && r == Ok::<
            Effect<C>,
            NodeError,
        >(Effect::Deliver(Delivery::Search(reply_to, res)))
    } else {
        after == before && r == Ok::<Effect<C>, NodeError>(Effect::Idle)
    }
}

/// A request for the highest populated level: the node answers with its own.
pub open spec fn handles_max_level_request<C: ReplyChannels>(
    before: NodeModel<C>,
    req: MaxLevelReq,
    after: NodeModel<C>,
    r: Result<Effect<C>, NodeError>,
) -> bool {
    &&& after == before
    &&& r == Ok::<Effect<C>, NodeError>(
        Effect::Send(
            Outbound {
                dest: req.origin,
                event: Event::RetMaxLevelOp(
                    MaxLevelRes {
                        nonce: req.nonce,
                        max_level: base_core::max_level_of(before.slots),
                    },
                ),
                purpose: SendPurpose::MaxLevelResponse,
            },
        ),
    )
}

/// A reply with the highest populated level: resolves the request that waits for it, if
/// there is one.
pub open spec fn handles_max_level_response<C: ReplyChannels>(
    before: NodeModel<C>,
    res: MaxLevelRes,
    after: NodeModel<C>,
    r: Result<Effect<C>, NodeError>,
) -> bool {
    if waiter::awaits(before.waiters, res.nonce, WaiterKind::MaxLevel) {
        &&& after == before.with_waiters(before.waiters.remove(res.nonce.value))
        &&& before.waiters[res.nonce.value] matches Waiter::MaxLevel(reply_to) && r == Ok::<
            Effect<C>,
            NodeError,
        >(Effect::Deliver(Delivery::MaxLevel(reply_to, res)))
    } else {
        after == before && r == Ok::<Effect<C>, NodeError>(Effect::Idle)
    }
}

/// A request for a neighbor: the node answers with its entry, and echoes the coordinates
/// of the slot that it read.
pub open spec fn handles_neighbor_request<C: ReplyChannels>(
    before: NodeModel<C>,
    req: NeighborReq,
    after: NodeModel<C>,
    r: Result<Effect<C>, NodeError>,
) -> bool {
    &&& after == before
    &&& match before.slots[(req.level, req.direction)] {
        Err(e) => r == Err::<Effect<C>, NodeError>(NodeError::ReadNeighbor(e)),
        Ok(neighbor) => r == Ok::<Effect<C>, NodeError>(
            Effect::Send(
                Outbound {
                    dest: req.origin,
                    event: Event::RetNeighborOp(
                        NeighborRes {
                            nonce: req.nonce,
                            level: req.level,
                            direction: req.direction,
                            neighbor,
                        },
                    ),
                    purpose: SendPurpose::NeighborResponse,
                },
            ),
        ),
    }
}

/// A reply with a neighbor: resolves the request that waits for it, if there is one.
pub open spec fn handles_neighbor_response<C: ReplyChannels>(
    before: NodeModel<C>,
    res: NeighborRes,
    after: NodeModel<C>,
    r: Result<Effect<C>, NodeError>,
) -> bool {
    if waiter::awaits(before.waiters, res.nonce, WaiterKind::Neighbor) {
        &&& after == before.with_waiters(before.waiters.remove(res.nonce.value))
        &&& before.waiters[res.nonce.value] matches Waiter::Neighbor(reply_to) && r == Ok::<
            Effect<C>,
            NodeError,
        >(Effect::Deliver(Delivery::Neighbor(reply_to, res)))
    } else {
        after == before && r == Ok::<Effect<C>, NodeError>(Effect::Idle)
    }
}

/// The message with which a node answers a link request, given what its slot held.
pub open spec fn link_answer<C: ReplyChannels>(
    node: NodeModel<C>,
    slot: Option<Identity>,
    req: LinkReq,
) -> Outbound {
    match lookup::link_outcome(slot, req.dir, req.candidate) {
        LinkOutcome::LinkedDirectly => Outbound {
            dest: req.candidate.id,
            event: Event::SetLinkOp(
                LinkRes {
                    nonce: req.nonce,
                    dir: req.dir.mirrored(),
                    level: req.level,
                    linked: Some(node.identity()),
                },
            ),
            purpose: SendPurpose::LinkResponse,
        },
        LinkOutcome::Forward(existing) => Outbound {
            dest: existing.id,
            event: Event::GetLinkOp(req),
            purpose: SendPurpose::LinkForward,
        },
    }
}

/// A link request: the node adopts the candidate and tells it so, naming the candidate's
/// mirror slot, or passes the request unchanged to the neighbor that sits between them.
/// A level that no table has is a malformed message and is dropped.
pub open spec fn handles_link_request<C: ReplyChannels>(
    before: NodeModel<C>,
    req: LinkReq,
    after: NodeModel<C>,
    r: Result<Effect<C>, NodeError>,
) -> bool {
    if req.level >= LOOKUP_TABLE_LEVELS {
        after == before && r == Ok::<Effect<C>, NodeError>(Effect::Idle)
    } else {
        match before.slots[(req.level, req.dir)] {
            Err(e) => {
                &&& after == before
                &&& r == Err::<Effect<C>, NodeError>(
                    NodeError::DecideLink { level: req.level, source: e },
                )
            },
            Ok(slot) => {
                &&& after == before.with_slot(
                    req.level,
                    req.dir,
                    lookup::slot_after(slot, req.dir, req.candidate),
                )
                &&& r == Ok::<Effect<C>, NodeError>(Effect::Send(link_answer(before, slot, req)))
            },
        }
    }
}

/// The node after it has applied a confirmed link to its own table. A level that no table
/// has is a malformed message and is not applied.
pub open spec fn link_applied<C: ReplyChannels>(node: NodeModel<C>, res: LinkRes) -> NodeModel<C> {
    match res.linked {
        Some(linked) => if res.level >= LOOKUP_TABLE_LEVELS {
            node
        } else {
            match node.slots[(res.level, res.dir)] {
                Ok(slot) => node.with_slot(
                    res.level,
                    res.dir,
                    lookup::slot_after(slot, res.dir, linked),
                ),
                Err(_) => node,
            }
        },
        None => node,
    }
}

/// A link confirmation: the link is applied to the node's own table, whether or not a
/// request waits for it, and the link request that does wait is resolved.
pub open spec fn handles_link_response<C: ReplyChannels>(
    before: NodeModel<C>,
    res: LinkRes,
    after: NodeModel<C>,
    r: Result<Effect<C>, NodeError>,
) -> bool {
    if res.linked is Some && res.level < LOOKUP_TABLE_LEVELS && before.slots[(
        res.level,
        res.dir,
    )] is Err {
        &&& after == before
        &&& before.slots[(res.level, res.dir)] matches Err(e) && r == Err::<Effect<C>, NodeError>(
            NodeError::ApplyLink { level: res.level, source: e },
        )
    } else if waiter::awaits(before.waiters, res.nonce, WaiterKind::Link) {
        &&& after == link_applied(before, res).with_waiters(
            before.waiters.remove(res.nonce.value),
        )
        &&& before.waiters[res.nonce.value] matches Waiter::Link(reply_to) && r == Ok::<
            Effect<C>,
            NodeError,
        >(Effect::Deliver(Delivery::Link(reply_to, res)))
    } else {
        after == link_applied(before, res) && r == Ok::<Effect<C>, NodeError>(Effect::Idle)
    }
}

/// How a node answers an event: the state it moves to and what it wants done.
pub open spec fn handles<C: ReplyChannels>(
    before: NodeModel<C>,
    event: Event,
    after: NodeModel<C>,
    r: Result<Effect<C>, NodeError>,
) -> bool {
    match event {
        Event::SearchByIdRequest(req) => handles_search_request(before, req, after, r),
        Event::SearchByIdResponse(res) => handles_search_response(before, res, after, r),
        Event::GetMaxLevelOp(req) => handles_max_level_request(before, req, after, r),
        Event::RetMaxLevelOp(res) => handles_max_level_response(before, res, after, r),
        Event::GetNeighborOp(req) => handles_neighbor_request(before, req, after, r),
        Event::RetNeighborOp(res) => handles_neighbor_response(before, res, after, r),
        Event::GetLinkOp(req) => handles_link_request(before, req, after, r),
        Event::SetLinkOp(res) => handles_link_response(before, res, after, r),
        Event::TestMessage(_) | Event::BuddyOp(_) | Event::CheckNeighborOp(_) => {
            after == before && r == Err::<Effect<C>, NodeError>(NodeError::UnsupportedEvent)
        },
    }
}

} // verus!
