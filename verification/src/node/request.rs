//! The requests that a node sends on its own account. Each one begins by registering a
//! waiter and naming the message to send, and completes with what the wait came to.
use crate::lookup::LookupTable;
use crate::lookup::LookupTableLevel;
use crate::model::direction::Direction;
use crate::model::identifier::Identifier;
use crate::model::identity::Identity;
use crate::model::join::LinkReq;
use crate::model::join::LinkRes;
use crate::model::join::MaxLevelReq;
use crate::model::join::MaxLevelRes;
use crate::model::join::NeighborReq;
use crate::model::join::NeighborRes;
use crate::model::search::IdSearchReq;
use crate::model::search::IdSearchRes;
use crate::model::search::Nonce;
use crate::network::Event;
use crate::network::Network;
use crate::network::NetworkError;
use crate::node::base_core;
use crate::node::base_core::SearchError;
use crate::node::base_node::BaseNode;
use crate::node::error::NodeError;
use crate::node::error::SendPurpose;
use crate::node::protocol::Outbound;
use crate::node::waiter::ReplyChannels;
use crate::node::waiter::Waiter;
use crate::node::waiter::WaiterKind;
use vstd::prelude::*;

verus! {

/// What waiting for a reply came to.
#[derive(PartialEq, Eq, Debug)]
pub enum Wait<R> {
    /// The reply arrived.
    Replied(R),
    /// The reply channel was dropped first.
    Dropped,
    /// Too much time passed first.
    TimedOut,
}

/// A request that has been registered: the nonce of its reply and the message to send.
pub struct Pending {
    pub nonce: Nonce,
    pub outbound: Outbound,
}

/// How a search begins.
pub enum SearchStart {
    /// The node itself is the answer.
    Answered(IdSearchRes),
    /// The search goes on at another node.
    Relayed(Outbound),
}

/// The message that asks `introducer` for its highest populated level.
pub open spec fn max_level_request(nonce: Nonce, own: Identifier, introducer: Identifier) -> Outbound {
    Outbound {
        dest: introducer,
        event: Event::GetMaxLevelOp(MaxLevelReq { nonce, origin: own }),
        purpose: SendPurpose::MaxLevelRequest,
    }
}

/// The message that asks `from` for its neighbor.
pub open spec fn neighbor_request(
    nonce: Nonce,
    own: Identifier,
    from: Identifier,
    direction: Direction,
    level: LookupTableLevel,
) -> Outbound {
    Outbound {
        dest: from,
        event: Event::GetNeighborOp(NeighborReq { nonce, origin: own, level, direction }),
        purpose: SendPurpose::NeighborRequest,
    }
}

/// The message that asks `dest` to adopt `candidate`.
pub open spec fn link_request(
    nonce: Nonce,
    candidate: Identity,
    dest: Identifier,
    dir: Direction,
    level: LookupTableLevel,
) -> Outbound {
    Outbound {
        dest,
        event: Event::GetLinkOp(LinkReq { nonce, candidate, dir, level }),
        purpose: SendPurpose::LinkRequest,
    }
}

/// The message that continues a search at `dest`.
pub open spec fn search_request(
    nonce: Nonce,
    own: Identifier,
    dest: Identifier,
    target: Identifier,
    level: LookupTableLevel,
    direction: Direction,
) -> Outbound {
    Outbound {
        dest,
        event: Event::SearchByIdRequest(
            IdSearchReq { nonce, target, origin: own, level, direction },
        ),
        purpose: SendPurpose::SearchRequest,
    }
}

/// The reply that a wait came to, or the error that stands for its absence.
pub open spec fn reply_or_error<R>(wait: Wait<R>, kind: WaiterKind) -> Result<R, NodeError> {
    match wait {
        Wait::Replied(reply) => Ok(reply),
        Wait::Dropped => Err(NodeError::ReplyDropped(kind)),
        Wait::TimedOut => Err(NodeError::TimedOut(kind)),
    }
}

/// Turns what a wait came to into a result.
fn reply_of<R>(wait: Wait<R>, kind: WaiterKind) -> (r: Result<R, NodeError>)
    ensures
        r == reply_or_error(wait, kind),
{
    match wait {
        Wait::Replied(reply) => Ok(reply),
        Wait::Dropped => Err(NodeError::ReplyDropped(kind)),
        Wait::TimedOut => Err(NodeError::TimedOut(kind)),
    }
}

impl<L: LookupTable, C: ReplyChannels> BaseNode<L, C> {
    /// Begins to ask `introducer` for the highest level at which it has a populated entry,
    /// under a fresh nonce. The answer only seeds the level at which a join searches.
    pub fn get_max_level(&mut self, introducer: Identifier, reply_to: C::MaxLevel) -> (r: Pending)
        ensures
            final(self)@ == old(self)@.with_waiters(
                old(self)@.waiters.insert(r.nonce.value, Waiter::MaxLevel(reply_to)),
            ),
            call_ensures(Nonce::random, (), r.nonce),
            r.outbound == max_level_request(r.nonce, old(self)@.id, introducer),
    {
        let nonce = Nonce::random();
        let outbound = self.get_max_level_with(nonce, introducer, reply_to);
        Pending { nonce, outbound }
    }

    /// Begins to ask `introducer` for its highest populated level under the given nonce.
    pub fn get_max_level_with(
        &mut self,
        nonce: Nonce,
        introducer: Identifier,
        reply_to: C::MaxLevel,
    ) -> (r: Outbound)
        ensures
            final(self)@ == old(self)@.with_waiters(
                old(self)@.waiters.insert(nonce.value, Waiter::MaxLevel(reply_to)),
            ),
            r == max_level_request(nonce, old(self)@.id, introducer),
    {
        self.register_waiter(nonce, Waiter::MaxLevel(reply_to));
        Outbound {
            dest: introducer,
            event: Event::GetMaxLevelOp(MaxLevelReq { nonce, origin: self.id() }),
            purpose: SendPurpose::MaxLevelRequest,
        }
    }

    /// Begins to ask `from` for its neighbor on its own `direction` side at `level`, under
    /// a fresh nonce.
    pub fn get_neighbor(
        &mut self,
        from: Identifier,
        direction: Direction,
        level: LookupTableLevel,
        reply_to: C::Neighbor,
    ) -> (r: Pending)
        ensures
            final(self)@ == old(self)@.with_waiters(
                old(self)@.waiters.insert(r.nonce.value, Waiter::Neighbor(reply_to)),
            ),
            call_ensures(Nonce::random, (), r.nonce),
            r.outbound == neighbor_request(r.nonce, old(self)@.id, from, direction, level),
    {
        let nonce = Nonce::random();
        let outbound = self.get_neighbor_with(nonce, from, direction, level, reply_to);
        Pending { nonce, outbound }
    }

    /// Begins to ask `from` for its neighbor under the given nonce.
    pub fn get_neighbor_with(
        &mut self,
        nonce: Nonce,
        from: Identifier,
        direction: Direction,
        level: LookupTableLevel,
        reply_to: C::Neighbor,
    ) -> (r: Outbound)
        ensures
            final(self)@ == old(self)@.with_waiters(
                old(self)@.waiters.insert(nonce.value, Waiter::Neighbor(reply_to)),
            ),
            r == neighbor_request(nonce, old(self)@.id, from, direction, level),
    {
        self.register_waiter(nonce, Waiter::Neighbor(reply_to));
        Outbound {
            dest: from,
            event: Event::GetNeighborOp(
                NeighborReq { nonce, origin: self.id(), level, direction },
            ),
            purpose: SendPurpose::NeighborRequest,
        }
    }

    /// Begins to ask `dest` to adopt this node on its own `dir` side at `level`, under a
    /// fresh nonce. The confirmation is applied to this node's table when it is handled,
    /// before the wait for it ends.
    pub fn send_link_request(
        &mut self,
        dest: Identifier,
        dir: Direction,
        level: LookupTableLevel,
        reply_to: C::Link,
    ) -> (r: Pending)
        ensures
            final(self)@ == old(self)@.with_waiters(
                old(self)@.waiters.insert(r.nonce.value, Waiter::Link(reply_to)),
            ),
            call_ensures(Nonce::random, (), r.nonce),
            r.outbound == link_request(r.nonce, old(self)@.identity(), dest, dir, level),
    {
        let nonce = Nonce::random();
        let outbound = self.send_link_request_with(nonce, dest, dir, level, reply_to);
        Pending { nonce, outbound }
    }

    /// Begins to ask `dest` to adopt this node under the given nonce.
    pub fn send_link_request_with(
        &mut self,
        nonce: Nonce,
        dest: Identifier,
        dir: Direction,
        level: LookupTableLevel,
        reply_to: C::Link,
    ) -> (r: Outbound)
        ensures
            final(self)@ == old(self)@.with_waiters(
                old(self)@.waiters.insert(nonce.value, Waiter::Link(reply_to)),
            ),
            r == link_request(nonce, old(self)@.identity(), dest, dir, level),
    {
        self.register_waiter(nonce, Waiter::Link(reply_to));
        Outbound {
            dest,
            event: Event::GetLinkOp(
                LinkReq { nonce, candidate: self.self_identity(), dir, level },
            ),
            purpose: SendPurpose::LinkRequest,
        }
    }

    /// Begins a search at `dest`, without searching this node's own table. A node without
    /// a better neighbor answers with its own identifier, so `dest` must not be past
    /// `target` in `direction` for the answer to be of use.
    pub fn send_search_by_id_req(
        &mut self,
        dest: Identifier,
        nonce: Nonce,
        target: Identifier,
        level: LookupTableLevel,
        direction: Direction,
        reply_to: C::Search,
    ) -> (r: Outbound)
        ensures
            final(self)@ == old(self)@.with_waiters(
                old(self)@.waiters.insert(nonce.value, Waiter::AsyncSearch(reply_to)),
            ),
            r == search_request(nonce, old(self)@.id, dest, target, level, direction),
    {
        self.register_waiter(nonce, Waiter::AsyncSearch(reply_to));
        Outbound {
            dest,
            event: Event::SearchByIdRequest(
                IdSearchReq { nonce, target, origin: self.id(), level, direction },
            ),
            purpose: SendPurpose::SearchRequest,
        }
    }

    /// Begins a search at this node. When the node itself is the answer, nothing is sent
    /// and nothing waits. Otherwise the search goes on at the neighbor found, at the level
    /// where it was found.
    pub fn search_by_id(&mut self, req: IdSearchReq, reply_to: C::Search) -> (r: Result<
        SearchStart,
        NodeError,
    >)
        ensures
            exists|found: Result<IdSearchRes, SearchError>|
                {
                    &&& #[trigger] base_core::answers_search(
                        old(self)@.slots,
                        old(self)@.id,
                        req,
                        found,
                    )
                    &&& match found {
                        Err(e) => {
                            &&& r == Err::<SearchStart, NodeError>(NodeError::Search(e))
                            &&& final(self)@ == old(self)@
                        },
                        Ok(res) => if res.result == old(self)@.id {
                            &&& r == Ok::<SearchStart, NodeError>(SearchStart::Answered(res))
                            &&& final(self)@ == old(self)@
                        } else {
                            &&& r == Ok::<SearchStart, NodeError>(
                                SearchStart::Relayed(
                                    search_request(
                                        req.nonce,
                                        old(self)@.id,
                                        res.result,
                                        req.target,
                                        res.termination_level,
                                        req.direction,
                                    ),
                                ),
                            )
                            &&& final(self)@ == old(self)@.with_waiters(
                                old(self)@.waiters.insert(
                                    req.nonce.value,
                                    Waiter::AsyncSearch(reply_to),
                                ),
                            )
                        },
                    }
                },
    {
        let found = self.local_search(req);
        assert(base_core::answers_search(self@.slots, self@.id, req, found));
        match found {
            Err(e) => Err(NodeError::Search(e)),
            Ok(res) => {
                if res.result == self.id() {
                    Ok(SearchStart::Answered(res))
                } else {
                    Ok(
                        SearchStart::Relayed(
                            self.send_search_by_id_req(
                                res.result,
                                req.nonce,
                                req.target,
                                res.termination_level,
                                req.direction,
                                reply_to,
                            ),
                        ),
                    )
                }
            },
        }
    }
}

/// Completes a search.
pub fn complete_search(wait: Wait<IdSearchRes>) -> (r: Result<IdSearchRes, NodeError>)
    ensures
        r == reply_or_error(wait, WaiterKind::AsyncSearch),
{
    reply_of(wait, WaiterKind::AsyncSearch)
}

/// Completes a request for the highest populated level.
pub fn complete_get_max_level(wait: Wait<MaxLevelRes>) -> (r: Result<LookupTableLevel, NodeError>)
    ensures
        r == match reply_or_error(wait, WaiterKind::MaxLevel) {
            Ok(res) => Ok::<LookupTableLevel, NodeError>(res.max_level),
            Err(e) => Err(e),
        },
{
    match reply_of(wait, WaiterKind::MaxLevel) {
        Ok(res) => Ok(res.max_level),
        Err(e) => Err(e),
    }
}

/// Completes a request for a neighbor.
pub fn complete_get_neighbor(wait: Wait<NeighborRes>) -> (r: Result<Option<Identity>, NodeError>)
    ensures
        r == match reply_or_error(wait, WaiterKind::Neighbor) {
            Ok(res) => Ok::<Option<Identity>, NodeError>(res.neighbor),
            Err(e) => Err(e),
        },
{
    match reply_of(wait, WaiterKind::Neighbor) {
        Ok(res) => Ok(res.neighbor),
        Err(e) => Err(e),
    }
}

/// Completes a link request. Whom the link goes to has been written to the table already.
pub fn complete_link_request(wait: Wait<LinkRes>) -> (r: Result<(), NodeError>)
    ensures
        r == match reply_or_error(wait, WaiterKind::Link) {
            Ok(_) => Ok::<(), NodeError>(()),
            Err(e) => Err(e),
        },
{
    match reply_of(wait, WaiterKind::Link) {
        Ok(_) => Ok(()),
        Err(e) => Err(e),
    }
}

/// What a node makes of the network's word on a message.
pub open spec fn sent_or_error(purpose: SendPurpose, outcome: Result<(), NetworkError>) -> Result<
    (),
    NodeError,
> {
    match outcome {
        Ok(_) => Ok(()),
        Err(cause) => Err(NodeError::Send { purpose, cause }),
    }
}

/// Turns what the network said of a message into a result.
pub fn sent(purpose: SendPurpose, outcome: Result<(), NetworkError>) -> (r: Result<(), NodeError>)
    ensures
        r == sent_or_error(purpose, outcome),
{
    match outcome {
        Ok(_) => Ok(()),
        Err(cause) => Err(NodeError::Send { purpose, cause }),
    }
}

/// Hands a message to the network. Whether the network takes it is up to the network.
pub fn send<N: Network>(net: &N, outbound: Outbound) -> (r: Result<(), NodeError>)
    ensures
        exists|outcome: Result<(), NetworkError>|
            {
                &&& #[trigger] call_ensures(
                    N::send_event,
                    (net, outbound.dest, outbound.event),
                    outcome,
                )
                &&& r == sent_or_error(outbound.purpose, outcome)
            },
{
    sent(outbound.purpose, net.send_event(outbound.dest, outbound.event))
}

} // verus!
