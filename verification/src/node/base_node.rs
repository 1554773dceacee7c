use crate::lookup::LinkOutcome;
use crate::lookup::LookupTable;
use crate::lookup::LOOKUP_TABLE_LEVELS;
use crate::model::address::Address;
use crate::model::identifier::Identifier;
use crate::model::identity::Identity;
use crate::model::join::LinkReq;
use crate::model::join::LinkRes;
use crate::model::join::MaxLevelReq;
use crate::model::join::MaxLevelRes;
use crate::model::join::NeighborReq;
use crate::model::join::NeighborRes;
use crate::model::memvec::MembershipVector;
use crate::model::search::IdSearchReq;
use crate::model::search::IdSearchRes;
use crate::model::search::Nonce;
use crate::network::Event;
use crate::network::EventProcessorCore;
use crate::network::Network;
use crate::node::base_core;
use crate::node::base_core::BaseCore;
use crate::node::base_core::SearchError;
use crate::node::error::NodeError;
use crate::node::error::SendPurpose;
use crate::node::protocol;
use crate::node::protocol::Delivery;
use crate::node::protocol::Effect;
use crate::node::protocol::NodeModel;
use crate::node::protocol::Outbound;
use crate::node::waiter::ReplyChannels;
use crate::node::waiter::Waiter;
use crate::node::waiter::WaiterKind;
use crate::node::waiter::WaiterMap;
use vstd::prelude::*;
use vstd::std_specs::cmp::PartialEqSpecImpl;

verus! {

/// A skip graph node: its local part, the address at which it is reached, and the
/// requests that it has outstanding.
///
/// The node performs no input or output. It says what it wants sent and which waiting
/// caller it wants resumed, as an [`Effect`], and whoever drives it does so.
pub struct BaseNode<L, C: ReplyChannels> {
    core: BaseCore<L>,
    address: Address,
    waiters: WaiterMap<C>,
}

impl<L: LookupTable, C: ReplyChannels> View for BaseNode<L, C> {
    type V = NodeModel<C>;

    closed spec fn view(&self) -> NodeModel<C> {
        NodeModel {
            id: self.core.own_id(),
            mem_vec: self.core.own_mem_vec(),
            address: self.address,
            slots: self.core.slots(),
            waiters: self.waiters@,
        }
    }
}

impl<L: LookupTable, C: ReplyChannels> BaseNode<L, C> {
    /// Creates a node without outstanding requests.
    pub fn new(core: BaseCore<L>, address: Address) -> (r: BaseNode<L, C>)
        ensures
            r@ == (NodeModel::<C> {
                id: core.own_id(),
                mem_vec: core.own_mem_vec(),
                address,
                slots: core.slots(),
                waiters: Map::empty(),
            }),
    {
        BaseNode { core, address, waiters: WaiterMap::new() }
    }

    /// Returns the identifier of the node.
    pub fn id(&self) -> (r: Identifier)
        ensures
            r == self@.id,
    {
        self.core.id()
    }

    /// Returns the membership vector of the node.
    pub fn mem_vec(&self) -> (r: MembershipVector)
        ensures
            r == self@.mem_vec,
    {
        self.core.mem_vec()
    }

    /// Sets the address at which the node is reached. The network decides it, and may
    /// change it.
    pub fn set_address(&mut self, address: Address)
        ensures
            final(self)@ == (NodeModel::<C> { address, ..old(self)@ }),
    {
        self.address = address;
    }

    /// Sets the address to the one that the network gives by now.
    pub fn refresh_address<N: Network>(&mut self, net: &N)
        ensures
            exists|address: Address|
                {
                    &&& #[trigger] call_ensures(N::address, (net,), address)
                    &&& final(self)@ == (NodeModel::<C> { address, ..old(self)@ })
                },
    {
        let address = net.address();
        self.set_address(address);
    }

    /// Returns the identity under which the node presents itself.
    pub fn self_identity(&self) -> (r: Identity)
        ensures
            r == self@.identity(),
    {
        Identity::new(self.core.id(), self.core.mem_vec(), self.address)
    }

    /// Returns the lookup table of the node.
    pub fn table(&self) -> (r: &L)
        ensures
            r.slots() == self@.slots,
    {
        self.core.table()
    }

    /// Whether the node has no request outstanding.
    pub fn has_no_waiters(&self) -> (r: bool)
        ensures
            r == self@.waiters.is_empty(),
    {
        self.waiters.is_empty()
    }

    /// Records a request that waits for a reply with the given nonce.
    pub fn register_waiter(&mut self, nonce: Nonce, waiter: Waiter<C>)
        ensures
            final(self)@ == old(self)@.with_waiters(
                old(self)@.waiters.insert(nonce.value, waiter),
            ),
    {
        self.waiters.register(nonce, waiter);
    }

    /// Searches the node's own lookup table. See [`BaseCore::search_by_id`].
    pub fn local_search(&self, req: IdSearchReq) -> (r: Result<IdSearchRes, SearchError>)
        ensures
            base_core::answers_search(self@.slots, self@.id, req, r),
    {
        self.core.search_by_id(req)
    }

    /// Gives up the request with the given nonce, if it is still outstanding.
    pub fn forget_waiter(&mut self, nonce: Nonce)
        ensures
            final(self)@ == old(self)@.with_waiters(old(self)@.waiters.remove(nonce.value)),
    {
        self.waiters.forget(nonce);
    }

    fn handle_search_by_id_request(&mut self, req: IdSearchReq) -> (r: Result<
        Effect<C>,
        NodeError,
    >)
        ensures
            protocol::handles_search_request(old(self)@, req, final(self)@, r),
    {
        let found = self.core.search_by_id(req);
        assert(base_core::answers_search(self@.slots, self@.id, req, found));
        match found {
            Err(e) => Err(NodeError::Search(e)),
            Ok(res) => {
                if res.result == self.core.id() {
                    Ok(
                        Effect::Send(
                            Outbound {
                                dest: req.origin,
                                event: Event::SearchByIdResponse(res),
                                purpose: SendPurpose::SearchResponse,
                            },
                        ),
                    )
                } else {
                    Ok(
                        Effect::Send(
                            Outbound {
                                dest: res.result,
                                event: Event::SearchByIdRequest(
                                    IdSearchReq { level: res.termination_level, ..req },
                                ),
                                purpose: SendPurpose::SearchRelay,
                            },
                        ),
                    )
                }
            },
        }
    }

    fn handle_search_by_id_response(&mut self, res: IdSearchRes) -> (r: Result<
        Effect<C>,
        NodeError,
    >)
        ensures
            protocol::handles_search_response(old(self)@, res, final(self)@, r),
    {
        match self.waiters.take(res.nonce, WaiterKind::AsyncSearch) {
            Some(Waiter::AsyncSearch(reply_to)) => Ok(
                Effect::Deliver(Delivery::Search(reply_to, res)),
            ),
            _ => Ok(Effect::Idle),
        }
    }

    fn handle_get_max_level_request(&mut self, req: MaxLevelReq) -> (r: Result<
        Effect<C>,
        NodeError,
    >)
        ensures
            protocol::handles_max_level_request(old(self)@, req, final(self)@, r),
    {
        match self.core.max_level() {
            Err(e) => Err(NodeError::ReadMaxLevel(e)),
            Ok(max_level) => Ok(
                Effect::Send(
                    Outbound {
                        dest: req.origin,
                        event: Event::RetMaxLevelOp(MaxLevelRes { nonce: req.nonce, max_level }),
                        purpose: SendPurpose::MaxLevelResponse,
                    },
                ),
            ),
        }
    }

    fn handle_ret_max_level_response(&mut self, res: MaxLevelRes) -> (r: Result<
        Effect<C>,
        NodeError,
    >)
        ensures
            protocol::handles_max_level_response(old(self)@, res, final(self)@, r),
    {
        match self.waiters.take(res.nonce, WaiterKind::MaxLevel) {
            Some(Waiter::MaxLevel(reply_to)) => Ok(
                Effect::Deliver(Delivery::MaxLevel(reply_to, res)),
            ),
            _ => Ok(Effect::Idle),
        }
    }

    fn handle_get_neighbor_request(&mut self, req: NeighborReq) -> (r: Result<
        Effect<C>,
        NodeError,
    >)
        ensures
            protocol::handles_neighbor_request(old(self)@, req, final(self)@, r),
    {
        match self.core.neighbor_entry(req.level, req.direction) {
            Err(e) => Err(NodeError::ReadNeighbor(e)),
            Ok(neighbor) => Ok(
                Effect::Send(
                    Outbound {
                        dest: req.origin,
                        event: Event::RetNeighborOp(
                            NeighborRes {
                                nonce: req.nonce,
                                level: req.level,
                                direction: req.direction,
                                neighbor,
                            },
                        ),
                        purpose: SendPurpose::NeighborResponse,
                    },
                ),
            ),
        }
    }

    fn handle_ret_neighbor_response(&mut self, res: NeighborRes) -> (r: Result<
        Effect<C>,
        NodeError,
    >)
        ensures
            protocol::handles_neighbor_response(old(self)@, res, final(self)@, r),
    {
        match self.waiters.take(res.nonce, WaiterKind::Neighbor) {
            Some(Waiter::Neighbor(reply_to)) => Ok(
                Effect::Deliver(Delivery::Neighbor(reply_to, res)),
            ),
            _ => Ok(Effect::Idle),
        }
    }

    fn handle_get_link_request(&mut self, req: LinkReq) -> (r: Result<Effect<C>, NodeError>)
        ensures
            protocol::handles_link_request(old(self)@, req, final(self)@, r),
    {
        if req.level >= LOOKUP_TABLE_LEVELS {
            return Ok(Effect::Idle);
        }
        match self.core.try_link(req.level, req.dir, req.candidate) {
            Err(source) => Err(NodeError::DecideLink { level: req.level, source }),
            Ok(LinkOutcome::LinkedDirectly) => {
                let linked = self.self_identity();
                Ok(
                    Effect::Send(
                        Outbound {
                            dest: req.candidate.id(),
                            event: Event::SetLinkOp(
                                LinkRes {
                                    nonce: req.nonce,
                                    dir: req.dir.opposite(),
                                    level: req.level,
                                    linked: Some(linked),
                                },
                            ),
                            purpose: SendPurpose::LinkResponse,
                        },
                    ),
                )
            },
            Ok(LinkOutcome::Forward(existing)) => Ok(
                Effect::Send(
                    Outbound {
                        dest: existing.id(),
                        event: Event::GetLinkOp(req),
                        purpose: SendPurpose::LinkForward,
                    },
                ),
            ),
        }
    }

    fn handle_set_link_response(&mut self, res: LinkRes) -> (r: Result<Effect<C>, NodeError>)
        ensures
            protocol::handles_link_response(old(self)@, res, final(self)@, r),
    {
        if let Some(linked) = res.linked {
            if res.level < LOOKUP_TABLE_LEVELS {
                match self.core.try_link(res.level, res.dir, linked) {
                    Ok(_) => {},
                    Err(source) => {
                        return Err(NodeError::ApplyLink { level: res.level, source });
                    },
                }
            }
        }
        match self.waiters.take(res.nonce, WaiterKind::Link) {
            Some(Waiter::Link(reply_to)) => Ok(
                Effect::Deliver(Delivery::Link(reply_to, res)),
            ),
            _ => Ok(Effect::Idle),
        }
    }
}

impl<L: LookupTable, C: ReplyChannels> EventProcessorCore for BaseNode<L, C> {
    type Effect = Effect<C>;

    type Failure = NodeError;

    /// Handles an event. How depends on the event alone: the sender is not consulted.
    fn process_incoming_event(&mut self, origin_id: Identifier, event: Event) -> (r: Result<
        Effect<C>,
        NodeError,
    >)
        ensures
            protocol::handles(old(self)@, event, final(self)@, r),
    {
        match event {
            Event::SearchByIdRequest(req) => self.handle_search_by_id_request(req),
            Event::SearchByIdResponse(res) => self.handle_search_by_id_response(res),
            Event::GetMaxLevelOp(req) => self.handle_get_max_level_request(req),
            Event::RetMaxLevelOp(res) => self.handle_ret_max_level_response(res),
            Event::GetNeighborOp(req) => self.handle_get_neighbor_request(req),
            Event::RetNeighborOp(res) => self.handle_ret_neighbor_response(res),
            Event::GetLinkOp(req) => self.handle_get_link_request(req),
            Event::SetLinkOp(res) => self.handle_set_link_response(res),
            Event::TestMessage(_) | Event::BuddyOp(_) | Event::CheckNeighborOp(_) => Err(
                NodeError::UnsupportedEvent,
            ),
        }
    }
}

/// Two nodes are equal when their identifiers and membership vectors are.
impl<L: LookupTable, C: ReplyChannels> PartialEq for BaseNode<L, C> {
    fn eq(&self, other: &BaseNode<L, C>) -> (r: bool) {
        self.core.id() == other.core.id() && self.core.mem_vec() == other.core.mem_vec()
    }
}

impl<L: LookupTable, C: ReplyChannels> PartialEqSpecImpl for BaseNode<L, C> {
    open spec fn obeys_eq_spec() -> bool {
        true
    }

    open spec fn eq_spec(&self, other: &BaseNode<L, C>) -> bool {
        self@.id == other@.id && self@.mem_vec == other@.mem_vec
    }
}

/// A node is made of its local part and its address, with nothing outstanding, and presents
/// itself as such.
pub proof fn law_new_node_is_what_it_was_made_of<L: LookupTable, C: ReplyChannels>(
    made: (BaseCore<L>, Address),
    node: BaseNode<L, C>,
    id: Identifier,
    mem_vec: MembershipVector,
    identity: Identity,
    idle: bool,
    table: &L,
)
    requires
        call_ensures(BaseNode::<L, C>::new, made, node),
        call_ensures(BaseNode::<L, C>::id, (&node,), id),
        call_ensures(BaseNode::<L, C>::mem_vec, (&node,), mem_vec),
        call_ensures(BaseNode::<L, C>::self_identity, (&node,), identity),
        call_ensures(BaseNode::<L, C>::has_no_waiters, (&node,), idle),
        call_ensures(BaseNode::<L, C>::table, (&node,), table),
    ensures
        id == made.0.own_id(),
        mem_vec == made.0.own_mem_vec(),
        identity.id == id,
        identity.mem_vec == mem_vec,
        identity.address == made.1,
        idle,
        table.slots() == made.0.slots(),
{
}

/// A node whose address is set presents itself under it, and is otherwise the same.
pub proof fn law_set_address_changes_the_address_alone<L: LookupTable, C: ReplyChannels>(
    call: (&mut BaseNode<L, C>, Address),
    identity: Identity,
)
    requires
        call_ensures(BaseNode::<L, C>::set_address, call, ()),
        call_ensures(BaseNode::<L, C>::self_identity, (&*final(call.0),), identity),
    ensures
        identity.id == old(call.0)@.id,
        identity.mem_vec == old(call.0)@.mem_vec,
        identity.address == call.1,
        final(call.0)@.slots == old(call.0)@.slots,
        final(call.0)@.waiters == old(call.0)@.waiters,
{
}

/// A waiter that is registered waits under its nonce. Nothing else about the node changes,
/// and the node has something outstanding from then on.
pub proof fn law_registered_waiter_waits<L: LookupTable, C: ReplyChannels>(
    call: (&mut BaseNode<L, C>, Nonce, Waiter<C>),
    idle: bool,
)
    requires
        call_ensures(BaseNode::<L, C>::register_waiter, call, ()),
        call_ensures(BaseNode::<L, C>::has_no_waiters, (&*final(call.0),), idle),
    ensures
        final(call.0)@.waiters == old(call.0)@.waiters.insert(call.1.value, call.2),
        final(call.0)@.id == old(call.0)@.id,
        final(call.0)@.mem_vec == old(call.0)@.mem_vec,
        final(call.0)@.address == old(call.0)@.address,
        final(call.0)@.slots == old(call.0)@.slots,
        !idle,
{
    assert(final(call.0)@.waiters.dom().contains(call.1.value));
}

/// Nodes are equal exactly when their identifiers and membership vectors are, whatever their
/// tables, addresses and outstanding requests.
pub proof fn law_nodes_are_compared_by_identifier_and_vector<L: LookupTable, C: ReplyChannels>(
    a: BaseNode<L, C>,
    b: BaseNode<L, C>,
    r: bool,
)
    requires
        call_ensures(<BaseNode<L, C> as PartialEq>::eq, (&a, &b), r),
    ensures
        r <==> a@.id == b@.id && a@.mem_vec == b@.mem_vec,
{
}

/// A refreshed node presents itself under an address that the network gave, and is otherwise
/// the same.
pub proof fn law_refreshed_address_comes_from_the_network<
    L: LookupTable,
    C: ReplyChannels,
    N: Network,
>(call: (&mut BaseNode<L, C>, &N))
    requires
        call_ensures(BaseNode::<L, C>::refresh_address::<N>, call, ()),
    ensures
        call_ensures(N::address, (call.1,), final(call.0)@.address),
        final(call.0)@.id == old(call.0)@.id,
        final(call.0)@.mem_vec == old(call.0)@.mem_vec,
        final(call.0)@.slots == old(call.0)@.slots,
        final(call.0)@.waiters == old(call.0)@.waiters,
{
}

} // verus!
