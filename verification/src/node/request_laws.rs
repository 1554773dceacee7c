//! What holds of the requests that a node sends on its own account, from the call that
//! begins one to the reply that completes it.
use crate::lookup;
use crate::lookup::LookupError;
use crate::lookup::LookupTable;
use crate::lookup::LookupTableLevel;
use crate::lookup::LOOKUP_TABLE_LEVELS;
use crate::model::direction::Direction;
use crate::model::identifier::Identifier;
use crate::model::identity::Identity;
use crate::model::join::LinkRes;
use crate::model::join::MaxLevelRes;
use crate::model::join::NeighborRes;
use crate::model::search::IdSearchReq;
use crate::model::search::IdSearchRes;
use crate::model::search::Nonce;
use crate::network::Event;
use crate::network::Network;
use crate::network::NetworkError;
use crate::node::answer_laws;
use crate::node::base_core::SearchError;
use crate::node::base_node::BaseNode;
use crate::node::error::NodeError;
use crate::node::error::SendPurpose;
use crate::node::laws;
use crate::node::protocol;
use crate::node::protocol::Delivery;
use crate::node::protocol::Effect;
use crate::node::protocol::NodeModel;
use crate::node::protocol::Outbound;
use crate::node::request;
use crate::node::request::Pending;
use crate::node::request::SearchStart;
use crate::node::request::Wait;
use crate::node::waiter::ReplyChannels;
use crate::node::waiter::Waiter;
use crate::node::waiter::WaiterKind;
use vstd::prelude::*;

verus! {

/// Whether a node has begun a request: `waiter` waits under `nonce`, and nothing else about
/// the node has changed.
pub open spec fn has_begun<C: ReplyChannels>(
    before: NodeModel<C>,
    nonce: Nonce,
    waiter: Waiter<C>,
    after: NodeModel<C>,
) -> bool {
    &&& after.id == before.id
    &&& after.mem_vec == before.mem_vec
    &&& after.address == before.address
    &&& after.slots == before.slots
    &&& after.waiters == before.waiters.insert(nonce.value, waiter)
}

/// Whether a message asks `dest` to adopt the node on the side `dir` at `level`.
pub open spec fn asks_for_a_link<C: ReplyChannels>(
    node: NodeModel<C>,
    nonce: Nonce,
    dest: Identifier,
    dir: Direction,
    level: LookupTableLevel,
    out: Outbound,
) -> bool {
    &&& out.dest == dest
    &&& out.purpose == SendPurpose::LinkRequest
    &&& out.event matches Event::GetLinkOp(req)
    &&& req.nonce == nonce
    &&& req.dir == dir
    &&& req.level == level
    &&& req.candidate.id == node.id
    &&& req.candidate.mem_vec == node.mem_vec
    &&& req.candidate.address == node.address
}

/// Whether a message asks `dest` for its neighbor on the side `direction` at `level`.
pub open spec fn asks_for_a_neighbor<C: ReplyChannels>(
    node: NodeModel<C>,
    nonce: Nonce,
    dest: Identifier,
    direction: Direction,
    level: LookupTableLevel,
    out: Outbound,
) -> bool {
    &&& out.dest == dest
    &&& out.purpose == SendPurpose::NeighborRequest
    &&& out.event matches Event::GetNeighborOp(req)
    &&& req.nonce == nonce
    &&& req.origin == node.id
    &&& req.direction == direction
    &&& req.level == level
}

/// Whether a message asks `dest` for its highest level.
pub open spec fn asks_for_a_level<C: ReplyChannels>(
    node: NodeModel<C>,
    nonce: Nonce,
    dest: Identifier,
    out: Outbound,
) -> bool {
    &&& out.dest == dest
    &&& out.purpose == SendPurpose::MaxLevelRequest
    &&& out.event matches Event::GetMaxLevelOp(req)
    &&& req.nonce == nonce
    &&& req.origin == node.id
}

/// Whether a message asks `dest` to search for `target`.
pub open spec fn asks_to_search<C: ReplyChannels>(
    node: NodeModel<C>,
    nonce: Nonce,
    dest: Identifier,
    target: Identifier,
    level: LookupTableLevel,
    direction: Direction,
    out: Outbound,
) -> bool {
    &&& out.dest == dest
    &&& out.purpose == SendPurpose::SearchRequest
    &&& out.event matches Event::SearchByIdRequest(req)
    &&& req.nonce == nonce
    &&& req.origin == node.id
    &&& req.target == target
    &&& req.level == level
    &&& req.direction == direction
}

/// A link request asks for what it was told to ask for: its message goes to `dest` and
/// carries the side, the level and the nonce of the call, and the identity of the node.
pub proof fn law_link_request_asks_as_told<L: LookupTable, C: ReplyChannels>(
    call: (&mut BaseNode<L, C>, Nonce, Identifier, Direction, LookupTableLevel, C::Link),
    out: Outbound,
)
    requires
        call_ensures(BaseNode::<L, C>::send_link_request_with, call, out),
    ensures
        has_begun(old(call.0)@, call.1, Waiter::Link(call.5), final(call.0)@),
        asks_for_a_link(old(call.0)@, call.1, call.2, call.3, call.4, out),
{
}

/// A link request under a fresh nonce asks for what it was told to ask for.
pub proof fn law_fresh_link_request_asks_as_told<L: LookupTable, C: ReplyChannels>(
    call: (&mut BaseNode<L, C>, Identifier, Direction, LookupTableLevel, C::Link),
    r: Pending,
)
    requires
        call_ensures(BaseNode::<L, C>::send_link_request, call, r),
    ensures
        call_ensures(Nonce::random, (), r.nonce),
        has_begun(old(call.0)@, r.nonce, Waiter::Link(call.4), final(call.0)@),
        asks_for_a_link(old(call.0)@, r.nonce, call.1, call.2, call.3, r.outbound),
{
}

/// A request for a neighbor asks for what it was told to ask for.
pub proof fn law_neighbor_request_asks_as_told<L: LookupTable, C: ReplyChannels>(
    call: (&mut BaseNode<L, C>, Nonce, Identifier, Direction, LookupTableLevel, C::Neighbor),
    out: Outbound,
)
    requires
        call_ensures(BaseNode::<L, C>::get_neighbor_with, call, out),
    ensures
        has_begun(old(call.0)@, call.1, Waiter::Neighbor(call.5), final(call.0)@),
        asks_for_a_neighbor(old(call.0)@, call.1, call.2, call.3, call.4, out),
{
}

/// A request for a neighbor under a fresh nonce asks for what it was told to ask for.
pub proof fn law_fresh_neighbor_request_asks_as_told<L: LookupTable, C: ReplyChannels>(
    call: (&mut BaseNode<L, C>, Identifier, Direction, LookupTableLevel, C::Neighbor),
    r: Pending,
)
    requires
        call_ensures(BaseNode::<L, C>::get_neighbor, call, r),
    ensures
        call_ensures(Nonce::random, (), r.nonce),
        has_begun(old(call.0)@, r.nonce, Waiter::Neighbor(call.4), final(call.0)@),
        asks_for_a_neighbor(old(call.0)@, r.nonce, call.1, call.2, call.3, r.outbound),
{
}

/// A request for a level asks the node that it was told to ask.
pub proof fn law_level_request_asks_as_told<L: LookupTable, C: ReplyChannels>(
    call: (&mut BaseNode<L, C>, Nonce, Identifier, C::MaxLevel),
    out: Outbound,
)
    requires
        call_ensures(BaseNode::<L, C>::get_max_level_with, call, out),
    ensures
        has_begun(old(call.0)@, call.1, Waiter::MaxLevel(call.3), final(call.0)@),
        asks_for_a_level(old(call.0)@, call.1, call.2, out),
{
}

/// A request for a level under a fresh nonce asks the node that it was told to ask.
pub proof fn law_fresh_level_request_asks_as_told<L: LookupTable, C: ReplyChannels>(
    call: (&mut BaseNode<L, C>, Identifier, C::MaxLevel),
    r: Pending,
)
    requires
        call_ensures(BaseNode::<L, C>::get_max_level, call, r),
    ensures
        call_ensures(Nonce::random, (), r.nonce),
        has_begun(old(call.0)@, r.nonce, Waiter::MaxLevel(call.2), final(call.0)@),
        asks_for_a_level(old(call.0)@, r.nonce, call.1, r.outbound),
{
}

/// A search that begins elsewhere asks for what it was told to ask for.
pub proof fn law_search_request_asks_as_told<L: LookupTable, C: ReplyChannels>(
    call: (
        &mut BaseNode<L, C>,
        Identifier,
        Nonce,
        Identifier,
        LookupTableLevel,
        Direction,
        C::Search,
    ),
    out: Outbound,
)
    requires
        call_ensures(BaseNode::<L, C>::send_search_by_id_req, call, out),
    ensures
        has_begun(old(call.0)@, call.2, Waiter::AsyncSearch(call.6), final(call.0)@),
        asks_to_search(old(call.0)@, call.2, call.1, call.3, call.4, call.5, out),
{
}

/// A search that begins at the node itself ends there, with nothing sent and nothing
/// waiting, when no neighbor leads closer to the target, and otherwise goes on at the
/// neighbor that leads closest, at the level where that neighbor stands, in the name of the
/// node. It fails, with nothing changed, exactly when a level cannot be read.
pub proof fn law_search_begins_where_it_leads_closest<L: LookupTable, C: ReplyChannels>(
    call: (&mut BaseNode<L, C>, IdSearchReq, C::Search),
    r: Result<SearchStart, NodeError>,
)
    requires
        call_ensures(BaseNode::<L, C>::search_by_id, call, r),
    ensures
        ({
            let before = old(call.0)@;
            let after = final(call.0)@;
            let req = call.1;
            match r {
                Ok(start) => {
                    &&& forall|level: LookupTableLevel|
                        level <= req.level ==> (#[trigger] before.slots[(
                            level,
                            req.direction,
                        )]) is Ok
                    &&& match start {
                        SearchStart::Answered(res) => {
                            &&& after == before
                            &&& res.nonce == req.nonce
                            &&& res.target == req.target
                            &&& res.result == before.id
                            &&& answer_laws::leads_closest(
                                before.slots,
                                req.direction,
                                req.target,
                                req.level,
                                res.termination_level,
                                before.id,
                            ) || {
                                &&& answer_laws::leads_nowhere(
                                    before.slots,
                                    req.direction,
                                    req.target,
                                    req.level,
                                )
                                &&& res.termination_level == 0
                            }
                        },
                        SearchStart::Relayed(out) => {
                            &&& out.dest != before.id
                            &&& has_begun(before, req.nonce, Waiter::AsyncSearch(call.2), after)
                            &&& out.event matches Event::SearchByIdRequest(next)
                            &&& asks_to_search(
                                before,
                                req.nonce,
                                out.dest,
                                req.target,
                                next.level,
                                req.direction,
                                out,
                            )
                            &&& answer_laws::leads_closest(
                                before.slots,
                                req.direction,
                                req.target,
                                req.level,
                                next.level,
                                out.dest,
                            )
                        },
                    }
                },
                Err(NodeError::Search(e)) => {
                    &&& after == before
                    &&& e.level <= req.level
                    &&& before.slots[(e.level, req.direction)] == Err::<
                        Option<Identity>,
                        LookupError,
                    >(e.source)
                    &&& forall|level: LookupTableLevel|
                        level < e.level ==> (#[trigger] before.slots[(
                            level,
                            req.direction,
                        )]) is Ok
                },
                _ => false,
            }
        }),
{
    let before = old(call.0)@;
    let req = call.1;
    let found = choose|found: Result<IdSearchRes, SearchError>|
        {
            &&& #[trigger] crate::node::base_core::answers_search(
                before.slots,
                before.id,
                req,
                found,
            )
            &&& match found {
                Err(e) => r == Err::<SearchStart, NodeError>(NodeError::Search(e)),
                Ok(res) => if res.result == before.id {
                    r == Ok::<SearchStart, NodeError>(SearchStart::Answered(res))
                } else {
                    &&& r matches Ok(SearchStart::Relayed(out))
                    &&& out.dest == res.result
                    &&& out.event matches Event::SearchByIdRequest(next)
                    &&& next.level == res.termination_level
                },
            }
        };
    answer_laws::law_search_finds_what_leads_closest(before.slots, before.id, req, found);
}

/// A link request, its answer and the confirmation join the two nodes at the level and on
/// the side of the call: where the node asked has nobody in the slot, or somebody farther
/// away, it holds the asking node there afterwards, and the asking node holds it on the
/// other side, unless somebody closer is already there. Nothing of the asking node waits
/// any longer, and its caller is resumed.
pub proof fn law_link_request_joins_both_nodes<L: LookupTable, C: ReplyChannels>(
    call: (&mut BaseNode<L, C>, Nonce, Identifier, Direction, LookupTableLevel, C::Link),
    out: Outbound,
    responder: NodeModel<C>,
    slot: Option<Identity>,
    responder_after: NodeModel<C>,
    asked: Result<Effect<C>, NodeError>,
    answer: Outbound,
    mirror: Direction,
    mirror_slot: Option<Identity>,
    sender_after: NodeModel<C>,
    confirmed: Result<Effect<C>, NodeError>,
)
    requires
        call_ensures(BaseNode::<L, C>::send_link_request_with, call, out),
        call.4 < LOOKUP_TABLE_LEVELS,
        responder.slots[(call.4, call.3)] == Ok::<Option<Identity>, LookupError>(slot),
        slot is Some ==> !laws::beyond((slot->0).id, call.3, old(call.0)@.id),
        protocol::handles(responder, out.event, responder_after, asked),
        asked == Ok::<Effect<C>, NodeError>(Effect::Send(answer)),
        mirror != call.3,
        old(call.0)@.slots[(call.4, mirror)] == Ok::<Option<Identity>, LookupError>(mirror_slot),
        mirror_slot is Some ==> !laws::beyond((mirror_slot->0).id, mirror, responder.id),
        protocol::handles(final(call.0)@, answer.event, sender_after, confirmed),
    ensures
        answer.dest == old(call.0)@.id,
        responder_after.slots[(call.4, call.3)] matches Ok(Some(held)) && {
            &&& held.id == old(call.0)@.id
            &&& held.mem_vec == old(call.0)@.mem_vec
            &&& held.address == old(call.0)@.address
        },
        sender_after.slots[(call.4, mirror)] matches Ok(Some(held)) && {
            &&& held.id == responder.id
            &&& held.mem_vec == responder.mem_vec
            &&& held.address == responder.address
        },
        confirmed matches Ok(Effect::Deliver(Delivery::Link(reply_to, _))) && reply_to == call.5,
        sender_after.waiters == old(call.0)@.waiters.remove(call.1.value),
{
    law_link_request_asks_as_told(call, out);
    if let Event::GetLinkOp(req) = out.event {
        answer_laws::law_link_request_is_forwarded_unchanged_or_granted(
            responder,
            req,
            responder_after,
            asked,
        );
        if let Event::SetLinkOp(res) = answer.event {
            assert(res.dir == mirror);
            answer_laws::law_link_confirmation_is_applied_and_resumes_its_request(
                final(call.0)@,
                res,
                sender_after,
                confirmed,
            );
            assert(old(call.0)@.waiters.insert(call.1.value, Waiter::Link(call.5)).remove(
                call.1.value,
            ) =~= old(call.0)@.waiters.remove(call.1.value));
        }
    }
}

/// Asking a node for a neighbor, and handling its reply, resumes the caller with what that
/// node holds in the very slot that was asked for.
pub proof fn law_neighbor_request_learns_the_slot<L: LookupTable, C: ReplyChannels>(
    call: (&mut BaseNode<L, C>, Nonce, Identifier, Direction, LookupTableLevel, C::Neighbor),
    out: Outbound,
    responder: NodeModel<C>,
    responder_after: NodeModel<C>,
    asked: Result<Effect<C>, NodeError>,
    answer: Outbound,
    sender_after: NodeModel<C>,
    replied: Result<Effect<C>, NodeError>,
)
    requires
        call_ensures(BaseNode::<L, C>::get_neighbor_with, call, out),
        protocol::handles(responder, out.event, responder_after, asked),
        asked == Ok::<Effect<C>, NodeError>(Effect::Send(answer)),
        protocol::handles(final(call.0)@, answer.event, sender_after, replied),
    ensures
        responder_after == responder,
        answer.dest == old(call.0)@.id,
        replied matches Ok(Effect::Deliver(Delivery::Neighbor(reply_to, res))) && {
            &&& reply_to == call.5
            &&& res.level == call.4
            &&& res.direction == call.3
            &&& responder.slots[(call.4, call.3)] == Ok::<Option<Identity>, LookupError>(
                res.neighbor,
            )
        },
        sender_after.slots == old(call.0)@.slots,
        sender_after.waiters == old(call.0)@.waiters.remove(call.1.value),
{
    law_neighbor_request_asks_as_told(call, out);
    if let Event::GetNeighborOp(req) = out.event {
        answer_laws::law_neighbor_reply_holds_the_entry_of_its_slot(
            responder,
            req,
            responder_after,
            asked,
        );
        if let Event::RetNeighborOp(res) = answer.event {
            answer_laws::law_neighbor_reply_resumes_its_request(
                final(call.0)@,
                res,
                sender_after,
                replied,
            );
            assert(old(call.0)@.waiters.insert(call.1.value, Waiter::Neighbor(call.5)).remove(
                call.1.value,
            ) =~= old(call.0)@.waiters.remove(call.1.value));
        }
    }
}

/// Asking a node for its highest level, and handling its reply, resumes the caller with a
/// level at which that node has an entry, with none above it, or with 0 when it has none.
pub proof fn law_level_request_learns_the_highest_level<L: LookupTable, C: ReplyChannels>(
    call: (&mut BaseNode<L, C>, Nonce, Identifier, C::MaxLevel),
    out: Outbound,
    responder: NodeModel<C>,
    responder_after: NodeModel<C>,
    asked: Result<Effect<C>, NodeError>,
    answer: Outbound,
    sender_after: NodeModel<C>,
    replied: Result<Effect<C>, NodeError>,
)
    requires
        call_ensures(BaseNode::<L, C>::get_max_level_with, call, out),
        protocol::handles(responder, out.event, responder_after, asked),
        asked == Ok::<Effect<C>, NodeError>(Effect::Send(answer)),
        protocol::handles(final(call.0)@, answer.event, sender_after, replied),
    ensures
        responder_after == responder,
        answer.dest == old(call.0)@.id,
        replied matches Ok(Effect::Deliver(Delivery::MaxLevel(reply_to, res))) && {
            &&& reply_to == call.3
            &&& res.max_level == 0 || lookup::laws::is_populated(
                responder.slots,
                res.max_level,
                Direction::Left,
            ) || lookup::laws::is_populated(responder.slots, res.max_level, Direction::Right)
            &&& forall|level: LookupTableLevel, direction: Direction|
                level < LOOKUP_TABLE_LEVELS && #[trigger] lookup::laws::is_populated(
                    responder.slots,
                    level,
                    direction,
                ) ==> level <= res.max_level
        },
        sender_after.slots == old(call.0)@.slots,
        sender_after.waiters == old(call.0)@.waiters.remove(call.1.value),
{
    law_level_request_asks_as_told(call, out);
    if let Event::GetMaxLevelOp(req) = out.event {
        answer_laws::law_max_level_reply_is_the_highest_level_in_use(
            responder,
            req,
            responder_after,
            asked,
        );
        if let Event::RetMaxLevelOp(res) = answer.event {
            answer_laws::law_max_level_reply_resumes_its_request(
                final(call.0)@,
                res,
                sender_after,
                replied,
            );
            assert(old(call.0)@.waiters.insert(call.1.value, Waiter::MaxLevel(call.3)).remove(
                call.1.value,
            ) =~= old(call.0)@.waiters.remove(call.1.value));
        }
    }
}

/// A search that begins at another node, is relayed by any number of nodes and comes back,
/// resumes its caller with the identifier of the node at which it ended.
pub proof fn law_search_comes_back_with_its_answer<L: LookupTable, C: ReplyChannels>(
    call: (
        &mut BaseNode<L, C>,
        Identifier,
        Nonce,
        Identifier,
        LookupTableLevel,
        Direction,
        C::Search,
    ),
    out: Outbound,
    nodes: Seq<NodeModel<C>>,
    afters: Seq<NodeModel<C>>,
    results: Seq<Result<Effect<C>, NodeError>>,
    events: Seq<Event>,
    dest: Identifier,
    res: IdSearchRes,
    sender_after: NodeModel<C>,
    replied: Result<Effect<C>, NodeError>,
)
    requires
        call_ensures(BaseNode::<L, C>::send_search_by_id_req, call, out),
        answer_laws::passes_along(nodes, afters, results, events, dest),
        events[0] == out.event,
        events.last() == Event::SearchByIdResponse(res),
        protocol::handles(final(call.0)@, events.last(), sender_after, replied),
    ensures
        out.dest == call.1,
        dest == old(call.0)@.id,
        replied == Ok::<Effect<C>, NodeError>(Effect::Deliver(Delivery::Search(call.6, res))),
        res.target == call.3,
        res.result == nodes.last().id,
        sender_after.slots == old(call.0)@.slots,
        sender_after.waiters == old(call.0)@.waiters.remove(call.2.value),
{
    law_search_request_asks_as_told(call, out);
    if let Event::SearchByIdRequest(req) = out.event {
        answer_laws::law_search_is_answered_to_its_origin(
            nodes,
            afters,
            results,
            events,
            dest,
            req,
            res,
        );
        answer_laws::law_search_response_resumes_its_search(
            final(call.0)@,
            res,
            sender_after,
            replied,
        );
        assert(old(call.0)@.waiters.insert(call.2.value, Waiter::AsyncSearch(call.6)).remove(
            call.2.value,
        ) =~= old(call.0)@.waiters.remove(call.2.value));
    }
}

/// A request that is given up no longer waits, and nothing else changes. So a request that
/// begins under an unused nonce and is given up leaves the node as it was.
pub proof fn law_given_up_request_leaves_no_trace<L: LookupTable, C: ReplyChannels>(
    before: NodeModel<C>,
    waiter: Waiter<C>,
    call: (&mut BaseNode<L, C>, Nonce),
)
    requires
        call_ensures(BaseNode::<L, C>::forget_waiter, call, ()),
        has_begun(before, call.1, waiter, old(call.0)@),
        !before.waiters.dom().contains(call.1.value),
    ensures
        final(call.0)@ == before,
{
    assert(before.waiters.insert(call.1.value, waiter).remove(call.1.value) =~= before.waiters);
}

/// A completed request gives its caller exactly what the reply carries, and one without a
/// reply says what was waited for and how the wait ended.
pub proof fn law_completed_requests_return_the_reply(
    search: Wait<IdSearchRes>,
    found: Result<IdSearchRes, NodeError>,
    level: Wait<MaxLevelRes>,
    max_level: Result<LookupTableLevel, NodeError>,
    neighbor: Wait<NeighborRes>,
    entry: Result<Option<Identity>, NodeError>,
    link: Wait<LinkRes>,
    linked: Result<(), NodeError>,
)
    requires
        call_ensures(request::complete_search, (search,), found),
        call_ensures(request::complete_get_max_level, (level,), max_level),
        call_ensures(request::complete_get_neighbor, (neighbor,), entry),
        call_ensures(request::complete_link_request, (link,), linked),
    ensures
        match search {
            Wait::Replied(res) => found matches Ok(got) && got == res,
            Wait::Dropped => found matches Err(NodeError::ReplyDropped(WaiterKind::AsyncSearch)),
            Wait::TimedOut => found matches Err(NodeError::TimedOut(WaiterKind::AsyncSearch)),
        },
        match level {
            Wait::Replied(res) => max_level matches Ok(got) && got == res.max_level,
            Wait::Dropped => max_level matches Err(NodeError::ReplyDropped(WaiterKind::MaxLevel)),
            Wait::TimedOut => max_level matches Err(NodeError::TimedOut(WaiterKind::MaxLevel)),
        },
        match neighbor {
            Wait::Replied(res) => entry matches Ok(got) && got == res.neighbor,
            Wait::Dropped => entry matches Err(NodeError::ReplyDropped(WaiterKind::Neighbor)),
            Wait::TimedOut => entry matches Err(NodeError::TimedOut(WaiterKind::Neighbor)),
        },
        match link {
            Wait::Replied(_) => linked is Ok,
            Wait::Dropped => linked matches Err(NodeError::ReplyDropped(WaiterKind::Link)),
            Wait::TimedOut => linked matches Err(NodeError::TimedOut(WaiterKind::Link)),
        },
{
}

/// What the network says of a message is passed on: a refusal with its reason and with what
/// the message was for.
pub proof fn law_refusals_are_passed_on(
    purpose: SendPurpose,
    outcome: Result<(), NetworkError>,
    r: Result<(), NodeError>,
)
    requires
        call_ensures(request::sent, (purpose, outcome), r),
    ensures
        match outcome {
            Ok(_) => r is Ok,
            Err(reason) => r matches Err(NodeError::Send { purpose: of, cause }) && of == purpose
                && cause == reason,
        },
{
}

/// A message is handed to the network as it stands, and its sending succeeds exactly when
/// the network takes it. A refusal is reported with the reason that the network gave.
pub proof fn law_sending_reports_what_the_network_says<N: Network>(
    call: (&N, Outbound),
    r: Result<(), NodeError>,
)
    requires
        call_ensures(request::send::<N>, call, r),
    ensures
        match r {
            Ok(_) => exists|taken: Result<(), NetworkError>|
                taken is Ok && #[trigger] call_ensures(
                    N::send_event,
                    (call.0, call.1.dest, call.1.event),
                    taken,
                ),
            Err(NodeError::Send { purpose, cause }) => purpose == call.1.purpose && call_ensures(
                N::send_event,
                (call.0, call.1.dest, call.1.event),
                Err::<(), NetworkError>(cause),
            ),
            _ => false,
        },
{
}

} // verus!
