//! What holds of the answer that a node gives to each event.
use crate::lookup;
use crate::lookup::LookupError;
use crate::lookup::LookupTable;
use crate::lookup::LookupTableLevel;
use crate::lookup::Slots;
use crate::lookup::LOOKUP_TABLE_LEVELS;
use crate::model::direction::Direction;
use crate::model::identifier::Identifier;
use crate::model::identity::Identity;
use crate::model::join::LinkReq;
use crate::model::join::LinkRes;
use crate::model::join::MaxLevelReq;
use crate::model::join::MaxLevelRes;
use crate::model::join::NeighborReq;
use crate::model::join::NeighborRes;
use crate::model::search::IdSearchReq;
use crate::model::search::IdSearchRes;
use crate::network::Event;
use crate::network::EventProcessorCore;
use crate::node::base_core;
use crate::node::base_core::BaseCore;
use crate::node::base_core::SearchError;
use crate::node::base_node::BaseNode;
use crate::node::error::NodeError;
use crate::node::error::SendPurpose;
use crate::node::laws;
use crate::node::protocol;
use crate::node::protocol::Delivery;
use crate::node::protocol::Effect;
use crate::node::protocol::NodeModel;
use crate::node::waiter::ReplyChannels;
use crate::node::waiter::Waiter;
use vstd::prelude::*;

verus! {

/// Whether a slot on the side of a search holds the node `id`, and `id` is the target of
/// the search or lies before it.
pub open spec fn leads_toward(
    slots: Slots,
    direction: Direction,
    target: Identifier,
    level: LookupTableLevel,
    id: Identifier,
) -> bool {
    &&& slots[(level, direction)] matches Ok(Some(entry)) && entry.id == id
    &&& id.key() == target.key() || laws::beyond(id, direction, target)
}

/// Whether, among the levels up to `top`, none leads closer to the target than `id` at
/// `level` does: whatever else leads toward it lies behind `id`, or is `id` again, at a
/// higher level to the left and at a lower one to the right.
pub open spec fn leads_closest(
    slots: Slots,
    direction: Direction,
    target: Identifier,
    top: LookupTableLevel,
    level: LookupTableLevel,
    id: Identifier,
) -> bool {
    &&& level <= top
    &&& leads_toward(slots, direction, target, level, id)
    &&& forall|other_level: LookupTableLevel, other: Identifier|
        other_level <= top && #[trigger] leads_toward(
            slots,
            direction,
            target,
            other_level,
            other,
        ) ==> {
            ||| laws::beyond(other, direction, id)
            ||| other.key() == id.key() && match direction {
                Direction::Left => level <= other_level,
                Direction::Right => level >= other_level,
            }
        }
}

/// Whether no level up to `top` leads toward the target.
pub open spec fn leads_nowhere(
    slots: Slots,
    direction: Direction,
    target: Identifier,
    top: LookupTableLevel,
) -> bool {
    forall|level: LookupTableLevel, id: Identifier|
        level <= top ==> !#[trigger] leads_toward(slots, direction, target, level, id)
}

/// The answer to a search is the neighbor that leads closest to the target, at the level
/// where it stands, or the searched node itself, at level 0, when no neighbor leads toward
/// the target. It fails exactly when a level up to that of the search cannot be read, and
/// names the lowest such level.
pub proof fn law_search_finds_what_leads_closest(
    slots: Slots,
    own: Identifier,
    req: IdSearchReq,
    r: Result<IdSearchRes, SearchError>,
)
    requires
        base_core::answers_search(slots, own, req, r),
    ensures
        match r {
            Ok(res) => {
                &&& forall|level: LookupTableLevel|
                    level <= req.level ==> (#[trigger] slots[(level, req.direction)]) is Ok
                &&& res.nonce == req.nonce
                &&& res.target == req.target
                &&& res.termination_level <= req.level
                &&& leads_closest(
                    slots,
                    req.direction,
                    req.target,
                    req.level,
                    res.termination_level,
                    res.result,
                ) || {
                    &&& leads_nowhere(slots, req.direction, req.target, req.level)
                    &&& res.result == own
                    &&& res.termination_level == 0
                }
            },
            Err(e) => {
                &&& e.level <= req.level
                &&& slots[(e.level, req.direction)] == Err::<Option<Identity>, LookupError>(
                    e.source,
                )
                &&& forall|level: LookupTableLevel|
                    level < e.level ==> (#[trigger] slots[(level, req.direction)]) is Ok
            },
        },
{
    assert forall|level: LookupTableLevel, id: Identifier|
        level <= req.level implies #[trigger] leads_toward(
        slots,
        req.direction,
        req.target,
        level,
        id,
    ) == base_core::offers(slots, req, level, id) by {}
    if let Ok(res) = r {
        if base_core::offers(slots, req, res.termination_level, res.result) {
            assert(leads_toward(
                slots,
                req.direction,
                req.target,
                res.termination_level,
                res.result,
            ));
        }
        if base_core::is_best_below(
            slots,
            req,
            req.level + 1,
            Some((res.termination_level, res.result)),
        ) {
            assert forall|other_level: LookupTableLevel, other: Identifier|
                other_level <= req.level && #[trigger] leads_toward(
                    slots,
                    req.direction,
                    req.target,
                    other_level,
                    other,
                ) implies {
                ||| laws::beyond(other, req.direction, res.result)
                ||| other.key() == res.result.key() && match req.direction {
                    Direction::Left => res.termination_level <= other_level,
                    Direction::Right => res.termination_level >= other_level,
                }
            } by {
                assert(base_core::offers(slots, req, other_level, other));
            }
        }
    }
}

/// What [`BaseCore::search_by_id`] returns is an answer to the search.
pub proof fn law_local_search_answers<L: LookupTable>(
    call: (&BaseCore<L>, IdSearchReq),
    r: Result<IdSearchRes, SearchError>,
)
    requires
        call_ensures(BaseCore::<L>::search_by_id, call, r),
    ensures
        base_core::answers_search(call.0.slots(), call.0.own_id(), call.1, r),
{
}

/// What [`BaseNode::local_search`] returns is an answer to the search.
pub proof fn law_node_searches_its_own_table<L: LookupTable, C: ReplyChannels>(
    call: (&BaseNode<L, C>, IdSearchReq),
    r: Result<IdSearchRes, SearchError>,
)
    requires
        call_ensures(BaseNode::<L, C>::local_search, call, r),
    ensures
        base_core::answers_search(call.0@.slots, call.0@.id, call.1, r),
{
}

/// What [`BaseNode::process_incoming_event`] does is to handle the event.
pub proof fn law_processing_is_handling<L: LookupTable, C: ReplyChannels>(
    call: (&mut BaseNode<L, C>, Identifier, Event),
    r: Result<Effect<C>, NodeError>,
)
    requires
        call_ensures(
            <BaseNode<L, C> as EventProcessorCore>::process_incoming_event,
            call,
            r,
        ),
    ensures
        protocol::handles(old(call.0)@, call.2, final(call.0)@, r),
{
}

/// Whether a node wants `event` sent to `dest`, for `purpose`, and nothing else.
pub open spec fn sends<C: ReplyChannels>(
    r: Result<Effect<C>, NodeError>,
    dest: Identifier,
    event: Event,
    purpose: SendPurpose,
) -> bool {
    &&& r matches Ok(Effect::Send(out))
    &&& out.dest == dest
    &&& out.event == event
    &&& out.purpose == purpose
}

/// A node that handles a search either answers its origin with its own identifier, and then
/// no neighbor leads closer to the target than it, or passes the search, unchanged but for
/// the level, to the neighbor that leads closest, at the level where that neighbor stands.
pub proof fn law_search_is_answered_with_the_own_identifier_or_relayed<C: ReplyChannels>(
    before: NodeModel<C>,
    req: IdSearchReq,
    after: NodeModel<C>,
    r: Result<Effect<C>, NodeError>,
)
    requires
        protocol::handles(before, Event::SearchByIdRequest(req), after, r),
    ensures
        after == before,
        match r {
            Ok(Effect::Send(out)) => {
                &&& forall|level: LookupTableLevel|
                    level <= req.level ==> (#[trigger] before.slots[(level, req.direction)]) is Ok
                &&& match out.event {
                    Event::SearchByIdResponse(res) => {
                        &&& out.dest == req.origin
                        &&& out.purpose == SendPurpose::SearchResponse
                        &&& res.nonce == req.nonce
                        &&& res.target == req.target
                        &&& res.result == before.id
                        &&& base_core::answers_search(before.slots, before.id, req, Ok(res))
                        &&& leads_closest(
                            before.slots,
                            req.direction,
                            req.target,
                            req.level,
                            res.termination_level,
                            before.id,
                        ) || {
                            &&& leads_nowhere(before.slots, req.direction, req.target, req.level)
                            &&& res.termination_level == 0
                        }
                    },
                    Event::SearchByIdRequest(next) => {
                        &&& out.dest != before.id
                        &&& out.purpose == SendPurpose::SearchRelay
                        &&& next.nonce == req.nonce
                        &&& next.target == req.target
                        &&& next.origin == req.origin
                        &&& next.direction == req.direction
                        &&& next.level <= req.level
                        &&& leads_closest(
                            before.slots,
                            req.direction,
                            req.target,
                            req.level,
                            next.level,
                            out.dest,
                        )
                    },
                    _ => false,
                }
            },
            Err(NodeError::Search(e)) => {
                &&& e.level <= req.level
                &&& before.slots[(e.level, req.direction)] == Err::<
                    Option<Identity>,
                    LookupError,
                >(e.source)
                &&& forall|level: LookupTableLevel|
                    level < e.level ==> (#[trigger] before.slots[(level, req.direction)]) is Ok
            },
            _ => false,
        },
{
    let found = choose|found: Result<IdSearchRes, SearchError>|
        {
            &&& #[trigger] base_core::answers_search(before.slots, before.id, req, found)
            &&& match found {
                Err(e) => r == Err::<Effect<C>, NodeError>(NodeError::Search(e)),
                Ok(res) => r matches Ok(Effect::Send(_)),
            }
        };
    law_search_finds_what_leads_closest(before.slots, before.id, req, found);
    if let Ok(Effect::Send(out)) = r {
        if let Event::SearchByIdResponse(res) = out.event {
            assert(base_core::answers_search(before.slots, before.id, req, Ok(res)));
            base_core::law_search_answer_is_unique(before.slots, before.id, req, found, Ok(res));
        }
    }
}

/// The identifier in a search response is that of a node of the graph, and no other node
/// lies between it and the target: of all nodes that are not past the target, it is the
/// closest. This holds where the responding node knows its nearest neighbor at level 0.
pub proof fn law_search_response_names_the_closest_node<C: ReplyChannels>(
    nodes: Map<Identifier, NodeModel<C>>,
    own: Identifier,
    neighbor: Option<Identity>,
    req: IdSearchReq,
    after: NodeModel<C>,
    r: Result<Effect<C>, NodeError>,
    dest: Identifier,
    res: IdSearchRes,
    purpose: SendPurpose,
)
    requires
        nodes.dom().contains(own),
        nodes[own].id == own,
        laws::slots_in_order(own, nodes[own].slots),
        nodes[own].slots[(0, req.direction)] == Ok::<Option<Identity>, LookupError>(neighbor),
        laws::is_nearest(nodes, own, req.direction, neighbor),
        own.key() == req.target.key() || laws::beyond(own, req.direction, req.target),
        protocol::handles(nodes[own], Event::SearchByIdRequest(req), after, r),
        sends(r, dest, Event::SearchByIdResponse(res), purpose),
    ensures
        dest == req.origin,
        nodes.dom().contains(res.result),
        res.result.key() == req.target.key() || laws::beyond(
            res.result,
            req.direction,
            req.target,
        ),
        forall|other: Identifier| #[trigger]
            nodes.dom().contains(other) && (other.key() == req.target.key() || laws::beyond(
                other,
                req.direction,
                req.target,
            )) ==> other.key() == res.result.key() || laws::beyond(
                other,
                req.direction,
                res.result,
            ),
{
    law_search_is_answered_with_the_own_identifier_or_relayed(nodes[own], req, after, r);
    let slots = nodes[own].slots;
    assert forall|other: Identifier| #[trigger]
        nodes.dom().contains(other) && (other.key() == req.target.key() || laws::beyond(
            other,
            req.direction,
            req.target,
        )) implies other.key() == own.key() || laws::beyond(other, req.direction, own) by {
        if laws::beyond(own, req.direction, other) {
            let nearest = neighbor->0;
            assert(leads_toward(slots, req.direction, req.target, 0, nearest.id));
            assert(!leads_nowhere(slots, req.direction, req.target, req.level));
            assert(leads_toward(slots, req.direction, req.target, res.termination_level, own));
            assert(slots[(res.termination_level, req.direction)] is Ok);
        }
    }
}

/// Whether a node handles `event` and, for that, sends `next` to `dest`.
pub open spec fn passes_on<C: ReplyChannels>(
    before: NodeModel<C>,
    event: Event,
    after: NodeModel<C>,
    r: Result<Effect<C>, NodeError>,
    dest: Identifier,
    next: Event,
) -> bool {
    &&& protocol::handles(before, event, after, r)
    &&& r matches Ok(Effect::Send(out)) && out.dest == dest && out.event == next
}

/// Whether messages pass through `nodes`, one after the other: each node handles its event,
/// and what it sends is the event of the next node. The last event is what the last node
/// sends, to `dest`.
pub open spec fn passes_along<C: ReplyChannels>(
    nodes: Seq<NodeModel<C>>,
    afters: Seq<NodeModel<C>>,
    results: Seq<Result<Effect<C>, NodeError>>,
    events: Seq<Event>,
    dest: Identifier,
) -> bool {
    &&& 0 < nodes.len() == afters.len()
    &&& nodes.len() == results.len()
    &&& events.len() == nodes.len() + 1
    &&& forall|i: int|
        0 <= i < nodes.len() ==> passes_on(
            nodes[i],
            events[i],
            afters[i],
            #[trigger] results[i],
            if i + 1 < nodes.len() {
                nodes[i + 1].id
            } else {
                dest
            },
            events[i + 1],
        )
}

/// What passes along nodes passes along all but the first of them.
proof fn lemma_passes_along_the_rest<C: ReplyChannels>(
    nodes: Seq<NodeModel<C>>,
    afters: Seq<NodeModel<C>>,
    results: Seq<Result<Effect<C>, NodeError>>,
    events: Seq<Event>,
    dest: Identifier,
)
    requires
        passes_along(nodes, afters, results, events, dest),
        nodes.len() > 1,
    ensures
        passes_along(
            nodes.drop_first(),
            afters.drop_first(),
            results.drop_first(),
            events.drop_first(),
            dest,
        ),
        passes_on(nodes[0], events[0], afters[0], results[0], nodes[1].id, events[1]),
        exists|after: NodeModel<C>, r: Result<Effect<C>, NodeError>, to: Identifier, next: Event|
            passes_on(nodes[1], events[1], after, r, to, next),
{
    let rest = nodes.drop_first();
    let rest_results = results.drop_first();
    assert forall|i: int| 0 <= i < rest.len() implies passes_on(
        rest[i],
        events.drop_first()[i],
        afters.drop_first()[i],
        #[trigger] rest_results[i],
        if i + 1 < rest.len() {
            rest[i + 1].id
        } else {
            dest
        },
        events.drop_first()[i + 1],
    ) by {
        assert(rest_results[i] == results[i + 1]);
    }
    assert(rest_results[0] == results[1]);
    assert(results[0] == results[0]);
}

/// A search that ends with a response, however many nodes relay it, is answered to its
/// origin, with its nonce and its target, and with the identifier of the node at which it
/// ended.
pub proof fn law_search_is_answered_to_its_origin<C: ReplyChannels>(
    nodes: Seq<NodeModel<C>>,
    afters: Seq<NodeModel<C>>,
    results: Seq<Result<Effect<C>, NodeError>>,
    events: Seq<Event>,
    dest: Identifier,
    req: IdSearchReq,
    res: IdSearchRes,
)
    requires
        passes_along(nodes, afters, results, events, dest),
        events[0] == Event::SearchByIdRequest(req),
        events.last() == Event::SearchByIdResponse(res),
    ensures
        dest == req.origin,
        res.nonce == req.nonce,
        res.target == req.target,
        res.result == nodes.last().id,
    decreases nodes.len(),
{
    if nodes.len() > 1 {
        lemma_passes_along_the_rest(nodes, afters, results, events, dest);
        law_search_is_answered_with_the_own_identifier_or_relayed(
            nodes[0],
            req,
            afters[0],
            results[0],
        );
        if let Event::SearchByIdRequest(next) = events[1] {
            law_search_is_answered_to_its_origin(
                nodes.drop_first(),
                afters.drop_first(),
                results.drop_first(),
                events.drop_first(),
                dest,
                next,
                res,
            );
        }
    } else {
        assert(passes_on(nodes[0], events[0], afters[0], results[0], dest, events[1]));
        law_search_is_answered_with_the_own_identifier_or_relayed(
            nodes[0],
            req,
            afters[0],
            results[0],
        );
    }
}

/// A node that handles a link request at a level that tables have either passes the very
/// same request to the neighbor in the slot, when that neighbor lies before the candidate,
/// and keeps the slot, or puts the candidate into the slot, and tells it so: under the same
/// nonce, at the same level, on the other side, with its own identity. No other slot and no
/// outstanding request changes. At any other level it does nothing.
pub proof fn law_link_request_is_forwarded_unchanged_or_granted<C: ReplyChannels>(
    before: NodeModel<C>,
    req: LinkReq,
    after: NodeModel<C>,
    r: Result<Effect<C>, NodeError>,
)
    requires
        protocol::handles(before, Event::GetLinkOp(req), after, r),
    ensures
        after.id == before.id,
        after.mem_vec == before.mem_vec,
        after.address == before.address,
        after.waiters == before.waiters,
        forall|level: LookupTableLevel, direction: Direction|
            (level, direction) != (req.level, req.dir) ==> #[trigger] after.slots[(
                level,
                direction,
            )] == before.slots[(level, direction)],
        req.level >= LOOKUP_TABLE_LEVELS ==> {
            &&& after.slots[(req.level, req.dir)] == before.slots[(req.level, req.dir)]
            &&& r == Ok::<Effect<C>, NodeError>(Effect::Idle)
        },
        req.level < LOOKUP_TABLE_LEVELS ==> match before.slots[(req.level, req.dir)] {
            Err(source) => {
                &&& after.slots[(req.level, req.dir)] == before.slots[(req.level, req.dir)]
                &&& r == Err::<Effect<C>, NodeError>(
                    NodeError::DecideLink { level: req.level, source },
                )
            },
            Ok(slot) => if slot is Some && laws::beyond(
                (slot->0).id,
                req.dir,
                req.candidate.id,
            ) {
                &&& after.slots[(req.level, req.dir)] == before.slots[(req.level, req.dir)]
                &&& sends(r, (slot->0).id, Event::GetLinkOp(req), SendPurpose::LinkForward)
            } else {
                &&& after.slots[(req.level, req.dir)] == Ok::<Option<Identity>, LookupError>(
                    Some(req.candidate),
                )
                &&& r matches Ok(Effect::Send(out))
                &&& out.dest == req.candidate.id
                &&& out.purpose == SendPurpose::LinkResponse
                &&& out.event matches Event::SetLinkOp(res)
                &&& res.nonce == req.nonce
                &&& res.level == req.level
                &&& res.dir != req.dir
                &&& res.linked matches Some(linked)
                &&& linked.id == before.id
                &&& linked.mem_vec == before.mem_vec
                &&& linked.address == before.address
            },
        },
{
}

/// A link request that ends with a confirmation, however many nodes forward it, is granted
/// by the last of them: that node holds the candidate on the side and at the level of the
/// request, and confirms it to the candidate under the nonce of the request. Every node
/// before it has kept its table.
pub proof fn law_forwarded_link_is_granted_where_it_was_asked<C: ReplyChannels>(
    nodes: Seq<NodeModel<C>>,
    afters: Seq<NodeModel<C>>,
    results: Seq<Result<Effect<C>, NodeError>>,
    events: Seq<Event>,
    dest: Identifier,
    req: LinkReq,
    res: LinkRes,
)
    requires
        passes_along(nodes, afters, results, events, dest),
        events[0] == Event::GetLinkOp(req),
        events.last() == Event::SetLinkOp(res),
    ensures
        forall|i: int|
            0 <= i < nodes.len() ==> #[trigger] events[i] == Event::GetLinkOp(req),
        forall|i: int|
            0 <= i < nodes.len() - 1 ==> (#[trigger] afters[i]).slots[(req.level, req.dir)]
                == nodes[i].slots[(req.level, req.dir)],
        afters.last().slots[(req.level, req.dir)] == Ok::<Option<Identity>, LookupError>(
            Some(req.candidate),
        ),
        dest == req.candidate.id,
        res.nonce == req.nonce,
        res.level == req.level,
        res.dir != req.dir,
        res.linked matches Some(linked) && linked.id == nodes.last().id,
    decreases nodes.len(),
{
    if nodes.len() > 1 {
        let rest_afters = afters.drop_first();
        let rest_events = events.drop_first();
        lemma_passes_along_the_rest(nodes, afters, results, events, dest);
        law_link_request_is_forwarded_unchanged_or_granted(nodes[0], req, afters[0], results[0]);
        assert(events[1] == Event::GetLinkOp(req));
        law_forwarded_link_is_granted_where_it_was_asked(
            nodes.drop_first(),
            rest_afters,
            results.drop_first(),
            rest_events,
            dest,
            req,
            res,
        );
        assert forall|i: int| 0 <= i < nodes.len() implies #[trigger] events[i]
            == Event::GetLinkOp(req) by {
            if i > 0 {
                assert(events[i] == rest_events[i - 1]);
            }
        }
        assert forall|i: int| 0 <= i < nodes.len() - 1 implies (
        #[trigger] afters[i]).slots[(req.level, req.dir)] == nodes[i].slots[(
            req.level,
            req.dir,
        )] by {
            if i > 0 {
                assert(afters[i] == rest_afters[i - 1]);
            }
        }
    } else {
        assert(passes_on(nodes[0], events[0], afters[0], results[0], dest, events[1]));
        law_link_request_is_forwarded_unchanged_or_granted(nodes[0], req, afters[0], results[0]);
    }
}

/// The neighbor in the reply to a query is the entry of the very slot that the reply names,
/// which is the slot that was asked for. The reply goes to the node that asked, under its
/// nonce. A query changes nothing, and fails exactly when that slot cannot be read.
pub proof fn law_neighbor_reply_holds_the_entry_of_its_slot<C: ReplyChannels>(
    before: NodeModel<C>,
    req: NeighborReq,
    after: NodeModel<C>,
    r: Result<Effect<C>, NodeError>,
)
    requires
        protocol::handles(before, Event::GetNeighborOp(req), after, r),
    ensures
        after == before,
        match r {
            Ok(Effect::Send(out)) => {
                &&& out.dest == req.origin
                &&& out.purpose == SendPurpose::NeighborResponse
                &&& out.event matches Event::RetNeighborOp(res)
                &&& res.nonce == req.nonce
                &&& res.level == req.level
                &&& res.direction == req.direction
                &&& before.slots[(res.level, res.direction)] == Ok::<
                    Option<Identity>,
                    LookupError,
                >(res.neighbor)
            },
            Err(NodeError::ReadNeighbor(e)) => before.slots[(req.level, req.direction)] == Err::<
                Option<Identity>,
                LookupError,
            >(e),
            _ => false,
        },
{
}

/// The level in the reply to a query is the highest one at which the node has an entry on
/// either side, or 0 when it has none. The reply goes to the node that asked, under its
/// nonce. A query changes nothing and does not fail.
pub proof fn law_max_level_reply_is_the_highest_level_in_use<C: ReplyChannels>(
    before: NodeModel<C>,
    req: MaxLevelReq,
    after: NodeModel<C>,
    r: Result<Effect<C>, NodeError>,
)
    requires
        protocol::handles(before, Event::GetMaxLevelOp(req), after, r),
    ensures
        after == before,
        r matches Ok(Effect::Send(out)) && {
            &&& out.dest == req.origin
            &&& out.purpose == SendPurpose::MaxLevelResponse
            &&& out.event matches Event::RetMaxLevelOp(res)
            &&& res.nonce == req.nonce
            &&& res.max_level < LOOKUP_TABLE_LEVELS
            &&& forall|level: LookupTableLevel, direction: Direction|
                level < LOOKUP_TABLE_LEVELS && #[trigger] lookup::laws::is_populated(
                    before.slots,
                    level,
                    direction,
                ) ==> level <= res.max_level
            &&& {
                ||| lookup::laws::is_populated(before.slots, res.max_level, Direction::Left)
                ||| lookup::laws::is_populated(before.slots, res.max_level, Direction::Right)
                ||| res.max_level == 0 && forall|level: LookupTableLevel, direction: Direction|
                    level < LOOKUP_TABLE_LEVELS ==> !#[trigger] lookup::laws::is_populated(
                        before.slots,
                        level,
                        direction,
                    )
            }
        },
{
    lookup::laws::law_highest_populated_level_is_the_maximum(
        before.slots,
        LOOKUP_TABLE_LEVELS as nat,
    );
    assert forall|level: LookupTableLevel, direction: Direction| #[trigger]
        lookup::laws::is_populated(before.slots, level, direction) == lookup::holds_entry(
            before.slots,
            level,
            direction,
        ) by {}
}

/// A search response reaches the search that waits under its nonce, as it came, and nothing
/// else: the search no longer waits, every other request still does. Without such a search
/// it does nothing.
pub proof fn law_search_response_resumes_its_search<C: ReplyChannels>(
    before: NodeModel<C>,
    res: IdSearchRes,
    after: NodeModel<C>,
    r: Result<Effect<C>, NodeError>,
)
    requires
        protocol::handles(before, Event::SearchByIdResponse(res), after, r),
    ensures
        if before.waiters.dom().contains(res.nonce.value) {
            match before.waiters[res.nonce.value] {
                Waiter::AsyncSearch(reply_to) => {
                    &&& r == Ok::<Effect<C>, NodeError>(
                        Effect::Deliver(Delivery::Search(reply_to, res)),
                    )
                    &&& after == (NodeModel::<C> {
                        waiters: before.waiters.remove(res.nonce.value),
                        ..before
                    })
                },
                _ => r == Ok::<Effect<C>, NodeError>(Effect::Idle) && after == before,
            }
        } else {
            r == Ok::<Effect<C>, NodeError>(Effect::Idle) && after == before
        },
{
}

/// A reply with a level reaches the request that waits under its nonce, as it came, and
/// nothing else.
pub proof fn law_max_level_reply_resumes_its_request<C: ReplyChannels>(
    before: NodeModel<C>,
    res: MaxLevelRes,
    after: NodeModel<C>,
    r: Result<Effect<C>, NodeError>,
)
    requires
        protocol::handles(before, Event::RetMaxLevelOp(res), after, r),
    ensures
        if before.waiters.dom().contains(res.nonce.value) {
            match before.waiters[res.nonce.value] {
                Waiter::MaxLevel(reply_to) => {
                    &&& r == Ok::<Effect<C>, NodeError>(
                        Effect::Deliver(Delivery::MaxLevel(reply_to, res)),
                    )
                    &&& after == (NodeModel::<C> {
                        waiters: before.waiters.remove(res.nonce.value),
                        ..before
                    })
                },
                _ => r == Ok::<Effect<C>, NodeError>(Effect::Idle) && after == before,
            }
        } else {
            r == Ok::<Effect<C>, NodeError>(Effect::Idle) && after == before
        },
{
}

/// A reply with a neighbor reaches the request that waits under its nonce, as it came, and
/// nothing else.
pub proof fn law_neighbor_reply_resumes_its_request<C: ReplyChannels>(
    before: NodeModel<C>,
    res: NeighborRes,
    after: NodeModel<C>,
    r: Result<Effect<C>, NodeError>,
)
    requires
        protocol::handles(before, Event::RetNeighborOp(res), after, r),
    ensures
        if before.waiters.dom().contains(res.nonce.value) {
            match before.waiters[res.nonce.value] {
                Waiter::Neighbor(reply_to) => {
                    &&& r == Ok::<Effect<C>, NodeError>(
                        Effect::Deliver(Delivery::Neighbor(reply_to, res)),
                    )
                    &&& after == (NodeModel::<C> {
                        waiters: before.waiters.remove(res.nonce.value),
                        ..before
                    })
                },
                _ => r == Ok::<Effect<C>, NodeError>(Effect::Idle) && after == before,
            }
        } else {
            r == Ok::<Effect<C>, NodeError>(Effect::Idle) && after == before
        },
{
}

/// A link confirmation puts the linked node into the slot that it names, unless the neighbor
/// there lies before that node, and into no other slot. Whether or not it does, it reaches
/// the link request that waits under its nonce, as it came. It fails exactly when it names a
/// level that tables have and the table refuses the slot, and then it changes nothing.
pub proof fn law_link_confirmation_is_applied_and_resumes_its_request<C: ReplyChannels>(
    before: NodeModel<C>,
    res: LinkRes,
    after: NodeModel<C>,
    r: Result<Effect<C>, NodeError>,
)
    requires
        protocol::handles(before, Event::SetLinkOp(res), after, r),
    ensures
        after.id == before.id,
        after.mem_vec == before.mem_vec,
        after.address == before.address,
        forall|level: LookupTableLevel, direction: Direction|
            (level, direction) != (res.level, res.dir) ==> #[trigger] after.slots[(
                level,
                direction,
            )] == before.slots[(level, direction)],
        match (res.linked, before.slots[(res.level, res.dir)]) {
            (Some(linked), Ok(slot)) if res.level < LOOKUP_TABLE_LEVELS && !(slot is Some
                && laws::beyond((slot->0).id, res.dir, linked.id)) => after.slots[(
                res.level,
                res.dir,
            )] == Ok::<Option<Identity>, LookupError>(Some(linked)),
            _ => after.slots[(res.level, res.dir)] == before.slots[(res.level, res.dir)],
        },
        match r {
            Err(NodeError::ApplyLink { level, source }) => {
                &&& res.linked is Some
                &&& level == res.level
                &&& level < LOOKUP_TABLE_LEVELS
                &&& before.slots[(res.level, res.dir)] == Err::<Option<Identity>, LookupError>(
                    source,
                )
                &&& after == before
            },
            Ok(effect) => {
                &&& res.linked is Some && res.level < LOOKUP_TABLE_LEVELS ==> before.slots[(
                    res.level,
                    res.dir,
                )] is Ok
                &&& if before.waiters.dom().contains(res.nonce.value) {
                    match before.waiters[res.nonce.value] {
                        Waiter::Link(reply_to) => {
                            &&& effect == Effect::<C>::Deliver(Delivery::Link(reply_to, res))
                            &&& after.waiters == before.waiters.remove(res.nonce.value)
                        },
                        _ => effect == Effect::<C>::Idle && after.waiters == before.waiters,
                    }
                } else {
                    effect == Effect::<C>::Idle && after.waiters == before.waiters
                }
            },
            _ => false,
        },
{
}

/// A node changes nothing and reports that it does not handle the event, exactly for the
/// events that no other law names.
pub proof fn law_other_events_are_refused<C: ReplyChannels>(
    before: NodeModel<C>,
    event: Event,
    after: NodeModel<C>,
    r: Result<Effect<C>, NodeError>,
)
    requires
        protocol::handles(before, event, after, r),
    ensures
        r == Err::<Effect<C>, NodeError>(NodeError::UnsupportedEvent) <==> event is TestMessage
            || event is BuddyOp || event is CheckNeighborOp,
        r == Err::<Effect<C>, NodeError>(NodeError::UnsupportedEvent) ==> after == before,
{
}

} // verus!
