//! What holds of nodes that exchange messages.
use crate::lookup;
use crate::lookup::LinkOutcome;
use crate::lookup::LookupTableLevel;
use crate::lookup::Slots;
use crate::lookup::LOOKUP_TABLE_LEVELS;
use crate::model::direction::Direction;
use crate::model::identifier::Identifier;
use crate::model::identity::Identity;
use crate::model::join::LinkReq;
use crate::model::join::LinkRes;
use crate::model::search::IdSearchReq;
use crate::model::search::IdSearchRes;
use crate::model::search::Nonce;
use crate::network::Event;
use crate::node::base_core;
use crate::node::error::NodeError;
use crate::node::protocol;
use crate::node::protocol::Effect;
use crate::node::protocol::NodeModel;
use crate::node::protocol::Outbound;
use crate::node::request;
use crate::node::waiter;
use crate::node::waiter::ReplyChannels;
use crate::node::waiter::WaiterKind;
use vstd::multiset::Multiset;
use vstd::prelude::*;

verus! {

/// Whether `other` lies strictly on the `direction` side of `own`.
pub open spec fn beyond(own: Identifier, direction: Direction, other: Identifier) -> bool {
    match direction {
        Direction::Left => other.key() < own.key(),
        Direction::Right => own.key() < other.key(),
    }
}

/// How far apart two identifiers are.
pub open spec fn distance(a: Identifier, b: Identifier) -> nat {
    if a.key() < b.key() {
        (b.key() - a.key()) as nat
    } else {
        (a.key() - b.key()) as nat
    }
}

/// Whether every entry of a node's table lies on the side that holds it.
pub open spec fn slots_in_order(own: Identifier, slots: Slots) -> bool {
    forall|level: LookupTableLevel, direction: Direction|
        (#[trigger] slots[(level, direction)]) matches Ok(Some(entry)) ==> beyond(
            own,
            direction,
            entry.id,
        )
}

/// Whether a message to `dest` is in order: a link is proposed for, or confirmed on, the
/// side where it belongs, and a search has not passed its target.
pub open spec fn event_in_order(dest: Identifier, event: Event) -> bool {
    match event {
        Event::GetLinkOp(req) => beyond(dest, req.dir, req.candidate.id),
        Event::SetLinkOp(res) => res.linked matches Some(linked) ==> beyond(
            dest,
            res.dir,
            linked.id,
        ),
        Event::SearchByIdRequest(req) => base_core::not_past(dest, req.direction, req.target),
        _ => true,
    }
}

/// The graph and the messages in it.
pub struct GraphModel<C: ReplyChannels> {
    /// The nodes by identifier.
    pub nodes: Map<Identifier, NodeModel<C>>,
    /// The messages under way, with their destinations.
    pub in_flight: Multiset<(Identifier, Event)>,
}

/// Whether every table and every message of a graph is in order.
pub open spec fn graph_in_order<C: ReplyChannels>(graph: GraphModel<C>) -> bool {
    &&& forall|id: Identifier| #[trigger]
        graph.nodes.dom().contains(id) ==> {
            &&& graph.nodes[id].id == id
            &&& slots_in_order(id, graph.nodes[id].slots)
        }
    &&& forall|dest: Identifier, event: Event| #[trigger]
        graph.in_flight.contains((dest, event)) ==> event_in_order(dest, event)
}

/// Whether a graph moves from `before` to `after` when `dest` handles `event`, with the
/// result `r`.
pub open spec fn delivers<C: ReplyChannels>(
    before: GraphModel<C>,
    dest: Identifier,
    event: Event,
    r: Result<Effect<C>, NodeError>,
    after: GraphModel<C>,
) -> bool {
    let rest = before.in_flight.remove((dest, event));
    &&& before.in_flight.contains((dest, event))
    &&& before.nodes.dom().contains(dest)
    &&& protocol::handles(before.nodes[dest], event, after.nodes[dest], r)
    &&& after.nodes == before.nodes.insert(dest, after.nodes[dest])
    &&& after.in_flight == match r {
        Ok(Effect::Send(out)) => rest.insert((out.dest, out.event)),
        _ => rest,
    }
}

/// Whether every node of `after` goes by its own identifier, and has the table that it had
/// before or, where it is new to the graph, a table that is in order. What the nodes wait
/// for may have changed, and so may their addresses.
pub open spec fn keeps_tables<C: ReplyChannels>(
    before: Map<Identifier, NodeModel<C>>,
    after: Map<Identifier, NodeModel<C>>,
) -> bool {
    forall|id: Identifier| #[trigger]
        after.dom().contains(id) ==> {
            &&& after[id].id == id
            &&& if before.dom().contains(id) {
                after[id].slots == before[id].slots
            } else {
                slots_in_order(id, after[id].slots)
            }
        }
}

/// Whether a graph moves from `before` to `after` without a message being handled: nodes
/// begin requests, give them up, enter the graph or leave it, and a message is lost, or one
/// that is in order is put under way, or the messages stay as they are.
pub open spec fn moves_unprompted<C: ReplyChannels>(
    before: GraphModel<C>,
    dest: Identifier,
    event: Event,
    after: GraphModel<C>,
) -> bool {
    &&& keeps_tables(before.nodes, after.nodes)
    &&& {
        ||| after.in_flight == before.in_flight
        ||| after.in_flight == before.in_flight.remove((dest, event))
        ||| {
            &&& event_in_order(dest, event)
            &&& after.in_flight == before.in_flight.insert((dest, event))
        }
    }
}

/// Whether a graph can move from `before` to `after` in one step: some message is handled,
/// or the graph moves without one.
pub open spec fn steps<C: ReplyChannels>(before: GraphModel<C>, after: GraphModel<C>) -> bool {
    ||| exists|dest: Identifier, event: Event, r: Result<Effect<C>, NodeError>|
        #[trigger] delivers(before, dest, event, r, after)
    ||| exists|dest: Identifier, event: Event| #[trigger]
        moves_unprompted(before, dest, event, after)
}

/// A proposal in order keeps a table in order.
proof fn lemma_proposal_keeps_order<C: ReplyChannels>(
    node: NodeModel<C>,
    level: LookupTableLevel,
    direction: Direction,
    slot: Option<Identity>,
    candidate: Identity,
)
    requires
        slots_in_order(node.id, node.slots),
        node.slots[(level, direction)] == Ok::<Option<Identity>, lookup::LookupError>(slot),
        beyond(node.id, direction, candidate.id),
    ensures
        slots_in_order(
            node.id,
            node.with_slot(level, direction, lookup::slot_after(slot, direction, candidate)).slots,
        ),
{
    let entry = lookup::slot_after(slot, direction, candidate);
    let slots = node.with_slot(level, direction, entry).slots;
    assert forall|l: LookupTableLevel, d: Direction|
        (#[trigger] slots[(l, d)]) is Ok && slots[(l, d)]->Ok_0 is Some implies beyond(
        node.id,
        d,
        (slots[(l, d)]->Ok_0->0).id,
    ) by {
        if (l, d) != (level, direction) {
            assert(slots[(l, d)] == node.slots[(l, d)]);
        }
    }
}

/// A node whose table is in order, given a message that is in order, ends with a table
/// that is in order and sends only messages that are in order.
pub proof fn law_handling_keeps_order<C: ReplyChannels>(
    before: NodeModel<C>,
    event: Event,
    after: NodeModel<C>,
    r: Result<Effect<C>, NodeError>,
)
    requires
        slots_in_order(before.id, before.slots),
        event_in_order(before.id, event),
        protocol::handles(before, event, after, r),
    ensures
        after.id == before.id,
        slots_in_order(after.id, after.slots),
        r matches Ok(Effect::Send(out)) ==> event_in_order(out.dest, out.event),
{
    match event {
        Event::GetLinkOp(req) => {
            if req.level < LOOKUP_TABLE_LEVELS {
                if let Ok(slot) = before.slots[(req.level, req.dir)] {
                    lemma_proposal_keeps_order(before, req.level, req.dir, slot, req.candidate);
                }
            }
        },
        Event::SetLinkOp(res) => {
            if res.level < LOOKUP_TABLE_LEVELS {
                if let (Some(linked), Ok(slot)) = (res.linked, before.slots[(res.level, res.dir)]) {
                    lemma_proposal_keeps_order(before, res.level, res.dir, slot, linked);
                }
            }
        },
        _ => {},
    }
}

/// Every step of a graph keeps it in order: handling, losing or sending a message, beginning
/// or giving up a request, entering or leaving.
pub proof fn law_every_step_keeps_order<C: ReplyChannels>(
    before: GraphModel<C>,
    after: GraphModel<C>,
)
    requires
        graph_in_order(before),
        steps(before, after),
    ensures
        graph_in_order(after),
{
    if exists|dest: Identifier, event: Event, r: Result<Effect<C>, NodeError>|
        #[trigger] delivers(before, dest, event, r, after) {
        let (dest, event, r) = choose|dest: Identifier, event: Event, r: Result<Effect<C>, NodeError>|
            #[trigger] delivers(before, dest, event, r, after);
        law_handling_keeps_order(before.nodes[dest], event, after.nodes[dest], r);
        assert forall|id: Identifier| #[trigger] after.nodes.dom().contains(id) implies {
            &&& after.nodes[id].id == id
            &&& slots_in_order(id, after.nodes[id].slots)
        } by {
            assert(before.nodes.dom().contains(id));
        }
        assert forall|d: Identifier, e: Event| #[trigger]
            after.in_flight.contains((d, e)) implies event_in_order(d, e) by {
            assert(before.in_flight.contains((d, e)) || {
                &&& r matches Ok(Effect::Send(out))
                &&& (d, e) == (out.dest, out.event)
            });
        }
    } else {
        let (dest, event) = choose|dest: Identifier, event: Event| #[trigger]
            moves_unprompted(before, dest, event, after);
        assert forall|d: Identifier, e: Event| #[trigger]
            after.in_flight.contains((d, e)) implies event_in_order(d, e) by {
            assert(before.in_flight.contains((d, e)) || (d, e) == (dest, event));
        }
    }
}

/// A node that begins a request takes a step of the graph: one for a level or a neighbor
/// always, one for a link where it asks to be adopted on the side where it belongs, and a
/// search where it is not past its target. So does a node that gives up a request, and a
/// node without neighbors that enters the graph.
pub proof fn law_requests_are_steps<C: ReplyChannels>(
    graph: GraphModel<C>,
    own: Identifier,
    waiters: waiter::Waiters<C>,
    nonce: Nonce,
    dest: Identifier,
    target: Identifier,
    direction: Direction,
    level: LookupTableLevel,
    newcomer: NodeModel<C>,
)
    requires
        graph_in_order(graph),
        graph.nodes.dom().contains(own),
    ensures
        ({
            let node = graph.nodes[own];
            let nodes = graph.nodes.insert(own, node.with_waiters(waiters));
            let asks = |out: Outbound|
                GraphModel { nodes, in_flight: graph.in_flight.insert((out.dest, out.event)) };
            &&& steps(graph, asks(request::max_level_request(nonce, own, dest)))
            &&& steps(graph, asks(request::neighbor_request(nonce, own, dest, direction, level)))
            &&& beyond(dest, direction, own) ==> steps(
                graph,
                asks(request::link_request(nonce, node.identity(), dest, direction, level)),
            )
            &&& base_core::not_past(dest, direction, target) ==> steps(
                graph,
                asks(request::search_request(nonce, own, dest, target, level, direction)),
            )
            &&& steps(graph, GraphModel { nodes, in_flight: graph.in_flight })
            &&& !graph.nodes.dom().contains(newcomer.id) && newcomer.slots
                == lookup::array_lookup_table::empty_slots() ==> steps(
                graph,
                GraphModel {
                    nodes: graph.nodes.insert(newcomer.id, newcomer),
                    in_flight: graph.in_flight,
                },
            )
        }),
{
    let node = graph.nodes[own];
    let nodes = graph.nodes.insert(own, node.with_waiters(waiters));
    let asks = |out: Outbound|
        GraphModel { nodes, in_flight: graph.in_flight.insert((out.dest, out.event)) };
    let a = request::max_level_request(nonce, own, dest);
    let b = request::neighbor_request(nonce, own, dest, direction, level);
    let c = request::link_request(nonce, node.identity(), dest, direction, level);
    let d = request::search_request(nonce, own, dest, target, level, direction);
    assert(keeps_tables(graph.nodes, nodes));
    assert(moves_unprompted(graph, a.dest, a.event, asks(a)));
    assert(moves_unprompted(graph, b.dest, b.event, asks(b)));
    if beyond(dest, direction, own) {
        assert(moves_unprompted(graph, c.dest, c.event, asks(c)));
    }
    if base_core::not_past(dest, direction, target) {
        assert(moves_unprompted(graph, d.dest, d.event, asks(d)));
    }
    assert(moves_unprompted(
        graph,
        a.dest,
        a.event,
        GraphModel { nodes, in_flight: graph.in_flight },
    ));
    if !graph.nodes.dom().contains(newcomer.id) && newcomer.slots
        == lookup::array_lookup_table::empty_slots() {
        let entered = graph.nodes.insert(newcomer.id, newcomer);
        assert(keeps_tables(graph.nodes, entered));
        assert(moves_unprompted(
            graph,
            a.dest,
            a.event,
            GraphModel { nodes: entered, in_flight: graph.in_flight },
        ));
    }
}

/// However concurrent joins and searches interleave, with all the requests that they begin
/// and give up, a graph that starts in order stays in order: no table ever holds an entry on
/// the wrong side.
pub proof fn law_order_holds_along_every_run<C: ReplyChannels>(run: Seq<GraphModel<C>>)
    requires
        run.len() > 0,
        graph_in_order(run[0]),
        forall|i: int| 0 <= i < run.len() - 1 ==> steps(#[trigger] run[i], run[i + 1]),
    ensures
        graph_in_order(run.last()),
    decreases run.len(),
{
    if run.len() > 1 {
        let shorter = run.drop_last();
        assert forall|i: int| 0 <= i < shorter.len() - 1 implies steps(
            #[trigger] shorter[i],
            shorter[i + 1],
        ) by {
            assert(steps(run[i], run[i + 1]));
        }
        law_order_holds_along_every_run(shorter);
        let i = run.len() - 2;
        assert(steps(run[i], run[i + 1]));
        law_every_step_keeps_order(run[i], run[i + 1]);
    }
}

/// A forwarded link request moves strictly toward its candidate: the next hop lies
/// between the node and the candidate, and closer to the candidate.
pub proof fn law_forwarded_link_makes_progress(
    own: Identifier,
    slots: Slots,
    req: LinkReq,
    slot: Option<Identity>,
)
    requires
        slots_in_order(own, slots),
        slots[(req.level, req.dir)] == Ok::<Option<Identity>, lookup::LookupError>(slot),
        beyond(own, req.dir, req.candidate.id),
    ensures
        lookup::link_outcome(slot, req.dir, req.candidate) matches LinkOutcome::Forward(existing)
            ==> {
            &&& beyond(own, req.dir, existing.id)
            &&& beyond(existing.id, req.dir, req.candidate.id)
            &&& distance(existing.id, req.candidate.id) < distance(own, req.candidate.id)
        },
{
}

/// The node to which `at` forwards a link request, if it does.
pub open spec fn next_hop<C: ReplyChannels>(
    nodes: Map<Identifier, NodeModel<C>>,
    at: Identifier,
    req: LinkReq,
) -> Option<Identifier> {
    match nodes[at].slots[(req.level, req.dir)] {
        Ok(slot) => match lookup::link_outcome(slot, req.dir, req.candidate) {
            LinkOutcome::Forward(existing) => Some(existing.id),
            LinkOutcome::LinkedDirectly => None,
        },
        Err(_) => None,
    }
}

/// The nodes through which a link request travels from `at`, as long as every hop brings
/// it closer to its candidate.
pub open spec fn link_route<C: ReplyChannels>(
    nodes: Map<Identifier, NodeModel<C>>,
    at: Identifier,
    req: LinkReq,
) -> Seq<Identifier>
    decreases distance(at, req.candidate.id),
{
    match next_hop(nodes, at, req) {
        Some(next) => if distance(next, req.candidate.id) < distance(at, req.candidate.id) {
            seq![at] + link_route(nodes, next, req)
        } else {
            seq![at]
        },
        None => seq![at],
    }
}

/// Whether every entry of a graph at one level and side names a node of the graph, and
/// every such slot can be used.
pub open spec fn side_is_closed<C: ReplyChannels>(
    nodes: Map<Identifier, NodeModel<C>>,
    level: LookupTableLevel,
    direction: Direction,
) -> bool {
    forall|id: Identifier| #[trigger]
        nodes.dom().contains(id) ==> match nodes[id].slots[(level, direction)] {
            Ok(Some(entry)) => nodes.dom().contains(entry.id),
            Ok(None) => true,
            Err(_) => false,
        }
}

/// In a graph that is in order, a link request for the right side is forwarded finitely
/// often, at most once for each step of distance, always toward its candidate, and
/// reaches a node that adopts the candidate.
pub proof fn law_link_request_reaches_an_adopter<C: ReplyChannels>(
    graph: GraphModel<C>,
    at: Identifier,
    req: LinkReq,
)
    requires
        graph_in_order(graph),
        graph.nodes.dom().contains(at),
        side_is_closed(graph.nodes, req.level, req.dir),
        beyond(at, req.dir, req.candidate.id),
    ensures
        ({
            let route = link_route(graph.nodes, at, req);
            &&& 0 < route.len() <= distance(at, req.candidate.id)
            &&& route[0] == at
            &&& graph.nodes.dom().contains(route.last())
            &&& beyond(route.last(), req.dir, req.candidate.id)
            &&& next_hop(graph.nodes, route.last(), req) is None
            &&& forall|i: int|
                0 <= i < route.len() - 1 ==> {
                    &&& next_hop(graph.nodes, #[trigger] route[i], req) == Some(route[i + 1])
                    &&& beyond(route[i], req.dir, route[i + 1])
                }
        }),
    decreases distance(at, req.candidate.id),
{
    let slots = graph.nodes[at].slots;
    match slots[(req.level, req.dir)] {
        Ok(slot) => {
            law_forwarded_link_makes_progress(at, slots, req, slot);
            if let LinkOutcome::Forward(existing) = lookup::link_outcome(
                slot,
                req.dir,
                req.candidate,
            ) {
                law_link_request_reaches_an_adopter(graph, existing.id, req);
                let rest = link_route(graph.nodes, existing.id, req);
                let route = link_route(graph.nodes, at, req);
                assert(route =~= seq![at] + rest);
                assert(route.last() == rest.last());
                assert forall|i: int| 0 <= i < route.len() - 1 implies {
                    &&& next_hop(graph.nodes, #[trigger] route[i], req) == Some(route[i + 1])
                    &&& beyond(route[i], req.dir, route[i + 1])
                } by {
                    if i > 0 {
                        assert(route[i] == rest[i - 1]);
                        assert(route[i + 1] == rest[i]);
                    }
                }
            }
        },
        Err(_) => {},
    }
}

/// Whether a link request is forwarded along the nodes `hops`, each with the table that it
/// had when the request came by. Tables may have changed in the meantime.
pub open spec fn is_link_walk(hops: Seq<Identifier>, tables: Seq<Slots>, req: LinkReq) -> bool {
    &&& 0 < hops.len() == tables.len()
    &&& forall|i: int| 0 <= i < hops.len() ==> slots_in_order(#[trigger] hops[i], tables[i])
    &&& forall|i: int|
        0 <= i < hops.len() - 1 ==> {
            &&& (#[trigger] tables[i])[(req.level, req.dir)] matches Ok(slot)
            &&& lookup::link_outcome(slot, req.dir, req.candidate) matches LinkOutcome::Forward(
                existing,
            )
            &&& existing.id == hops[i + 1]
        }
}

/// Whatever else happens to the tables while a link request travels, it stays on its own
/// side of the candidate, comes closer with every hop, and so comes to an end.
pub proof fn law_link_request_travels_finitely_far(
    hops: Seq<Identifier>,
    tables: Seq<Slots>,
    req: LinkReq,
)
    requires
        is_link_walk(hops, tables, req),
        beyond(hops[0], req.dir, req.candidate.id),
    ensures
        hops.len() <= distance(hops[0], req.candidate.id),
        beyond(hops.last(), req.dir, req.candidate.id),
        distance(hops.last(), req.candidate.id) + hops.len() <= distance(
            hops[0],
            req.candidate.id,
        ) + 1,
    decreases hops.len(),
{
    if hops.len() > 1 {
        let i = hops.len() - 2;
        let shorter = hops.drop_last();
        let shorter_tables = tables.drop_last();
        assert forall|k: int| 0 <= k < shorter.len() implies slots_in_order(
            #[trigger] shorter[k],
            shorter_tables[k],
        ) by {
            assert(slots_in_order(hops[k], tables[k]));
        }
        assert forall|k: int| 0 <= k < shorter.len() - 1 implies {
            &&& (#[trigger] shorter_tables[k])[(req.level, req.dir)] matches Ok(slot)
            &&& lookup::link_outcome(slot, req.dir, req.candidate) matches LinkOutcome::Forward(
                existing,
            )
            &&& existing.id == shorter[k + 1]
        } by {
            assert(shorter_tables[k] == tables[k]);
        }
        law_link_request_travels_finitely_far(shorter, shorter_tables, req);
        assert(slots_in_order(hops[i], tables[i]));
        if let Ok(slot) = tables[i][(req.level, req.dir)] {
            law_forwarded_link_makes_progress(hops[i], tables[i], req, slot);
        }
    }
}

/// A relayed search moves strictly toward its target without passing it.
pub proof fn law_relayed_search_makes_progress(
    own: Identifier,
    slots: Slots,
    req: IdSearchReq,
    res: IdSearchRes,
)
    requires
        slots_in_order(own, slots),
        base_core::answers_search(slots, own, req, Ok(res)),
        res.result != own,
    ensures
        beyond(own, req.direction, res.result),
        base_core::not_past(res.result, req.direction, req.target),
        res.termination_level <= req.level,
        distance(res.result, req.target) < distance(own, req.target),
{
    assert(base_core::offers(slots, req, res.termination_level, res.result));
}

/// Whether a node with the given table, in order, passes a search on to `next` as
/// `next_req`.
#[verifier::opaque]
pub open spec fn relays_search(
    own: Identifier,
    table: Slots,
    req: IdSearchReq,
    next: Identifier,
    next_req: IdSearchReq,
) -> bool {
    &&& slots_in_order(own, table)
    &&& next != own
    &&& exists|res: IdSearchRes|
        {
            &&& #[trigger] base_core::answers_search(table, own, req, Ok(res))
            &&& res.result == next
            &&& next_req == IdSearchReq { level: res.termination_level, ..req }
        }
}

/// One hop of a relayed search.
proof fn lemma_relayed_search(
    own: Identifier,
    table: Slots,
    req: IdSearchReq,
    next: Identifier,
    next_req: IdSearchReq,
)
    requires
        relays_search(own, table, req, next, next_req),
    ensures
        next_req == (IdSearchReq { level: next_req.level, ..req }),
        next_req.level <= req.level,
        distance(next, req.target) < distance(own, req.target),
{
    reveal(relays_search);
    let res = choose|res: IdSearchRes|
        {
            &&& #[trigger] base_core::answers_search(table, own, req, Ok(res))
            &&& res.result == next
            &&& next_req == IdSearchReq { level: res.termination_level, ..req }
        };
    law_relayed_search_makes_progress(own, table, req, res);
}

/// Whether a search is relayed along the nodes `hops`, as the requests `reqs`. Each node has
/// the table that it had when the search came by. Tables may have changed in the meantime.
pub open spec fn is_search_walk(
    hops: Seq<Identifier>,
    tables: Seq<Slots>,
    reqs: Seq<IdSearchReq>,
) -> bool {
    &&& 0 < hops.len() == tables.len()
    &&& hops.len() == reqs.len()
    &&& forall|i: int|
        0 <= i < hops.len() - 1 ==> relays_search(
            hops[i],
            tables[i],
            #[trigger] reqs[i],
            hops[i + 1],
            reqs[i + 1],
        )
}

/// Whatever else happens to the tables while a search is relayed, it keeps its target,
/// its direction, its origin and its nonce, never climbs, comes closer with every hop, and
/// so comes to an end.
pub proof fn law_search_travels_finitely_far(
    hops: Seq<Identifier>,
    tables: Seq<Slots>,
    reqs: Seq<IdSearchReq>,
)
    requires
        is_search_walk(hops, tables, reqs),
    ensures
        reqs.last() == (IdSearchReq { level: reqs.last().level, ..reqs[0] }),
        reqs.last().level <= reqs[0].level,
        distance(hops.last(), reqs[0].target) + hops.len() <= distance(hops[0], reqs[0].target) + 1,
    decreases hops.len(),
{
    if hops.len() > 1 {
        let i = hops.len() - 2;
        let shorter_reqs = reqs.drop_last();
        assert forall|k: int| 0 <= k < shorter_reqs.len() - 1 implies relays_search(
            hops.drop_last()[k],
            tables.drop_last()[k],
            #[trigger] shorter_reqs[k],
            hops.drop_last()[k + 1],
            shorter_reqs[k + 1],
        ) by {
            assert(shorter_reqs[k] == reqs[k]);
        }
        law_search_travels_finitely_far(hops.drop_last(), tables.drop_last(), shorter_reqs);
        assert(reqs[i] == shorter_reqs.last());
        lemma_relayed_search(hops[i], tables[i], reqs[i], hops[i + 1], reqs[i + 1]);
    }
}

/// A node to which a search comes in order answers with an identifier that is not past the
/// target.
pub proof fn law_search_answer_is_not_past_the_target(
    own: Identifier,
    slots: Slots,
    req: IdSearchReq,
    res: IdSearchRes,
)
    requires
        base_core::not_past(own, req.direction, req.target),
        base_core::answers_search(slots, own, req, Ok(res)),
    ensures
        base_core::not_past(res.result, req.direction, req.target),
{
}

/// Whether `neighbor` is the node of the graph nearest to `own` on a side, or `None` when
/// that side is empty.
pub open spec fn is_nearest<C: ReplyChannels>(
    nodes: Map<Identifier, NodeModel<C>>,
    own: Identifier,
    direction: Direction,
    neighbor: Option<Identity>,
) -> bool {
    match neighbor {
        Some(nearest) => {
            &&& nodes.dom().contains(nearest.id)
            &&& beyond(own, direction, nearest.id)
            &&& forall|other: Identifier| #[trigger]
                nodes.dom().contains(other) && beyond(own, direction, other) ==> !beyond(
                    other,
                    direction,
                    nearest.id,
                )
        },
        None => forall|other: Identifier| #[trigger]
            nodes.dom().contains(other) ==> !beyond(own, direction, other),
    }
}

/// A search ends at the node closest to the target: where a node that knows its nearest
/// neighbor at level 0 answers with itself, no node of the graph lies between it and the
/// target.
pub proof fn law_search_ends_at_the_closest_node<C: ReplyChannels>(
    nodes: Map<Identifier, NodeModel<C>>,
    own: Identifier,
    req: IdSearchReq,
    res: IdSearchRes,
    neighbor: Option<Identity>,
    other: Identifier,
)
    requires
        slots_in_order(own, nodes[own].slots),
        nodes[own].slots[(0, req.direction)] == Ok::<Option<Identity>, lookup::LookupError>(
            neighbor,
        ),
        is_nearest(nodes, own, req.direction, neighbor),
        base_core::answers_search(nodes[own].slots, own, req, Ok(res)),
        res.result == own,
        nodes.dom().contains(other),
        base_core::not_past(other, req.direction, req.target),
    ensures
        !beyond(own, req.direction, other),
{
    let slots = nodes[own].slots;
    if beyond(own, req.direction, other) {
        let nearest = neighbor->0;
        assert(base_core::offers(slots, req, 0, nearest.id));
        assert(base_core::offers(slots, req, res.termination_level, own));
        assert(slots[(res.termination_level, req.direction)] is Ok);
    }
}

/// A link request that is adopted at once, and whose confirmation is handled, joins both
/// ends: the responder holds the candidate in the slot that it was asked to fill, and the
/// candidate holds the responder in the mirror slot, unless a closer neighbor is already
/// there.
pub proof fn law_link_round_trip<C: ReplyChannels>(
    responder: NodeModel<C>,
    candidate: NodeModel<C>,
    req: LinkReq,
    responder_slot: Option<Identity>,
    candidate_slot: Option<Identity>,
    res: LinkRes,
    responder_after: NodeModel<C>,
    candidate_after: NodeModel<C>,
    asked: Result<Effect<C>, NodeError>,
    confirmed: Result<Effect<C>, NodeError>,
)
    requires
        req.level < LOOKUP_TABLE_LEVELS,
        req.candidate == candidate.identity(),
        responder.slots[(req.level, req.dir)] == Ok::<Option<Identity>, lookup::LookupError>(
            responder_slot,
        ),
        candidate.slots[(req.level, req.dir.mirrored())] == Ok::<
            Option<Identity>,
            lookup::LookupError,
        >(candidate_slot),
        !lookup::bars(responder_slot, req.dir, req.candidate),
        protocol::handles(responder, Event::GetLinkOp(req), responder_after, asked),
        asked matches Ok(Effect::Send(out)) && out.event == Event::SetLinkOp(res),
        protocol::handles(candidate, Event::SetLinkOp(res), candidate_after, confirmed),
    ensures
        asked matches Ok(Effect::Send(out)) && out.dest == candidate.id,
        responder_after.slots[(req.level, req.dir)] == Ok::<
            Option<Identity>,
            lookup::LookupError,
        >(Some(candidate.identity())),
        candidate_after.slots == candidate.slots.insert(
            (req.level, req.dir.mirrored()),
            Ok(
                lookup::slot_after(
                    candidate_slot,
                    req.dir.mirrored(),
                    responder.identity(),
                ),
            ),
        ),
        !lookup::bars(candidate_slot, req.dir.mirrored(), responder.identity())
            ==> candidate_after.slots[(req.level, req.dir.mirrored())] == Ok::<
            Option<Identity>,
            lookup::LookupError,
        >(Some(responder.identity())),
{
}

/// The nonce and kind of request that an event can resolve.
pub open spec fn resolves(event: Event) -> Option<(Nonce, WaiterKind)> {
    match event {
        Event::SearchByIdResponse(res) => Some((res.nonce, WaiterKind::AsyncSearch)),
        Event::RetMaxLevelOp(res) => Some((res.nonce, WaiterKind::MaxLevel)),
        Event::RetNeighborOp(res) => Some((res.nonce, WaiterKind::Neighbor)),
        Event::SetLinkOp(res) => Some((res.nonce, WaiterKind::Link)),
        _ => None,
    }
}

/// An event resolves at most the request of its own nonce and kind. Every other request
/// stays outstanding, whatever the event, and a caller is resumed only with the reply
/// that it waits for.
pub proof fn law_reply_resolves_only_its_own_request<C: ReplyChannels>(
    before: NodeModel<C>,
    event: Event,
    after: NodeModel<C>,
    r: Result<Effect<C>, NodeError>,
    nonce: Nonce,
)
    requires
        protocol::handles(before, event, after, r),
        before.waiters.dom().contains(nonce.value),
        resolves(event) != Some((nonce, before.waiters[nonce.value].spec_kind())),
    ensures
        after.waiters.dom().contains(nonce.value),
        after.waiters[nonce.value] == before.waiters[nonce.value],
{
}

/// An event that a request waits for resolves it: the request is no longer outstanding,
/// so giving it up afterwards changes nothing.
pub proof fn law_resolved_request_is_gone<C: ReplyChannels>(
    before: NodeModel<C>,
    event: Event,
    after: NodeModel<C>,
    r: Result<Effect<C>, NodeError>,
    nonce: Nonce,
    kind: WaiterKind,
)
    requires
        protocol::handles(before, event, after, r),
        resolves(event) == Some((nonce, kind)),
        waiter::awaits(before.waiters, nonce, kind),
        r is Ok,
    ensures
        r matches Ok(Effect::Deliver(_)),
        after.waiters == before.waiters.remove(nonce.value),
        after.waiters.remove(nonce.value) == after.waiters,
{
    assert(after.waiters.remove(nonce.value) =~= after.waiters);
}

/// A link confirmation writes the same entries whether or not a request waits for it, and
/// resolves the same request whether or not its level is one that tables have.
pub proof fn law_link_write_and_wait_are_independent<C: ReplyChannels>(
    before: NodeModel<C>,
    res: LinkRes,
    after: NodeModel<C>,
    r: Result<Effect<C>, NodeError>,
)
    requires
        protocol::handles(before, Event::SetLinkOp(res), after, r),
        r is Ok,
    ensures
        after.slots == protocol::link_applied(before, res).slots,
        after.waiters == if waiter::awaits(before.waiters, res.nonce, WaiterKind::Link) {
            before.waiters.remove(res.nonce.value)
        } else {
            before.waiters
        },
{
}

/// A level that no table has reaches no table: neither a link request nor a link
/// confirmation with such a level changes a slot or fails.
pub proof fn law_malformed_level_changes_no_slot<C: ReplyChannels>(
    before: NodeModel<C>,
    event: Event,
    after: NodeModel<C>,
    r: Result<Effect<C>, NodeError>,
)
    requires
        protocol::handles(before, event, after, r),
        event matches Event::GetLinkOp(req) ==> req.level >= LOOKUP_TABLE_LEVELS,
        event matches Event::SetLinkOp(res) ==> res.level >= LOOKUP_TABLE_LEVELS,
        event is GetLinkOp || event is SetLinkOp,
    ensures
        after.slots == before.slots,
        r is Ok,
        !(r matches Ok(Effect::Send(_))),
{
}

/// Only link requests and link confirmations ever write to a node's table. No event
/// changes who the node is.
pub proof fn law_only_links_write<C: ReplyChannels>(
    before: NodeModel<C>,
    event: Event,
    after: NodeModel<C>,
    r: Result<Effect<C>, NodeError>,
)
    requires
        protocol::handles(before, event, after, r),
    ensures
        after.identity() == before.identity(),
        !(event is GetLinkOp) && !(event is SetLinkOp) ==> after.slots == before.slots,
{
}

} // verus!
