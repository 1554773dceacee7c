use crate::lookup::LinkOutcome;
use crate::lookup::LookupError;
use crate::lookup::LookupTable;
use crate::lookup::LookupTableLevel;
use crate::lookup::RelinkOutcome;
use crate::lookup::Slots;
use crate::lookup::LOOKUP_TABLE_LEVELS;
use crate::lookup;
use crate::model::direction::Direction;
use crate::model::identifier::Identifier;
use crate::model::identity::Identity;
use crate::model::memvec;
use crate::model::memvec::MembershipVector;
use crate::model::search::IdSearchReq;
use crate::model::search::IdSearchRes;
use crate::text;
use vstd::prelude::*;

verus! {

/// The local search met a slot that the lookup table refuses to read.
#[derive(PartialEq, Eq, Debug)]
pub struct SearchError {
    /// The level of that slot.
    pub level: LookupTableLevel,
    /// Why the table refused.
    pub source: LookupError,
}

impl SearchError {
    /// The text under which the error is reported.
    pub open spec fn text(self) -> Seq<char> {
        "error while searching by id in level "@ + text::decimal(self.level as nat) + ": "@
            + self.source.text()
    }

    /// Returns the text under which the error is reported.
    pub fn message(&self) -> (r: String)
        ensures
            r@ == self.text(),
    {
        let level = text::decimal_string(self.level);
        let source = self.source.message();
        "error while searching by id in level ".to_owned().concat(level.as_str()).concat(
            ": ",
        ).concat(source.as_str())
    }
}

/// Whether a search for `target` may move to `id`: a search to the right never passes
/// the target, and neither does one to the left.
pub open spec fn not_past(id: Identifier, direction: Direction, target: Identifier) -> bool {
    match direction {
        Direction::Left => id.key() >= target.key(),
        Direction::Right => id.key() <= target.key(),
    }
}

/// Whether the slot at `level` offers `id` to the search.
pub open spec fn offers(
    slots: Slots,
    req: IdSearchReq,
    level: LookupTableLevel,
    id: Identifier,
) -> bool {
    &&& level <= req.level
    &&& slots[(level, req.direction)] matches Ok(Some(identity)) && identity.id == id
    &&& not_past(id, req.direction, req.target)
}

/// Whether the search prefers `id`, found at `level`, over `other`, found at
/// `other_level`. The identifier closest to the target wins. Of equal identifiers the
/// lower level wins to the left, and the higher one to the right.
pub open spec fn preferred(
    direction: Direction,
    level: LookupTableLevel,
    id: Identifier,
    other_level: LookupTableLevel,
    other: Identifier,
) -> bool {
    match direction {
        Direction::Left => id.key() < other.key() || id.key() == other.key() && level <= other_level,
        Direction::Right => id.key() > other.key() || id.key() == other.key() && level
            >= other_level,
    }
}

/// Whether every slot below level `n` on the side of the search can be read.
pub open spec fn readable_below(slots: Slots, direction: Direction, n: int) -> bool {
    forall|level: LookupTableLevel|
        level < n ==> (#[trigger] slots[(level, direction)]) is Ok
}

/// Whether `found` is the most preferred of what the levels below `n` offer, or `None`
/// when they offer nothing.
pub open spec fn is_best_below(
    slots: Slots,
    req: IdSearchReq,
    n: int,
    found: Option<(LookupTableLevel, Identifier)>,
) -> bool {
    match found {
        Some((level, id)) => {
            &&& level < n
            &&& offers(slots, req, level, id)
            &&& forall|other_level: LookupTableLevel, other: Identifier|
                other_level < n && #[trigger] offers(slots, req, other_level, other)
                    ==> preferred(req.direction, level, id, other_level, other)
        },
        None => forall|other_level: LookupTableLevel, other: Identifier|
            other_level < n ==> !#[trigger] offers(slots, req, other_level, other),
    }
}

/// Whether `r` answers the search at a node with identifier `own` and a table with the
/// given slots: the error of the lowest unreadable level that the search may use, or the
/// most preferred neighbor, or the node itself when no neighbor is offered.
pub open spec fn answers_search(
    slots: Slots,
    own: Identifier,
    req: IdSearchReq,
    r: Result<IdSearchRes, SearchError>,
) -> bool {
    match r {
        Err(e) => {
            &&& e.level <= req.level
            &&& slots[(e.level, req.direction)] == Err::<Option<Identity>, LookupError>(e.source)
            &&& readable_below(slots, req.direction, e.level as int)
        },
        Ok(res) => {
            &&& readable_below(slots, req.direction, req.level + 1)
            &&& res.nonce == req.nonce
            &&& res.target == req.target
            &&& {
                ||| is_best_below(
                    slots,
                    req,
                    req.level + 1,
                    Some((res.termination_level, res.result)),
                )
                ||| {
                    &&& is_best_below(slots, req, req.level + 1, None)
                    &&& res.termination_level == 0
                    &&& res.result == own
                }
            }
        },
    }
}

/// The local part of a node: its identifier, its membership vector and its lookup table.
/// It knows nothing of the network.
pub struct BaseCore<L> {
    id: Identifier,
    mem_vec: MembershipVector,
    table: L,
}

impl<L: LookupTable> BaseCore<L> {
    /// The identifier of the node.
    pub closed spec fn own_id(&self) -> Identifier {
        self.id
    }

    /// The membership vector of the node.
    pub closed spec fn own_mem_vec(&self) -> MembershipVector {
        self.mem_vec
    }

    /// What the slots of the lookup table hold.
    pub closed spec fn slots(&self) -> Slots {
        self.table.slots()
    }

    /// Creates the local part of a node.
    pub fn new(id: Identifier, mem_vec: MembershipVector, table: L) -> (r: BaseCore<L>)
        ensures
            r.own_id() == id,
            r.own_mem_vec() == mem_vec,
            r.slots() == table.slots(),
    {
        BaseCore { id, mem_vec, table }
    }

    /// Returns the identifier of the node.
    pub fn id(&self) -> (r: Identifier)
        ensures
            r == self.own_id(),
    {
        self.id
    }

    /// Returns the membership vector of the node.
    pub fn mem_vec(&self) -> (r: MembershipVector)
        ensures
            r == self.own_mem_vec(),
    {
        self.mem_vec
    }

    /// Returns the lookup table.
    pub fn table(&self) -> (r: &L)
        ensures
            r.slots() == self.slots(),
    {
        &self.table
    }

    /// Finds, among the neighbors up to `req.level` on the side of the search, the one
    /// closest to the target that is not past it. A node without such a neighbor answers
    /// with its own identifier, at level 0.
    pub fn search_by_id(&self, req: IdSearchReq) -> (r: Result<IdSearchRes, SearchError>)
        ensures
            answers_search(self.slots(), self.own_id(), req, r),
    {
        let mut best: Option<(LookupTableLevel, Identifier)> = None;
        let mut level: LookupTableLevel = 0;
        loop
            invariant_except_break
                level <= req.level,
                readable_below(self.slots(), req.direction, level as int),
                is_best_below(self.slots(), req, level as int, best),
            ensures
                readable_below(self.slots(), req.direction, req.level + 1),
                is_best_below(self.slots(), req, req.level + 1, best),
            decreases req.level - level,
        {
            match self.table.get_entry(level, req.direction) {
                Err(source) => {
                    return Err(SearchError { level, source });
                },
                Ok(None) => {},
                Ok(Some(identity)) => {
                    let id = identity.id();
                    let closer = match (req.direction, best) {
                        (Direction::Left, None) => id >= req.target,
                        (Direction::Left, Some((_, other))) => id >= req.target && id < other,
                        (Direction::Right, None) => id <= req.target,
                        (Direction::Right, Some((_, other))) => id <= req.target && id >= other,
                    };
                    if closer {
                        best = Some((level, id));
                    }
                },
            }
            if level == req.level {
                break;
            }
            level = level + 1;
        }
        match best {
            Some((termination_level, result)) => Ok(
                IdSearchRes { nonce: req.nonce, target: req.target, termination_level, result },
            ),
            None => Ok(
                IdSearchRes {
                    nonce: req.nonce,
                    target: req.target,
                    termination_level: 0,
                    result: self.id,
                },
            ),
        }
    }

    /// Returns the highest level with an entry on either side, or 0 for an empty table.
    pub fn max_level(&self) -> (r: Result<LookupTableLevel, LookupError>)
        ensures
            r == Ok::<LookupTableLevel, LookupError>(max_level_of(self.slots())),
    {
        match self.table.max_populated_level() {
            Some(level) => Ok(level),
            None => Ok(0),
        }
    }

    /// Whether this node and `candidate` agree on at least `level` leading bits of their
    /// membership vectors.
    pub fn prefix_match(&self, candidate: MembershipVector, level: LookupTableLevel) -> (r: bool)
        ensures
            r == self.own_mem_vec().matches_prefix(candidate, level as int),
    {
        self.mem_vec.common_prefix_bit(candidate) >= level
    }

    /// Returns the neighbor at the given level and direction, if there is one.
    pub fn neighbor_entry(&self, level: LookupTableLevel, direction: Direction) -> (r: Result<
        Option<Identity>,
        LookupError,
    >)
        ensures
            r == self.slots()[(level, direction)],
    {
        self.table.get_entry(level, direction)
    }

    /// Proposes `candidate` for a slot of this node. See [`LookupTable::try_link`].
    pub fn try_link(
        &mut self,
        level: LookupTableLevel,
        direction: Direction,
        candidate: Identity,
    ) -> (r: Result<LinkOutcome, LookupError>)
        ensures
            final(self).own_id() == old(self).own_id(),
            final(self).own_mem_vec() == old(self).own_mem_vec(),
            match old(self).slots()[(level, direction)] {
                Ok(slot) => {
                    &&& r == Ok::<LinkOutcome, LookupError>(
                        lookup::link_outcome(slot, direction, candidate),
                    )
                    &&& final(self).slots() == old(self).slots().insert(
                        (level, direction),
                        Ok(lookup::slot_after(slot, direction, candidate)),
                    )
                },
                Err(e) => {
                    &&& r == Err::<LinkOutcome, LookupError>(e)
                    &&& final(self).slots() == old(self).slots()
                },
            },
    {
        self.table.try_link(level, direction, candidate)
    }

    /// Checks a link that `claimant` believes to hold. See [`LookupTable::try_relink`].
    pub fn try_relink(
        &mut self,
        level: LookupTableLevel,
        direction: Direction,
        claimant: Identity,
    ) -> (r: Result<RelinkOutcome, LookupError>)
        ensures
            final(self).own_id() == old(self).own_id(),
            final(self).own_mem_vec() == old(self).own_mem_vec(),
            match old(self).slots()[(level, direction)] {
                Ok(slot) => {
                    &&& r == Ok::<RelinkOutcome, LookupError>(
                        lookup::relink_outcome(slot, direction, claimant),
                    )
                    &&& final(self).slots() == old(self).slots().insert(
                        (level, direction),
                        Ok(lookup::slot_after(slot, direction, claimant)),
                    )
                },
                Err(e) => {
                    &&& r == Err::<RelinkOutcome, LookupError>(e)
                    &&& final(self).slots() == old(self).slots()
                },
            },
    {
        self.table.try_relink(level, direction, claimant)
    }
}

/// The highest level with an entry on either side, or 0 for an empty table.
pub open spec fn max_level_of(slots: Slots) -> LookupTableLevel {
    match lookup::highest_populated_below(slots, LOOKUP_TABLE_LEVELS as nat) {
        Some(level) => level,
        None => 0,
    }
}

/// A search at a node has one answer.
pub proof fn law_search_answer_is_unique(
    slots: Slots,
    own: Identifier,
    req: IdSearchReq,
    a: Result<IdSearchRes, SearchError>,
    b: Result<IdSearchRes, SearchError>,
)
    requires
        answers_search(slots, own, req, a),
        answers_search(slots, own, req, b),
    ensures
        a == b,
{
    match (a, b) {
        (Err(x), Err(y)) => {
            assert(slots[(x.level, req.direction)] is Err);
            assert(slots[(y.level, req.direction)] is Err);
        },
        (Err(x), Ok(_)) => {
            assert(slots[(x.level, req.direction)] is Err);
        },
        (Ok(_), Err(y)) => {
            assert(slots[(y.level, req.direction)] is Err);
        },
        (Ok(x), Ok(y)) => {
            crate::model::identifier::law_key_determines_the_identifier(x.result, y.result);
        },
    }
}

/// The local part of a node is what it was made of.
pub proof fn law_core_is_what_it_was_made_of<L: LookupTable>(
    made: (Identifier, MembershipVector, L),
    core: BaseCore<L>,
    id: Identifier,
    mem_vec: MembershipVector,
    table: &L,
)
    requires
        call_ensures(BaseCore::<L>::new, made, core),
        call_ensures(BaseCore::<L>::id, (&core,), id),
        call_ensures(BaseCore::<L>::mem_vec, (&core,), mem_vec),
        call_ensures(BaseCore::<L>::table, (&core,), table),
    ensures
        id == made.0,
        mem_vec == made.1,
        table.slots() == made.2.slots(),
        core.slots() == made.2.slots(),
{
}

/// The highest level of a node is populated on some side, and none above it is. A node
/// without any entry reports level 0.
pub proof fn law_max_level_is_the_highest_populated_level<L: LookupTable>(
    core: BaseCore<L>,
    r: Result<LookupTableLevel, LookupError>,
)
    requires
        call_ensures(BaseCore::<L>::max_level, (&core,), r),
    ensures
        r matches Ok(top) && {
            &&& forall|level: LookupTableLevel, direction: Direction|
                level < LOOKUP_TABLE_LEVELS && #[trigger] lookup::laws::is_populated(
                    core.slots(),
                    level,
                    direction,
                ) ==> level <= top
            &&& top < LOOKUP_TABLE_LEVELS
            &&& {
                ||| lookup::laws::is_populated(core.slots(), top, Direction::Left)
                ||| lookup::laws::is_populated(core.slots(), top, Direction::Right)
                ||| top == 0
            }
        },
{
    lookup::laws::law_highest_populated_level_is_the_maximum(
        core.slots(),
        LOOKUP_TABLE_LEVELS as nat,
    );
    assert forall|level: LookupTableLevel, direction: Direction| #[trigger]
        lookup::laws::is_populated(core.slots(), level, direction) == lookup::holds_entry(
            core.slots(),
            level,
            direction,
        ) by {}
}

/// A node matches a candidate at a level exactly when their membership vectors agree on that
/// many bits in front. It never does at a level beyond their length.
pub proof fn law_prefix_match_is_agreement_in_front<L: LookupTable>(
    call: (&BaseCore<L>, MembershipVector, LookupTableLevel),
    r: bool,
)
    requires
        call_ensures(BaseCore::<L>::prefix_match, call, r),
    ensures
        r <==> call.2 <= LOOKUP_TABLE_LEVELS && memvec::agree_in_front(
            call.0.own_mem_vec()@,
            call.1@,
            call.2 as int,
        ),
{
    if call.2 <= LOOKUP_TABLE_LEVELS {
        memvec::law_prefix_matching_is_agreement_in_front(
            call.0.own_mem_vec(),
            call.1,
            call.2 as int,
        );
    }
}

/// A node reads its neighbors and decides links as its table does, and stays the same node.
pub proof fn law_core_decides_as_its_table<L: LookupTable>(
    core: BaseCore<L>,
    level: LookupTableLevel,
    direction: Direction,
    neighbor: Result<Option<Identity>, LookupError>,
    link: (&mut BaseCore<L>, LookupTableLevel, Direction, Identity),
    linked: Result<LinkOutcome, LookupError>,
    relink: (&mut BaseCore<L>, LookupTableLevel, Direction, Identity),
    relinked: Result<RelinkOutcome, LookupError>,
)
    requires
        call_ensures(BaseCore::<L>::neighbor_entry, (&core, level, direction), neighbor),
        call_ensures(BaseCore::<L>::try_link, link, linked),
        call_ensures(BaseCore::<L>::try_relink, relink, relinked),
    ensures
        neighbor == core.slots()[(level, direction)],
        final(link.0).own_id() == old(link.0).own_id(),
        final(link.0).own_mem_vec() == old(link.0).own_mem_vec(),
        final(relink.0).own_id() == old(relink.0).own_id(),
        final(relink.0).own_mem_vec() == old(relink.0).own_mem_vec(),
        match old(link.0).slots()[(link.1, link.2)] {
            Ok(Some(existing)) if lookup::laws::is_closer(existing, link.2, link.3) => {
                &&& linked matches Ok(LinkOutcome::Forward(next)) && next == existing
                &&& final(link.0).slots() =~= old(link.0).slots().insert(
                    (link.1, link.2),
                    Ok(Some(existing)),
                )
            },
            Ok(_) => {
                &&& linked matches Ok(LinkOutcome::LinkedDirectly)
                &&& final(link.0).slots() =~= old(link.0).slots().insert(
                    (link.1, link.2),
                    Ok(Some(link.3)),
                )
            },
            Err(e) => {
                &&& linked matches Err(refusal) && refusal == e
                &&& final(link.0).slots() == old(link.0).slots()
            },
        },
        match old(relink.0).slots()[(relink.1, relink.2)] {
            Ok(Some(existing)) if lookup::laws::is_closer(existing, relink.2, relink.3) => {
                &&& relinked matches Ok(RelinkOutcome::Forward(next)) && next == existing
                &&& final(relink.0).slots() =~= old(relink.0).slots().insert(
                    (relink.1, relink.2),
                    Ok(Some(existing)),
                )
            },
            Ok(slot) => {
                &&& relinked == Ok::<RelinkOutcome, LookupError>(
                    if slot == Some(relink.3) {
                        RelinkOutcome::AlreadyConsistent
                    } else {
                        RelinkOutcome::Relinked { evicted: slot }
                    },
                )
                &&& final(relink.0).slots() =~= old(relink.0).slots().insert(
                    (relink.1, relink.2),
                    Ok(Some(relink.3)),
                )
            },
            Err(e) => {
                &&& relinked matches Err(refusal) && refusal == e
                &&& final(relink.0).slots() == old(relink.0).slots()
            },
        },
{
}

} // verus!
