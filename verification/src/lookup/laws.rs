//! What holds of lookup tables and of the link decisions on them.
use crate::lookup;
use crate::lookup::ArrayLookupTable;
use crate::lookup::LinkOutcome;
use crate::lookup::LookupError;
use crate::lookup::LookupTable;
use crate::lookup::LookupTableLevel;
use crate::lookup::RelinkOutcome;
use crate::lookup::Slots;
use crate::lookup::LOOKUP_TABLE_LEVELS;
use crate::model::direction::Direction;
use crate::model::identity::Identity;
use vstd::prelude::*;

verus! {

/// A link request is answered as a repair check would be: forwarded to the same neighbor
/// when the check is forwarded, and linked otherwise.
pub proof fn law_link_agrees_with_relink(
    slot: Option<Identity>,
    direction: Direction,
    candidate: Identity,
)
    ensures
        lookup::link_outcome(slot, direction, candidate) == match lookup::relink_outcome(
            slot,
            direction,
            candidate,
        ) {
            RelinkOutcome::Forward(existing) => LinkOutcome::Forward(existing),
            _ => LinkOutcome::LinkedDirectly,
        },
{
}

/// An answer other than a write leaves the slot as it was: a forwarded request, and a
/// check of a link that already holds.
pub proof fn law_only_relinking_writes(
    slot: Option<Identity>,
    direction: Direction,
    claimant: Identity,
)
    ensures
        match lookup::relink_outcome(slot, direction, claimant) {
            RelinkOutcome::AlreadyConsistent => {
                &&& slot == Some(claimant)
                &&& lookup::slot_after(slot, direction, claimant) == slot
            },
            RelinkOutcome::Forward(existing) => {
                &&& slot == Some(existing)
                &&& lookup::slot_after(slot, direction, claimant) == slot
            },
            RelinkOutcome::Relinked { evicted } => {
                &&& evicted == slot
                &&& lookup::slot_after(slot, direction, claimant) == Some(claimant)
            },
        },
{
}

/// Once a link has been granted, a repair check by the same node finds it consistent, and
/// a repeated proposal changes nothing.
pub proof fn law_granted_link_is_consistent(
    slot: Option<Identity>,
    direction: Direction,
    candidate: Identity,
)
    ensures
        ({
            let after = lookup::slot_after(slot, direction, candidate);
            &&& lookup::slot_after(after, direction, candidate) == after
            &&& lookup::link_outcome(slot, direction, candidate) == LinkOutcome::LinkedDirectly
                ==> lookup::relink_outcome(after, direction, candidate)
                == RelinkOutcome::AlreadyConsistent
        }),
{
}

/// Proposals only ever bring a slot closer to the node that holds it: what replaces an
/// entry is at most as far away as the entry was.
pub proof fn law_slots_only_move_closer(existing: Identity, direction: Direction, candidate: Identity)
    ensures
        match lookup::slot_after(Some(existing), direction, candidate) {
            Some(entry) => !lookup::strictly_between(existing, direction, entry),
            None => false,
        },
{
}

/// Two candidates with different identifiers leave the same entry in a slot, in whichever
/// order their proposals arrive.
pub proof fn law_proposals_commute(
    slot: Option<Identity>,
    direction: Direction,
    a: Identity,
    b: Identity,
)
    requires
        a.key() != b.key(),
    ensures
        lookup::slot_after(lookup::slot_after(slot, direction, a), direction, b)
            == lookup::slot_after(lookup::slot_after(slot, direction, b), direction, a),
{
}

/// What a slot holds once every one of `offered` has been proposed for it, by a link
/// request or by a repair check, in that order.
pub open spec fn slot_after_all(
    slot: Option<Identity>,
    direction: Direction,
    offered: Seq<Identity>,
) -> Option<Identity>
    decreases offered.len(),
{
    if offered.len() == 0 {
        slot
    } else {
        lookup::slot_after(
            slot_after_all(slot, direction, offered.drop_last()),
            direction,
            offered.last(),
        )
    }
}

/// After any series of proposals for an empty slot, the slot holds the nearest of those that
/// were offered: one of them, and none of them is closer.
pub proof fn law_slot_holds_the_nearest_offered(direction: Direction, offered: Seq<Identity>)
    requires
        offered.len() > 0,
    ensures
        slot_after_all(None, direction, offered) matches Some(nearest) && {
            &&& offered.contains(nearest)
            &&& forall|i: int|
                0 <= i < offered.len() ==> !lookup::strictly_between(
                    #[trigger] offered[i],
                    direction,
                    nearest,
                )
        },
    decreases offered.len(),
{
    let earlier = offered.drop_last();
    if earlier.len() > 0 {
        law_slot_holds_the_nearest_offered(direction, earlier);
        let before = slot_after_all(None, direction, earlier)->0;
        let k = choose|k: int| 0 <= k < earlier.len() && earlier[k] == before;
        assert(offered[k] == before);
        assert forall|i: int| 0 <= i < offered.len() implies !lookup::strictly_between(
            #[trigger] offered[i],
            direction,
            slot_after_all(None, direction, offered)->0,
        ) by {
            if i < earlier.len() {
                assert(earlier[i] == offered[i]);
            }
        }
    }
    assert(offered[offered.len() - 1] == offered.last());
}

/// The order of a series of proposals does not matter: the same identities, offered in any
/// two orders, leave entries with one identifier.
pub proof fn law_order_of_proposals_does_not_matter(
    direction: Direction,
    a: Seq<Identity>,
    b: Seq<Identity>,
)
    requires
        a.len() > 0,
        forall|identity: Identity| a.contains(identity) <==> #[trigger] b.contains(identity),
    ensures
        slot_after_all(None, direction, a) is Some,
        slot_after_all(None, direction, b) is Some,
        (slot_after_all(None, direction, a)->0).id == (slot_after_all(None, direction, b)->0).id,
{
    assert(b.contains(a[0]));
    law_slot_holds_the_nearest_offered(direction, a);
    law_slot_holds_the_nearest_offered(direction, b);
    let x = slot_after_all(None, direction, a)->0;
    let y = slot_after_all(None, direction, b)->0;
    assert(b.contains(x));
    assert(a.contains(y));
    crate::model::identifier::law_key_determines_the_identifier(x.id, y.id);
}

/// The neighbor list of a side holds exactly the populated slots of that side, with
/// strictly ascending levels.
pub proof fn law_neighbor_list_is_the_populated_slots(slots: Slots, direction: Direction, n: nat)
    requires
        n <= LOOKUP_TABLE_LEVELS,
    ensures
        ({
            let list = lookup::populated_below(slots, direction, n);
            &&& forall|level: LookupTableLevel, identity: Identity|
                #[trigger] list.contains((level, identity)) <==> level < n && slots[(
                    level,
                    direction,
                )] == Ok::<Option<Identity>, LookupError>(Some(identity))
            &&& forall|i: int, j: int|
                0 <= i < j < list.len() ==> (#[trigger] list[i]).0 < (#[trigger] list[j]).0
            &&& forall|i: int| 0 <= i < list.len() ==> (#[trigger] list[i]).0 < n
        }),
    decreases n,
{
    if n > 0 {
        let level = (n - 1) as LookupTableLevel;
        let lower = lookup::populated_below(slots, direction, (n - 1) as nat);
        let list = lookup::populated_below(slots, direction, n);
        law_neighbor_list_is_the_populated_slots(slots, direction, (n - 1) as nat);
        assert forall|l: LookupTableLevel, identity: Identity|
            #[trigger] list.contains((l, identity)) <==> l < n && slots[(l, direction)] == Ok::<
                Option<Identity>,
                LookupError,
            >(Some(identity)) by {
            assert(lower.contains((l, identity)) <==> l < n - 1 && slots[(l, direction)] == Ok::<
                Option<Identity>,
                LookupError,
            >(Some(identity)));
            if let Ok(Some(top)) = slots[(level, direction)] {
                assert(list[list.len() - 1] == (level, top));
                if lower.contains((l, identity)) {
                    let k = choose|k: int| 0 <= k < lower.len() && lower[k] == (l, identity);
                    assert(list[k] == (l, identity));
                }
                if list.contains((l, identity)) {
                    let k = choose|k: int| 0 <= k < list.len() && list[k] == (l, identity);
                    if k < lower.len() {
                        assert(lower[k] == (l, identity));
                    }
                }
            }
        }
    }
}

/// The highest populated level below `n` is populated on some side, and no level from it
/// up to `n` is. There is none exactly when both neighbor lists are empty.
pub proof fn law_highest_populated_level_is_the_maximum(slots: Slots, n: nat)
    requires
        n <= LOOKUP_TABLE_LEVELS,
    ensures
        match lookup::highest_populated_below(slots, n) {
            Some(level) => {
                &&& level < n
                &&& lookup::holds_entry(slots, level, Direction::Left) || lookup::holds_entry(
                    slots,
                    level,
                    Direction::Right,
                )
                &&& forall|other: LookupTableLevel, direction: Direction|
                    other < n && #[trigger] lookup::holds_entry(slots, other, direction)
                        ==> other <= level
            },
            None => forall|other: LookupTableLevel, direction: Direction|
                other < n ==> !#[trigger] lookup::holds_entry(slots, other, direction),
        },
        lookup::highest_populated_below(slots, n) is None <==> {
            &&& lookup::populated_below(slots, Direction::Left, n).len() == 0
            &&& lookup::populated_below(slots, Direction::Right, n).len() == 0
        },
    decreases n,
{
    if n > 0 {
        law_highest_populated_level_is_the_maximum(slots, (n - 1) as nat);
        let level = (n - 1) as LookupTableLevel;
        assert forall|other: LookupTableLevel, direction: Direction|
            other < n && #[trigger] lookup::holds_entry(slots, other, direction) implies other
            < n - 1 || {
            ||| lookup::holds_entry(slots, level, Direction::Left)
            ||| lookup::holds_entry(slots, level, Direction::Right)
        } by {
            if other == level {
                match direction {
                    Direction::Left => {},
                    Direction::Right => {},
                }
            }
        }
    }
}

/// A table in two arrays accepts exactly the levels below `LOOKUP_TABLE_LEVELS`, and
/// names the level that it refuses.
pub proof fn law_array_table_refuses_by_level(
    table: ArrayLookupTable,
    level: LookupTableLevel,
    direction: Direction,
)
    ensures
        level < LOOKUP_TABLE_LEVELS ==> table.slots()[(level, direction)] is Ok,
        level >= LOOKUP_TABLE_LEVELS ==> table.slots()[(level, direction)] == Err::<
            Option<Identity>,
            LookupError,
        >(LookupError::LevelOutOfRange { level }),
{
}

/// No slot of an empty table holds an entry.
pub proof fn law_empty_table_holds_nothing(level: LookupTableLevel, direction: Direction)
    ensures
        !lookup::holds_entry(lookup::array_lookup_table::empty_slots(), level, direction),
        lookup::highest_populated_below(
            lookup::array_lookup_table::empty_slots(),
            LOOKUP_TABLE_LEVELS as nat,
        ) is None,
{
    law_highest_populated_level_is_the_maximum(
        lookup::array_lookup_table::empty_slots(),
        LOOKUP_TABLE_LEVELS as nat,
    );
    match lookup::highest_populated_below(
        lookup::array_lookup_table::empty_slots(),
        LOOKUP_TABLE_LEVELS as nat,
    ) {
        Some(top) => {
            assert(!lookup::holds_entry(
                lookup::array_lookup_table::empty_slots(),
                top,
                Direction::Left,
            ));
            assert(!lookup::holds_entry(
                lookup::array_lookup_table::empty_slots(),
                top,
                Direction::Right,
            ));
        },
        None => {},
    }
}

/// Whether a slot holds some node.
pub open spec fn is_populated(slots: Slots, level: LookupTableLevel, direction: Direction) -> bool {
    slots[(level, direction)] is Ok && slots[(level, direction)]->Ok_0 is Some
}

/// Whether `near` is closer than `far` to a node that has both on its `direction` side.
pub open spec fn is_closer(near: Identity, direction: Direction, far: Identity) -> bool {
    match direction {
        Direction::Left => near.id.key() > far.id.key(),
        Direction::Right => near.id.key() < far.id.key(),
    }
}

/// A proposal is turned away exactly by an entry that is closer than the candidate, which is
/// then named and kept. Otherwise the candidate takes the slot. A check by the very identity
/// that holds the slot finds it consistent, and any other that takes it names whom it
/// evicts.
pub proof fn law_decisions_go_by_distance(
    slot: Option<Identity>,
    direction: Direction,
    candidate: Identity,
)
    ensures
        match slot {
            Some(existing) if is_closer(existing, direction, candidate) => {
                &&& lookup::slot_after(slot, direction, candidate) == Some(existing)
                &&& lookup::link_outcome(slot, direction, candidate) == LinkOutcome::Forward(
                    existing,
                )
                &&& lookup::relink_outcome(slot, direction, candidate) == RelinkOutcome::Forward(
                    existing,
                )
            },
            _ => {
                &&& lookup::slot_after(slot, direction, candidate) == Some(candidate)
                &&& lookup::link_outcome(slot, direction, candidate) == LinkOutcome::LinkedDirectly
                &&& lookup::relink_outcome(slot, direction, candidate) == if slot == Some(
                    candidate,
                ) {
                    RelinkOutcome::AlreadyConsistent
                } else {
                    RelinkOutcome::Relinked { evicted: slot }
                }
            },
        },
{
}

/// Whether a table that can be accessed at a slot has `entry` there afterwards and is as it
/// was everywhere else, and one that cannot is as it was everywhere.
pub open spec fn writes_one_slot(
    before: Slots,
    level: LookupTableLevel,
    direction: Direction,
    entry: Option<Identity>,
    after: Slots,
) -> bool {
    &&& forall|l: LookupTableLevel, d: Direction|
        (l, d) != (level, direction) ==> #[trigger] after[(l, d)] == before[(l, d)]
    &&& match before[(level, direction)] {
        Ok(_) => after[(level, direction)] == Ok::<Option<Identity>, LookupError>(entry),
        Err(_) => after[(level, direction)] == before[(level, direction)],
    }
}

/// Whether the outcome of an access is the error with which the table refuses the slot, if
/// it does, and a success otherwise.
pub open spec fn succeeds_where_readable<T>(
    before: Slots,
    level: LookupTableLevel,
    direction: Direction,
    r: Result<T, LookupError>,
) -> bool {
    match before[(level, direction)] {
        Ok(_) => r is Ok,
        Err(e) => r matches Err(refusal) && refusal == e,
    }
}

/// Updating writes the given identity to the given slot, and to no other.
pub proof fn law_update_writes_its_slot<L: LookupTable>(
    call: (&mut L, Identity, LookupTableLevel, Direction),
    r: Result<(), LookupError>,
)
    requires
        call_ensures(L::update_entry, call, r),
    ensures
        succeeds_where_readable(old(call.0).slots(), call.2, call.3, r),
        writes_one_slot(
            old(call.0).slots(),
            call.2,
            call.3,
            Some(call.1),
            final(call.0).slots(),
        ),
{
}

/// Removing empties the given slot, and no other.
pub proof fn law_remove_empties_its_slot<L: LookupTable>(
    call: (&mut L, LookupTableLevel, Direction),
    r: Result<(), LookupError>,
)
    requires
        call_ensures(L::remove_entry, call, r),
    ensures
        succeeds_where_readable(old(call.0).slots(), call.1, call.2, r),
        writes_one_slot(old(call.0).slots(), call.1, call.2, None, final(call.0).slots()),
{
}

/// Reading gives what the slot holds.
pub proof fn law_get_reads_its_slot<L: LookupTable>(
    call: (&L, LookupTableLevel, Direction),
    r: Result<Option<Identity>, LookupError>,
)
    requires
        call_ensures(L::get_entry, call, r),
    ensures
        r == call.0.slots()[(call.1, call.2)],
{
}

/// A read gives back what an update before it wrote to the same slot, and what was there
/// before in every other slot.
pub proof fn law_read_gives_back_what_was_written<L: LookupTable>(
    update: (&mut L, Identity, LookupTableLevel, Direction),
    read: (&L, LookupTableLevel, Direction),
    r: Result<Option<Identity>, LookupError>,
)
    requires
        call_ensures(L::update_entry, update, Ok::<(), LookupError>(())),
        *read.0 == *final(update.0),
        call_ensures(L::get_entry, read, r),
    ensures
        (read.1, read.2) == (update.2, update.3) ==> r == Ok::<Option<Identity>, LookupError>(
            Some(update.1),
        ),
        (read.1, read.2) != (update.2, update.3) ==> r == old(update.0).slots()[(read.1, read.2)],
{
}

/// A link decision of a table is made by distance, on the slot that it names, and writes to
/// no other slot.
pub proof fn law_tables_link_by_distance<L: LookupTable>(
    call: (&mut L, LookupTableLevel, Direction, Identity),
    r: Result<LinkOutcome, LookupError>,
)
    requires
        call_ensures(L::try_link, call, r),
    ensures
        succeeds_where_readable(old(call.0).slots(), call.1, call.2, r),
        match (old(call.0).slots()[(call.1, call.2)], r) {
            (Ok(Some(existing)), Ok(outcome)) if is_closer(existing, call.2, call.3) => {
                &&& outcome == LinkOutcome::Forward(existing)
                &&& writes_one_slot(
                    old(call.0).slots(),
                    call.1,
                    call.2,
                    Some(existing),
                    final(call.0).slots(),
                )
            },
            (_, Ok(outcome)) => {
                &&& outcome == LinkOutcome::LinkedDirectly
                &&& writes_one_slot(
                    old(call.0).slots(),
                    call.1,
                    call.2,
                    Some(call.3),
                    final(call.0).slots(),
                )
            },
            _ => final(call.0).slots() == old(call.0).slots(),
        },
{
}

/// A repair decision of a table is made by distance, on the slot that it names, and writes
/// to no other slot.
pub proof fn law_tables_relink_by_distance<L: LookupTable>(
    call: (&mut L, LookupTableLevel, Direction, Identity),
    r: Result<RelinkOutcome, LookupError>,
)
    requires
        call_ensures(L::try_relink, call, r),
    ensures
        succeeds_where_readable(old(call.0).slots(), call.1, call.2, r),
        match (old(call.0).slots()[(call.1, call.2)], r) {
            (Ok(Some(existing)), Ok(outcome)) if is_closer(existing, call.2, call.3) => {
                &&& outcome == RelinkOutcome::Forward(existing)
                &&& writes_one_slot(
                    old(call.0).slots(),
                    call.1,
                    call.2,
                    Some(existing),
                    final(call.0).slots(),
                )
            },
            (Ok(slot), Ok(outcome)) => {
                &&& outcome == RelinkOutcome::AlreadyConsistent <==> slot == Some(call.3)
                &&& slot != Some(call.3) ==> outcome == RelinkOutcome::Relinked { evicted: slot }
                &&& writes_one_slot(
                    old(call.0).slots(),
                    call.1,
                    call.2,
                    Some(call.3),
                    final(call.0).slots(),
                )
            },
            _ => final(call.0).slots() == old(call.0).slots(),
        },
{
}

/// Whether a list holds exactly the populated slots of one side, lowest level first.
pub open spec fn lists_side(
    slots: Slots,
    direction: Direction,
    list: Seq<(LookupTableLevel, Identity)>,
) -> bool {
    &&& forall|level: LookupTableLevel, identity: Identity|
        #[trigger] list.contains((level, identity)) <==> level < LOOKUP_TABLE_LEVELS && slots[(
            level,
            direction,
        )] == Ok::<Option<Identity>, LookupError>(Some(identity))
    &&& forall|i: int, j: int|
        0 <= i < j < list.len() ==> (#[trigger] list[i]).0 < (#[trigger] list[j]).0
}

/// The neighbor lists of a table are those of its left and its right side, and its highest
/// level is the highest in either of them.
pub proof fn law_tables_list_their_sides<L: LookupTable>(
    table: L,
    left: Vec<(LookupTableLevel, Identity)>,
    right: Vec<(LookupTableLevel, Identity)>,
    highest: Option<LookupTableLevel>,
)
    requires
        call_ensures(L::left_neighbors, (&table,), left),
        call_ensures(L::right_neighbors, (&table,), right),
        call_ensures(L::max_populated_level, (&table,), highest),
    ensures
        lists_side(table.slots(), Direction::Left, left@),
        lists_side(table.slots(), Direction::Right, right@),
        highest is None <==> left@.len() == 0 && right@.len() == 0,
        highest matches Some(level) ==> {
            &&& left@.len() > 0 && left@.last().0 == level || right@.len() > 0 && right@.last().0
                == level
            &&& left@.len() > 0 ==> left@.last().0 <= level
            &&& right@.len() > 0 ==> right@.last().0 <= level
        },
{
    let slots = table.slots();
    let n = LOOKUP_TABLE_LEVELS as nat;
    law_neighbor_list_is_the_populated_slots(slots, Direction::Left, n);
    law_neighbor_list_is_the_populated_slots(slots, Direction::Right, n);
    law_highest_populated_level_is_the_maximum(slots, n);
    if left@.len() > 0 {
        let (l, e) = left@.last();
        assert(left@.contains((l, e)));
        assert(lookup::holds_entry(slots, l, Direction::Left));
    }
    if right@.len() > 0 {
        let (l, e) = right@.last();
        assert(right@.contains((l, e)));
        assert(lookup::holds_entry(slots, l, Direction::Right));
    }
    if let Some(level) = highest {
        if lookup::holds_entry(slots, level, Direction::Left) {
            let e = slots[(level, Direction::Left)]->Ok_0->0;
            assert(left@.contains((level, e)));
        } else {
            let e = slots[(level, Direction::Right)]->Ok_0->0;
            assert(right@.contains((level, e)));
        }
    }
}

/// A new table in two arrays, however it is made, has an empty slot for each bit of an
/// identifier, on both sides, and refuses every other level by naming it.
pub proof fn law_new_table_is_empty(
    table: ArrayLookupTable,
    level: LookupTableLevel,
    direction: Direction,
)
    requires
        call_ensures(ArrayLookupTable::new, (), table) || call_ensures(
            ArrayLookupTable::default,
            (),
            table,
        ),
    ensures
        level < 8 * crate::model::IDENTIFIER_SIZE_BYTES ==> table.slots()[(level, direction)]
            == Ok::<Option<Identity>, LookupError>(None),
        level >= 8 * crate::model::IDENTIFIER_SIZE_BYTES ==> table.slots()[(level, direction)]
            == Err::<Option<Identity>, LookupError>(LookupError::LevelOutOfRange { level }),
        LOOKUP_TABLE_LEVELS == 8 * crate::model::IDENTIFIER_SIZE_BYTES,
{
}

} // verus!
