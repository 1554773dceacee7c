//! The lookup table: a node's view of its neighbors.
pub mod array_lookup_table;
pub mod laws;

pub use array_lookup_table::ArrayLookupTable;

use crate::model::direction::Direction;
use crate::model::identity::Identity;
use crate::model::IDENTIFIER_SIZE_BYTES;
use crate::text;
use vstd::prelude::*;

verus! {

/// A level of the lookup table.
pub type LookupTableLevel = usize;

/// The number of levels of a lookup table: one for each bit of an identifier.
pub const LOOKUP_TABLE_LEVELS: usize = IDENTIFIER_SIZE_BYTES * 8;

/// Why a lookup table refuses to read or write a slot.
#[derive(PartialEq, Eq, Debug)]
pub enum LookupError {
    /// The level is not below `LOOKUP_TABLE_LEVELS`.
    LevelOutOfRange { level: LookupTableLevel },
    /// The storage behind the table failed.
    Storage { reason: String },
}

impl LookupError {
    /// The text under which the error is reported.
    pub open spec fn text(self) -> Seq<char> {
        match self {
            LookupError::LevelOutOfRange { level } =>
                "position is larger than the max lookup table entry number: "@ + text::decimal(level as nat),
            LookupError::Storage { reason } => reason@,
        }
    }

    /// Returns the text under which the error is reported.
    pub fn message(&self) -> (r: String)
        ensures
            r@ == self.text(),
    {
        match self {
            LookupError::LevelOutOfRange { level } => {
                let number = text::decimal_string(*level);
                "position is larger than the max lookup table entry number: ".to_owned().concat(
                    number.as_str(),
                )
            },
            LookupError::Storage { reason } => reason.clone(),
        }
    }
}

/// Outcome of a [`LookupTable::try_link`] decision.
#[derive(Copy, Clone, PartialEq, Eq, Debug)]
pub enum LinkOutcome {
    /// The candidate is now the entry of the slot.
    LinkedDirectly,
    /// The table was left untouched: the carried entry sits strictly between this node and
    /// the candidate, so the link request belongs there.
    Forward(Identity),
}

/// Outcome of a [`LookupTable::try_relink`] decision.
#[derive(Copy, Clone, PartialEq, Eq, Debug)]
pub enum RelinkOutcome {
    /// The slot already held the claimant. Nothing was written.
    AlreadyConsistent,
    /// The table was left untouched: the carried entry sits strictly between this node and
    /// the claimant, so the check belongs there.
    Forward(Identity),
    /// The claimant was installed in place of the evicted entry, if there was one.
    Relinked { evicted: Option<Identity> },
}

/// What each slot of a table holds, or the error with which the table refuses every
/// access to that slot.
pub type Slots = Map<(LookupTableLevel, Direction), Result<Option<Identity>, LookupError>>;

/// Whether `existing`, held on the `direction` side of a node, is closer to that node
/// than `candidate` is.
pub open spec fn strictly_between(
    existing: Identity,
    direction: Direction,
    candidate: Identity,
) -> bool {
    match direction {
        Direction::Right => existing.key() < candidate.key(),
        Direction::Left => existing.key() > candidate.key(),
    }
}

/// Whether a slot's entry bars `candidate` from that slot.
pub open spec fn bars(slot: Option<Identity>, direction: Direction, candidate: Identity) -> bool {
    slot is Some && strictly_between(slot->0, direction, candidate)
}

/// What a slot holds once `candidate` has been proposed for it.
pub open spec fn slot_after(
    slot: Option<Identity>,
    direction: Direction,
    candidate: Identity,
) -> Option<Identity> {
    if bars(slot, direction, candidate) {
        slot
    } else {
        Some(candidate)
    }
}

/// How a first-time link request for `candidate` is answered.
pub open spec fn link_outcome(
    slot: Option<Identity>,
    direction: Direction,
    candidate: Identity,
) -> LinkOutcome {
    if bars(slot, direction, candidate) {
        LinkOutcome::Forward(slot->0)
    } else {
        LinkOutcome::LinkedDirectly
    }
}

/// How a repair check by `claimant` is answered.
pub open spec fn relink_outcome(
    slot: Option<Identity>,
    direction: Direction,
    claimant: Identity,
) -> RelinkOutcome {
    if slot == Some(claimant) {
        RelinkOutcome::AlreadyConsistent
    } else if bars(slot, direction, claimant) {
        RelinkOutcome::Forward(slot->0)
    } else {
        RelinkOutcome::Relinked { evicted: slot }
    }
}

/// The populated entries of one side below level `n`, from the lowest level upward.
pub open spec fn populated_below(slots: Slots, direction: Direction, n: nat) -> Seq<
    (LookupTableLevel, Identity),
>
    decreases n,
{
    if n == 0 {
        Seq::empty()
    } else {
        let level = (n - 1) as LookupTableLevel;
        let lower = populated_below(slots, direction, (n - 1) as nat);
        match slots[(level, direction)] {
            Ok(Some(identity)) => lower.push((level, identity)),
            _ => lower,
        }
    }
}

/// Whether a slot holds an entry.
pub open spec fn holds_entry(slots: Slots, level: LookupTableLevel, direction: Direction) -> bool {
    slots[(level, direction)] matches Ok(Some(_))
}

/// The highest level below `n` with an entry on either side.
pub open spec fn highest_populated_below(slots: Slots, n: nat) -> Option<LookupTableLevel>
    decreases n,
{
    if n == 0 {
        None
    } else {
        let level = (n - 1) as LookupTableLevel;
        if holds_entry(slots, level, Direction::Left) || holds_entry(slots, level, Direction::Right) {
            Some(level)
        } else {
            highest_populated_below(slots, (n - 1) as nat)
        }
    }
}

/// A node's view of its neighbors: one slot for each level and direction.
///
/// A table accepts or refuses a slot as a whole: the error that answers a read of the slot
/// also answers every write to it, and a refused write changes nothing.
pub trait LookupTable: Send + Sync {
    /// What the slots hold.
    spec fn slots(&self) -> Slots;

    /// Sets the entry at the given level and direction.
    fn update_entry(
        &mut self,
        identity: Identity,
        level: LookupTableLevel,
        direction: Direction,
    ) -> (r: Result<(), LookupError>)
        ensures
            match old(self).slots()[(level, direction)] {
                Ok(_) => {
                    &&& r == Ok::<(), LookupError>(())
                    &&& final(self).slots() == old(self).slots().insert(
                        (level, direction),
                        Ok(Some(identity)),
                    )
                },
                Err(e) => r == Err::<(), LookupError>(e) && final(self).slots() == old(self).slots(),
            },
    ;

    /// Empties the slot at the given level and direction.
    fn remove_entry(&mut self, level: LookupTableLevel, direction: Direction) -> (r: Result<
        (),
        LookupError,
    >)
        ensures
            match old(self).slots()[(level, direction)] {
                Ok(_) => {
                    &&& r == Ok::<(), LookupError>(())
                    &&& final(self).slots() == old(self).slots().insert((level, direction), Ok(None))
                },
                Err(e) => r == Err::<(), LookupError>(e) && final(self).slots() == old(self).slots(),
            },
    ;

    /// Returns the entry at the given level and direction, if there is one.
    fn get_entry(&self, level: LookupTableLevel, direction: Direction) -> (r: Result<
        Option<Identity>,
        LookupError,
    >)
        ensures
            r == self.slots()[(level, direction)],
    ;

    /// Decides, in one step, whether `candidate` becomes the neighbor at the given level
    /// and direction, or whether the request has to be forwarded to the neighbor that
    /// already sits strictly between this node and `candidate`.
    ///
    /// The table does not know this node's own identifier. A caller that proposes a
    /// candidate for the wrong side installs an out-of-order neighbor.
    fn try_link(
        &mut self,
        level: LookupTableLevel,
        direction: Direction,
        candidate: Identity,
    ) -> (r: Result<LinkOutcome, LookupError>)
        ensures
            match old(self).slots()[(level, direction)] {
                Ok(slot) => {
                    &&& r == Ok::<LinkOutcome, LookupError>(link_outcome(slot, direction, candidate))
                    &&& final(self).slots() == old(self).slots().insert(
                        (level, direction),
                        Ok(slot_after(slot, direction, candidate)),
                    )
                },
                Err(e) => {
                    &&& r == Err::<LinkOutcome, LookupError>(e)
                    &&& final(self).slots() == old(self).slots()
                },
            },
    ;

    /// Decides, in one step, whether `claimant` already is, becomes, or is barred from
    /// being the neighbor at the given level and direction. This is the repair counterpart
    /// of [`LookupTable::try_link`]: a claimant re-asserts a link that it believes to hold.
    fn try_relink(
        &mut self,
        level: LookupTableLevel,
        direction: Direction,
        claimant: Identity,
    ) -> (r: Result<RelinkOutcome, LookupError>)
        ensures
            match old(self).slots()[(level, direction)] {
                Ok(slot) => {
                    &&& r == Ok::<RelinkOutcome, LookupError>(
                        relink_outcome(slot, direction, claimant),
                    )
                    &&& final(self).slots() == old(self).slots().insert(
                        (level, direction),
                        Ok(slot_after(slot, direction, claimant)),
                    )
                },
                Err(e) => {
                    &&& r == Err::<RelinkOutcome, LookupError>(e)
                    &&& final(self).slots() == old(self).slots()
                },
            },
    ;

    /// Returns the populated left entries with their levels, lowest level first.
    fn left_neighbors(&self) -> (r: Vec<(LookupTableLevel, Identity)>)
        ensures
            r@ == populated_below(self.slots(), Direction::Left, LOOKUP_TABLE_LEVELS as nat),
    ;

    /// Returns the populated right entries with their levels, lowest level first.
    fn right_neighbors(&self) -> (r: Vec<(LookupTableLevel, Identity)>)
        ensures
            r@ == populated_below(self.slots(), Direction::Right, LOOKUP_TABLE_LEVELS as nat),
    ;

    /// Returns the highest level with an entry on either side, if there is one.
    fn max_populated_level(&self) -> (r: Option<LookupTableLevel>)
        ensures
            r == highest_populated_below(self.slots(), LOOKUP_TABLE_LEVELS as nat),
    ;
}

} // verus!
