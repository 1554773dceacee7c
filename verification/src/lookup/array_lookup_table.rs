use crate::lookup;
use crate::lookup::LinkOutcome;
use crate::lookup::LookupError;
use crate::lookup::LookupTable;
use crate::lookup::LookupTableLevel;
use crate::lookup::RelinkOutcome;
use crate::lookup::Slots;
use crate::lookup::LOOKUP_TABLE_LEVELS;
use crate::model::direction::Direction;
use crate::model::identity::Identity;
use vstd::prelude::*;

verus! {

/// A lookup table held in two arrays, one for each direction, indexed by level.
pub struct ArrayLookupTable {
    left: [Option<Identity>; LOOKUP_TABLE_LEVELS],
    right: [Option<Identity>; LOOKUP_TABLE_LEVELS],
}

/// The slots of a table with the given sides: one for each level below
/// `LOOKUP_TABLE_LEVELS`, and a refusal at every other level.
pub open spec fn array_slots(left: Seq<Option<Identity>>, right: Seq<Option<Identity>>) -> Slots {
    Map::total(
        |slot: (LookupTableLevel, Direction)|
            if slot.0 >= LOOKUP_TABLE_LEVELS {
                Err(LookupError::LevelOutOfRange { level: slot.0 })
            } else {
                match slot.1 {
                    Direction::Left => Ok(left[slot.0 as int]),
                    Direction::Right => Ok(right[slot.0 as int]),
                }
            },
    )
}

/// The slots of an empty table.
pub open spec fn empty_slots() -> Slots {
    let side = Seq::new(LOOKUP_TABLE_LEVELS as nat, |i: int| None::<Identity>);
    array_slots(side, side)
}

impl ArrayLookupTable {
    /// The left entries by level.
    pub closed spec fn left_side(&self) -> Seq<Option<Identity>> {
        self.left@
    }

    /// The right entries by level.
    pub closed spec fn right_side(&self) -> Seq<Option<Identity>> {
        self.right@
    }

    /// Creates an empty table.
    pub fn new() -> (r: ArrayLookupTable)
        ensures
            r.slots() == empty_slots(),
    {
        let vacant: Option<Identity> = None;
        let side: [Option<Identity>; LOOKUP_TABLE_LEVELS] = [vacant;LOOKUP_TABLE_LEVELS];
        proof {
            vstd::array::axiom_spec_array_fill_for_copy_type::<
                Option<Identity>,
                LOOKUP_TABLE_LEVELS,
            >(vacant);
            assert(side@ =~= Seq::new(LOOKUP_TABLE_LEVELS as nat, |i: int| None::<Identity>));
        }
        ArrayLookupTable { left: side, right: side }
    }

    /// Reads a slot.
    fn slot(&self, level: LookupTableLevel, direction: Direction) -> (r: Option<Identity>)
        requires
            level < LOOKUP_TABLE_LEVELS,
        ensures
            self.slots()[(level, direction)] == Ok::<Option<Identity>, LookupError>(r),
    {
        match direction {
            Direction::Left => self.left[level],
            Direction::Right => self.right[level],
        }
    }

    /// Writes a slot.
    fn set_slot(&mut self, level: LookupTableLevel, direction: Direction, entry: Option<Identity>)
        requires
            level < LOOKUP_TABLE_LEVELS,
        ensures
            final(self).slots() == old(self).slots().insert((level, direction), Ok(entry)),
    {
        match direction {
            Direction::Left => {
                self.left[level] = entry;
            },
            Direction::Right => {
                self.right[level] = entry;
            },
        }
        assert(self.slots() =~= old(self).slots().insert((level, direction), Ok(entry)));
    }

    /// Lists the populated entries of one side, lowest level first.
    fn side_neighbors(&self, direction: Direction) -> (r: Vec<(LookupTableLevel, Identity)>)
        ensures
            r@ == lookup::populated_below(self.slots(), direction, LOOKUP_TABLE_LEVELS as nat),
    {
        let mut neighbors: Vec<(LookupTableLevel, Identity)> = Vec::new();
        let mut level: usize = 0;
        while level < LOOKUP_TABLE_LEVELS
            invariant
                level <= LOOKUP_TABLE_LEVELS,
                neighbors@ == lookup::populated_below(self.slots(), direction, level as nat),
            decreases LOOKUP_TABLE_LEVELS - level,
        {
            if let Some(identity) = self.slot(level, direction) {
                neighbors.push((level, identity));
            }
            level = level + 1;
        }
        neighbors
    }
}

impl Default for ArrayLookupTable {
    fn default() -> (r: ArrayLookupTable)
        ensures
            r.slots() == empty_slots(),
    {
        ArrayLookupTable::new()
    }
}

impl LookupTable for ArrayLookupTable {
    open spec fn slots(&self) -> Slots {
        array_slots(self.left_side(), self.right_side())
    }

    fn update_entry(
        &mut self,
        identity: Identity,
        level: LookupTableLevel,
        direction: Direction,
    ) -> (r: Result<(), LookupError>) {
        if level >= LOOKUP_TABLE_LEVELS {
            return Err(LookupError::LevelOutOfRange { level });
        }
        self.set_slot(level, direction, Some(identity));
        Ok(())
    }

    fn remove_entry(&mut self, level: LookupTableLevel, direction: Direction) -> (r: Result<
        (),
        LookupError,
    >) {
        if level >= LOOKUP_TABLE_LEVELS {
            return Err(LookupError::LevelOutOfRange { level });
        }
        self.set_slot(level, direction, None);
        Ok(())
    }

    fn get_entry(&self, level: LookupTableLevel, direction: Direction) -> (r: Result<
        Option<Identity>,
        LookupError,
    >) {
        if level >= LOOKUP_TABLE_LEVELS {
            return Err(LookupError::LevelOutOfRange { level });
        }
        Ok(self.slot(level, direction))
    }

    /// Delegates to [`LookupTable::try_relink`]. A candidate that already holds the slot
    /// leaves the table as a fresh install would, and a first-time caller has no use for
    /// the evicted entry.
    fn try_link(
        &mut self,
        level: LookupTableLevel,
        direction: Direction,
        candidate: Identity,
    ) -> (r: Result<LinkOutcome, LookupError>) {
        match self.try_relink(level, direction, candidate) {
            Ok(RelinkOutcome::Forward(existing)) => Ok(LinkOutcome::Forward(existing)),
            Ok(RelinkOutcome::AlreadyConsistent) => Ok(LinkOutcome::LinkedDirectly),
            Ok(RelinkOutcome::Relinked { .. }) => Ok(LinkOutcome::LinkedDirectly),
            Err(e) => Err(e),
        }
    }

    fn try_relink(
        &mut self,
        level: LookupTableLevel,
        direction: Direction,
        claimant: Identity,
    ) -> (r: Result<RelinkOutcome, LookupError>) {
        if level >= LOOKUP_TABLE_LEVELS {
            return Err(LookupError::LevelOutOfRange { level });
        }
        let slot = self.slot(level, direction);
        if let Some(existing) = slot {
            if existing == claimant {
                return Ok(RelinkOutcome::AlreadyConsistent);
            }
            let between = match direction {
                Direction::Right => existing.id() < claimant.id(),
                Direction::Left => existing.id() > claimant.id(),
            };
            if between {
                return Ok(RelinkOutcome::Forward(existing));
            }
        }
        self.set_slot(level, direction, Some(claimant));
        Ok(RelinkOutcome::Relinked { evicted: slot })
    }

    fn left_neighbors(&self) -> (r: Vec<(LookupTableLevel, Identity)>) {
        self.side_neighbors(Direction::Left)
    }

    fn right_neighbors(&self) -> (r: Vec<(LookupTableLevel, Identity)>) {
        self.side_neighbors(Direction::Right)
    }

    fn max_populated_level(&self) -> (r: Option<LookupTableLevel>) {
        let mut n: usize = LOOKUP_TABLE_LEVELS;
        while n > 0
            invariant
                n <= LOOKUP_TABLE_LEVELS,
                lookup::highest_populated_below(self.slots(), LOOKUP_TABLE_LEVELS as nat)
                    == lookup::highest_populated_below(self.slots(), n as nat),
            decreases n,
        {
            n = n - 1;
            if self.slot(n, Direction::Left).is_some() || self.slot(n, Direction::Right).is_some() {
                return Some(n);
            }
        }
        None
    }
}

} // verus!
