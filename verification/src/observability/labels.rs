use crate::lookup::LookupTableLevel;
use vstd::prelude::*;
use vstd::std_specs::convert::FromSpecImpl;

verus! {

/// Outcome of a completed search.
#[derive(Copy, Clone, PartialEq, Eq, Debug, Structural)]
pub enum SearchOutcome {
    /// A matching neighbor was returned.
    Found,
    /// No neighbor matched, so the search returned the caller's own identifier.
    NotFound,
}

/// Type of a network message. Covers the search messages only.
#[derive(Copy, Clone, PartialEq, Eq, Debug, Structural)]
pub enum MessageType {
    /// A string payload, for tests only.
    TestMessage,
    /// A search request.
    SearchByIdRequest,
    /// A search response.
    SearchByIdResponse,
}

/// The lowest level of [`LevelBucket::Medium`].
pub const MEDIUM_LEVEL_FLOOR: LookupTableLevel = 16;

/// The lowest level of [`LevelBucket::High`].
pub const HIGH_LEVEL_FLOOR: LookupTableLevel = 64;

/// The lowest level of [`LevelBucket::Overflow`].
pub const OVERFLOW_LEVEL_FLOOR: LookupTableLevel = 256;

/// A coarse bucket of lookup-table levels, which keeps the number of label values small.
#[derive(Copy, Clone, PartialEq, Eq, Debug, Structural)]
pub enum LevelBucket {
    /// Levels below `MEDIUM_LEVEL_FLOOR`.
    Low,
    /// Levels from `MEDIUM_LEVEL_FLOOR` and below `HIGH_LEVEL_FLOOR`.
    Medium,
    /// Levels from `HIGH_LEVEL_FLOOR` and below `OVERFLOW_LEVEL_FLOOR`.
    High,
    /// Levels from `OVERFLOW_LEVEL_FLOOR`, which no table has.
    Overflow,
}

impl LevelBucket {
    /// Whether a level belongs to the bucket.
    pub open spec fn covers(self, level: LookupTableLevel) -> bool {
        match self {
            LevelBucket::Low => level < MEDIUM_LEVEL_FLOOR,
            LevelBucket::Medium => MEDIUM_LEVEL_FLOOR <= level < HIGH_LEVEL_FLOOR,
            LevelBucket::High => HIGH_LEVEL_FLOOR <= level < OVERFLOW_LEVEL_FLOOR,
            LevelBucket::Overflow => OVERFLOW_LEVEL_FLOOR <= level,
        }
    }

    /// The bucket of a level.
    pub open spec fn of(level: LookupTableLevel) -> LevelBucket {
        if LevelBucket::Low.covers(level) {
            LevelBucket::Low
        } else if LevelBucket::Medium.covers(level) {
            LevelBucket::Medium
        } else if LevelBucket::High.covers(level) {
            LevelBucket::High
        } else {
            LevelBucket::Overflow
        }
    }

    /// Returns the bucket of a level. Every level has one.
    #[must_use]
    pub fn from_level(level: LookupTableLevel) -> (r: LevelBucket)
        ensures
            r.covers(level),
            r == LevelBucket::of(level),
    {
        if level < MEDIUM_LEVEL_FLOOR {
            LevelBucket::Low
        } else if level < HIGH_LEVEL_FLOOR {
            LevelBucket::Medium
        } else if level < OVERFLOW_LEVEL_FLOOR {
            LevelBucket::High
        } else {
            LevelBucket::Overflow
        }
    }
}

impl From<LookupTableLevel> for LevelBucket {
    fn from(level: LookupTableLevel) -> (r: LevelBucket) {
        LevelBucket::from_level(level)
    }
}

impl FromSpecImpl<LookupTableLevel> for LevelBucket {
    open spec fn obeys_from_spec() -> bool {
        true
    }

    open spec fn from_spec(level: LookupTableLevel) -> LevelBucket {
        LevelBucket::of(level)
    }
}

/// Every level belongs to exactly one bucket, and exactly the levels that a lookup table
/// has stay out of the overflow bucket.
pub proof fn law_buckets_partition_the_levels(level: LookupTableLevel, bucket: LevelBucket)
    ensures
        bucket.covers(level) <==> bucket == LevelBucket::of(level),
        LevelBucket::of(level) == LevelBucket::Overflow <==> level
            >= crate::lookup::LOOKUP_TABLE_LEVELS,
{
}

/// The bucket of a level is the first of four whose bound is above the level: 16, 64, the
/// number of levels of a table, and none.
pub proof fn law_buckets_have_their_bounds(level: LookupTableLevel, r: LevelBucket)
    requires
        call_ensures(LevelBucket::from_level, (level,), r) || call_ensures(
            <LevelBucket as From<LookupTableLevel>>::from,
            (level,),
            r,
        ),
    ensures
        r == LevelBucket::Low <==> level < 16,
        r == LevelBucket::Medium <==> 16 <= level < 64,
        r == LevelBucket::High <==> 64 <= level < crate::lookup::LOOKUP_TABLE_LEVELS,
        r == LevelBucket::Overflow <==> crate::lookup::LOOKUP_TABLE_LEVELS <= level,
{
}

} // verus!
