use skip_graph::lookup::Slots;
use skip_graph::model::IDENTIFIER_SIZE_BYTES;
use skip_graph::Address;
use skip_graph::ArrayLookupTable;
use skip_graph::BaseCore;
use skip_graph::Direction;
use skip_graph::IdSearchReq;
use skip_graph::Identifier;
use skip_graph::Identity;
use skip_graph::LinkOutcome;
use skip_graph::LookupError;
use skip_graph::LookupTable;
use skip_graph::LookupTableLevel;
use skip_graph::MembershipVector;
use skip_graph::Nonce;
use skip_graph::RelinkOutcome;
use skip_graph::LOOKUP_TABLE_LEVELS;

fn random_identifier() -> Identifier {
    Identifier::from_bytes(&rand::random::<[u8; IDENTIFIER_SIZE_BYTES]>()).unwrap()
}

fn random_membership_vector() -> MembershipVector {
    MembershipVector::from_bytes(&rand::random::<[u8; IDENTIFIER_SIZE_BYTES]>()).unwrap()
}

fn random_address() -> Address {
    Address { host: rand::random(), port: rand::random() }
}

fn random_identity() -> Identity {
    Identity::new(random_identifier(), random_membership_vector(), random_address())
}

/// A random identifier above `bound`: its successor, with a random lower half where that
/// is larger still.
fn random_identifier_greater_than(bound: &Identifier) -> Identifier {
    let mut bytes = bound.to_bytes();
    for i in (0..16).rev() {
        if bytes[i] < u8::MAX {
            bytes[i] += 1;
            break;
        }
        bytes[i] = 0;
    }
    bytes[16..].copy_from_slice(&rand::random::<[u8; 16]>());
    let id = Identifier::from_bytes(&bytes).unwrap();
    assert!(id > *bound);
    id
}

/// A random identifier below `bound`.
fn random_identifier_less_than(bound: &Identifier) -> Identifier {
    let mut bytes = bound.to_bytes();
    for i in (0..16).rev() {
        if bytes[i] > 0 {
            bytes[i] -= 1;
            break;
        }
        bytes[i] = u8::MAX;
    }
    bytes[16..].copy_from_slice(&rand::random::<[u8; 16]>());
    let id = Identifier::from_bytes(&bytes).unwrap();
    assert!(id < *bound);
    id
}

/// A table with a random entry in every slot below `levels`, the largest identifier on the
/// left and the smallest on the right at level 0, so that every search finds something.
fn random_lookup_table_with_extremes(levels: usize) -> ArrayLookupTable {
    let mut lt = ArrayLookupTable::new();
    for level in 0..levels {
        lt.update_entry(random_identity(), level, Direction::Left).unwrap();
        lt.update_entry(random_identity(), level, Direction::Right).unwrap();
    }
    let largest = Identifier::from_bytes(&[u8::MAX; IDENTIFIER_SIZE_BYTES]).unwrap();
    let smallest = Identifier::from_bytes(&[0u8; IDENTIFIER_SIZE_BYTES]).unwrap();
    lt.update_entry(
        Identity::new(largest, random_membership_vector(), random_address()),
        0,
        Direction::Left,
    )
    .unwrap();
    lt.update_entry(
        Identity::new(smallest, random_membership_vector(), random_address()),
        0,
        Direction::Right,
    )
    .unwrap();
    lt
}

/// A core with a random membership vector.
fn make_core(id: Identifier, lt: ArrayLookupTable) -> BaseCore<ArrayLookupTable> {
    BaseCore::new(id, random_membership_vector(), lt)
}

/// A table whose storage always fails.
struct FailingTable;

fn failure() -> LookupError {
    LookupError::Storage { reason: "simulated lookup table error".to_string() }
}

impl LookupTable for FailingTable {
    fn slots(&self) -> Slots {
        unreachable!("the contents of a table are named in contracts only")
    }

    fn update_entry(
        &mut self,
        _: Identity,
        _: LookupTableLevel,
        _: Direction,
    ) -> Result<(), LookupError> {
        Err(failure())
    }

    fn remove_entry(&mut self, _: LookupTableLevel, _: Direction) -> Result<(), LookupError> {
        Err(failure())
    }

    fn get_entry(&self, _: LookupTableLevel, _: Direction) -> Result<Option<Identity>, LookupError> {
        Err(failure())
    }

    fn try_link(
        &mut self,
        _: LookupTableLevel,
        _: Direction,
        _: Identity,
    ) -> Result<LinkOutcome, LookupError> {
        Err(failure())
    }

    fn try_relink(
        &mut self,
        _: LookupTableLevel,
        _: Direction,
        _: Identity,
    ) -> Result<RelinkOutcome, LookupError> {
        Err(failure())
    }

    fn left_neighbors(&self) -> Vec<(LookupTableLevel, Identity)> {
        Vec::new()
    }

    fn right_neighbors(&self) -> Vec<(LookupTableLevel, Identity)> {
        Vec::new()
    }

    fn max_populated_level(&self) -> Option<LookupTableLevel> {
        None
    }
}

/// Verifies `search_by_id` returns the core's own identifier when the lookup
/// table is empty.
#[test]
fn test_search_by_id_singleton_fallback() {
    let origin_id = Identifier::from_bytes(&[10u8]).unwrap();
    let core = BaseCore::new(
        origin_id,
        random_membership_vector(),
        ArrayLookupTable::new(),
    );

    let cases = [
        (Identifier::from_bytes(&[5u8]).unwrap(), Direction::Left),
        (Identifier::from_bytes(&[15u8]).unwrap(), Direction::Left),
        (Identifier::from_bytes(&[5u8]).unwrap(), Direction::Right),
        (Identifier::from_bytes(&[15u8]).unwrap(), Direction::Right),
    ];

    for (target, direction) in cases {
        let req = IdSearchReq {
            nonce: Nonce::random(),
            origin: origin_id,
            target,
            level: 3,
            direction,
        };
        let res = core.search_by_id(req).expect("search failed");
        assert_eq!(res.termination_level, 0);
        assert_eq!(res.result, origin_id);
    }
}

/// Verifies left-direction search returns the smallest neighbor with identifier >= target.
#[test]
fn test_search_by_id_found_left_direction() {
    for lvl in 0..LOOKUP_TABLE_LEVELS {
        let mut lt = random_lookup_table_with_extremes(LOOKUP_TABLE_LEVELS);
        let target = random_identifier();

        let safe_neighbor = random_identifier_greater_than(&target);
        lt.update_entry(
            Identity::new(safe_neighbor, random_membership_vector(), random_address()),
            0,
            Direction::Left,
        )
        .expect("failed to update entry in lookup table");

        let core = BaseCore::new(
                random_identifier(),
            random_membership_vector(),
            lt,
        );
        let req = IdSearchReq {
            nonce: Nonce::random(),
            origin: core.id(),
            target,
            level: lvl,
            direction: Direction::Left,
        };
        let actual = core.search_by_id(req).unwrap();

        let (expected_lvl, expected_identity) = core
            .table()
            .left_neighbors()
            .into_iter()
            .filter(|(l, id)| *l <= req.level && id.id() >= req.target)
            .min_by_key(|(_, id)| id.id())
            .unwrap();

        assert_eq!(expected_lvl, actual.termination_level);
        assert_eq!(expected_identity.id(), actual.result);
    }
}

/// Verifies right-direction search returns the greatest neighbor with identifier <= target.
#[test]
fn test_search_by_id_found_right_direction() {
    for lvl in 0..LOOKUP_TABLE_LEVELS {
        let mut lt = random_lookup_table_with_extremes(LOOKUP_TABLE_LEVELS);
        let target = random_identifier();

        let safe_neighbor = random_identifier_less_than(&target);
        lt.update_entry(
            Identity::new(safe_neighbor, random_membership_vector(), random_address()),
            0,
            Direction::Right,
        )
        .expect("failed to update entry in lookup table");

        let core = BaseCore::new(
                random_identifier(),
            random_membership_vector(),
            lt,
        );
        let req = IdSearchReq {
            nonce: Nonce::random(),
            origin: core.id(),
            target,
            level: lvl,
            direction: Direction::Right,
        };
        let actual = core.search_by_id(req).unwrap();

        let (expected_lvl, expected_identity) = core
            .table()
            .right_neighbors()
            .into_iter()
            .filter(|(lvl, id)| *lvl <= req.level && id.id() <= req.target)
            .max_by_key(|(_, id)| id.id())
            .unwrap();

        assert_eq!(expected_lvl, actual.termination_level);
        assert_eq!(expected_identity.id(), actual.result);
    }
}

/// Verifies left-direction search falls back to the core's own identifier
/// when no neighbor satisfies the target.
#[test]
fn test_search_by_id_not_found_left_direction() {
    let target = random_identifier();

    for lvl in 0..LOOKUP_TABLE_LEVELS {
        let mut lt = ArrayLookupTable::new();
        for fill_lvl in 0..LOOKUP_TABLE_LEVELS {
            lt.update_entry(
                Identity::new(
                    random_identifier_less_than(&target),
                    random_membership_vector(),
                    random_address(),
                ),
                fill_lvl,
                Direction::Left,
            )
            .expect("failed to update entry in lookup table");
        }

        let core = BaseCore::new(
                random_identifier(),
            random_membership_vector(),
            lt,
        );
        let req = IdSearchReq {
            nonce: Nonce::random(),
            origin: core.id(),
            target,
            level: lvl,
            direction: Direction::Left,
        };
        let actual = core.search_by_id(req).unwrap();

        assert_eq!(actual.termination_level, 0);
        assert_eq!(actual.result, core.id());
    }
}

/// Verifies right-direction search falls back to the core's own identifier
/// when no neighbor satisfies the target.
#[test]
fn test_search_by_id_not_found_right_direction() {
    let target = random_identifier();

    for lvl in 0..LOOKUP_TABLE_LEVELS {
        let mut lt = ArrayLookupTable::new();
        for fill_lvl in 0..LOOKUP_TABLE_LEVELS {
            lt.update_entry(
                Identity::new(
                    random_identifier_greater_than(&target),
                    random_membership_vector(),
                    random_address(),
                ),
                fill_lvl,
                Direction::Right,
            )
            .expect("failed to update entry in lookup table");
        }

        let core = BaseCore::new(
                random_identifier(),
            random_membership_vector(),
            lt,
        );
        let req = IdSearchReq {
            nonce: Nonce::random(),
            origin: core.id(),
            target,
            level: lvl,
            direction: Direction::Right,
        };
        let actual = core.search_by_id(req).unwrap();

        assert_eq!(actual.termination_level, 0);
        assert_eq!(actual.result, core.id());
    }
}

/// Verifies `search_by_id` returns the exact match when the target exists in
/// the lookup table.
#[test]
fn test_search_by_id_exact_result() {
    let lt = random_lookup_table_with_extremes(LOOKUP_TABLE_LEVELS);
    let core = BaseCore::new(
        random_identifier(),
        random_membership_vector(),
        lt,
    );

    for lvl in 0..LOOKUP_TABLE_LEVELS {
        for direction in [Direction::Left, Direction::Right] {
            let target_identity = core.table().get_entry(lvl, direction).unwrap().unwrap();
            let target = target_identity.id();
            let req = IdSearchReq {
                nonce: Nonce::random(),
                origin: core.id(),
                target,
                level: lvl,
                direction,
            };
            let actual = core.search_by_id(req).unwrap();

            assert_eq!(actual.termination_level, lvl);
            assert_eq!(actual.result, target);
        }
    }
}

/// Verifies `search_by_id` propagates errors raised by the underlying lookup
/// table.
#[test]
fn test_search_by_id_error_propagation() {
    let lt = FailingTable;

    let core = BaseCore::new(
        random_identifier(),
        random_membership_vector(),
        lt,
    );
    let req = IdSearchReq {
        nonce: Nonce::random(),
        origin: core.id(),
        target: random_identifier(),
        level: 3,
        direction: Direction::Left,
    };
    let result = core.search_by_id(req);

    assert!(
        result.is_err(),
        "expected an error but got a success result"
    );

    let error_msg = result.unwrap_err().message();
    assert!(
        error_msg.contains("error while searching by id in level"),
        "error message '{error_msg}' doesn't contain expected text"
    );
    assert!(
        error_msg.contains("simulated lookup table error"),
        "error message '{error_msg}' doesn't contain expected text"
    );
}

/// Verifies `max_level` returns 0 when the lookup table has no populated entries.
#[test]
fn test_max_level_empty_table() {
    let core = BaseCore::new(
        random_identifier(),
        random_membership_vector(),
        ArrayLookupTable::new(),
    );

    assert_eq!(core.max_level().unwrap(), 0);
}

/// Verifies `max_level` returns the highest populated level when only one side
/// of the table has entries.
#[test]
fn test_max_level_one_side_populated() {
    let mut lt = ArrayLookupTable::new();
    lt.update_entry(random_identity(), 2, Direction::Left)
        .expect("failed to update entry in lookup table");
    lt.update_entry(random_identity(), 5, Direction::Left)
        .expect("failed to update entry in lookup table");

    let core = BaseCore::new(
        random_identifier(),
        random_membership_vector(),
        lt,
    );

    assert_eq!(core.max_level().unwrap(), 5);
}

/// Verifies `max_level` returns the highest populated level across both sides
/// when left and right are populated at different levels.
#[test]
fn test_max_level_both_sides_populated_different_levels() {
    let mut lt = ArrayLookupTable::new();
    lt.update_entry(random_identity(), 3, Direction::Left)
        .expect("failed to update entry in lookup table");
    lt.update_entry(random_identity(), 7, Direction::Right)
        .expect("failed to update entry in lookup table");

    let core = BaseCore::new(
        random_identifier(),
        random_membership_vector(),
        lt,
    );

    assert_eq!(core.max_level().unwrap(), 7);
}

/// Verifies `prefix_match` matches `common_prefix_bit(candidate) >= level`
/// exactly, including at the boundary where they're equal.
#[test]
fn test_prefix_match() {
    // all-zero and all-one membership vectors share zero common prefix bits.
    let mv_zero = MembershipVector::from_bytes(&[0u8; 32]).unwrap();
    let mv_ones = MembershipVector::from_bytes(&[0xffu8; 32]).unwrap();
    let core = BaseCore::new(
        random_identifier(),
        mv_zero,
        ArrayLookupTable::new(),
    );

    let common = mv_zero.common_prefix_bit(mv_ones);
    assert_eq!(common, 0);

    // true case: required level is below the actual common-prefix length.
    assert!(core.prefix_match(mv_zero, 0));
    // boundary case: required level equals the actual common-prefix length exactly.
    assert!(core.prefix_match(mv_ones, common));
    // false case: required level exceeds the actual common-prefix length.
    assert!(!core.prefix_match(mv_ones, common + 1));
}

/// Verifies `Core::try_link` delegates to the lookup table: an empty slot is
/// linked directly and the write is visible through the table.
#[test]
fn test_try_link_empty_slot() {
    let lt = ArrayLookupTable::new();
    let mut core = BaseCore::new(
        random_identifier(),
        random_membership_vector(),
        lt,
    );
    let candidate = random_identity();

    let outcome = core
        .try_link(0, Direction::Left, candidate)
        .expect("try_link failed");

    assert_eq!(outcome, LinkOutcome::LinkedDirectly);
    assert_eq!(core.table().get_entry(0, Direction::Left).unwrap(), Some(candidate));
}

/// Verifies `Core::try_relink` delegates to the lookup table: a slot already
/// holding the claimant is reported as consistent and left untouched.
#[test]
fn core_test_test_try_relink_already_consistent() {
    let mut lt = ArrayLookupTable::new();
    let claimant = random_identity();
    lt.update_entry(claimant, 0, Direction::Right)
        .expect("failed to update entry in lookup table");
    let mut core = BaseCore::new(
        random_identifier(),
        random_membership_vector(),
        lt,
    );

    let outcome = core
        .try_relink(0, Direction::Right, claimant)
        .expect("try_relink failed");

    assert_eq!(outcome, RelinkOutcome::AlreadyConsistent);
    assert_eq!(core.table().get_entry(0, Direction::Right).unwrap(), Some(claimant));
}

/// Verifies `Core::try_link` propagates the lookup table's out-of-range-level error.
#[test]
fn test_try_link_out_of_range_level() {
    let mut core = BaseCore::new(
        random_identifier(),
        random_membership_vector(),
        ArrayLookupTable::new(),
    );

    let result = core.try_link(LOOKUP_TABLE_LEVELS, Direction::Left, random_identity());

    assert!(
        result.is_err(),
        "expected an error but got a success result"
    );
}

/// Verifies `Core::try_relink` propagates the lookup table's out-of-range-level error.
#[test]
fn test_try_relink_out_of_range_level() {
    let mut core = BaseCore::new(
        random_identifier(),
        random_membership_vector(),
        ArrayLookupTable::new(),
    );

    let result = core.try_relink(LOOKUP_TABLE_LEVELS, Direction::Left, random_identity());

    assert!(
        result.is_err(),
        "expected an error but got a success result"
    );
}

fn search(
    core: &BaseCore<ArrayLookupTable>,
    target: Identifier,
    level: LookupTableLevel,
    direction: Direction,
) -> (LookupTableLevel, Identifier) {
    let nonce = Nonce::random();
    let req = IdSearchReq { nonce, target, origin: core.id(), level, direction };
    let res = core.search_by_id(req).unwrap();
    assert_eq!(res.nonce, nonce);
    assert_eq!(res.target, target);
    (res.termination_level, res.result)
}

fn id(n: u8) -> Identifier {
    Identifier::from_bytes(&[n]).unwrap()
}

fn identity(n: u8) -> Identity {
    Identity::new(id(n), random_membership_vector(), random_address())
}

/// Of two levels with the same neighbor, a search to the left takes the lower one and a
/// search to the right the higher one.
#[test]
fn search_breaks_ties_by_level() {
    let mut lt = ArrayLookupTable::new();
    let left = identity(20);
    let right = identity(5);
    for level in [2, 4] {
        lt.update_entry(left, level, Direction::Left).unwrap();
        lt.update_entry(right, level, Direction::Right).unwrap();
    }
    let core = make_core(id(10), lt);
    assert_eq!(search(&core, id(12), 9, Direction::Left), (2, id(20)));
    assert_eq!(search(&core, id(12), 9, Direction::Right), (4, id(5)));
    assert_eq!(search(&core, id(12), 3, Direction::Right), (2, id(5)));
}

/// The level of a request is the highest one that its search reads.
#[test]
fn search_reads_no_level_above_the_request() {
    let mut lt = ArrayLookupTable::new();
    lt.update_entry(identity(15), 0, Direction::Right).unwrap();
    lt.update_entry(identity(40), 3, Direction::Right).unwrap();
    let core = make_core(id(10), lt);
    assert_eq!(search(&core, id(50), 2, Direction::Right), (0, id(15)));
    assert_eq!(search(&core, id(50), 3, Direction::Right), (3, id(40)));
    assert_eq!(search(&core, id(30), 3, Direction::Right), (0, id(15)));
    assert_eq!(search(&core, id(12), 3, Direction::Right), (0, id(10)));
}

/// A request above the levels of the table fails at the first level that the table lacks.
#[test]
fn search_above_the_table_fails() {
    let core = make_core(id(10), ArrayLookupTable::new());
    let req = IdSearchReq {
        nonce: Nonce::random(),
        target: id(1),
        origin: id(2),
        level: usize::MAX,
        direction: Direction::Left,
    };
    let e = core.search_by_id(req).unwrap_err();
    assert_eq!(e.level, LOOKUP_TABLE_LEVELS);
    assert_eq!(e.source, LookupError::LevelOutOfRange { level: 256 });
    assert_eq!(
        e.message(),
        "error while searching by id in level 256: position is larger than the max lookup \
         table entry number: 256"
    );
}

/// Vectors match at every level up to their common prefix, and never beyond their length.
#[test]
fn prefix_match_is_monotone() {
    let mut bytes = [0u8; IDENTIFIER_SIZE_BYTES];
    bytes[2] = 0b0100_0000;
    let mem_vec = MembershipVector::from_bytes(&bytes).unwrap();
    let zero = MembershipVector::from_bytes(&[0u8; 32]).unwrap();
    let core = BaseCore::new(id(1), zero, ArrayLookupTable::new());
    for level in 0..=17 {
        assert!(core.prefix_match(mem_vec, level));
    }
    assert!(!core.prefix_match(mem_vec, 18));
    assert!(core.prefix_match(zero, 256));
    assert!(!core.prefix_match(zero, 257));
}

/// A neighbor is read as the table holds it.
#[test]
fn neighbor_entry_reads_the_table() {
    let mut lt = ArrayLookupTable::new();
    let neighbor = identity(9);
    lt.update_entry(neighbor, 1, Direction::Left).unwrap();
    let core = make_core(id(10), lt);
    assert_eq!(core.neighbor_entry(1, Direction::Left), Ok(Some(neighbor)));
    assert_eq!(core.neighbor_entry(1, Direction::Right), Ok(None));
    assert_eq!(
        core.neighbor_entry(256, Direction::Right),
        Err(LookupError::LevelOutOfRange { level: 256 })
    );
}

/// One repair check, walked from table to table, heals the backpointers that two crossing
/// joins have lost.
#[test]
fn repair_check_heals_lost_backpointers() {
    let [a, b, c, d] = [identity(10), identity(20), identity(30), identity(40)];
    let table = |left: Option<Identity>, right: Option<Identity>| {
        let mut lt = ArrayLookupTable::new();
        if let Some(left) = left {
            lt.update_entry(left, 0, Direction::Left).unwrap();
        }
        if let Some(right) = right {
            lt.update_entry(right, 0, Direction::Right).unwrap();
        }
        lt
    };
    let mut at_a = make_core(a.id(), table(None, Some(b)));
    let mut at_b = make_core(b.id(), table(Some(a), Some(d)));
    let mut at_c = make_core(c.id(), table(Some(a), Some(d)));
    let mut at_d = make_core(d.id(), table(Some(c), None));

    // b asks d, which passes the check to c, which relinks and evicts a.
    assert_eq!(at_d.try_relink(0, Direction::Left, b).unwrap(), RelinkOutcome::Forward(c));
    assert_eq!(
        at_c.try_relink(0, Direction::Left, b).unwrap(),
        RelinkOutcome::Relinked { evicted: Some(a) }
    );
    // c tells b, and checks with a, which passes the check to b.
    assert_eq!(at_b.try_link(0, Direction::Right, c).unwrap(), LinkOutcome::LinkedDirectly);
    assert_eq!(at_a.try_relink(0, Direction::Right, c).unwrap(), RelinkOutcome::Forward(b));
    assert_eq!(
        at_b.try_relink(0, Direction::Right, c).unwrap(),
        RelinkOutcome::AlreadyConsistent
    );

    assert_eq!(at_a.neighbor_entry(0, Direction::Right), Ok(Some(b)));
    assert_eq!(at_b.neighbor_entry(0, Direction::Left), Ok(Some(a)));
    assert_eq!(at_b.neighbor_entry(0, Direction::Right), Ok(Some(c)));
    assert_eq!(at_c.neighbor_entry(0, Direction::Left), Ok(Some(b)));
    assert_eq!(at_c.neighbor_entry(0, Direction::Right), Ok(Some(d)));
    assert_eq!(at_d.neighbor_entry(0, Direction::Left), Ok(Some(c)));
}
