use skip_graph::model::IDENTIFIER_SIZE_BYTES;
use skip_graph::Address;
use skip_graph::ArrayLookupTable;
use skip_graph::Direction;
use skip_graph::Identifier;
use skip_graph::Identity;
use skip_graph::LinkOutcome;
use skip_graph::LookupError;
use skip_graph::LookupTable;
use skip_graph::MembershipVector;
use skip_graph::RelinkOutcome;
use skip_graph::LOOKUP_TABLE_LEVELS;

fn random_identifier() -> Identifier {
    Identifier::from_bytes(&rand::random::<[u8; IDENTIFIER_SIZE_BYTES]>()).unwrap()
}

fn random_membership_vector() -> MembershipVector {
    MembershipVector::from_bytes(&rand::random::<[u8; IDENTIFIER_SIZE_BYTES]>()).unwrap()
}

fn random_address() -> Address {
    Address { host: rand::random(), port: rand::random() }
}

fn random_identity() -> Identity {
    Identity::new(random_identifier(), random_membership_vector(), random_address())
}

/// A random identifier above `bound`: its successor, with a random lower half where that
/// is larger still.
fn random_identifier_greater_than(bound: &Identifier) -> Identifier {
    let mut bytes = bound.to_bytes();
    for i in (0..16).rev() {
        if bytes[i] < u8::MAX {
            bytes[i] += 1;
            break;
        }
        bytes[i] = 0;
    }
    bytes[16..].copy_from_slice(&rand::random::<[u8; 16]>());
    let id = Identifier::from_bytes(&bytes).unwrap();
    assert!(id > *bound);
    id
}

/// A random identifier below `bound`.
fn random_identifier_less_than(bound: &Identifier) -> Identifier {
    let mut bytes = bound.to_bytes();
    for i in (0..16).rev() {
        if bytes[i] > 0 {
            bytes[i] -= 1;
            break;
        }
        bytes[i] = u8::MAX;
    }
    bytes[16..].copy_from_slice(&rand::random::<[u8; 16]>());
    let id = Identifier::from_bytes(&bytes).unwrap();
    assert!(id < *bound);
    id
}

/// A table with a random entry in every slot below `levels`.
fn random_lookup_table(levels: usize) -> ArrayLookupTable {
    let mut lt = ArrayLookupTable::new();
    for level in 0..levels {
        lt.update_entry(random_identity(), level, Direction::Left).unwrap();
        lt.update_entry(random_identity(), level, Direction::Right).unwrap();
    }
    lt
}

/// A new lookup table should be empty.
#[test]
fn test_lookup_table_empty() {
    let lt: ArrayLookupTable = ArrayLookupTable::new();
    for i in 0..IDENTIFIER_SIZE_BYTES {
        assert_eq!(None, lt.get_entry(i, Direction::Left).unwrap());
        assert_eq!(None, lt.get_entry(i, Direction::Right).unwrap());
    }
}

/// Test updating and getting entries in the lookup table.
/// The test will update the entries at level 0 and 1, and then get them.
/// The test will also get the entry at level 2, which holds nothing.
#[test]
fn test_lookup_table_update_get() {
    let mut lt = ArrayLookupTable::new();
    let id1 = random_identity();
    let id2 = random_identity();

    lt.update_entry(id1, 0, Direction::Left).unwrap();
    lt.update_entry(id2, 1, Direction::Right).unwrap();

    assert_eq!(Some(id1), lt.get_entry(0, Direction::Left).unwrap());
    assert_eq!(Some(id2), lt.get_entry(1, Direction::Right).unwrap());
    assert_eq!(None, lt.get_entry(2, Direction::Left).unwrap());
}

/// Test removing entries in the lookup table.
/// The test will update the entries at level 0 and 1, and then remove them.
/// The test will then try to get the removed entries, which should return None.
#[test]
fn test_lookup_table_remove() {
    let mut lt = ArrayLookupTable::new();
    let id1 = random_identity();
    let id2 = random_identity();

    lt.update_entry(id1, 0, Direction::Left).unwrap();
    lt.update_entry(id2, 1, Direction::Right).unwrap();

    lt.remove_entry(0, Direction::Left).unwrap();
    lt.remove_entry(1, Direction::Right).unwrap();

    assert_eq!(None, lt.get_entry(0, Direction::Left).unwrap());
    assert_eq!(None, lt.get_entry(1, Direction::Right).unwrap());
}

/// Test updating entries at out-of-bound levels.
#[test]
fn test_lookup_table_out_of_bound() {
    let mut lt = ArrayLookupTable::new();
    let id = random_identity();

    let result = lt.update_entry(id, LOOKUP_TABLE_LEVELS, Direction::Left);
    assert!(result.is_err());

    let result = lt.update_entry(id, LOOKUP_TABLE_LEVELS, Direction::Right);
    assert!(result.is_err());

    let result = lt.get_entry(LOOKUP_TABLE_LEVELS, Direction::Left);
    assert!(result.is_err());

    let result = lt.get_entry(LOOKUP_TABLE_LEVELS, Direction::Right);
    assert!(result.is_err());

    let result = lt.remove_entry(LOOKUP_TABLE_LEVELS, Direction::Left);
    assert!(result.is_err());

    let result = lt.remove_entry(LOOKUP_TABLE_LEVELS, Direction::Right);
    assert!(result.is_err());
}

/// Test overriding entries in the lookup table.
/// The test will update the entry at level 0, then update it again with a different identity.
/// The test will then get the entry at level 0, which should return the second identity.
#[test]
fn test_lookup_table_override() {
    let mut lt = ArrayLookupTable::new();
    let id1 = random_identity();
    let id2 = random_identity();

    lt.update_entry(id1, 0, Direction::Left).unwrap();
    assert_eq!(Some(id1), lt.get_entry(0, Direction::Left).unwrap());

    lt.update_entry(id2, 0, Direction::Left).unwrap();

    assert_eq!(Some(id2), lt.get_entry(0, Direction::Left).unwrap());
}

/// try_link into an empty slot links directly and inserts the candidate, on both sides.
#[test]
fn test_try_link_empty_slot_links_directly() {
    let mut lt = ArrayLookupTable::new();
    let right_candidate = random_identity();
    let left_candidate = random_identity();

    let outcome = lt.try_link(0, Direction::Right, right_candidate).unwrap();
    assert_eq!(outcome, LinkOutcome::LinkedDirectly);
    assert_eq!(
        lt.get_entry(0, Direction::Right).unwrap(),
        Some(right_candidate)
    );

    let outcome = lt.try_link(0, Direction::Left, left_candidate).unwrap();
    assert_eq!(outcome, LinkOutcome::LinkedDirectly);
    assert_eq!(
        lt.get_entry(0, Direction::Left).unwrap(),
        Some(left_candidate)
    );
}

/// an existing right neighbor that does NOT sit strictly between self and the
/// candidate (existing.id() > candidate.id()) is overwritten: try_link links directly and
/// get_entry afterward reflects the new candidate, not the old neighbor.
#[test]
fn test_try_link_existing_not_between_overwrites_right() {
    let mut lt = ArrayLookupTable::new();
    let candidate_id = random_identifier();
    let candidate = Identity::new(candidate_id, random_membership_vector(), random_address());

    let existing_id = random_identifier_greater_than(&candidate_id);
    let existing = Identity::new(existing_id, random_membership_vector(), random_address());
    lt.update_entry(existing, 0, Direction::Right).unwrap();

    let outcome = lt.try_link(0, Direction::Right, candidate).unwrap();
    assert_eq!(outcome, LinkOutcome::LinkedDirectly);
    assert_eq!(lt.get_entry(0, Direction::Right).unwrap(), Some(candidate));
}

/// an existing left neighbor that does NOT sit strictly between self and the
/// candidate (existing.id() < candidate.id()) is overwritten: try_link links directly and
/// get_entry afterward reflects the new candidate, not the old neighbor.
#[test]
fn test_try_link_existing_not_between_overwrites_left() {
    let mut lt = ArrayLookupTable::new();
    let candidate_id = random_identifier();
    let candidate = Identity::new(candidate_id, random_membership_vector(), random_address());

    let existing_id = random_identifier_less_than(&candidate_id);
    let existing = Identity::new(existing_id, random_membership_vector(), random_address());
    lt.update_entry(existing, 0, Direction::Left).unwrap();

    let outcome = lt.try_link(0, Direction::Left, candidate).unwrap();
    assert_eq!(outcome, LinkOutcome::LinkedDirectly);
    assert_eq!(lt.get_entry(0, Direction::Left).unwrap(), Some(candidate));
}

/// an existing right neighbor that sits strictly between self and the candidate
/// (existing.id() < candidate.id()) causes try_link to forward instead of linking: the table
/// is left unchanged, still holding the existing neighbor.
#[test]
fn test_try_link_existing_between_forwards_right() {
    let mut lt = ArrayLookupTable::new();
    let candidate_id = random_identifier();
    let candidate = Identity::new(candidate_id, random_membership_vector(), random_address());

    let existing_id = random_identifier_less_than(&candidate_id);
    let existing = Identity::new(existing_id, random_membership_vector(), random_address());
    lt.update_entry(existing, 0, Direction::Right).unwrap();

    let outcome = lt.try_link(0, Direction::Right, candidate).unwrap();
    assert_eq!(outcome, LinkOutcome::Forward(existing));
    assert_eq!(lt.get_entry(0, Direction::Right).unwrap(), Some(existing));
}

/// an existing left neighbor that sits strictly between self and the candidate
/// (existing.id() > candidate.id()) causes try_link to forward instead of linking: the table
/// is left unchanged, still holding the existing neighbor.
#[test]
fn test_try_link_existing_between_forwards_left() {
    let mut lt = ArrayLookupTable::new();
    let candidate_id = random_identifier();
    let candidate = Identity::new(candidate_id, random_membership_vector(), random_address());

    let existing_id = random_identifier_greater_than(&candidate_id);
    let existing = Identity::new(existing_id, random_membership_vector(), random_address());
    lt.update_entry(existing, 0, Direction::Left).unwrap();

    let outcome = lt.try_link(0, Direction::Left, candidate).unwrap();
    assert_eq!(outcome, LinkOutcome::Forward(existing));
    assert_eq!(lt.get_entry(0, Direction::Left).unwrap(), Some(existing));
}

/// try_link at an out-of-range level returns an error, matching the other lookup-table
/// accessors' bounds-checking behavior.
#[test]
fn test_try_link_out_of_bound_level_errors() {
    let mut lt = ArrayLookupTable::new();
    let candidate = random_identity();

    let result = lt.try_link(LOOKUP_TABLE_LEVELS, Direction::Right, candidate);
    assert!(result.is_err());

    let result = lt.try_link(LOOKUP_TABLE_LEVELS, Direction::Left, candidate);
    assert!(result.is_err());
}

/// try_relink is a no-op returning AlreadyConsistent when the entry already equals the
/// claimant, on both sides.
#[test]
fn array_lookup_table_test_test_try_relink_already_consistent() {
    let mut lt = ArrayLookupTable::new();
    let existing = random_identity();
    lt.update_entry(existing, 0, Direction::Right).unwrap();
    lt.update_entry(existing, 0, Direction::Left).unwrap();
    let outcome = lt.try_relink(0, Direction::Right, existing).unwrap();
    assert_eq!(outcome, RelinkOutcome::AlreadyConsistent);
    assert_eq!(lt.get_entry(0, Direction::Right).unwrap(), Some(existing));
    let outcome = lt.try_relink(0, Direction::Left, existing).unwrap();
    assert_eq!(outcome, RelinkOutcome::AlreadyConsistent);
    assert_eq!(lt.get_entry(0, Direction::Left).unwrap(), Some(existing));
}

/// an existing right neighbor strictly between self and the claimant
/// (existing.id() < claimant.id()) forwards instead of relinking; table unchanged.
#[test]
fn test_try_relink_existing_between_forwards_right() {
    let mut lt = ArrayLookupTable::new();
    let claimant_id = random_identifier();
    let claimant = Identity::new(claimant_id, random_membership_vector(), random_address());
    let existing_id = random_identifier_less_than(&claimant_id);
    let existing = Identity::new(existing_id, random_membership_vector(), random_address());
    lt.update_entry(existing, 0, Direction::Right).unwrap();
    let outcome = lt.try_relink(0, Direction::Right, claimant).unwrap();
    assert_eq!(outcome, RelinkOutcome::Forward(existing));
    assert_eq!(lt.get_entry(0, Direction::Right).unwrap(), Some(existing));
}

/// an existing left neighbor strictly between self and the claimant
/// (existing.id() > claimant.id()) forwards instead of relinking; table unchanged.
#[test]
fn test_try_relink_existing_between_forwards_left() {
    let mut lt = ArrayLookupTable::new();
    let claimant_id = random_identifier();
    let claimant = Identity::new(claimant_id, random_membership_vector(), random_address());
    let existing_id = random_identifier_greater_than(&claimant_id);
    let existing = Identity::new(existing_id, random_membership_vector(), random_address());
    lt.update_entry(existing, 0, Direction::Left).unwrap();
    let outcome = lt.try_relink(0, Direction::Left, claimant).unwrap();
    assert_eq!(outcome, RelinkOutcome::Forward(existing));
    assert_eq!(lt.get_entry(0, Direction::Left).unwrap(), Some(existing));
}

/// try_relink into an empty slot relinks with no eviction, on both sides.
#[test]
fn test_try_relink_empty_slot_relinks_with_no_eviction() {
    let mut lt = ArrayLookupTable::new();
    let right_claimant = random_identity();
    let left_claimant = random_identity();
    let outcome = lt.try_relink(0, Direction::Right, right_claimant).unwrap();
    assert_eq!(outcome, RelinkOutcome::Relinked { evicted: None });
    assert_eq!(
        lt.get_entry(0, Direction::Right).unwrap(),
        Some(right_claimant)
    );
    let outcome = lt.try_relink(0, Direction::Left, left_claimant).unwrap();
    assert_eq!(outcome, RelinkOutcome::Relinked { evicted: None });
    assert_eq!(
        lt.get_entry(0, Direction::Left).unwrap(),
        Some(left_claimant)
    );
}

/// an existing right neighbor NOT strictly between self and the claimant
/// (existing.id() > claimant.id()) is evicted; get_entry afterward reflects the claimant.
#[test]
fn test_try_relink_existing_not_between_evicts_right() {
    let mut lt = ArrayLookupTable::new();
    let claimant_id = random_identifier();
    let claimant = Identity::new(claimant_id, random_membership_vector(), random_address());
    let existing_id = random_identifier_greater_than(&claimant_id);
    let existing = Identity::new(existing_id, random_membership_vector(), random_address());
    lt.update_entry(existing, 0, Direction::Right).unwrap();
    let outcome = lt.try_relink(0, Direction::Right, claimant).unwrap();
    assert_eq!(
        outcome,
        RelinkOutcome::Relinked {
            evicted: Some(existing)
        }
    );
    assert_eq!(lt.get_entry(0, Direction::Right).unwrap(), Some(claimant));
}

/// an existing left neighbor NOT strictly between self and the claimant
/// (existing.id() < claimant.id()) is evicted; get_entry afterward reflects the claimant.
#[test]
fn test_try_relink_existing_not_between_evicts_left() {
    let mut lt = ArrayLookupTable::new();
    let claimant_id = random_identifier();
    let claimant = Identity::new(claimant_id, random_membership_vector(), random_address());
    let existing_id = random_identifier_less_than(&claimant_id);
    let existing = Identity::new(existing_id, random_membership_vector(), random_address());
    lt.update_entry(existing, 0, Direction::Left).unwrap();
    let outcome = lt.try_relink(0, Direction::Left, claimant).unwrap();
    assert_eq!(
        outcome,
        RelinkOutcome::Relinked {
            evicted: Some(existing)
        }
    );
    assert_eq!(lt.get_entry(0, Direction::Left).unwrap(), Some(claimant));
}

/// try_relink at an out-of-range level returns an error, matching the other
/// lookup-table accessors' bounds-checking behavior.
#[test]
fn test_try_relink_out_of_bound_level_errors() {
    let mut lt = ArrayLookupTable::new();
    let claimant = random_identity();
    assert!(lt
        .try_relink(LOOKUP_TABLE_LEVELS, Direction::Right, claimant)
        .is_err());
    assert!(lt
        .try_relink(LOOKUP_TABLE_LEVELS, Direction::Left, claimant)
        .is_err());
}

/// Tests the retrieval of left and right neighbors from the lookup table.
#[test]
fn test_left_and_right_neighbors() {
    let lt = random_lookup_table(LOOKUP_TABLE_LEVELS);

    let rights = lt.right_neighbors();
    assert_eq!(rights.len(), LOOKUP_TABLE_LEVELS);
    for (level, identity) in rights.iter() {
        assert_eq!(
            lt.get_entry(*level, Direction::Right).unwrap(),
            Some(*identity)
        );
    }

    let lefts = lt.left_neighbors();
    assert_eq!(lefts.len(), LOOKUP_TABLE_LEVELS);
    for (level, identity) in lefts.iter() {
        assert_eq!(
            lt.get_entry(*level, Direction::Left).unwrap(),
            Some(*identity)
        );
    }
}

/// `max_populated_level` on an empty table returns `None`, distinguishing "nothing
/// populated" from a populated level 0.
#[test]
fn test_max_populated_level_empty_table() {
    let lt = ArrayLookupTable::new();
    assert_eq!(lt.max_populated_level(), None);
}

/// `max_populated_level` returns the populated level when only one side of the table has
/// an entry.
#[test]
fn test_max_populated_level_one_side_populated() {
    let mut lt = ArrayLookupTable::new();
    lt.update_entry(random_identity(), 4, Direction::Left)
        .unwrap();
    assert_eq!(lt.max_populated_level(), Some(4));
}

/// `max_populated_level` returns the higher of the two levels when left and right are
/// populated at different levels.
#[test]
fn test_max_populated_level_both_sides_different_levels() {
    let mut lt = ArrayLookupTable::new();
    lt.update_entry(random_identity(), 2, Direction::Left)
        .unwrap();
    lt.update_entry(random_identity(), 6, Direction::Right)
        .unwrap();
    assert_eq!(lt.max_populated_level(), Some(6));
}

/// `max_populated_level` returns `Some(0)`, not `None`, when level 0 is the only populated
/// entry. An empty table and a table populated only at level 0 must not be conflated.
#[test]
fn test_max_populated_level_only_level_zero_populated() {
    let mut lt = ArrayLookupTable::new();
    lt.update_entry(random_identity(), 0, Direction::Right)
        .unwrap();
    assert_eq!(lt.max_populated_level(), Some(0));
}

/// A refused access names the level, changes nothing and is reported as a position beyond
/// the table.
#[test]
fn refused_accesses_name_the_level_and_change_nothing() {
    let mut lt = ArrayLookupTable::default();
    let id = random_identity();
    lt.update_entry(id, 3, Direction::Left).unwrap();
    let refused = LookupError::LevelOutOfRange { level: 300 };
    assert_eq!(lt.update_entry(id, 300, Direction::Left), Err(LookupError::LevelOutOfRange { level: 300 }));
    assert_eq!(lt.remove_entry(300, Direction::Right), Err(LookupError::LevelOutOfRange { level: 300 }));
    assert_eq!(lt.get_entry(300, Direction::Right), Err(LookupError::LevelOutOfRange { level: 300 }));
    assert_eq!(lt.try_link(300, Direction::Right, id), Err(LookupError::LevelOutOfRange { level: 300 }));
    assert_eq!(lt.try_relink(300, Direction::Right, id), Err(LookupError::LevelOutOfRange { level: 300 }));
    assert_eq!(lt.left_neighbors(), vec![(3, id)]);
    assert_eq!(lt.right_neighbors(), vec![]);
    assert_eq!(
        refused.message(),
        "position is larger than the max lookup table entry number: 300"
    );
    assert_eq!(LookupError::Storage { reason: "disk".to_string() }.message(), "disk");
}

/// Both directions of one level are separate slots, and so are the levels of one direction.
#[test]
fn slots_are_separate() {
    let mut lt = ArrayLookupTable::new();
    let a = random_identity();
    let b = random_identity();
    lt.update_entry(a, 5, Direction::Left).unwrap();
    lt.update_entry(b, 5, Direction::Right).unwrap();
    lt.remove_entry(5, Direction::Left).unwrap();
    assert_eq!(lt.get_entry(5, Direction::Left).unwrap(), None);
    assert_eq!(lt.get_entry(5, Direction::Right).unwrap(), Some(b));
    assert_eq!(lt.get_entry(4, Direction::Right).unwrap(), None);
    assert_eq!(lt.get_entry(LOOKUP_TABLE_LEVELS - 1, Direction::Right).unwrap(), None);
}

/// An entry with the candidate's identifier but another address does not bar it.
#[test]
fn same_identifier_with_another_address_is_replaced() {
    let mut lt = ArrayLookupTable::new();
    let id = random_identifier();
    let mem_vec = random_membership_vector();
    let moved_from = Identity::new(id, mem_vec, Address { host: 1, port: 1 });
    let moved_to = Identity::new(id, mem_vec, Address { host: 2, port: 2 });
    lt.update_entry(moved_from, 0, Direction::Right).unwrap();
    assert_eq!(
        lt.try_relink(0, Direction::Right, moved_to).unwrap(),
        RelinkOutcome::Relinked { evicted: Some(moved_from) }
    );
    assert_eq!(lt.get_entry(0, Direction::Right).unwrap(), Some(moved_to));
}

/// A link request and a repair check by one node agree, a granted link is consistent from
/// then on, and repeating the proposal changes nothing.
#[test]
fn granted_links_are_consistent() {
    let mut lt = ArrayLookupTable::new();
    let candidate = random_identity();
    assert_eq!(
        lt.try_link(7, Direction::Left, candidate).unwrap(),
        LinkOutcome::LinkedDirectly
    );
    assert_eq!(
        lt.try_relink(7, Direction::Left, candidate).unwrap(),
        RelinkOutcome::AlreadyConsistent
    );
    assert_eq!(
        lt.try_link(7, Direction::Left, candidate).unwrap(),
        LinkOutcome::LinkedDirectly
    );
    assert_eq!(lt.left_neighbors(), vec![(7, candidate)]);
}

/// The nearest of two candidates ends up in the slot, in whichever order they come.
#[test]
fn proposals_commute() {
    let near = random_identity();
    let far = Identity::new(
        random_identifier_greater_than(&near.id()),
        random_membership_vector(),
        random_address(),
    );
    for order in [[near, far], [far, near]] {
        let mut lt = ArrayLookupTable::new();
        for candidate in order {
            lt.try_link(0, Direction::Right, candidate).unwrap();
        }
        assert_eq!(lt.get_entry(0, Direction::Right).unwrap(), Some(near));
    }
    for order in [[near, far], [far, near]] {
        let mut lt = ArrayLookupTable::new();
        for candidate in order {
            lt.try_link(0, Direction::Left, candidate).unwrap();
        }
        assert_eq!(lt.get_entry(0, Direction::Left).unwrap(), Some(far));
    }
}

/// Neighbor lists run from the lowest level upward and skip empty slots.
#[test]
fn neighbor_lists_ascend() {
    let mut lt = ArrayLookupTable::new();
    let (a, b, c) = (random_identity(), random_identity(), random_identity());
    lt.update_entry(c, 200, Direction::Right).unwrap();
    lt.update_entry(a, 0, Direction::Right).unwrap();
    lt.update_entry(b, 9, Direction::Right).unwrap();
    assert_eq!(lt.right_neighbors(), vec![(0, a), (9, b), (200, c)]);
    assert_eq!(lt.left_neighbors(), vec![]);
    assert_eq!(lt.max_populated_level(), Some(200));
}

/// After any series of proposals, by link request or repair check, an empty slot holds the
/// nearest identity offered.
#[test]
fn a_slot_holds_the_nearest_identity_offered() {
    let mut offered: Vec<Identity> = (0..12).map(|_| random_identity()).collect();
    let smallest = offered.iter().map(|i| i.id()).min().unwrap();
    let largest = offered.iter().map(|i| i.id()).max().unwrap();
    for _ in 0..12 {
        offered.rotate_left(1);
        let mut lt = ArrayLookupTable::new();
        for (i, identity) in offered.iter().enumerate() {
            if i % 2 == 0 {
                lt.try_link(4, Direction::Right, *identity).unwrap();
                lt.try_relink(4, Direction::Left, *identity).unwrap();
            } else {
                lt.try_relink(4, Direction::Right, *identity).unwrap();
                lt.try_link(4, Direction::Left, *identity).unwrap();
            }
        }
        assert_eq!(lt.get_entry(4, Direction::Right).unwrap().unwrap().id(), smallest);
        assert_eq!(lt.get_entry(4, Direction::Left).unwrap().unwrap().id(), largest);
    }
}
