use check_filter::{AccessConflict, CheckFetch, CheckState, QueryAccess, StorageLayout};
use std::collections::HashMap;

#[derive(Clone, Copy, Debug, PartialEq)]
struct Health(i32);

fn greater_than_fifty(h: &Health) -> bool {
    h.0 > 50
}

#[test]
fn dense_rows_follow_predicate() {
    let state = CheckState::init_state(4, StorageLayout::Dense);
    let mut fetch: CheckFetch<Health> = CheckFetch::init_fetch(&state, None);
    let column = vec![Health(30), Health(60), Health(51)];
    fetch.set_table(&state, &column);
    let got: Vec<bool> = (0..3usize)
        .map(|row| fetch.filter_fetch(100 + row as u64, row, &greater_than_fifty))
        .collect();
    assert_eq!(got, vec![false, true, true]);
}

#[test]
fn sparse_rows_follow_predicate_in_any_order() {
    let state = CheckState::init_state(7, StorageLayout::Sparse);
    let mut values = HashMap::new();
    values.insert(10u64, Health(30));
    values.insert(11u64, Health(60));
    values.insert(12u64, Health(51));
    let mut fetch: CheckFetch<Health> = CheckFetch::init_fetch(&state, Some(&values));
    let forward: Vec<bool> = [10u64, 11, 12]
        .iter()
        .enumerate()
        .map(|(row, e)| fetch.filter_fetch(*e, row, &greater_than_fifty))
        .collect();
    assert_eq!(forward, vec![false, true, true]);
    let backward: Vec<bool> = [12u64, 11, 10]
        .iter()
        .map(|e| fetch.filter_fetch(*e, 0, &greater_than_fifty))
        .collect();
    assert_eq!(backward, vec![true, true, false]);
}

#[test]
fn sparse_fetch_ignores_tables() {
    let state = CheckState::init_state(7, StorageLayout::Sparse);
    let mut values = HashMap::new();
    values.insert(5u64, Health(80));
    let mut fetch: CheckFetch<Health> = CheckFetch::init_fetch(&state, Some(&values));
    let column = vec![Health(1)];
    fetch.set_archetype(&state, &column);
    assert!(fetch.filter_fetch(5, 0, &greater_than_fifty));
}

#[test]
fn dense_archetype_binds_its_table() {
    let state = CheckState::init_state(2, StorageLayout::Dense);
    let mut fetch: CheckFetch<Health> = CheckFetch::init_fetch(&state, None);
    let first = vec![Health(90)];
    fetch.set_archetype(&state, &first);
    assert!(fetch.filter_fetch(1, 0, &greater_than_fifty));
    let second = vec![Health(10), Health(20)];
    fetch.set_archetype(&state, &second);
    assert!(!fetch.filter_fetch(1, 0, &greater_than_fifty));
    assert!(!fetch.filter_fetch(2, 1, &greater_than_fifty));
}

#[test]
fn repeated_tests_agree() {
    let state = CheckState::init_state(1, StorageLayout::Dense);
    let mut fetch: CheckFetch<Health> = CheckFetch::init_fetch(&state, None);
    let column = vec![Health(30), Health(60), Health(51)];
    fetch.set_table(&state, &column);
    let first: Vec<bool> = [2usize, 0, 1]
        .iter()
        .map(|r| fetch.filter_fetch(0, *r, &greater_than_fifty))
        .collect();
    let again: Vec<bool> = [2usize, 0, 1]
        .iter()
        .map(|r| fetch.filter_fetch(0, *r, &greater_than_fifty))
        .collect();
    assert_eq!(first, vec![true, false, true]);
    assert_eq!(first, again);
}

#[test]
fn shrunk_and_cloned_fetches_read_the_same_rows() {
    let state = CheckState::init_state(1, StorageLayout::Dense);
    let mut fetch: CheckFetch<Health> = CheckFetch::init_fetch(&state, None);
    let column = vec![Health(30), Health(60)];
    fetch.set_table(&state, &column);
    let mut copy = fetch.clone();
    let mut shrunk = CheckFetch::shrink_fetch(fetch);
    assert!(!shrunk.filter_fetch(0, 0, &greater_than_fifty));
    assert!(shrunk.filter_fetch(0, 1, &greater_than_fifty));
    assert!(copy.filter_fetch(0, 1, &greater_than_fifty));
}

#[test]
fn shape_prefilter_is_membership() {
    let state = CheckState::init_state(3, StorageLayout::Dense);
    assert!(state.matches_schema_shape(&[1, 3, 5]));
    assert!(!state.matches_schema_shape(&[1, 2, 5]));
    assert!(!state.matches_schema_shape(&[]));
    assert!(state.matches_component_set(&|id: usize| id == 3));
    assert!(!state.matches_component_set(&|id: usize| id == 4));
}

#[test]
fn unregistered_component_matches_no_batch() {
    let missing = CheckState::get_state(None, StorageLayout::Dense);
    assert_eq!(missing, None);
    assert!(!CheckState::matches_resolved(&missing, &[0, 1, 2, 3]));
    assert!(!CheckState::matches_resolved(&missing, &[]));
    let found = CheckState::get_state(Some(2), StorageLayout::Sparse);
    assert_eq!(
        found,
        Some(CheckState { component_id: 2, layout: StorageLayout::Sparse })
    );
    assert!(CheckState::matches_resolved(&found, &[0, 2]));
    assert!(!CheckState::matches_resolved(&found, &[0, 1]));
}

#[test]
fn read_after_write_conflicts() {
    let state = CheckState::init_state(6, StorageLayout::Dense);
    let mut access = QueryAccess::new();
    access.add_component_write(6);
    assert!(access.has_component_write(6));
    assert_eq!(
        state.update_component_access(&mut access),
        Err(AccessConflict { component_id: 6 })
    );
}

#[test]
fn read_after_read_succeeds() {
    let state = CheckState::init_state(6, StorageLayout::Dense);
    let mut access = QueryAccess::new();
    access.add_component_read(6);
    assert!(!access.has_component_write(6));
    assert_eq!(state.update_component_access(&mut access), Ok(()));
    assert_eq!(state.update_component_access(&mut access), Ok(()));
    assert!(!access.has_component_write(6));
}

#[test]
fn write_on_other_component_does_not_conflict() {
    let state = CheckState::init_state(6, StorageLayout::Dense);
    let mut access = QueryAccess::new();
    access.add_component_write(5);
    assert!(access.has_component_write(5));
    assert!(!access.has_component_write(6));
    assert_eq!(state.update_component_access(&mut access), Ok(()));
}

#[test]
fn fresh_access_holds_no_write() {
    let access = QueryAccess::new();
    assert!(!access.has_component_write(0));
    assert!(!access.has_component_write(6));
}
