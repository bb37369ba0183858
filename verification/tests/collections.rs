use fennec::collections::RangeSet;
use fennec::ops::RangeExclusive;

fn set_of(ranges: Vec<std::ops::Range<i64>>) -> RangeSet {
    RangeSet::from_iter(ranges.into_iter().map(RangeExclusive::from_std).collect())
}

#[test]
fn contains_positive() {
    let set = set_of(vec![1..3, 3..5]);
    assert_eq!(
        set.find_containing(RangeExclusive::from_std(1..2)),
        Some(RangeExclusive::from_std(1..3))
    );
}

#[test]
fn contains_negative() {
    let set = set_of(vec![1..3, 3..5]);
    assert!(set.find_containing(RangeExclusive::from_std(2..4)).is_none());
}

#[test]
fn exact_match() {
    let set = set_of(vec![1..3, 3..5]);
    assert_eq!(
        set.find_containing(RangeExclusive::from_std(1..3)),
        Some(RangeExclusive::from_std(1..3)),
    );
}

#[test]
fn falls_in_gap() {
    let set = set_of(vec![0..2, 3..5]);
    assert!(set.find_containing(RangeExclusive::from_std(2..3)).is_none());
}

#[test]
fn query_larger_than_stored() {
    let set = set_of(vec![2..3]);
    assert!(set.find_containing(RangeExclusive::from_std(1..5)).is_none());
}

#[test]
fn touching_neighbor_not_returned() {
    let set = set_of(vec![1..3, 3..5]);
    assert_eq!(
        set.find_containing(RangeExclusive::from_std(1..3)),
        Some(RangeExclusive::from_std(1..3)),
    );
}

#[test]
fn empty_set() {
    let set = set_of(vec![]);
    assert!(set.find_containing(RangeExclusive::from_std(0..1)).is_none());
}

#[test]
fn unsorted_duplicates_are_sorted_and_removed() {
    let set = set_of(vec![3..5, 1..3, 3..5, 1..2]);
    // The last range starting at or before 3 is 3..5:
    assert_eq!(
        set.find_containing(RangeExclusive::from_std(3..4)),
        Some(RangeExclusive::from_std(3..5))
    );
    // Among the ranges starting at 1, the later one in `(start, end)` order is picked:
    assert_eq!(
        set.find_containing(RangeExclusive::from_std(1..2)),
        Some(RangeExclusive::from_std(1..3))
    );
}

#[test]
fn found_range_covers_query() {
    let set = set_of(vec![0..10, 20..30, 40..50]);
    let query = RangeExclusive::from_std(22..28);
    let found = set.find_containing(query).unwrap();
    assert!(found.start <= query.start && query.end <= found.end);
    assert_eq!(found, RangeExclusive::from_std(20..30));
}

#[test]
fn empty_query_at_boundary_is_found() {
    // Non-intersecting ranges: an empty query at a shared boundary is covered.
    let set = set_of(vec![0..3, 3..6]);
    assert_eq!(
        set.find_containing(RangeExclusive::from_std(3..3)),
        Some(RangeExclusive::from_std(3..6))
    );
}
