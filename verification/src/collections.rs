//! Sorted set of half-open intervals.

use itertools::Itertools;
use vstd::prelude::*;

use crate::ops::RangeExclusive;

verus! {

broadcast use vstd::seq_lib::group_to_multiset_ensures;

/// `a` comes strictly before `b` when ordered by `(start, end)`.
pub open spec fn range_lt(a: RangeExclusive<i64>, b: RangeExclusive<i64>) -> bool {
    a.start < b.start || (a.start == b.start && a.end < b.end)
}

/// `a` comes before `b` or equals it when ordered by `(start, end)`.
pub open spec fn range_le(a: RangeExclusive<i64>, b: RangeExclusive<i64>) -> bool {
    a.start < b.start || (a.start == b.start && a.end <= b.end)
}

/// The ranges are ordered by `(start, end)`.
pub open spec fn sorted_ranges(s: Seq<RangeExclusive<i64>>) -> bool {
    forall|i: int, j: int| 0 <= i < j < s.len() ==> range_le(#[trigger] s[i], #[trigger] s[j])
}

/// The ranges are ordered by `(start, end)` without repetitions.
pub open spec fn strictly_sorted_ranges(s: Seq<RangeExclusive<i64>>) -> bool {
    forall|i: int, j: int| 0 <= i < j < s.len() ==> range_lt(#[trigger] s[i], #[trigger] s[j])
}

/// The last range of `s` that starts no later than `inner` does, provided that it also ends
/// no earlier than `inner` does.
pub open spec fn spec_find_containing(
    s: Seq<RangeExclusive<i64>>,
    inner: RangeExclusive<i64>,
) -> Option<RangeExclusive<i64>>
    decreases s.len(),
{
    if s.len() == 0 {
        None
    } else if s.last().start <= inner.start {
        if inner.end <= s.last().end {
            Some(s.last())
        } else {
            None
        }
    } else {
        spec_find_containing(s.drop_last(), inner)
    }
}

/// `outer` covers `inner`.
pub open spec fn range_covers(outer: RangeExclusive<i64>, inner: RangeExclusive<i64>) -> bool {
    outer.start <= inner.start && inner.end <= outer.end
}

/// Every range of `s` has its start no later than its end.
pub open spec fn well_formed_ranges(s: Seq<RangeExclusive<i64>>) -> bool {
    forall|i: int| 0 <= i < s.len() ==> (#[trigger] s[i]).start <= s[i].end
}

/// No two distinct entries of `s` intersect (as half-open ranges).
pub open spec fn non_intersecting(s: Seq<RangeExclusive<i64>>) -> bool {
    forall|i: int, j: int|
        0 <= i < s.len() && 0 <= j < s.len() && i != j ==> (#[trigger] s[i]).end <= (#[trigger] s[j]).start
            || s[j].end <= s[i].start
}

/// Sorts the ranges by `(start, end)` with `Itertools::sorted_by_key`.
#[verifier::external_body]
fn sort_ranges(ranges: Vec<RangeExclusive<i64>>) -> (sorted: Vec<RangeExclusive<i64>>)
    ensures
        sorted@.to_multiset() == ranges@.to_multiset(),
        sorted_ranges(sorted@),
{
    ranges.into_iter().sorted_by_key(|range| (range.start, range.end)).collect()
}

/// Set of unique intervals, kept ordered by `(start, end)`.
pub struct RangeSet(Vec<RangeExclusive<i64>>);

impl View for RangeSet {
    type V = Seq<RangeExclusive<i64>>;

    closed spec fn view(&self) -> Seq<RangeExclusive<i64>> {
        self.0@
    }
}

impl RangeSet {
    #[verifier::type_invariant]
    spec fn is_strictly_sorted(self) -> bool {
        strictly_sorted_ranges(self.0@)
    }

    /// Collect the ranges into a set: sort them and drop repetitions.
    pub fn from_iter(ranges: Vec<RangeExclusive<i64>>) -> (set: Self)
        ensures
            strictly_sorted_ranges(set@),
            forall|r: RangeExclusive<i64>| set@.contains(r) <==> ranges@.contains(r),
    {
        let sorted = sort_ranges(ranges);
        assert forall|r: RangeExclusive<i64>| sorted@.contains(r) <==> ranges@.contains(r) by {
            assert(sorted@.to_multiset().count(r) == ranges@.to_multiset().count(r));
        }
        let mut unique: Vec<RangeExclusive<i64>> = Vec::new();
        let n = sorted.len();
        for i in 0..n
            invariant
                n == sorted@.len(),
                sorted_ranges(sorted@),
                strictly_sorted_ranges(unique@),
                i == 0 ==> unique@.len() == 0,
                i > 0 ==> unique@.len() > 0 && unique@.last() == sorted@[i - 1],
                forall|r: RangeExclusive<i64>|
                    unique@.contains(r) <==> sorted@.take(i as int).contains(r),
        {
            let range = sorted[i];
            let ghost before = unique@;
            if unique.len() == 0 || unique[unique.len() - 1] != range {
                proof {
                    if i > 0 {
                        assert(range_le(sorted@[i - 1], sorted@[i as int]));
                        assert(range_lt(before.last(), range));
                        assert forall|k: int| 0 <= k < before.len() implies range_lt(
                            #[trigger] before[k],
                            range,
                        ) by {
                            if k < before.len() - 1 {
                                assert(range_lt(before[k], before[before.len() - 1]));
                            }
                        }
                    }
                }
                unique.push(range);
                proof {
                    assert(unique@ == before.push(range));
                    assert forall|a: int, b: int| 0 <= a < b < unique@.len() implies range_lt(
                        #[trigger] unique@[a],
                        #[trigger] unique@[b],
                    ) by {
                        if b < before.len() {
                            assert(range_lt(before[a], before[b]));
                        } else {
                            assert(range_lt(before[a], range));
                        }
                    }
                }
            }
            proof {
                let taken = sorted@.take(i as int);
                let next = sorted@.take(i + 1);
                assert(next == taken.push(range));
                assert(unique@ == before || unique@ == before.push(range));
                assert(unique@.contains(range)) by {
                    if unique@ == before {
                        assert(unique@[unique@.len() - 1] == range);
                    } else {
                        assert(unique@[unique@.len() - 1] == range);
                    }
                }
                assert forall|r: RangeExclusive<i64>|
                    unique@.contains(r) <==> next.contains(r) by {
                    if next.contains(r) {
                        let k = choose|k: int| 0 <= k < next.len() && #[trigger] next[k] == r;
                        if k < i {
                            assert(taken[k] == r);
                            assert(taken.contains(r));
                            assert(before.contains(r));
                            let m = choose|m: int| 0 <= m < before.len() && #[trigger] before[m] == r;
                            assert(unique@[m] == r);
                        }
                    }
                    if unique@.contains(r) {
                        let k = choose|k: int| 0 <= k < unique@.len() && #[trigger] unique@[k] == r;
                        if k < before.len() {
                            assert(before[k] == r);
                            assert(before.contains(r));
                            let m = choose|m: int| 0 <= m < taken.len() && #[trigger] taken[m] == r;
                            assert(next[m] == r);
                        } else {
                            assert(next[i as int] == r);
                        }
                    }
                }
            }
        }
        assert(sorted@.take(n as int) == sorted@);
        RangeSet(unique)
    }

    /// Find the stored range that covers `inner`.
    ///
    /// This is the last range starting no later than `inner`, if it also ends no earlier.
    pub fn find_containing(&self, inner: RangeExclusive<i64>) -> (found: Option<RangeExclusive<i64>>)
        ensures
            found == spec_find_containing(self@, inner),
    {
        proof {
            use_type_invariant(self);
        }
        let ranges = &self.0;
        // Binary search for the partition point: the number of ranges starting no later than `inner`.
        let mut low: usize = 0;
        let mut high: usize = ranges.len();
        while low < high
            invariant
                low <= high <= ranges@.len(),
                strictly_sorted_ranges(ranges@),
                forall|k: int| 0 <= k < low ==> (#[trigger] ranges@[k]).start <= inner.start,
                forall|k: int| high <= k < ranges@.len() ==> (#[trigger] ranges@[k]).start
                    > inner.start,
            decreases high - low,
        {
            let middle = low + (high - low) / 2;
            if ranges[middle].start <= inner.start {
                proof {
                    assert forall|k: int| 0 <= k <= middle implies (#[trigger] ranges@[k]).start
                        <= inner.start by {
                        if k < middle {
                            assert(range_lt(ranges@[k], ranges@[middle as int]));
                        }
                    }
                }
                low = middle + 1;
            } else {
                proof {
                    assert forall|k: int| middle <= k < ranges@.len() implies (
                    #[trigger] ranges@[k]).start > inner.start by {
                        if k > middle {
                            assert(range_lt(ranges@[middle as int], ranges@[k]));
                        }
                    }
                }
                high = middle;
            }
        }
        proof {
            lemma_find_skips_later_starts(ranges@, inner, low as int);
        }
        if low == 0 {
            None
        } else {
            let candidate = ranges[low - 1];
            if inner.end <= candidate.end {
                Some(candidate)
            } else {
                None
            }
        }
    }
}

/// Ranges that start after `inner` do not affect the search.
proof fn lemma_find_skips_later_starts(
    s: Seq<RangeExclusive<i64>>,
    inner: RangeExclusive<i64>,
    p: int,
)
    requires
        0 <= p <= s.len(),
        forall|k: int| p <= k < s.len() ==> (#[trigger] s[k]).start > inner.start,
    ensures
        spec_find_containing(s, inner) == spec_find_containing(s.take(p), inner),
    decreases s.len(),
{
    if s.len() > p {
        assert(s.drop_last().take(p) == s.take(p));
        lemma_find_skips_later_starts(s.drop_last(), inner, p);
    } else {
        assert(s.take(p) == s);
    }
}

/// A range returned by the search is one of the stored ranges and covers the query.
pub proof fn lemma_found_range_covers(s: Seq<RangeExclusive<i64>>, inner: RangeExclusive<i64>)
    requires
        spec_find_containing(s, inner) is Some,
    ensures
        s.contains(spec_find_containing(s, inner)->0),
        range_covers(spec_find_containing(s, inner)->0, inner),
    decreases s.len(),
{
    if s.len() > 0 && s.last().start > inner.start {
        lemma_found_range_covers(s.drop_last(), inner);
        let r = spec_find_containing(s, inner)->0;
        let k = choose|k: int| 0 <= k < s.drop_last().len() && #[trigger] s.drop_last()[k] == r;
        assert(s[k] == r);
    } else {
        assert(s[s.len() - 1] == s.last());
    }
}

/// For a set of well-formed, non-intersecting ranges, the search succeeds whenever some stored
/// range covers a well-formed query.
pub proof fn lemma_find_complete(
    s: Seq<RangeExclusive<i64>>,
    inner: RangeExclusive<i64>,
    j: int,
)
    requires
        strictly_sorted_ranges(s),
        well_formed_ranges(s),
        non_intersecting(s),
        inner.start <= inner.end,
        0 <= j < s.len(),
        range_covers(s[j], inner),
    ensures
        spec_find_containing(s, inner) is Some,
    decreases s.len(),
{
    let last = s.len() - 1;
    assert(s[last] == s.last());
    if s.last().start <= inner.start {
        if j < last {
            assert(range_lt(s[j], s[last]));
            assert(s[j].start <= s[j].end);
            assert(s[last].start <= s[last].end);
        }
    } else {
        let t = s.drop_last();
        assert(j < last);
        assert(t[j] == s[j]);
        assert forall|a: int, b: int| 0 <= a < b < t.len() implies range_lt(
            #[trigger] t[a],
            #[trigger] t[b],
        ) by {
            assert(range_lt(s[a], s[b]));
        }
        assert forall|a: int| 0 <= a < t.len() implies (#[trigger] t[a]).start <= t[a].end by {
            assert(s[a].start <= s[a].end);
        }
        assert forall|a: int, b: int|
            0 <= a < t.len() && 0 <= b < t.len() && a != b implies (#[trigger] t[a]).end <= (
            #[trigger] t[b]).start || t[b].end <= t[a].start by {
            assert(s[a] == t[a] && s[b] == t[b]);
        }
        lemma_find_complete(t, inner, j);
    }
}

} // verus!
