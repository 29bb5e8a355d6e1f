//! The order of a score table.
//!
//! The table lists places in a sequence of points: most points first, and
//! among equal points the earlier place first. There is exactly one such
//! order, and [`ranking`] defines it by putting the places into the table one
//! after the other.

use vstd::prelude::*;

verus! {

/// Whether place `first` stands before place `second` in the table of
/// `points`: it has more points, or as many and comes earlier.
pub open spec fn precedes(points: Seq<usize>, first: usize, second: usize) -> bool {
    points[first as int] > points[second as int] || (points[first as int] == points[second as int]
        && first < second)
}

/// The table `order` with `place` put in: behind every place that has at
/// least as many points, and before the others.
pub open spec fn placed(order: Seq<usize>, points: Seq<usize>, place: usize) -> Seq<usize>
    decreases order.len(),
{
    if order.len() == 0 {
        seq![place]
    } else if points[order.last() as int] >= points[place as int] {
        order.push(place)
    } else {
        placed(order.drop_last(), points, place).push(order.last())
    }
}

/// The table of the first `count` places of `points`.
pub open spec fn ranking_of_first(points: Seq<usize>, count: nat) -> Seq<usize>
    decreases count,
{
    if count == 0 {
        Seq::empty()
    } else {
        placed(ranking_of_first(points, (count - 1) as nat), points, (count - 1) as usize)
    }
}

/// The table of all places of `points`.
pub open spec fn ranking(points: Seq<usize>) -> Seq<usize> {
    ranking_of_first(points, points.len())
}

/// Whether `order` lists places below `bound`, each before all that it
/// precedes.
pub open spec fn ranked(order: Seq<usize>, points: Seq<usize>, bound: nat) -> bool {
    &&& forall|k: int| 0 <= k < order.len() ==> (#[trigger] order[k]) < bound
    &&& forall|a: int, b: int|
        0 <= a < b < order.len() ==> precedes(points, #[trigger] order[a], #[trigger] order[b])
}

/// Putting a place into a table keeps it a table: the new place is listed
/// once more, everything else stays listed, and the order is still right.
pub proof fn lemma_placed_ranked(order: Seq<usize>, points: Seq<usize>, place: usize)
    requires
        ranked(order, points, place as nat),
        place < points.len(),
    ensures
        ranked(placed(order, points, place), points, (place + 1) as nat),
        placed(order, points, place).len() == order.len() + 1,
        placed(order, points, place).contains(place),
        forall|k: int| 0 <= k < order.len() ==> placed(order, points, place).contains(#[trigger] order[k]),
        forall|k: int|
            0 <= k < placed(order, points, place).len() ==> (#[trigger] placed(order, points, place)[k])
                == place || order.contains(placed(order, points, place)[k]),
    decreases order.len(),
{
    let result = placed(order, points, place);
    if order.len() == 0 {
        assert(result[0] == place);
    } else if points[order.last() as int] >= points[place as int] {
        assert(result[order.len() as int] == place);
        assert forall|k: int| 0 <= k < order.len() implies result.contains(#[trigger] order[k]) by {
            assert(result[k] == order[k]);
        }
        assert forall|a: int, b: int| 0 <= a < b < result.len() implies precedes(
            points,
            #[trigger] result[a],
            #[trigger] result[b],
        ) by {
            if b == order.len() {
                if a < order.len() - 1 {
                    assert(precedes(points, order[a], order[order.len() - 1]));
                }
            }
        }
        assert forall|k: int| 0 <= k < result.len() implies (#[trigger] result[k]) == place
            || order.contains(result[k]) by {
            if k < order.len() {
                assert(order[k] == result[k]);
            }
        }
    } else {
        let front = order.drop_last();
        let last = order.last();
        assert(ranked(front, points, place as nat)) by {
            assert forall|k: int| 0 <= k < front.len() implies (#[trigger] front[k]) < place by {
                assert(front[k] == order[k]);
            }
            assert forall|a: int, b: int| 0 <= a < b < front.len() implies precedes(
                points,
                #[trigger] front[a],
                #[trigger] front[b],
            ) by {
                assert(front[a] == order[a] && front[b] == order[b]);
            }
        }
        lemma_placed_ranked(front, points, place);
        let inner = placed(front, points, place);
        assert(result == inner.push(last));
        assert(result[inner.len() as int] == last);
        assert(result.contains(place)) by {
            let at = choose|k: int| 0 <= k < inner.len() && inner[k] == place;
            assert(result[at] == place);
        }
        assert forall|k: int| 0 <= k < order.len() implies result.contains(#[trigger] order[k]) by {
            if k < front.len() {
                assert(front[k] == order[k]);
                let at = choose|j: int| 0 <= j < inner.len() && inner[j] == front[k];
                assert(result[at] == order[k]);
            } else {
                assert(result[inner.len() as int] == order[k]);
            }
        }
        assert forall|k: int| 0 <= k < result.len() implies (#[trigger] result[k]) == place
            || order.contains(result[k]) by {
            if k < inner.len() {
                assert(result[k] == inner[k]);
                if inner[k] != place {
                    let at = choose|j: int| 0 <= j < front.len() && front[j] == inner[k];
                    assert(order[at] == inner[k]);
                }
            } else {
                assert(order[order.len() - 1] == last);
            }
        }
        assert forall|a: int, b: int| 0 <= a < b < result.len() implies precedes(
            points,
            #[trigger] result[a],
            #[trigger] result[b],
        ) by {
            assert(result[a] == inner[a]);
            if b < inner.len() {
                assert(result[b] == inner[b]);
            } else {
                if inner[a] != place {
                    let at = choose|j: int| 0 <= j < front.len() && front[j] == inner[a];
                    assert(order[at] == inner[a]);
                    assert(precedes(points, order[at], order[order.len() - 1]));
                }
            }
        }
        assert forall|k: int| 0 <= k < result.len() implies (#[trigger] result[k]) < place + 1 by {
            if k < inner.len() {
                assert(result[k] == inner[k]);
            } else {
                assert(order[order.len() - 1] == last);
            }
        }
    }
}

/// The table of the first `count` places lists each of them once, most points
/// first and, among equal points, the earlier place first.
pub proof fn lemma_ranking_of_first(points: Seq<usize>, count: nat)
    requires
        count <= points.len(),
        points.len() <= usize::MAX,
    ensures
        ranking_of_first(points, count).len() == count,
        ranked(ranking_of_first(points, count), points, count),
        forall|place: usize| place < count ==> ranking_of_first(points, count).contains(place),
    decreases count,
{
    if count > 0 {
        let earlier = ranking_of_first(points, (count - 1) as nat);
        let place = (count - 1) as usize;
        lemma_ranking_of_first(points, (count - 1) as nat);
        lemma_placed_ranked(earlier, points, place);
        let all = placed(earlier, points, place);
        assert forall|other: usize| other < count implies all.contains(other) by {
            if other < place {
                assert(earlier.contains(other));
                let at = choose|k: int| 0 <= k < earlier.len() && earlier[k] == other;
                assert(all.contains(earlier[at]));
            }
        }
    }
}

/// The score table is sorted and complete. It has a row for each place, and
/// each place has a row. From row to row the points never grow. Places with
/// the same points stand in their own order. Hence no place is listed twice.
pub proof fn lemma_ranking_sorted(points: Seq<usize>)
    requires
        points.len() <= usize::MAX,
    ensures
        ranking(points).len() == points.len(),
        forall|k: int| 0 <= k < points.len() ==> (#[trigger] ranking(points)[k]) < points.len(),
        forall|place: usize| place < points.len() ==> ranking(points).contains(place),
        forall|a: int, b: int|
            0 <= a < b < points.len() ==> points[(#[trigger] ranking(points)[a]) as int] >= points[(
            #[trigger] ranking(points)[b]) as int],
        forall|a: int, b: int|
            0 <= a < b < points.len() && points[(#[trigger] ranking(points)[a]) as int] == points[(
            #[trigger] ranking(points)[b]) as int] ==> ranking(points)[a] < ranking(points)[b],
        forall|a: int, b: int|
            0 <= a < b < points.len() ==> (#[trigger] ranking(points)[a]) != (
            #[trigger] ranking(points)[b]),
{
    lemma_ranking_of_first(points, points.len());
    let order = ranking(points);
    assert forall|a: int, b: int| 0 <= a < b < points.len() implies {
        &&& points[(#[trigger] order[a]) as int] >= points[(#[trigger] order[b]) as int]
        &&& (points[order[a] as int] == points[order[b] as int] ==> order[a] < order[b])
        &&& order[a] != order[b]
    } by {
        assert(precedes(points, order[a], order[b]));
    }
}

/// Where `place` goes in `order`: behind the first `at` rows, if those that
/// follow all have fewer points and the row before does not.
proof fn lemma_placed_at(order: Seq<usize>, points: Seq<usize>, place: usize, at: int)
    requires
        0 <= at <= order.len(),
        forall|k: int| at <= k < order.len() ==> points[(#[trigger] order[k]) as int] < points[place as int],
        at > 0 ==> points[order[at - 1] as int] >= points[place as int],
    ensures
        placed(order, points, place) == order.insert(at, place),
    decreases order.len(),
{
    if order.len() == 0 {
        assert(order.insert(at, place) =~= seq![place]);
    } else if at == order.len() {
        assert(order.insert(at, place) =~= order.push(place));
    } else {
        let front = order.drop_last();
        assert(points[order[order.len() - 1] as int] < points[place as int]);
        assert forall|k: int| at <= k < front.len() implies points[(#[trigger] front[k]) as int]
            < points[place as int] by {
            assert(front[k] == order[k]);
        }
        lemma_placed_at(front, points, place, at);
        assert(front.insert(at, place).push(order.last()) =~= order.insert(at, place));
    }
}

/// Computes the score table of `points`: the places, most points first, and
/// among equal points the earlier place first.
pub fn rank(points: &Vec<usize>) -> (order: Vec<usize>)
    ensures
        order@ == ranking(points@),
{
    let mut order: Vec<usize> = Vec::new();
    let mut place: usize = 0;
    while place < points.len()
        invariant
            place <= points@.len(),
            order@ == ranking_of_first(points@, place as nat),
        decreases points@.len() - place,
    {
        proof {
            lemma_ranking_of_first(points@, place as nat);
        }
        let mut at: usize = order.len();
        while at > 0 && points[order[at - 1]] < points[place]
            invariant
                at <= order@.len(),
                place < points@.len(),
                forall|k: int| 0 <= k < order@.len() ==> (#[trigger] order@[k]) < place,
                forall|k: int|
                    at <= k < order@.len() ==> points@[(#[trigger] order@[k]) as int] < points@[place as int],
            decreases at,
        {
            at -= 1;
        }
        proof {
            lemma_placed_at(order@, points@, place, at as int);
        }
        order.insert(at, place);
        place += 1;
    }
    order
}

} // verus!
