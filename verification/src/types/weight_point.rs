use vstd::prelude::*;

use crate::types::point::{lemma_too_close_symmetric, too_close, Point};
use crate::types::size::Size;

verus! {

/// A match score. Scores are compared, never combined: any encoding of the
/// correlation that keeps its order will do, such as millionths.
pub type Weight = u32;

/// A location together with the score of the match found there.
#[derive(Debug, Clone, Copy, PartialEq, Eq, Structural)]
pub struct WeightPoint {
    pub point: Point,
    pub weight: Weight,
}

impl WeightPoint {
    pub fn new(point: Point, weight: Weight) -> (wp: WeightPoint)
        ensures
            wp.point == point,
            wp.weight == weight,
    {
        WeightPoint { point, weight }
    }
}

/// The scores never rise along the sequence.
pub open spec fn descending(points: Seq<WeightPoint>) -> bool {
    forall|i: int, j: int| 0 <= i < j < points.len() ==> points[i].weight >= points[j].weight
}

/// No two entries of the sequence are too close to each other.
pub open spec fn well_separated(points: Seq<WeightPoint>, size: Size) -> bool {
    forall|i: int, j: int|
        0 <= i < j < points.len() ==> !too_close(
            #[trigger] points[i].point,
            #[trigger] points[j].point,
            size,
        )
}

/// `keeper` accounts for `other`: it scores at least as high and is either the
/// same entry or too close to it.
pub open spec fn accounts_for(keeper: WeightPoint, other: WeightPoint, size: Size) -> bool {
    keeper.weight >= other.weight && (keeper == other || too_close(
        other.point,
        keeper.point,
        size,
    ))
}

/// Some entry of `kept` accounts for `other`.
pub open spec fn represented(kept: Seq<WeightPoint>, other: WeightPoint, size: Size) -> bool {
    exists|i: int| 0 <= i < kept.len() && accounts_for(#[trigger] kept[i], other, size)
}

/// What thinning a set of detections delivers: the survivors come from the
/// input, are ordered from the best score down, keep their distance from
/// each other, and every input entry is a survivor or was suppressed by a
/// survivor that scores at least as high.
pub open spec fn is_thinning(input: Seq<WeightPoint>, size: Size, kept: Seq<WeightPoint>) -> bool {
    &&& forall|i: int| 0 <= i < kept.len() ==> input.contains(#[trigger] kept[i])
    &&& descending(kept)
    &&& well_separated(kept, size)
    &&& forall|k: int| 0 <= k < input.len() ==> represented(kept, #[trigger] input[k], size)
}

/// Where an entry goes in a list ordered from the best score down: behind
/// the entries at the front that score at least as high.
pub open spec fn slot(sorted: Seq<WeightPoint>, item: WeightPoint) -> int
    decreases sorted.len(),
{
    if sorted.len() == 0 {
        0
    } else if sorted[0].weight >= item.weight {
        1 + slot(sorted.drop_first(), item)
    } else {
        0
    }
}

/// The entries ordered from the best score down, entries of equal score in
/// the order in which they came.
pub open spec fn stable_sorted(points: Seq<WeightPoint>) -> Seq<WeightPoint>
    decreases points.len(),
{
    if points.len() == 0 {
        Seq::empty()
    } else {
        let rest = stable_sorted(points.drop_last());
        rest.insert(slot(rest, points.last()), points.last())
    }
}

/// Whether `point` is too close to an entry of `kept`.
pub open spec fn crowded(kept: Seq<WeightPoint>, point: Point, size: Size) -> bool {
    exists|i: int| 0 <= i < kept.len() && too_close(point, (#[trigger] kept[i]).point, size)
}

/// The entries of a list with each one removed that is too close to one that
/// stays before it.
pub open spec fn thinned(points: Seq<WeightPoint>, size: Size) -> Seq<WeightPoint>
    decreases points.len(),
{
    if points.len() == 0 {
        Seq::empty()
    } else {
        let before = thinned(points.drop_last(), size);
        if crowded(before, points.last().point, size) {
            before
        } else {
            before.push(points.last())
        }
    }
}

/// Operations on a list of scored detections.
pub trait WeightPointsExt {
    /// The detections, in order.
    spec fn detections(&self) -> Seq<WeightPoint>;

    /// Thins the detections: from the best score down, entries of equal score
    /// in their order, a detection is kept unless it is too close, for
    /// `template_size`, to one already kept.
    fn filter_close_points(&self, template_size: &Size) -> (kept: Vec<WeightPoint>)
        ensures
            kept@ == thinned(stable_sorted(self.detections()), *template_size),
    ;
}

/// The slot lies in the list; by its definition the entries before it score
/// at least as high as the item, and where the list is ordered from the best
/// score down those from it on score lower.
pub proof fn lemma_slot(sorted: Seq<WeightPoint>, item: WeightPoint)
    ensures
        0 <= slot(sorted, item) <= sorted.len(),
        forall|j: int| 0 <= j < slot(sorted, item) ==> sorted[j].weight >= item.weight,
        slot(sorted, item) < sorted.len() ==> sorted[slot(sorted, item)].weight < item.weight,
        descending(sorted) ==> forall|j: int|
            slot(sorted, item) <= j < sorted.len() ==> sorted[j].weight < item.weight,
    decreases sorted.len(),
{
    if sorted.len() > 0 && sorted[0].weight >= item.weight {
        let rest = sorted.drop_first();
        lemma_slot(rest, item);
        assert forall|j: int| 0 <= j < slot(sorted, item) implies sorted[j].weight
            >= item.weight by {
            if j > 0 {
                assert(sorted[j] == rest[j - 1]);
            }
        }
        assert(slot(sorted, item) < sorted.len() ==> sorted[slot(sorted, item)] == rest[slot(
            rest,
            item,
        )]);
        if descending(sorted) {
            assert forall|i: int, j: int| 0 <= i < j < rest.len() implies rest[i].weight
                >= rest[j].weight by {
                assert(rest[i] == sorted[i + 1] && rest[j] == sorted[j + 1]);
            }
            assert forall|j: int| slot(sorted, item) <= j < sorted.len() implies sorted[j].weight
                < item.weight by {
                assert(sorted[j] == rest[j - 1]);
            }
        }
    }
}

/// Ordering keeps every entry, as often as it occurs, and gives a list that
/// is ordered from the best score down.
pub proof fn lemma_stable_sorted(points: Seq<WeightPoint>)
    ensures
        stable_sorted(points).len() == points.len(),
        stable_sorted(points).to_multiset() == points.to_multiset(),
        descending(stable_sorted(points)),
    decreases points.len(),
{
    broadcast use vstd::seq_lib::group_to_multiset_ensures;

    if points.len() > 0 {
        let item = points.last();
        let rest = stable_sorted(points.drop_last());
        lemma_stable_sorted(points.drop_last());
        lemma_slot(rest, item);
        let at = slot(rest, item);
        let sorted = rest.insert(at, item);
        rest.insert_ensures(at, item);
        vstd::seq_lib::to_multiset_insert(rest, at, item);
        vstd::seq_lib::to_multiset_build(points.drop_last(), item);
        assert(points.drop_last().push(item) =~= points);
        assert forall|a: int, b: int| 0 <= a < b < sorted.len() implies sorted[a].weight
            >= sorted[b].weight by {
            if b < at {
                assert(sorted[a] == rest[a] && sorted[b] == rest[b]);
            } else if b == at {
                assert(sorted[a] == rest[a]);
            } else if a < at {
                assert(sorted[a] == rest[a] && sorted[b] == rest[b - 1]);
            } else if a == at {
                assert(sorted[b] == rest[b - 1]);
            } else {
                assert(sorted[a] == rest[a - 1] && sorted[b] == rest[b - 1]);
            }
        }
    } else {
        assert(stable_sorted(points) =~= points);
    }
}

/// Copies the detections into a new list ordered from the best score down;
/// entries of equal score keep their order.
pub fn sorted_by_weight(points: &Vec<WeightPoint>) -> (sorted: Vec<WeightPoint>)
    ensures
        sorted@ == stable_sorted(points@),
{
    let mut sorted: Vec<WeightPoint> = Vec::new();
    let mut i: usize = 0;
    assert(points@.take(0) =~= Seq::<WeightPoint>::empty());
    while i < points.len()
        invariant
            i <= points@.len(),
            sorted@ == stable_sorted(points@.take(i as int)),
        decreases points@.len() - i,
    {
        let item: WeightPoint = points[i];
        let mut at: usize = 0;
        assert(sorted@.skip(0) =~= sorted@);
        while at < sorted.len() && sorted[at].weight >= item.weight
            invariant
                at <= sorted@.len(),
                slot(sorted@, item) == at + slot(sorted@.skip(at as int), item),
            decreases sorted@.len() - at,
        {
            proof {
                assert(sorted@.skip(at as int)[0] == sorted@[at as int]);
                assert(sorted@.skip(at as int).drop_first() =~= sorted@.skip(at as int + 1));
            }
            at += 1;
        }
        proof {
            if at < sorted@.len() {
                assert(sorted@.skip(at as int)[0] == sorted@[at as int]);
            }
            assert(slot(sorted@.skip(at as int), item) == 0);
            assert(points@.take(i as int + 1).drop_last() =~= points@.take(i as int));
            assert(points@.take(i as int + 1).last() == item);
        }
        sorted.insert(at, item);
        i += 1;
    }
    assert(points@.take(i as int) =~= points@);
    sorted
}

fn is_crowded(kept: &Vec<WeightPoint>, point: Point, size: &Size) -> (yes: bool)
    ensures
        yes == crowded(kept@, point, *size),
{
    let mut k: usize = 0;
    while k < kept.len()
        invariant
            k <= kept@.len(),
            forall|j: int| 0 <= j < k ==> !too_close(point, (#[trigger] kept@[j]).point, *size),
        decreases kept@.len() - k,
    {
        if point.is_too_close(&kept[k].point, size) {
            return true;
        }
        k += 1;
    }
    false
}

impl WeightPointsExt for Vec<WeightPoint> {
    open spec fn detections(&self) -> Seq<WeightPoint> {
        self@
    }

    fn filter_close_points(&self, template_size: &Size) -> (kept: Vec<WeightPoint>) {
        let sorted: Vec<WeightPoint> = sorted_by_weight(self);
        let mut filtered: Vec<WeightPoint> = Vec::new();
        let mut t: usize = 0;
        assert(sorted@.take(0) =~= Seq::<WeightPoint>::empty());
        while t < sorted.len()
            invariant
                t <= sorted@.len(),
                filtered@ == thinned(sorted@.take(t as int), *template_size),
            decreases sorted@.len() - t,
        {
            let current: WeightPoint = sorted[t];
            proof {
                assert(sorted@.take(t as int + 1).drop_last() =~= sorted@.take(t as int));
                assert(sorted@.take(t as int + 1).last() == current);
            }
            if !is_crowded(&filtered, current.point, template_size) {
                filtered.push(current);
            }
            t += 1;
        }
        assert(sorted@.take(t as int) =~= sorted@);
        filtered
    }
}

proof fn lemma_represented_grows(
    kept: Seq<WeightPoint>,
    added: WeightPoint,
    other: WeightPoint,
    size: Size,
)
    requires
        represented(kept, other, size),
    ensures
        represented(kept.push(added), other, size),
{
    let i = choose|i: int| 0 <= i < kept.len() && accounts_for(#[trigger] kept[i], other, size);
    assert(kept.push(added)[i] == kept[i]);
}

proof fn lemma_thinned_skip(sorted: Seq<WeightPoint>, size: Size, before: Seq<WeightPoint>)
    requires
        sorted.len() > 0,
        descending(sorted),
        is_thinning(sorted.drop_last(), size, before),
        crowded(before, sorted.last().point, size),
    ensures
        is_thinning(sorted, size, before),
{
    let shorter = sorted.drop_last();
    let current = sorted.last();
    assert forall|i: int| 0 <= i < before.len() implies sorted.contains(#[trigger] before[i]) by {
        assert(shorter.contains(before[i]));
        let u = choose|u: int| 0 <= u < shorter.len() && shorter[u] == before[i];
        assert(sorted[u] == before[i]);
    }
    let c = choose|c: int|
        0 <= c < before.len() && too_close(current.point, (#[trigger] before[c]).point, size);
    assert(shorter.contains(before[c]));
    let u = choose|u: int| 0 <= u < shorter.len() && shorter[u] == before[c];
    assert(sorted[u] == before[c]);
    assert(sorted[sorted.len() - 1] == current);
    assert(accounts_for(before[c], current, size));
    assert forall|k: int| 0 <= k < sorted.len() implies represented(
        before,
        #[trigger] sorted[k],
        size,
    ) by {
        if k < shorter.len() {
            assert(sorted[k] == shorter[k]);
        }
    }
}

proof fn lemma_thinned_push(sorted: Seq<WeightPoint>, size: Size, before: Seq<WeightPoint>)
    requires
        sorted.len() > 0,
        descending(sorted),
        is_thinning(sorted.drop_last(), size, before),
        !crowded(before, sorted.last().point, size),
    ensures
        is_thinning(sorted, size, before.push(sorted.last())),
{
    let shorter = sorted.drop_last();
    let current = sorted.last();
    let kept = before.push(current);
    assert(sorted[sorted.len() - 1] == current);
    assert forall|i: int| 0 <= i < before.len() implies sorted.contains(#[trigger] before[i])
        && before[i].weight >= current.weight by {
        assert(shorter.contains(before[i]));
        let u = choose|u: int| 0 <= u < shorter.len() && shorter[u] == before[i];
        assert(sorted[u] == before[i]);
    }
    assert forall|i: int| 0 <= i < kept.len() implies sorted.contains(#[trigger] kept[i]) by {
        if i < before.len() {
            assert(kept[i] == before[i]);
        }
    }
    assert forall|i: int, j: int| 0 <= i < j < kept.len() implies kept[i].weight
        >= kept[j].weight by {
        assert(kept[i] == before[i]);
        if j < before.len() {
            assert(kept[j] == before[j]);
        }
    }
    assert forall|i: int, j: int| 0 <= i < j < kept.len() implies !too_close(
        #[trigger] kept[i].point,
        #[trigger] kept[j].point,
        size,
    ) by {
        assert(kept[i] == before[i]);
        if j < before.len() {
            assert(kept[j] == before[j]);
        } else {
            lemma_too_close_symmetric(current.point, before[i].point, size);
        }
    }
    assert forall|k: int| 0 <= k < sorted.len() implies represented(
        kept,
        #[trigger] sorted[k],
        size,
    ) by {
        if k < shorter.len() {
            assert(sorted[k] == shorter[k]);
            lemma_represented_grows(before, current, sorted[k], size);
        } else {
            assert(accounts_for(kept[before.len() as int], current, size));
        }
    }
}

/// Thinning a list that is ordered from the best score down gives survivors
/// that come from the list, keep its order and their distance from each
/// other, and account for every entry of the list.
pub proof fn lemma_thinned(sorted: Seq<WeightPoint>, size: Size)
    requires
        descending(sorted),
    ensures
        is_thinning(sorted, size, thinned(sorted, size)),
    decreases sorted.len(),
{
    if sorted.len() > 0 {
        let shorter = sorted.drop_last();
        let before = thinned(shorter, size);
        assert forall|i: int, j: int| 0 <= i < j < shorter.len() implies shorter[i].weight
            >= shorter[j].weight by {
            assert(shorter[i] == sorted[i] && shorter[j] == sorted[j]);
        }
        lemma_thinned(shorter, size);
        if crowded(before, sorted.last().point, size) {
            lemma_thinned_skip(sorted, size, before);
        } else {
            lemma_thinned_push(sorted, size, before);
        }
    }
}

/// What `filter_close_points` gives is a thinning of its input: the
/// survivors come from the input, are ordered from the best score down, no
/// two of them are too close to each other, and every detection of the input
/// is a survivor or too close to a survivor that scores at least as high.
pub proof fn lemma_filter_is_thinning(input: Seq<WeightPoint>, size: Size)
    ensures
        is_thinning(input, size, thinned(stable_sorted(input), size)),
{
    broadcast use vstd::seq_lib::group_to_multiset_ensures;

    let sorted = stable_sorted(input);
    let kept = thinned(sorted, size);
    lemma_stable_sorted(input);
    lemma_thinned(sorted, size);
    assert forall|i: int| 0 <= i < kept.len() implies input.contains(#[trigger] kept[i]) by {
        let item = kept[i];
        assert(sorted.contains(item));
        assert(sorted.to_multiset().count(item) > 0);
        assert(input.to_multiset().count(item) > 0);
    }
    assert forall|k: int| 0 <= k < input.len() implies represented(
        kept,
        #[trigger] input[k],
        size,
    ) by {
        let item = input[k];
        assert(input.contains(item));
        assert(input.to_multiset().count(item) > 0);
        assert(sorted.to_multiset().count(item) > 0);
        assert(sorted.contains(item));
        let u = choose|u: int| 0 <= u < sorted.len() && sorted[u] == item;
        assert(represented(kept, sorted[u], size));
    }
}

/// After thinning, no two survivors are too close to each other.
pub proof fn lemma_thinning_separates(
    input: Seq<WeightPoint>,
    size: Size,
    kept: Seq<WeightPoint>,
    i: int,
    j: int,
)
    requires
        is_thinning(input, size, kept),
        0 <= i < kept.len(),
        0 <= j < kept.len(),
        i != j,
    ensures
        !too_close(kept[i].point, kept[j].point, size),
{
    if i < j {
    } else {
        lemma_too_close_symmetric(kept[i].point, kept[j].point, size);
    }
}

} // verus!
