//! The middle price of the reference exchange, now and over the last quarter of an hour.
use crate::scalar::Scalar;
use vstd::prelude::*;

verus! {

/// Seconds for which a price is remembered.
pub const CACHE_MAX_AGE_SECS: i64 = 900;

/// A price and the second at which it was seen.
#[derive(Clone, Copy, Debug, PartialEq, Eq, Structural)]
pub struct PricePoint {
    pub timestamp: i64,
    pub price: Scalar,
}

/// The points that are not older than `cutoff`, in their order.
pub open spec fn kept_since(points: Seq<PricePoint>, cutoff: i64) -> Seq<PricePoint>
    decreases points.len(),
{
    if points.len() == 0 {
        Seq::empty()
    } else if points.last().timestamp >= cutoff {
        kept_since(points.drop_last(), cutoff).push(points.last())
    } else {
        kept_since(points.drop_last(), cutoff)
    }
}

/// The oldest second that is remembered at `now`.
pub open spec fn cutoff_at(now: i64) -> i64 {
    if now - CACHE_MAX_AGE_SECS < i64::MIN {
        i64::MIN
    } else {
        (now - CACHE_MAX_AGE_SECS) as i64
    }
}

/// Seconds between the point and `target`.
pub open spec fn distance(point: PricePoint, target: i64) -> int {
    if point.timestamp >= target {
        point.timestamp - target
    } else {
        target - point.timestamp
    }
}

/// The point at `at` is closer to `target` than every one before it and not farther than any.
pub open spec fn is_nearest(points: Seq<PricePoint>, target: i64, at: int) -> bool {
    &&& 0 <= at < points.len()
    &&& forall|j: int|
        0 <= j < points.len() ==> distance(points[at], target) <= distance(
            #[trigger] points[j],
            target,
        )
    &&& forall|j: int|
        0 <= j < at ==> distance(points[at], target) < distance(#[trigger] points[j], target)
}

/// The latest price and the recent ones.
pub struct PriceCache {
    mid: Scalar,
    points: Vec<PricePoint>,
}

/// What a [`PriceCache`] remembers.
pub struct Prices {
    pub mid: Scalar,
    pub points: Seq<PricePoint>,
}

impl View for PriceCache {
    type V = Prices;

    closed spec fn view(&self) -> Prices {
        Prices { mid: self.mid, points: self.points@ }
    }
}

fn seconds_between(point: &PricePoint, target: i64) -> (r: i128)
    ensures
        r == distance(*point, target),
{
    if point.timestamp >= target {
        point.timestamp as i128 - target as i128
    } else {
        target as i128 - point.timestamp as i128
    }
}

impl PriceCache {
    /// Nothing remembered, and zero as the latest price.
    pub fn new() -> (r: PriceCache)
        ensures
            r@.mid == Scalar::of(0),
            r@.points == Seq::<PricePoint>::empty(),
    {
        PriceCache { mid: Scalar::zero(), points: Vec::new() }
    }

    /// Records the price of the second `now` and forgets what has become too old.
    pub fn set_btc_mid(&mut self, now: i64, price: Scalar)
        ensures
            final(self)@.mid == price,
            final(self)@.points == kept_since(
                old(self)@.points.push(PricePoint { timestamp: now, price }),
                cutoff_at(now),
            ),
    {
        self.mid = price;
        self.points.push(PricePoint { timestamp: now, price });
        let cutoff: i64 = if now < i64::MIN + CACHE_MAX_AGE_SECS {
            i64::MIN
        } else {
            now - CACHE_MAX_AGE_SECS
        };
        let mut kept: Vec<PricePoint> = Vec::new();
        let mut i: usize = 0;
        let ghost all = self.points@;
        while i < self.points.len()
            invariant
                i <= self.points.len(),
                all == self.points@,
                self.mid == price,
                kept@ == kept_since(all.take(i as int), cutoff),
            decreases self.points.len() - i,
        {
            proof {
                assert(all.take(i + 1).drop_last() =~= all.take(i as int));
            }
            if self.points[i].timestamp >= cutoff {
                kept.push(self.points[i]);
            }
            i = i + 1;
        }
        proof {
            assert(all.take(i as int) =~= all);
        }
        self.points = kept;
    }

    /// The latest price.
    pub fn get_btc_mid(&self) -> (r: Scalar)
        ensures
            r == self@.mid,
    {
        self.mid
    }

    /// The price of the remembered second that is nearest to `target_timestamp`, the first
    /// recorded of several that are equally near; `None` where nothing is remembered.
    pub fn get_btc_at_timestamp(&self, target_timestamp: i64) -> (r: Option<Scalar>)
        ensures
            r is None <==> self@.points.len() == 0,
            r matches Some(price) ==> exists|at: int|
                #![trigger is_nearest(self@.points, target_timestamp, at)]
                is_nearest(self@.points, target_timestamp, at) && price == self@.points[at].price,
    {
        if self.points.len() == 0 {
            return None;
        }
        let mut best: usize = 0;
        let mut i: usize = 1;
        while i < self.points.len()
            invariant
                best < i <= self.points.len(),
                forall|j: int|
                    0 <= j < i ==> distance(self.points@[best as int], target_timestamp)
                        <= distance(#[trigger] self.points@[j], target_timestamp),
                forall|j: int|
                    0 <= j < best ==> distance(self.points@[best as int], target_timestamp)
                        < distance(#[trigger] self.points@[j], target_timestamp),
            decreases self.points.len() - i,
        {
            if seconds_between(&self.points[i], target_timestamp) < seconds_between(
                &self.points[best],
                target_timestamp,
            ) {
                best = i;
            }
            i = i + 1;
        }
        assert(is_nearest(self@.points, target_timestamp, best as int));
        Some(self.points[best].price)
    }
}

proof fn lemma_kept(points: Seq<PricePoint>, cutoff: i64)
    ensures
        forall|i: int|
            0 <= i < kept_since(points, cutoff).len() ==> (#[trigger] kept_since(
                points,
                cutoff,
            )[i]).timestamp >= cutoff && points.contains(kept_since(points, cutoff)[i]),
        forall|i: int|
            0 <= i < points.len() && (#[trigger] points[i]).timestamp >= cutoff ==> kept_since(
                points,
                cutoff,
            ).contains(points[i]),
    decreases points.len(),
{
    if points.len() > 0 {
        let fewer = points.drop_last();
        lemma_kept(fewer, cutoff);
        let kept = kept_since(points, cutoff);
        let before = kept_since(fewer, cutoff);
        assert forall|i: int| 0 <= i < kept.len() implies (#[trigger] kept[i]).timestamp >= cutoff
            && points.contains(kept[i]) by {
            if i < before.len() {
                assert(kept[i] == before[i]);
                assert(fewer.contains(before[i]));
                let j = choose|j: int| 0 <= j < fewer.len() && fewer[j] == before[i];
                assert(points[j] == kept[i]);
            } else {
                assert(points[points.len() - 1] == kept[i]);
            }
        }
        assert forall|i: int| 0 <= i < points.len() && (#[trigger] points[i]).timestamp
            >= cutoff implies kept.contains(points[i]) by {
            if i < fewer.len() {
                assert(fewer[i] == points[i]);
                assert(before.contains(fewer[i]));
                let j = choose|j: int| 0 <= j < before.len() && before[j] == fewer[i];
                assert(kept[j] == points[i]);
            } else {
                assert(kept[kept.len() - 1] == points[i]);
            }
        }
    }
}

/// After a price is recorded the cache holds that price and exactly those of the earlier ones
/// that are at most fifteen minutes older.
pub proof fn law_the_cache_holds_the_last_quarter_hour(
    points: Seq<PricePoint>,
    now: i64,
    price: Scalar,
    point: PricePoint,
)
    ensures
        ({
            let added = points.push(PricePoint { timestamp: now, price });
            kept_since(added, cutoff_at(now)).contains(point) <==> (points.contains(point) && now
                - point.timestamp <= CACHE_MAX_AGE_SECS) || point == (PricePoint {
                timestamp: now,
                price,
            })
        }),
{
    let newest = PricePoint { timestamp: now, price };
    let added = points.push(newest);
    let kept = kept_since(added, cutoff_at(now));
    lemma_kept(added, cutoff_at(now));
    if kept.contains(point) {
        let i = choose|i: int| 0 <= i < kept.len() && kept[i] == point;
        assert(added.contains(kept[i]));
        let j = choose|j: int| 0 <= j < added.len() && added[j] == point;
        if j < points.len() {
            assert(points[j] == point);
        }
    }
    if points.contains(point) && now - point.timestamp <= CACHE_MAX_AGE_SECS {
        let j = choose|j: int| 0 <= j < points.len() && points[j] == point;
        assert(added[j] == point);
    }
    assert(added[points.len() as int] == newest);
}

/// Where the very second was recorded, the price found for it is the first one recorded then.
pub proof fn law_the_exact_second_is_preferred(
    points: Seq<PricePoint>,
    target: i64,
    first: int,
    at: int,
)
    requires
        0 <= first < points.len(),
        points[first].timestamp == target,
        forall|j: int| 0 <= j < first ==> (#[trigger] points[j]).timestamp != target,
        is_nearest(points, target, at),
    ensures
        at == first,
{
    assert(distance(points[first], target) == 0);
    if at < first {
        assert(points[at].timestamp != target);
    }
}

/// The points that are kept keep their order: what was recorded in two parts is kept in two parts,
/// a part that is recent enough is kept whole, and one that is too old not at all.
pub proof fn law_the_cache_keeps_the_order(
    earlier: Seq<PricePoint>,
    later: Seq<PricePoint>,
    cutoff: i64,
)
    ensures
        kept_since(earlier + later, cutoff) == kept_since(earlier, cutoff) + kept_since(
            later,
            cutoff,
        ),
        (forall|i: int| 0 <= i < later.len() ==> (#[trigger] later[i]).timestamp >= cutoff)
            ==> kept_since(later, cutoff) == later,
        (forall|i: int| 0 <= i < later.len() ==> (#[trigger] later[i]).timestamp < cutoff)
            ==> kept_since(later, cutoff).len() == 0,
    decreases later.len(),
{
    if later.len() == 0 {
        assert(earlier + later =~= earlier);
        assert(kept_since(earlier, cutoff) + kept_since(later, cutoff) =~= kept_since(
            earlier,
            cutoff,
        ));
        assert(kept_since(later, cutoff) =~= later);
    } else {
        let fewer = later.drop_last();
        law_the_cache_keeps_the_order(earlier, fewer, cutoff);
        assert((earlier + later).drop_last() =~= earlier + fewer);
        assert((earlier + later).last() == later.last());
        assert(kept_since(earlier + later, cutoff) =~= kept_since(earlier, cutoff) + kept_since(
            later,
            cutoff,
        ));
        assert forall|i: int| 0 <= i < fewer.len() implies #[trigger] fewer[i] == later[i] by {}
        assert(fewer.push(later.last()) =~= later);
        assert(later[later.len() - 1] == later.last());
    }
}

/// No remembered second is nearer to the target than the one that is found, whether it lies before
/// or behind it; of several that are as near it is the first, so there is only one such.
pub proof fn law_the_nearest_second_is_found(
    points: Seq<PricePoint>,
    target: i64,
    at: int,
    other: int,
)
    requires
        is_nearest(points, target, at),
        0 <= other < points.len(),
    ensures
        ({
            let found = points[at].timestamp - target;
            let seen = points[other].timestamp - target;
            &&& 0 <= seen ==> -seen <= found <= seen
            &&& seen <= 0 ==> seen <= found <= -seen
            &&& other < at ==> found != seen && found != -seen
            &&& is_nearest(points, target, other) ==> other == at
        }),
{
    assert(distance(points[at], target) <= distance(points[other], target));
    if other < at {
        assert(distance(points[at], target) < distance(points[other], target));
    }
}

/// What is remembered reaches back fifteen minutes.
pub proof fn law_the_cache_reaches_back_fifteen_minutes(now: i64)
    ensures
        now >= i64::MIN + 900 ==> cutoff_at(now) == now - 900,
        now < i64::MIN + 900 ==> cutoff_at(now) == i64::MIN,
{
}

} // verus!
