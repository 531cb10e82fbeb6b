//! Periodic check of the positions against the per-market cap and the global budget.
use crate::scalar::Scalar;
use vstd::prelude::*;

verus! {

/// The bits of 1000.0.
pub const DEFAULT_GLOBAL_BUDGET: u64 = 0x408f_4000_0000_0000;

/// The bits of 1.05: five percent above the budget are tolerated.
pub const DEFAULT_LEEWAY: u64 = 0x3ff0_cccc_cccc_cccd;

/// What one market holds on both sides.
pub struct SideExposure {
    pub market_id: String,
    pub yes_qty: Scalar,
    pub no_qty: Scalar,
}

/// Limits that the positions are held against.
#[derive(Clone, Copy, Debug)]
pub struct Watchdog {
    /// Cap on each side of a market; zero or less means no cap.
    pub max_exposure_per_market: Scalar,
    pub global_max_budget: Scalar,
    /// Factor on the budget that absorbs orders under way.
    pub global_leeway: Scalar,
}

impl Default for Watchdog {
    fn default() -> (r: Watchdog)
        ensures
            r.max_exposure_per_market == Scalar::of(0),
            r.global_max_budget == Scalar::of(DEFAULT_GLOBAL_BUDGET),
            r.global_leeway == Scalar::of(DEFAULT_LEEWAY),
    {
        Watchdog {
            max_exposure_per_market: Scalar::zero(),
            global_max_budget: Scalar::from_bits(DEFAULT_GLOBAL_BUDGET),
            global_leeway: Scalar::from_bits(DEFAULT_LEEWAY),
        }
    }
}

impl Watchdog {
    /// The value without its sign.
    pub open spec fn size_of(value: Scalar) -> Scalar {
        Scalar::of(value.magnitude() as u64)
    }

    /// Whether one side of the market is beyond the cap in either direction.
    pub open spec fn over_cap(self, snapshot: SideExposure) -> bool {
        &&& self.max_exposure_per_market.positive()
        &&& {
            ||| self.max_exposure_per_market.below(Self::size_of(snapshot.yes_qty))
            ||| self.max_exposure_per_market.below(Self::size_of(snapshot.no_qty))
        }
    }

    /// Whether any market is beyond the cap or the whole account is above `limit`.
    pub open spec fn breached(
        self,
        snapshots: Seq<SideExposure>,
        global_exposure: Scalar,
        limit: Scalar,
    ) -> bool {
        ||| exists|i: int| 0 <= i < snapshots.len() && self.over_cap(#[trigger] snapshots[i])
        ||| limit.below(global_exposure)
    }

    /// A watchdog with the usual leeway.
    pub fn new(max_exposure_per_market: Scalar, global_max_budget: Scalar) -> (r: Watchdog)
        ensures
            r.max_exposure_per_market == max_exposure_per_market,
            r.global_max_budget == global_max_budget,
            r.global_leeway == Scalar::of(DEFAULT_LEEWAY),
    {
        Watchdog {
            max_exposure_per_market,
            global_max_budget,
            global_leeway: Scalar::from_bits(DEFAULT_LEEWAY),
        }
    }

    fn exceeds_cap(&self, snapshot: &SideExposure) -> (r: bool)
        ensures
            r == self.over_cap(*snapshot),
    {
        self.max_exposure_per_market.is_positive() && (self.max_exposure_per_market.lt(
            &snapshot.yes_qty.abs(),
        ) || self.max_exposure_per_market.lt(&snapshot.no_qty.abs()))
    }

    /// The places, in ascending order, of the markets that are beyond the cap.
    pub fn breached_markets(&self, snapshots: &Vec<SideExposure>) -> (r: Vec<usize>)
        ensures
            forall|i: int|
                0 <= i < snapshots.len() ==> (r@.contains(i as usize) == self.over_cap(
                    #[trigger] snapshots@[i],
                )),
            forall|k: int| 0 <= k < r.len() ==> (#[trigger] r@[k]) < snapshots.len(),
            forall|j: int, k: int| 0 <= j < k < r.len() ==> r@[j] < r@[k],
    {
        let mut found: Vec<usize> = Vec::new();
        let mut at: usize = 0;
        while at < snapshots.len()
            invariant
                at <= snapshots.len(),
                forall|i: int|
                    0 <= i < at ==> (found@.contains(i as usize) == self.over_cap(
                        #[trigger] snapshots@[i],
                    )),
                forall|k: int| 0 <= k < found.len() ==> (#[trigger] found@[k]) < at,
                forall|j: int, k: int| 0 <= j < k < found.len() ==> found@[j] < found@[k],
            decreases snapshots.len() - at,
        {
            let ghost before = found@;
            if self.exceeds_cap(&snapshots[at]) {
                found.push(at);
            }
            proof {
                assert forall|i: int| 0 <= i < at + 1 implies (found@.contains(i as usize)
                    == self.over_cap(#[trigger] snapshots@[i])) by {
                    if i < at {
                        if before.contains(i as usize) {
                            let k = choose|k: int| 0 <= k < before.len() && before[k] == i as usize;
                            assert(found@[k] == i as usize);
                        } else if found@.contains(i as usize) {
                            let k = choose|k: int| 0 <= k < found.len() && found@[k] == i as usize;
                            assert(k == before.len() || before[k] == i as usize);
                        }
                    } else if self.over_cap(snapshots@[i]) {
                        assert(found@[before.len() as int] == i as usize);
                    }
                }
            }
            at = at + 1;
        }
        found
    }

    /// Whether the exposure of the account is above `limit`, the budget times the leeway.
    pub fn global_breach(&self, global_exposure: Scalar, limit: Scalar) -> (r: bool)
        ensures
            r == limit.below(global_exposure),
    {
        limit.lt(&global_exposure)
    }

    /// Whether any market is beyond the cap or the whole account is above `limit`, the budget
    /// times the leeway.
    pub fn check_exposure(
        &self,
        snapshots: &Vec<SideExposure>,
        global_exposure: Scalar,
        limit: Scalar,
    ) -> (r: bool)
        ensures
            r == self.breached(snapshots@, global_exposure, limit),
    {
        let found = self.breached_markets(snapshots);
        if found.len() > 0 {
            proof {
                let i = found@[0] as int;
                assert(found@.contains(i as usize));
                assert(self.over_cap(snapshots@[i]));
            }
            return true;
        }
        self.global_breach(global_exposure, limit)
    }
}

/// With a cap above zero a market is beyond it exactly where one of its sides is larger than the
/// cap or smaller than the cap negated; without one no market is. (Numbers by their place among
/// all numbers, which is negated with the number.)
pub proof fn law_a_market_is_held_against_the_cap_in_both_directions(
    watchdog: Watchdog,
    snapshot: SideExposure,
)
    ensures
        !watchdog.max_exposure_per_market.positive() ==> !watchdog.over_cap(snapshot),
        watchdog.max_exposure_per_market.positive() ==> (watchdog.over_cap(snapshot) <==> {
            let cap = watchdog.max_exposure_per_market.rank();
            let (yes, no) = (snapshot.yes_qty, snapshot.no_qty);
            ||| yes.is_number() && (yes.rank() > cap || yes.rank() < -cap)
            ||| no.is_number() && (no.rank() > cap || no.rank() < -cap)
        }),
{
}

/// One market beyond the cap is a breach whatever the account holds, an account above the limit is
/// one whatever its markets hold, and there is no other.
pub proof fn law_one_market_or_the_account_is_a_breach(
    watchdog: Watchdog,
    snapshots: Seq<SideExposure>,
    global_exposure: Scalar,
    limit: Scalar,
    at: int,
)
    ensures
        0 <= at < snapshots.len() && watchdog.over_cap(snapshots[at]) ==> watchdog.breached(
            snapshots,
            global_exposure,
            limit,
        ),
        limit.below(global_exposure) ==> watchdog.breached(snapshots, global_exposure, limit),
        !limit.below(global_exposure) && (forall|i: int|
            0 <= i < snapshots.len() ==> !watchdog.over_cap(#[trigger] snapshots[i]))
            ==> !watchdog.breached(snapshots, global_exposure, limit),
{
}

} // verus!
