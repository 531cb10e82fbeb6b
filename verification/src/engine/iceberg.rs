//! Splitting a large purchase into several small orders.
use crate::models::types::OrderSide;
use crate::scalar::Scalar;
use vstd::prelude::*;

verus! {

/// The bits of 5.0: a purchase above this many dollars is split, into chunks of at most as much.
pub const ICEBERG_THRESHOLD_USD: u64 = 0x4014_0000_0000_0000;

/// The bits of 3.0: chunks worth less than this are avoided.
pub const ICEBERG_CHUNK_MIN_USD: u64 = 0x4008_0000_0000_0000;

/// Seconds within which all chunks have to be placed.
pub const ICEBERG_WINDOW_SECS: u64 = 1;

/// How a purchase is placed.
#[derive(Clone, Copy, Debug, PartialEq, Eq, Structural)]
pub enum IcebergPlan {
    Nothing,
    Whole,
    Split(usize),
}

/// Whether an order is placed in chunks.
pub open spec fn goes_in_chunks(side: OrderSide, total_usd: Scalar) -> bool {
    side == OrderSide::Buy && Scalar::of(ICEBERG_THRESHOLD_USD).below(total_usd)
}

/// Whether an order is placed in chunks.
pub fn is_iceberg(side: OrderSide, total_usd: Scalar) -> (r: bool)
    ensures
        r == goes_in_chunks(side, total_usd),
{
    side == OrderSide::Buy && Scalar::from_bits(ICEBERG_THRESHOLD_USD).lt(&total_usd)
}

/// At least one.
pub open spec fn one_or_more(n: usize) -> usize {
    if n < 1 {
        1
    } else {
        n
    }
}

/// At least one.
pub fn at_least_one(n: usize) -> (r: usize)
    ensures
        r == one_or_more(n),
{
    if n < 1 {
        1
    } else {
        n
    }
}

/// How a purchase is placed: not at all without a price and a size above zero, whole up to the
/// threshold, and else in the fewest chunks that are not too large, or in the most that are not
/// too small where the former would be too small.
pub open spec fn plan_for(
    total_size: Scalar,
    price: Scalar,
    total_usd: Scalar,
    fewest: usize,
    chunk_usd: Scalar,
    most: usize,
) -> IcebergPlan {
    if price.at_most(Scalar::of(0)) || total_size.at_most(Scalar::of(0)) {
        IcebergPlan::Nothing
    } else if total_usd.at_most(Scalar::of(ICEBERG_THRESHOLD_USD)) {
        IcebergPlan::Whole
    } else if chunk_usd.below(Scalar::of(ICEBERG_CHUNK_MIN_USD)) {
        IcebergPlan::Split(one_or_more(most))
    } else {
        IcebergPlan::Split(one_or_more(fewest))
    }
}

/// How a purchase of `total_size` shares is placed. `fewest` is the number of chunks when each
/// is as large as allowed, `chunk_usd` what each of these is worth, and `most` the number of
/// chunks when each is as small as allowed.
pub fn iceberg_plan(
    total_size: Scalar,
    price: Scalar,
    total_usd: Scalar,
    fewest: usize,
    chunk_usd: Scalar,
    most: usize,
) -> (r: IcebergPlan)
    ensures
        r == plan_for(total_size, price, total_usd, fewest, chunk_usd, most),
{
    let zero = Scalar::zero();
    if price.le(&zero) || total_size.le(&zero) {
        return IcebergPlan::Nothing;
    }
    if total_usd.le(&Scalar::from_bits(ICEBERG_THRESHOLD_USD)) {
        return IcebergPlan::Whole;
    }
    if chunk_usd.lt(&Scalar::from_bits(ICEBERG_CHUNK_MIN_USD)) {
        IcebergPlan::Split(at_least_one(most))
    } else {
        IcebergPlan::Split(at_least_one(fewest))
    }
}

/// The chunks above zero: `n - 1` of them of size `chunk`, and `last`.
pub open spec fn chunks_kept(n: usize, chunk: Scalar, last: Scalar) -> Seq<Scalar> {
    let equal = if chunk.positive() {
        Seq::new((n - 1) as nat, |i: int| chunk)
    } else {
        Seq::empty()
    };
    if last.positive() {
        equal.push(last)
    } else {
        equal
    }
}

/// The sizes that a plan comes to.
pub open spec fn planned_sizes(
    plan: IcebergPlan,
    total_size: Scalar,
    chunk: Scalar,
    last: Scalar,
) -> Seq<Scalar> {
    match plan {
        IcebergPlan::Nothing => Seq::empty(),
        IcebergPlan::Whole => seq![total_size],
        IcebergPlan::Split(n) => if chunks_kept(n, chunk, last).len() == 0 {
            seq![total_size]
        } else {
            chunks_kept(n, chunk, last)
        },
    }
}

/// The sizes of the orders that a purchase is placed in. `chunk` is the total divided by the
/// number of chunks and `last` the chunk that makes up for rounding. Chunks not above zero are
/// left out; where none is left the whole is one order.
pub fn iceberg_chunk_sizes(
    plan: IcebergPlan,
    total_size: Scalar,
    chunk: Scalar,
    last: Scalar,
) -> (r: Vec<Scalar>)
    requires
        plan matches IcebergPlan::Split(n) ==> n >= 1,
    ensures
        r@ == planned_sizes(plan, total_size, chunk, last),
{
    let mut sizes: Vec<Scalar> = Vec::new();
    match plan {
        IcebergPlan::Nothing => {
            return sizes;
        },
        IcebergPlan::Whole => {},
        IcebergPlan::Split(n) => {
            if chunk.is_positive() {
                let mut i: usize = 1;
                while i < n
                    invariant
                        1 <= i <= n,
                        sizes@ == Seq::new((i - 1) as nat, |j: int| chunk),
                    decreases n - i,
                {
                    sizes.push(chunk);
                    i = i + 1;
                    assert(sizes@ =~= Seq::new((i - 1) as nat, |j: int| chunk));
                }
            }
            if last.is_positive() {
                sizes.push(last);
            }
            assert(sizes@ =~= chunks_kept(n, chunk, last));
        },
    }
    if sizes.len() == 0 {
        sizes.push(total_size);
    }
    sizes
}

/// A purchase above zero is placed in at least one order, and each of its orders is above zero.
pub proof fn law_every_order_is_above_zero(
    plan: IcebergPlan,
    total_size: Scalar,
    chunk: Scalar,
    last: Scalar,
)
    requires
        total_size.positive(),
        plan !is Nothing,
    ensures
        planned_sizes(plan, total_size, chunk, last).len() >= 1,
        forall|i: int|
            0 <= i < planned_sizes(plan, total_size, chunk, last).len() ==> (
            #[trigger] planned_sizes(plan, total_size, chunk, last)[i]).positive(),
{
}

/// Where the chunk and the last one are above zero, a split into `n` places exactly `n` orders:
/// all but the last of the size of a chunk, and the last of the size that makes up the whole. A
/// purchase that is not split is one order of the whole size.
pub proof fn law_a_split_places_every_chunk(
    n: usize,
    total_size: Scalar,
    chunk: Scalar,
    last: Scalar,
)
    requires
        n >= 1,
    ensures
        ({
            let sizes = planned_sizes(IcebergPlan::Split(n), total_size, chunk, last);
            &&& chunk.positive() && last.positive() ==> {
                &&& sizes.len() == n
                &&& forall|i: int| 0 <= i < n - 1 ==> #[trigger] sizes[i] == chunk
                &&& sizes[n - 1] == last
            }
            &&& chunk.positive() && !last.positive() && n > 1 ==> {
                &&& sizes.len() == n - 1
                &&& forall|i: int| 0 <= i < n - 1 ==> #[trigger] sizes[i] == chunk
            }
            &&& !chunk.positive() && last.positive() ==> sizes == seq![last]
            &&& !chunk.positive() && !last.positive() ==> sizes == seq![total_size]
            &&& n == 1 && !last.positive() ==> sizes == seq![total_size]
        }),
        planned_sizes(IcebergPlan::Whole, total_size, chunk, last) == seq![total_size],
        planned_sizes(IcebergPlan::Nothing, total_size, chunk, last).len() == 0,
{
    let sizes = planned_sizes(IcebergPlan::Split(n), total_size, chunk, last);
    if !chunk.positive() && last.positive() {
        assert(sizes =~= seq![last]);
    }
}

/// A purchase without a price or a size above zero is not placed. Any other one worth up to five
/// dollars is placed whole, and one worth more is split: into the fewest chunks that are not too
/// large where these are worth three dollars or more, into as many as are not too small where
/// they are worth less, and never into none.
pub proof fn law_purchases_above_five_dollars_are_split(
    total_size: Scalar,
    price: Scalar,
    total_usd: Scalar,
    fewest: usize,
    chunk_usd: Scalar,
    most: usize,
)
    ensures
        ({
            let five = Scalar::of(0x4014_0000_0000_0000);
            let three = Scalar::of(0x4008_0000_0000_0000);
            let plan = plan_for(total_size, price, total_usd, fewest, chunk_usd, most);
            &&& price.at_most(Scalar::of(0)) ==> plan is Nothing
            &&& total_size.at_most(Scalar::of(0)) ==> plan is Nothing
            &&& price.positive() && total_size.positive() ==> {
                &&& total_usd.at_most(five) ==> plan is Whole
                &&& five.below(total_usd) ==> plan is Split && plan->Split_0 >= 1
                &&& five.below(total_usd) && three.at_most(chunk_usd) && fewest >= 1 ==> plan
                    == IcebergPlan::Split(fewest)
                &&& five.below(total_usd) && chunk_usd.below(three) && most >= 1 ==> plan
                    == IcebergPlan::Split(most)
                &&& five.below(total_usd) && fewest == 0 && most == 0 ==> plan
                    == IcebergPlan::Split(1)
                &&& total_usd.is_number() ==> (plan is Split <==> goes_in_chunks(
                    OrderSide::Buy,
                    total_usd,
                ))
            }
            &&& !goes_in_chunks(OrderSide::Sell, total_usd)
            &&& goes_in_chunks(OrderSide::Buy, total_usd) <==> five.below(total_usd)
        }),
{
}

} // verus!
