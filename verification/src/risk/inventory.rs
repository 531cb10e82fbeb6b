//! Position ledger held in memory: what each market holds, what is pending there and what it has
//! brought in so far.
use crate::decimal::{representable, Amount};
use crate::models::types::OrderSide;
use crate::risk::guard::{is_cost, GuardState};
use crate::scalar::Scalar;
use dashmap::DashMap;
use vstd::prelude::*;

verus! {

/// What the ledger knows of one market.
#[derive(Clone, Copy, Debug)]
pub struct MarketExposure {
    pub yes_qty: Amount,
    pub no_qty: Amount,
    pub pending_yes_buy_notional: Amount,
    pub pending_no_buy_notional: Amount,
    pub realized_pnl: Amount,
    /// Seconds since the epoch.
    pub last_local_fill_timestamp: Scalar,
}

impl MarketExposure {
    /// Nothing held, pending or earned, and never filled.
    pub open spec fn empty() -> MarketExposure {
        MarketExposure {
            yes_qty: Amount::nothing(),
            no_qty: Amount::nothing(),
            pending_yes_buy_notional: Amount::nothing(),
            pending_no_buy_notional: Amount::nothing(),
            realized_pnl: Amount::nothing(),
            last_local_fill_timestamp: Scalar::of(0),
        }
    }
}

impl Default for MarketExposure {
    fn default() -> (r: MarketExposure)
        ensures
            r == MarketExposure::empty(),
    {
        MarketExposure {
            yes_qty: Amount::zero(),
            no_qty: Amount::zero(),
            pending_yes_buy_notional: Amount::zero(),
            pending_no_buy_notional: Amount::zero(),
            realized_pnl: Amount::zero(),
            last_local_fill_timestamp: Scalar::zero(),
        }
    }
}

/// The concurrent map of the `dashmap` crate.
#[verifier::external_type_specification]
#[verifier::external_body]
#[verifier::reject_recursive_types(K)]
#[verifier::reject_recursive_types(V)]
#[verifier::reject_recursive_types(S)]
pub struct ExDashMap<K, V, S>(DashMap<K, V, S>);

/// What a map of exposures holds, by market. The functions below change a map only through a
/// unique reference to it, so that what it holds belongs to its value.
pub uninterp spec fn exposures_in(map: DashMap<String, MarketExposure>) -> Map<
    Seq<char>,
    MarketExposure,
>;

/// `entries` names every market of `ledger` once, with what the ledger holds for it.
pub open spec fn lists_all(
    entries: Seq<(Seq<char>, MarketExposure)>,
    ledger: Map<Seq<char>, MarketExposure>,
) -> bool {
    &&& forall|i: int|
        0 <= i < entries.len() ==> ledger.contains_key((#[trigger] entries[i]).0)
            && ledger[entries[i].0] == entries[i].1
    &&& forall|key: Seq<char>| #[trigger]
        ledger.contains_key(key) ==> exists|i: int|
            0 <= i < entries.len() && (#[trigger] entries[i]).0 == key
    &&& forall|i: int, j: int|
        0 <= i < j < entries.len() ==> (#[trigger] entries[i]).0 != (#[trigger] entries[j]).0
}

/// The entries with their market ids as sequences of characters.
pub open spec fn plain(entries: Seq<(String, MarketExposure)>) -> Seq<
    (Seq<char>, MarketExposure),
> {
    entries.map_values(|e: (String, MarketExposure)| (e.0@, e.1))
}

/// Calls `DashMap::new`. Claimed of it: the new map holds nothing.
#[verifier::external_body]
fn new_exposures() -> (r: DashMap<String, MarketExposure>)
    ensures
        exposures_in(r).dom() == Set::<Seq<char>>::empty(),
{
    DashMap::new()
}

/// Calls `DashMap::get`. Claimed of it: it finds what the map holds under the key, and nothing
/// under a key that the map does not hold.
#[verifier::external_body]
fn find_exposure(map: &DashMap<String, MarketExposure>, key: &str) -> (r: Option<MarketExposure>)
    ensures
        r == (if exposures_in(*map).contains_key(key@) {
            Some(exposures_in(*map)[key@])
        } else {
            None
        }),
{
    map.get(key).map(|entry| *entry)
}

/// Calls `DashMap::insert`. Claimed of it: the map then holds the value under the key, and
/// everything else as before.
#[verifier::external_body]
fn put_exposure(map: &mut DashMap<String, MarketExposure>, key: String, value: MarketExposure)
    ensures
        exposures_in(*final(map)) == exposures_in(*old(map)).insert(key@, value),
{
    map.insert(key, value);
}

/// Walks `DashMap::iter`. Claimed of it: every entry is met once. Nothing is claimed of the
/// order.
#[verifier::external_body]
fn all_exposures(map: &DashMap<String, MarketExposure>) -> (r: Vec<(String, MarketExposure)>)
    ensures
        lists_all(plain(r@), exposures_in(*map)),
{
    map.iter().map(|entry| (entry.key().clone(), *entry.value())).collect()
}

/// What the ledger holds for a market: nothing where it has no entry.
pub open spec fn entry_of(ledger: Map<Seq<char>, MarketExposure>, market: Seq<char>) -> MarketExposure {
    if ledger.contains_key(market) {
        ledger[market]
    } else {
        MarketExposure::empty()
    }
}

/// `amount` grown by `delta` on a buy and lowered by it on a sale, as decimal arithmetic gives
/// it.
pub open spec fn moved(side: OrderSide, amount: Amount, delta: Amount) -> Option<Amount> {
    match side {
        OrderSide::Buy => Amount::sum(amount, delta),
        OrderSide::Sell => Amount::difference(amount, delta),
    }
}

/// `next` is `amount` grown by `delta` on a buy and lowered by it on a sale: exactly so where
/// decimal digits can hold the outcome.
pub open spec fn is_moved(side: OrderSide, amount: Amount, delta: Amount, next: Amount) -> bool {
    &&& moved(side, amount, delta) == Some(next)
    &&& next.valid()
    &&& match side {
        OrderSide::Buy => representable(amount@ + delta@) ==> next@ == amount@ + delta@,
        OrderSide::Sell => representable(amount@ - delta@) ==> next@ == amount@ - delta@,
    }
}

/// The side on which the money of an order moves: it leaves on a buy.
pub open spec fn money_side(side: OrderSide) -> OrderSide {
    match side {
        OrderSide::Buy => OrderSide::Sell,
        OrderSide::Sell => OrderSide::Buy,
    }
}

impl MarketExposure {
    /// What is held on one side of the market.
    pub open spec fn quantity(self, is_yes: bool) -> Amount {
        if is_yes {
            self.yes_qty
        } else {
            self.no_qty
        }
    }

    /// Decimal arithmetic can hold the quantity after the fill.
    pub open spec fn can_move(self, is_yes: bool, side: OrderSide, size: Option<Amount>) -> bool {
        moved(side, self.quantity(is_yes), GuardState::or_zero(size)) is Some
    }

    /// What [`InventoryManager::add_fill`] makes of the entry.
    pub open spec fn adds_fill(
        self,
        is_yes: bool,
        side: OrderSide,
        size: Option<Amount>,
        now: Scalar,
        next: MarketExposure,
    ) -> bool {
        &&& is_moved(
            side,
            self.quantity(is_yes),
            GuardState::or_zero(size),
            next.quantity(is_yes),
        )
        &&& next == (if is_yes {
            MarketExposure { yes_qty: next.yes_qty, last_local_fill_timestamp: now, ..self }
        } else {
            MarketExposure { no_qty: next.no_qty, last_local_fill_timestamp: now, ..self }
        })
    }

    /// Decimal arithmetic can hold the quantity and the balance after the fill.
    pub open spec fn can_fill(
        self,
        is_yes: bool,
        side: OrderSide,
        size: Option<Amount>,
        price: Option<Amount>,
    ) -> bool {
        let cost = Amount::product(GuardState::or_zero(price), GuardState::or_zero(size));
        &&& self.can_move(is_yes, side, size)
        &&& cost is Some
        &&& moved(money_side(side), self.realized_pnl, cost->0) is Some
    }

    /// What [`InventoryManager::apply_fill`] makes of the entry.
    pub open spec fn applies_fill(
        self,
        is_yes: bool,
        side: OrderSide,
        size: Option<Amount>,
        price: Option<Amount>,
        now: Scalar,
        next: MarketExposure,
    ) -> bool {
        let cost = Amount::product(GuardState::or_zero(price), GuardState::or_zero(size))->0;
        &&& is_cost(GuardState::or_zero(price), GuardState::or_zero(size), cost)
        &&& is_moved(money_side(side), self.realized_pnl, cost, next.realized_pnl)
        &&& (MarketExposure { realized_pnl: next.realized_pnl, ..self }).adds_fill(
            is_yes,
            side,
            size,
            now,
            next,
        )
    }

    /// The entry with so much pending to be bought on one side, but not less than nothing.
    pub open spec fn with_pending(self, is_yes: bool, notional: Option<Amount>) -> MarketExposure {
        let pending = Amount::larger(GuardState::or_zero(notional), Amount::nothing());
        if is_yes {
            MarketExposure { pending_yes_buy_notional: pending, ..self }
        } else {
            MarketExposure { pending_no_buy_notional: pending, ..self }
        }
    }

    /// The entry with what the exchange reports in place of what is held.
    pub open spec fn reconciled(self, yes: Option<Amount>, no: Option<Amount>) -> MarketExposure {
        MarketExposure {
            yes_qty: GuardState::or_zero(yes),
            no_qty: GuardState::or_zero(no),
            ..self
        }
    }

    /// What the entry adds to the exposure of the whole account, in the order of the additions.
    pub open spec fn parts(self) -> Seq<Amount> {
        seq![
            self.yes_qty,
            self.no_qty,
            self.pending_yes_buy_notional,
            self.pending_no_buy_notional,
        ]
    }

    /// The value of what the entry adds to the exposure of the whole account.
    pub open spec fn value(self) -> int {
        self.yes_qty@ + self.no_qty@ + self.pending_yes_buy_notional@
            + self.pending_no_buy_notional@
    }

    /// Every amount of the entry is one that decimal digits can hold.
    pub open spec fn valid(self) -> bool {
        &&& self.yes_qty.valid()
        &&& self.no_qty.valid()
        &&& self.pending_yes_buy_notional.valid()
        &&& self.pending_no_buy_notional.valid()
        &&& self.realized_pnl.valid()
    }
}

/// The amounts that are added up for the exposure of the account without `excluded`, in the
/// order of the entries.
pub open spec fn exposure_parts(
    entries: Seq<(Seq<char>, MarketExposure)>,
    excluded: Option<Seq<char>>,
) -> Seq<Amount>
    decreases entries.len(),
{
    if entries.len() == 0 {
        Seq::empty()
    } else if excluded == Some(entries.last().0) {
        exposure_parts(entries.drop_last(), excluded)
    } else {
        exposure_parts(entries.drop_last(), excluded) + entries.last().1.parts()
    }
}

/// The amounts added up one after the other from zero; `None` where a sum on the way is too
/// large.
pub open spec fn running_sum(amounts: Seq<Amount>) -> Option<Amount>
    decreases amounts.len(),
{
    if amounts.len() == 0 {
        Some(Amount::nothing())
    } else {
        match running_sum(amounts.drop_last()) {
            Some(before) => Amount::sum(before, amounts.last()),
            None => None,
        }
    }
}

/// The exact sum of the amounts.
pub open spec fn exact_sum(amounts: Seq<Amount>) -> int
    decreases amounts.len(),
{
    if amounts.len() == 0 {
        0
    } else {
        exact_sum(amounts.drop_last()) + amounts.last()@
    }
}

/// Every sum on the way is one that decimal digits can hold.
pub open spec fn sums_representable(amounts: Seq<Amount>) -> bool
    decreases amounts.len(),
{
    amounts.len() == 0 || (sums_representable(amounts.drop_last()) && representable(
        exact_sum(amounts),
    ))
}

/// `r` is the running sum: found and exact where every sum on the way can be held.
pub open spec fn is_running_sum(amounts: Seq<Amount>, r: Option<Amount>) -> bool {
    &&& r == running_sum(amounts)
    &&& sums_representable(amounts) ==> r is Some && r->0@ == exact_sum(amounts)
}

/// The realized results of the entries, in their order.
pub open spec fn realized_parts(entries: Seq<(Seq<char>, MarketExposure)>) -> Seq<Amount> {
    entries.map_values(|e: (Seq<char>, MarketExposure)| e.1.realized_pnl)
}

proof fn lemma_sum_step(amounts: Seq<Amount>, more: Amount)
    ensures
        running_sum(amounts.push(more)) == match running_sum(amounts) {
            Some(before) => Amount::sum(before, more),
            None => None,
        },
        exact_sum(amounts.push(more)) == exact_sum(amounts) + more@,
        sums_representable(amounts.push(more)) == (sums_representable(amounts) && representable(
            exact_sum(amounts) + more@,
        )),
{
    assert(amounts.push(more).drop_last() =~= amounts);
}

fn add_to(total: Option<Amount>, more: Amount, Ghost(before): Ghost<Seq<Amount>>) -> (r: Option<
    Amount,
>)
    requires
        is_running_sum(before, total),
    ensures
        is_running_sum(before.push(more), r),
{
    proof {
        lemma_sum_step(before, more);
    }
    match total {
        Some(sum) => sum.checked_add(&more),
        None => None,
    }
}

/// The exposure of all entries but those of the market `excluded`: what is held on both sides
/// and what is pending on both sides, added up in the order of the entries. `None` where a sum
/// on the way is too large.
pub fn total_exposure(
    entries: &Vec<(String, MarketExposure)>,
    excluded: Option<&str>,
) -> (r: Option<Amount>)
    ensures
        is_running_sum(
            exposure_parts(
                plain(entries@),
                match excluded {
                    Some(market) => Some(market@),
                    None => None,
                },
            ),
            r,
        ),
{
    let mut total: Option<Amount> = Some(Amount::zero());
    let mut i: usize = 0;
    let ghost all = plain(entries@);
    let ghost skipped = match excluded {
        Some(market) => Some(market@),
        None => None,
    };
    while i < entries.len()
        invariant
            i <= entries.len(),
            all == plain(entries@),
            skipped == (match excluded {
                Some(market) => Some(market@),
                None => None,
            }),
            is_running_sum(exposure_parts(all.take(i as int), skipped), total),
        decreases entries.len() - i,
    {
        let ghost done = exposure_parts(all.take(i as int), skipped);
        proof {
            assert(all.take(i + 1).drop_last() =~= all.take(i as int));
            assert(all.take(i + 1).last() == (entries@[i as int].0@, entries@[i as int].1));
        }
        let skip: bool = match excluded {
            Some(market) => crate::text::same_text(entries[i].0.as_str(), market),
            None => false,
        };
        if !skip {
            let e = entries[i].1;
            total = add_to(total, e.yes_qty, Ghost(done));
            total = add_to(total, e.no_qty, Ghost(done.push(e.yes_qty)));
            total =
            add_to(
                total,
                e.pending_yes_buy_notional,
                Ghost(done.push(e.yes_qty).push(e.no_qty)),
            );
            total =
            add_to(
                total,
                e.pending_no_buy_notional,
                Ghost(done.push(e.yes_qty).push(e.no_qty).push(e.pending_yes_buy_notional)),
            );
            proof {
                assert(done.push(e.yes_qty).push(e.no_qty).push(e.pending_yes_buy_notional).push(
                    e.pending_no_buy_notional,
                ) =~= done + e.parts());
            }
        }
        i = i + 1;
    }
    proof {
        assert(all.take(i as int) =~= all);
    }
    total
}

/// The realized results of all entries, added up in their order. `None` where a sum on the way
/// is too large.
pub fn total_realized(entries: &Vec<(String, MarketExposure)>) -> (r: Option<Amount>)
    ensures
        is_running_sum(realized_parts(plain(entries@)), r),
{
    let mut total: Option<Amount> = Some(Amount::zero());
    let mut i: usize = 0;
    let ghost all = realized_parts(plain(entries@));
    while i < entries.len()
        invariant
            i <= entries.len(),
            all == realized_parts(plain(entries@)),
            is_running_sum(all.take(i as int), total),
        decreases entries.len() - i,
    {
        proof {
            assert(all.take(i as int).push(entries@[i as int].1.realized_pnl) =~= all.take(i + 1));
        }
        total = add_to(total, entries[i].1.realized_pnl, Ghost(all.take(i as int)));
        i = i + 1;
    }
    proof {
        assert(all.take(i as int) =~= all);
    }
    total
}

fn shift(side: OrderSide, amount: Amount, delta: Amount) -> (r: Option<Amount>)
    ensures
        r == moved(side, amount, delta),
        r matches Some(next) ==> is_moved(side, amount, delta, next),
{
    match side {
        OrderSide::Buy => amount.checked_add(&delta),
        OrderSide::Sell => amount.checked_sub(&delta),
    }
}

fn or_zero(value: Option<Amount>) -> (r: Amount)
    ensures
        r == GuardState::or_zero(value),
{
    match value {
        Some(v) => v,
        None => Amount::zero(),
    }
}

/// The ledger of all markets.
pub struct InventoryManager {
    exposures: DashMap<String, MarketExposure>,
}

impl View for InventoryManager {
    type V = Map<Seq<char>, MarketExposure>;

    closed spec fn view(&self) -> Map<Seq<char>, MarketExposure> {
        exposures_in(self.exposures)
    }
}

impl Default for InventoryManager {
    fn default() -> (r: InventoryManager)
        ensures
            r@ == Map::<Seq<char>, MarketExposure>::empty(),
    {
        InventoryManager::new()
    }
}

impl InventoryManager {
    /// A ledger without any market.
    pub fn new() -> (r: InventoryManager)
        ensures
            r@ == Map::<Seq<char>, MarketExposure>::empty(),
    {
        let r = InventoryManager { exposures: new_exposures() };
        assert(r@ =~= Map::<Seq<char>, MarketExposure>::empty());
        r
    }

    fn entry(&self, market_id: &str) -> (r: MarketExposure)
        ensures
            r == entry_of(self@, market_id@),
    {
        match find_exposure(&self.exposures, market_id) {
            Some(e) => e,
            None => MarketExposure::default(),
        }
    }

    /// Records a fill with its price: the quantity moves by the size, the realized result by
    /// price times size the other way, and the time of the last fill becomes `now`. A size or
    /// price without a decimal value counts as zero.
    pub fn apply_fill(
        &mut self,
        market_id: &str,
        is_yes: bool,
        side: OrderSide,
        filled_size: Option<Amount>,
        fill_price: Option<Amount>,
        now: Scalar,
    )
        requires
            entry_of(old(self)@, market_id@).can_fill(is_yes, side, filled_size, fill_price),
        ensures
            entry_of(old(self)@, market_id@).applies_fill(
                is_yes,
                side,
                filled_size,
                fill_price,
                now,
                final(self)@[market_id@],
            ),
            final(self)@ == old(self)@.insert(market_id@, final(self)@[market_id@]),
    {
        let size = or_zero(filled_size);
        let price = or_zero(fill_price);
        let mut e = self.entry(market_id);
        let cost = price.checked_mul(&size).unwrap();
        let money = match side {
            OrderSide::Buy => OrderSide::Sell,
            OrderSide::Sell => OrderSide::Buy,
        };
        if is_yes {
            e.yes_qty = shift(side, e.yes_qty, size).unwrap();
        } else {
            e.no_qty = shift(side, e.no_qty, size).unwrap();
        }
        e.realized_pnl = shift(money, e.realized_pnl, cost).unwrap();
        e.last_local_fill_timestamp = now;
        put_exposure(&mut self.exposures, market_id.to_owned(), e);
    }

    /// Whether decimal arithmetic can hold what [`InventoryManager::apply_fill`] computes.
    pub fn can_apply_fill(
        &self,
        market_id: &str,
        is_yes: bool,
        side: OrderSide,
        filled_size: Option<Amount>,
        fill_price: Option<Amount>,
    ) -> (r: bool)
        ensures
            r == entry_of(self@, market_id@).can_fill(is_yes, side, filled_size, fill_price),
    {
        let size = or_zero(filled_size);
        let price = or_zero(fill_price);
        let e = self.entry(market_id);
        let qty = if is_yes {
            e.yes_qty
        } else {
            e.no_qty
        };
        let money = match side {
            OrderSide::Buy => OrderSide::Sell,
            OrderSide::Sell => OrderSide::Buy,
        };
        if shift(side, qty, size).is_none() {
            return false;
        }
        match price.checked_mul(&size) {
            Some(cost) => {
                if shift(money, e.realized_pnl, cost).is_none() {
                    return false;
                }
            },
            None => {
                return false;
            },
        }
        true
    }

    /// [`InventoryManager::apply_fill`] where decimal arithmetic can hold the outcome; `false`,
    /// and nothing done, where it cannot.
    pub fn try_apply_fill(
        &mut self,
        market_id: &str,
        is_yes: bool,
        side: OrderSide,
        filled_size: Option<Amount>,
        fill_price: Option<Amount>,
        now: Scalar,
    ) -> (r: bool)
        ensures
            r == entry_of(old(self)@, market_id@).can_fill(is_yes, side, filled_size, fill_price),
            r ==> entry_of(old(self)@, market_id@).applies_fill(
                is_yes,
                side,
                filled_size,
                fill_price,
                now,
                final(self)@[market_id@],
            ) && final(self)@ == old(self)@.insert(market_id@, final(self)@[market_id@]),
            !r ==> final(self)@ == old(self)@,
    {
        if !self.can_apply_fill(market_id, is_yes, side, filled_size, fill_price) {
            return false;
        }
        self.apply_fill(market_id, is_yes, side, filled_size, fill_price, now);
        true
    }

    /// Records a fill without its price: the quantity moves by the size and the time of the
    /// last fill becomes `now`.
    pub fn add_fill(
        &mut self,
        token_id: &str,
        is_yes: bool,
        side: OrderSide,
        qty: Option<Amount>,
        now: Scalar,
    )
        requires
            entry_of(old(self)@, token_id@).can_move(is_yes, side, qty),
        ensures
            entry_of(old(self)@, token_id@).adds_fill(
                is_yes,
                side,
                qty,
                now,
                final(self)@[token_id@],
            ),
            final(self)@ == old(self)@.insert(token_id@, final(self)@[token_id@]),
    {
        let delta = or_zero(qty);
        let mut e = self.entry(token_id);
        if is_yes {
            e.yes_qty = shift(side, e.yes_qty, delta).unwrap();
        } else {
            e.no_qty = shift(side, e.no_qty, delta).unwrap();
        }
        e.last_local_fill_timestamp = now;
        put_exposure(&mut self.exposures, token_id.to_owned(), e);
    }

    /// [`InventoryManager::add_fill`] where decimal arithmetic can hold the outcome; `false`,
    /// and nothing done, where it cannot.
    pub fn try_add_fill(
        &mut self,
        token_id: &str,
        is_yes: bool,
        side: OrderSide,
        qty: Option<Amount>,
        now: Scalar,
    ) -> (r: bool)
        ensures
            r == entry_of(old(self)@, token_id@).can_move(is_yes, side, qty),
            r ==> entry_of(old(self)@, token_id@).adds_fill(
                is_yes,
                side,
                qty,
                now,
                final(self)@[token_id@],
            ) && final(self)@ == old(self)@.insert(token_id@, final(self)@[token_id@]),
            !r ==> final(self)@ == old(self)@,
    {
        let e = self.entry(token_id);
        let held = if is_yes {
            e.yes_qty
        } else {
            e.no_qty
        };
        if shift(side, held, or_zero(qty)).is_none() {
            return false;
        }
        self.add_fill(token_id, is_yes, side, qty, now);
        true
    }

    /// Exposure of the whole account: what is held on both sides and what is pending on both
    /// sides, over all markets in some order. `None` where a sum on the way is too large.
    pub fn get_global_exposure(&self) -> (r: Option<Amount>)
        ensures
            exists|walk: Seq<(Seq<char>, MarketExposure)>| #[trigger]
                lists_all(walk, self@) && is_running_sum(exposure_parts(walk, None), r),
    {
        let entries = all_exposures(&self.exposures);
        assert(lists_all(plain(entries@), self@));
        total_exposure(&entries, None)
    }

    /// Exposure of the whole account without one market, over the others in some order. `None`
    /// where a sum on the way is too large.
    pub fn get_global_exposure_excluding(&self, market_id: &str) -> (r: Option<Amount>)
        ensures
            exists|walk: Seq<(Seq<char>, MarketExposure)>| #[trigger]
                lists_all(walk, self@) && is_running_sum(
                    exposure_parts(walk, Some(market_id@)),
                    r,
                ),
    {
        let entries = all_exposures(&self.exposures);
        assert(lists_all(plain(entries@), self@));
        total_exposure(&entries, Some(market_id))
    }

    /// Realized result of the whole account, over all markets in some order. `None` where a sum
    /// on the way is too large.
    pub fn get_total_realized_pnl(&self) -> (r: Option<Amount>)
        ensures
            exists|walk: Seq<(Seq<char>, MarketExposure)>| #[trigger]
                lists_all(walk, self@) && is_running_sum(realized_parts(walk), r),
    {
        let entries = all_exposures(&self.exposures);
        assert(lists_all(plain(entries@), self@));
        total_realized(&entries)
    }

    /// Sets what is pending to be bought on one side of a market; what is below zero or has no
    /// decimal value counts as zero.
    pub fn update_pending_buy_notional(
        &mut self,
        market_id: &str,
        is_yes: bool,
        notional: Option<Amount>,
    )
        ensures
            final(self)@ == old(self)@.insert(
                market_id@,
                entry_of(old(self)@, market_id@).with_pending(is_yes, notional),
            ),
    {
        let zero = Amount::zero();
        let pending = or_zero(notional).max(&zero);
        let mut e = self.entry(market_id);
        if is_yes {
            e.pending_yes_buy_notional = pending;
        } else {
            e.pending_no_buy_notional = pending;
        }
        put_exposure(&mut self.exposures, market_id.to_owned(), e);
    }

    /// Seconds since the epoch of the last fill recorded for a market; zero where none was.
    pub fn get_last_local_fill_timestamp(&self, market_id: &str) -> (r: Scalar)
        ensures
            r == entry_of(self@, market_id@).last_local_fill_timestamp,
    {
        self.entry(market_id).last_local_fill_timestamp
    }

    /// Overwrites what is held in a market with what the exchange reports; all else stays.
    pub fn apply_reconciliation_snapshot(
        &mut self,
        market_id: &str,
        yes_exposure: Option<Amount>,
        no_exposure: Option<Amount>,
    )
        ensures
            final(self)@ == old(self)@.insert(
                market_id@,
                entry_of(old(self)@, market_id@).reconciled(yes_exposure, no_exposure),
            ),
    {
        let mut e = self.entry(market_id);
        e.yes_qty = or_zero(yes_exposure);
        e.no_qty = or_zero(no_exposure);
        put_exposure(&mut self.exposures, market_id.to_owned(), e);
    }

    /// What is held on the yes side less what is held on the no side; zero for a market that is
    /// not in the ledger.
    pub fn get_net_exposure(&self, token_id: &str) -> (r: Amount)
        requires
            self@.contains_key(token_id@) ==> Amount::difference(
                self@[token_id@].yes_qty,
                self@[token_id@].no_qty,
            ) is Some,
        ensures
            self@.contains_key(token_id@) ==> is_moved(
                OrderSide::Sell,
                self@[token_id@].yes_qty,
                self@[token_id@].no_qty,
                r,
            ),
            !self@.contains_key(token_id@) ==> r == Amount::nothing(),
    {
        match find_exposure(&self.exposures, token_id) {
            Some(e) => shift(OrderSide::Sell, e.yes_qty, e.no_qty).unwrap(),
            None => Amount::zero(),
        }
    }

    /// [`InventoryManager::get_net_exposure`] where decimal arithmetic can hold the difference;
    /// `None` where it cannot.
    pub fn try_get_net_exposure(&self, token_id: &str) -> (r: Option<Amount>)
        ensures
            r is Some <==> (self@.contains_key(token_id@) ==> Amount::difference(
                self@[token_id@].yes_qty,
                self@[token_id@].no_qty,
            ) is Some),
            r matches Some(net) ==> {
                &&& self@.contains_key(token_id@) ==> is_moved(
                    OrderSide::Sell,
                    self@[token_id@].yes_qty,
                    self@[token_id@].no_qty,
                    net,
                )
                &&& !self@.contains_key(token_id@) ==> net == Amount::nothing()
            },
    {
        match find_exposure(&self.exposures, token_id) {
            Some(e) => {
                if shift(OrderSide::Sell, e.yes_qty, e.no_qty).is_none() {
                    return None;
                }
            },
            None => {},
        }
        Some(self.get_net_exposure(token_id))
    }

    /// What the ledger holds for a market: nothing where it has no entry.
    pub fn get_exposure(&self, token_id: &str) -> (r: MarketExposure)
        ensures
            r == entry_of(self@, token_id@),
    {
        self.entry(token_id)
    }

    /// What is held on the yes side and on the no side of a market.
    pub fn get_exposure_qty(&self, token_id: &str) -> (r: (Amount, Amount))
        ensures
            r.0 == entry_of(self@, token_id@).yes_qty,
            r.1 == entry_of(self@, token_id@).no_qty,
    {
        let e = self.entry(token_id);
        (e.yes_qty, e.no_qty)
    }

    /// The markets of the ledger, each once, in some order.
    pub fn market_ids(&self) -> (r: Vec<String>)
        ensures
            exists|walk: Seq<(Seq<char>, MarketExposure)>| #[trigger]
                lists_all(walk, self@) && walk.len() == r.len() && forall|i: int|
                    0 <= i < walk.len() ==> (#[trigger] r@[i])@ == walk[i].0,
    {
        let entries = all_exposures(&self.exposures);
        let mut ids: Vec<String> = Vec::new();
        let mut i: usize = 0;
        let ghost walk = plain(entries@);
        while i < entries.len()
            invariant
                i <= entries.len(),
                walk == plain(entries@),
                ids.len() == i,
                forall|j: int| 0 <= j < i ==> (#[trigger] ids@[j])@ == walk[j].0,
            decreases entries.len() - i,
        {
            ids.push(entries[i].0.clone());
            i = i + 1;
        }
        assert(lists_all(walk, self@));
        ids
    }

    /// The whole ledger, in some order.
    pub fn snapshot_all(&self) -> (r: Vec<(String, MarketExposure)>)
        ensures
            lists_all(plain(r@), self@),
    {
        all_exposures(&self.exposures)
    }
}

/// The weights of the entries, added up.
spec fn weighed(
    entries: Seq<(Seq<char>, MarketExposure)>,
    weight: spec_fn((Seq<char>, MarketExposure)) -> int,
) -> int
    decreases entries.len(),
{
    if entries.len() == 0 {
        0
    } else {
        weighed(entries.drop_last(), weight) + weight(entries.last())
    }
}

proof fn lemma_weighed_remove(
    entries: Seq<(Seq<char>, MarketExposure)>,
    at: int,
    weight: spec_fn((Seq<char>, MarketExposure)) -> int,
)
    requires
        0 <= at < entries.len(),
    ensures
        weighed(entries, weight) == weighed(entries.remove(at), weight) + weight(entries[at]),
    decreases entries.len(),
{
    if at == entries.len() - 1 {
        assert(entries.remove(at) =~= entries.drop_last());
    } else {
        lemma_weighed_remove(entries.drop_last(), at, weight);
        assert(entries.remove(at).drop_last() =~= entries.drop_last().remove(at));
        assert(entries.remove(at).last() == entries.last());
    }
}

proof fn lemma_lists_without(
    entries: Seq<(Seq<char>, MarketExposure)>,
    ledger: Map<Seq<char>, MarketExposure>,
    at: int,
)
    requires
        lists_all(entries, ledger),
        0 <= at < entries.len(),
    ensures
        lists_all(entries.remove(at), ledger.remove(entries[at].0)),
{
    let fewer = entries.remove(at);
    let rest = ledger.remove(entries[at].0);
    assert forall|i: int| 0 <= i < fewer.len() implies rest.contains_key((#[trigger] fewer[i]).0)
        && rest[fewer[i].0] == fewer[i].1 by {
        let from = if i < at {
            i
        } else {
            i + 1
        };
        assert(fewer[i] == entries[from]);
    }
    assert forall|key: Seq<char>| #[trigger] rest.contains_key(key) implies exists|i: int|
        0 <= i < fewer.len() && (#[trigger] fewer[i]).0 == key by {
        assert(ledger.contains_key(key));
        let from = choose|i: int| 0 <= i < entries.len() && (#[trigger] entries[i]).0 == key;
        let i = if from < at {
            from
        } else {
            from - 1
        };
        assert(fewer[i] == entries[from]);
    }
    assert forall|i: int, j: int| 0 <= i < j < fewer.len() implies (#[trigger] fewer[i]).0 != (
    #[trigger] fewer[j]).0 by {
        let a = if i < at {
            i
        } else {
            i + 1
        };
        let b = if j < at {
            j
        } else {
            j + 1
        };
        assert(fewer[i] == entries[a] && fewer[j] == entries[b]);
    }
}

proof fn lemma_weighed_any_order(
    one: Seq<(Seq<char>, MarketExposure)>,
    other: Seq<(Seq<char>, MarketExposure)>,
    ledger: Map<Seq<char>, MarketExposure>,
    weight: spec_fn((Seq<char>, MarketExposure)) -> int,
)
    requires
        lists_all(one, ledger),
        lists_all(other, ledger),
    ensures
        weighed(one, weight) == weighed(other, weight),
    decreases one.len(),
{
    if one.len() == 0 {
        if other.len() > 0 {
            assert(ledger.contains_key(other[0].0));
        }
    } else {
        let last = one.len() - 1;
        let key = one[last].0;
        assert(ledger.contains_key(key));
        let at = choose|i: int| 0 <= i < other.len() && (#[trigger] other[i]).0 == key;
        lemma_lists_without(one, ledger, last);
        lemma_lists_without(other, ledger, at);
        lemma_weighed_any_order(one.remove(last), other.remove(at), ledger.remove(key), weight);
        lemma_weighed_remove(one, last, weight);
        lemma_weighed_remove(other, at, weight);
        assert(one[last] == other[at]);
    }
}

proof fn lemma_exact_sum_append(a: Seq<Amount>, b: Seq<Amount>)
    ensures
        exact_sum(a + b) == exact_sum(a) + exact_sum(b),
    decreases b.len(),
{
    if b.len() == 0 {
        assert(a + b =~= a);
    } else {
        assert((a + b).drop_last() =~= a + b.drop_last());
        lemma_exact_sum_append(a, b.drop_last());
    }
}

spec fn exposure_weight(excluded: Option<Seq<char>>) -> spec_fn((Seq<char>, MarketExposure)) -> int {
    |e: (Seq<char>, MarketExposure)|
        if excluded == Some(e.0) {
            0
        } else {
            e.1.value()
        }
}

proof fn lemma_exposure_weighed(
    entries: Seq<(Seq<char>, MarketExposure)>,
    excluded: Option<Seq<char>>,
)
    ensures
        exact_sum(exposure_parts(entries, excluded)) == weighed(
            entries,
            exposure_weight(excluded),
        ),
    decreases entries.len(),
{
    if entries.len() > 0 {
        lemma_exposure_weighed(entries.drop_last(), excluded);
        let e = entries.last().1;
        lemma_exact_sum_append(exposure_parts(entries.drop_last(), excluded), e.parts());
        assert(exact_sum(e.parts()) == e.value()) by {
            assert(e.parts().drop_last() =~= seq![e.yes_qty, e.no_qty, e.pending_yes_buy_notional]);
            assert(e.parts().drop_last().drop_last() =~= seq![e.yes_qty, e.no_qty]);
            assert(e.parts().drop_last().drop_last().drop_last() =~= seq![e.yes_qty]);
            assert(e.parts().drop_last().drop_last().drop_last().drop_last() =~= Seq::empty());
            reveal_with_fuel(exact_sum, 5);
        }
    }
}

spec fn realized_weight() -> spec_fn((Seq<char>, MarketExposure)) -> int {
    |e: (Seq<char>, MarketExposure)| e.1.realized_pnl@
}

proof fn lemma_realized_weighed(entries: Seq<(Seq<char>, MarketExposure)>)
    ensures
        exact_sum(realized_parts(entries)) == weighed(entries, realized_weight()),
    decreases entries.len(),
{
    if entries.len() > 0 {
        lemma_realized_weighed(entries.drop_last());
        assert(realized_parts(entries).drop_last() =~= realized_parts(entries.drop_last()));
    } else {
        assert(realized_parts(entries) =~= Seq::empty());
    }
}

/// The exact exposure of the account and its exact realized result are the same in whatever
/// order the markets are walked.
pub proof fn law_totals_do_not_depend_on_the_order(
    one: Seq<(Seq<char>, MarketExposure)>,
    other: Seq<(Seq<char>, MarketExposure)>,
    ledger: Map<Seq<char>, MarketExposure>,
    excluded: Option<Seq<char>>,
)
    requires
        lists_all(one, ledger),
        lists_all(other, ledger),
    ensures
        exact_sum(exposure_parts(one, excluded)) == exact_sum(exposure_parts(other, excluded)),
        exact_sum(realized_parts(one)) == exact_sum(realized_parts(other)),
{
    lemma_exposure_weighed(one, excluded);
    lemma_exposure_weighed(other, excluded);
    lemma_weighed_any_order(one, other, ledger, exposure_weight(excluded));
    lemma_realized_weighed(one);
    lemma_realized_weighed(other);
    lemma_weighed_any_order(one, other, ledger, realized_weight());
}

/// Buying and selling the same size leaves the position as it was, and the realized result
/// moved by what the sale brought less what the purchase cost (where the decimals hold the sums
/// without rounding).
pub proof fn law_selling_undoes_buying(
    before: MarketExposure,
    is_yes: bool,
    size: Option<Amount>,
    buy_price: Option<Amount>,
    sell_price: Option<Amount>,
    bought_at: Scalar,
    sold_at: Scalar,
    held: MarketExposure,
    after: MarketExposure,
)
    requires
        before.valid(),
        before.applies_fill(is_yes, OrderSide::Buy, size, buy_price, bought_at, held),
        held.applies_fill(is_yes, OrderSide::Sell, size, sell_price, sold_at, after),
        representable(before.quantity(is_yes)@ + GuardState::or_zero(size)@),
    ensures
        after.quantity(is_yes)@ == before.quantity(is_yes)@,
        after.quantity(!is_yes) == before.quantity(!is_yes),
        after.pending_yes_buy_notional == before.pending_yes_buy_notional,
        after.pending_no_buy_notional == before.pending_no_buy_notional,
        after.last_local_fill_timestamp == sold_at,
        ({
            let cost = Amount::product(GuardState::or_zero(buy_price), GuardState::or_zero(size))->0;
            let proceeds = Amount::product(
                GuardState::or_zero(sell_price),
                GuardState::or_zero(size),
            )->0;
            representable(before.realized_pnl@ - cost@) && representable(
                before.realized_pnl@ - cost@ + proceeds@,
            ) ==> after.realized_pnl@ == before.realized_pnl@ - cost@ + proceeds@
        }),
{
    crate::decimal::lemma_value_representable(before.quantity(is_yes));
}

/// A change to one market leaves every other market as it was.
pub proof fn law_other_markets_stay(
    ledger: Map<Seq<char>, MarketExposure>,
    market: Seq<char>,
    changed: MarketExposure,
    other: Seq<char>,
)
    requires
        other != market,
    ensures
        entry_of(ledger.insert(market, changed), other) == entry_of(ledger, other),
        ledger.insert(market, changed).contains_key(other) == ledger.contains_key(other),
        entry_of(ledger.insert(market, changed), market) == changed,
{
}

/// A fill raises what is held on its side by its size where it is a purchase and lowers it where
/// it is a sale; with a price, the realized result moves the other way by price times size (each
/// where the decimals hold the outcome without rounding). The other side and what is pending stay,
/// and the time is that of the fill.
pub proof fn law_a_fill_moves_its_side(
    before: MarketExposure,
    is_yes: bool,
    side: OrderSide,
    size: Amount,
    price: Amount,
    now: Scalar,
    priced: MarketExposure,
    unpriced: MarketExposure,
)
    requires
        before.applies_fill(is_yes, side, Some(size), Some(price), now, priced),
        before.adds_fill(is_yes, side, Some(size), now, unpriced),
    ensures
        ({
            let held = if is_yes {
                before.yes_qty@
            } else {
                before.no_qty@
            };
            let grown = if side == OrderSide::Buy {
                held + size@
            } else {
                held - size@
            };
            let cost = Amount::product(price, size)->0@;
            let earned = if side == OrderSide::Buy {
                before.realized_pnl@ - cost
            } else {
                before.realized_pnl@ + cost
            };
            &&& is_yes ==> priced.no_qty == before.no_qty && unpriced.no_qty == before.no_qty
            &&& !is_yes ==> priced.yes_qty == before.yes_qty && unpriced.yes_qty == before.yes_qty
            &&& is_yes && representable(grown) ==> priced.yes_qty@ == grown && unpriced.yes_qty@
                == grown
            &&& !is_yes && representable(grown) ==> priced.no_qty@ == grown && unpriced.no_qty@
                == grown
            &&& representable(earned) ==> priced.realized_pnl@ == earned
            &&& unpriced.realized_pnl == before.realized_pnl
            &&& priced.pending_yes_buy_notional == before.pending_yes_buy_notional
            &&& priced.pending_no_buy_notional == before.pending_no_buy_notional
            &&& unpriced.pending_yes_buy_notional == before.pending_yes_buy_notional
            &&& unpriced.pending_no_buy_notional == before.pending_no_buy_notional
            &&& priced.last_local_fill_timestamp == now
            &&& unpriced.last_local_fill_timestamp == now
        }),
{
}

/// A fill without a size leaves both quantities and the realized result as they are.
pub proof fn law_a_fill_without_a_size_moves_nothing(
    before: MarketExposure,
    is_yes: bool,
    side: OrderSide,
    now: Scalar,
    after: MarketExposure,
)
    requires
        before.valid(),
        before.adds_fill(is_yes, side, None, now, after),
    ensures
        after.yes_qty@ == before.yes_qty@,
        after.no_qty@ == before.no_qty@,
        after.realized_pnl == before.realized_pnl,
{
    crate::decimal::lemma_value_representable(before.quantity(is_yes));
    assert(Amount::nothing()@ == 0) by {
        crate::decimal::lemma_nothing();
    }
}

/// The exposure of the account is that of each market but the one left out: what is held and what
/// is pending, on both sides. The realized result is that of all markets.
pub proof fn law_the_totals_count_every_market(
    entries: Seq<(Seq<char>, MarketExposure)>,
    market: Seq<char>,
    entry: MarketExposure,
    excluded: Option<Seq<char>>,
)
    ensures
        exact_sum(exposure_parts(Seq::empty(), excluded)) == 0,
        exact_sum(realized_parts(Seq::empty())) == 0,
        excluded != Some(market) ==> exact_sum(
            exposure_parts(entries.push((market, entry)), excluded),
        ) == exact_sum(exposure_parts(entries, excluded)) + entry.yes_qty@ + entry.no_qty@
            + entry.pending_yes_buy_notional@ + entry.pending_no_buy_notional@,
        excluded == Some(market) ==> exact_sum(
            exposure_parts(entries.push((market, entry)), excluded),
        ) == exact_sum(exposure_parts(entries, excluded)),
        exact_sum(realized_parts(entries.push((market, entry)))) == exact_sum(
            realized_parts(entries),
        ) + entry.realized_pnl@,
{
    let longer = entries.push((market, entry));
    assert(longer.drop_last() =~= entries);
    lemma_exposure_weighed(longer, excluded);
    lemma_exposure_weighed(entries, excluded);
    lemma_realized_weighed(longer);
    lemma_realized_weighed(entries);
    assert(realized_parts(Seq::<(Seq<char>, MarketExposure)>::empty()) =~= Seq::<Amount>::empty());
}

/// A market that the ledger does not know holds nothing, has nothing pending and earned nothing.
pub proof fn law_an_unknown_market_holds_nothing(
    ledger: Map<Seq<char>, MarketExposure>,
    market: Seq<char>,
)
    requires
        !ledger.contains_key(market),
    ensures
        entry_of(ledger, market).yes_qty@ == 0,
        entry_of(ledger, market).no_qty@ == 0,
        entry_of(ledger, market).pending_yes_buy_notional@ == 0,
        entry_of(ledger, market).pending_no_buy_notional@ == 0,
        entry_of(ledger, market).realized_pnl@ == 0,
        entry_of(ledger, market).last_local_fill_timestamp == Scalar::of(0),
{
    crate::decimal::lemma_nothing();
}

/// What is set as pending is pending on its side, nothing in place of less than nothing, and
/// replaces what was pending there before; the other side, what is held, the realized result and
/// the time of the last fill stay.
pub proof fn law_what_is_pending_is_set_on_its_side(
    before: MarketExposure,
    is_yes: bool,
    notional: Amount,
    earlier: Option<Amount>,
)
    ensures
        ({
            let after = before.with_pending(is_yes, Some(notional));
            let set = if is_yes {
                after.pending_yes_buy_notional
            } else {
                after.pending_no_buy_notional
            };
            &&& notional@ >= 0 ==> set == notional
            &&& notional@ < 0 ==> set@ == 0
            &&& is_yes ==> after.pending_no_buy_notional == before.pending_no_buy_notional
            &&& !is_yes ==> after.pending_yes_buy_notional == before.pending_yes_buy_notional
            &&& after.yes_qty == before.yes_qty && after.no_qty == before.no_qty
            &&& after.realized_pnl == before.realized_pnl
            &&& after.last_local_fill_timestamp == before.last_local_fill_timestamp
            &&& before.with_pending(is_yes, earlier).with_pending(is_yes, Some(notional)) == after
        }),
{
    crate::decimal::lemma_nothing();
}

/// What the exchange reports replaces what is held on both sides, and nothing else.
pub proof fn law_a_report_of_the_exchange_replaces_what_is_held(
    before: MarketExposure,
    yes: Amount,
    no: Amount,
)
    ensures
        ({
            let after = before.reconciled(Some(yes), Some(no));
            &&& after.yes_qty == yes
            &&& after.no_qty == no
            &&& after.pending_yes_buy_notional == before.pending_yes_buy_notional
            &&& after.pending_no_buy_notional == before.pending_no_buy_notional
            &&& after.realized_pnl == before.realized_pnl
            &&& after.last_local_fill_timestamp == before.last_local_fill_timestamp
        }),
{
}

/// A fill can be recorded exactly where the decimals hold the quantity of its side and, with a
/// price, what it is worth and the realized result.
pub proof fn law_only_the_decimals_stand_against_a_fill(
    before: MarketExposure,
    is_yes: bool,
    size: Amount,
    price: Amount,
)
    ensures
        ({
            let held = if is_yes {
                before.yes_qty
            } else {
                before.no_qty
            };
            let worth = Amount::product(price, size);
            let grown = Amount::sum(held, size) is Some;
            let lowered = Amount::difference(held, size) is Some;
            &&& before.can_move(is_yes, OrderSide::Buy, Some(size)) <==> grown
            &&& before.can_move(is_yes, OrderSide::Sell, Some(size)) <==> lowered
            &&& before.can_fill(is_yes, OrderSide::Buy, Some(size), Some(price)) <==> grown && worth
                is Some && Amount::difference(before.realized_pnl, worth->0) is Some
            &&& before.can_fill(is_yes, OrderSide::Sell, Some(size), Some(price)) <==> lowered
                && worth is Some && Amount::sum(before.realized_pnl, worth->0) is Some
        }),
{
}

} // verus!
