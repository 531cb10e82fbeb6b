//! Global budget, per-market exposure cap, circuit breaker with hysteresis, and the slots that
//! keep buy orders apart.
use crate::decimal::{pow10, representable, Amount};
use crate::scalar::Scalar;
use vstd::prelude::*;

verus! {

/// The bits of 0.20: the drawdown at which buying stops.
pub const FREEZE_THRESHOLD: u64 = 0x3fc9_9999_9999_999a;

/// The bits of 0.15: the drawdown at which buying starts again.
pub const THAW_THRESHOLD: u64 = 0x3fc3_3333_3333_3333;

/// Why the guard refuses an order.
#[derive(Clone, Copy, Debug, PartialEq, Eq, Structural)]
pub enum RiskError {
    InvalidPrice,
    InvalidSize,
    BudgetExceeded,
    YesExposureExceeded,
    NoExposureExceeded,
}

impl RiskError {
    /// The text that the refusal is reported with.
    pub open spec fn text(self) -> Seq<char> {
        match self {
            RiskError::InvalidPrice => "RiskGuard: invalid price"@,
            RiskError::InvalidSize => "RiskGuard: invalid size"@,
            RiskError::BudgetExceeded => "RiskGuard: Global budget exceeded!"@,
            RiskError::YesExposureExceeded => "RiskGuard: Per-market YES exposure exceeded!"@,
            RiskError::NoExposureExceeded => "RiskGuard: Per-market NO exposure exceeded!"@,
        }
    }

    /// The text that the refusal is reported with.
    pub fn message(&self) -> (r: &'static str)
        ensures
            r@ == self.text(),
    {
        match self {
            RiskError::InvalidPrice => "RiskGuard: invalid price",
            RiskError::InvalidSize => "RiskGuard: invalid size",
            RiskError::BudgetExceeded => "RiskGuard: Global budget exceeded!",
            RiskError::YesExposureExceeded => "RiskGuard: Per-market YES exposure exceeded!",
            RiskError::NoExposureExceeded => "RiskGuard: Per-market NO exposure exceeded!",
        }
    }
}

/// Budget set aside for one buy order.
#[derive(Clone, Copy, Debug)]
pub struct BudgetReservation {
    amount: Amount,
}

impl BudgetReservation {
    /// How much is set aside.
    pub closed spec fn reserved(self) -> Amount {
        self.amount
    }

    /// How much is set aside.
    pub fn amount(&self) -> (r: Amount)
        ensures
            r == self.reserved(),
    {
        self.amount
    }

    /// The same reservation once more, to be handed to [`RiskGuard::release_budget`].
    pub fn clone_for_release(&self) -> (r: BudgetReservation)
        ensures
            r == *self,
    {
        BudgetReservation { amount: self.amount }
    }
}

/// What the guard knows.
pub struct GuardState {
    pub spent: Amount,
    pub max_budget: Amount,
    pub cap: Amount,
    pub frozen: bool,
    pub buy_in_flight: bool,
    pub token_slots: Set<Seq<char>>,
}

/// `spent` less `by`, but never below zero.
pub open spec fn lowered(spent: Amount, by: Amount) -> Amount {
    Amount::larger(Amount::difference(spent, by)->0, Amount::nothing())
}

/// `next` is `spent` less `by` and never below zero: exactly so where decimal digits can hold the
/// difference, and never above `spent` where neither is negative.
pub open spec fn is_lowered(spent: Amount, by: Amount, next: Amount) -> bool {
    &&& next == lowered(spent, by)
    &&& next.valid()
    &&& next@ >= 0
    &&& representable(spent@ - by@) ==> next@ == (if spent@ > by@ {
        spent@ - by@
    } else {
        0
    })
    &&& spent@ >= 0 && by@ >= 0 ==> next@ <= spent@
}

/// `cost` is `price` times `size`: exactly so where decimal digits can hold the product, and not
/// negative where neither factor is.
pub open spec fn is_cost(price: Amount, size: Amount, cost: Amount) -> bool {
    &&& Amount::product(price, size) == Some(cost)
    &&& cost.valid()
    &&& forall|units: int| #[trigger]
        representable(units) && units * pow10(28) == price@ * size@ ==> cost@ == units
    &&& price@ >= 0 && size@ >= 0 ==> cost@ >= 0
}

impl GuardState {
    /// Decimal arithmetic can hold the cost of the order and the spend with it.
    pub open spec fn can_price(self, price: Option<Amount>, size: Option<Amount>) -> bool {
        price is Some && size is Some ==> {
            let cost = Amount::product(price->0, size->0);
            cost is Some && Amount::sum(self.spent, cost->0) is Some
        }
    }

    /// What [`RiskGuard::reserve_budget`] does: `next` and `r` from the state `self`.
    pub open spec fn reserves(
        self,
        price: Option<Amount>,
        size: Option<Amount>,
        next: GuardState,
        r: Result<BudgetReservation, RiskError>,
    ) -> bool {
        match (price, size) {
            (None, _) => r == Err::<BudgetReservation, _>(RiskError::InvalidPrice) && next == self,
            (Some(_), None) => r == Err::<BudgetReservation, _>(RiskError::InvalidSize) && next
                == self,
            (Some(p), Some(s)) => {
                let cost = Amount::product(p, s)->0;
                let total = Amount::sum(self.spent, cost)->0;
                if self.max_budget@ < total@ {
                    r == Err::<BudgetReservation, _>(RiskError::BudgetExceeded) && next == self
                } else {
                    &&& r is Ok
                    &&& is_cost(p, s, r->Ok_0.reserved())
                    &&& next == (GuardState { spent: total, ..self })
                    &&& total.valid()
                    &&& representable(self.spent@ + cost@) ==> total@ == self.spent@ + cost@
                    &&& self.spent@ >= 0 && cost@ >= 0 ==> total@ >= 0
                }
            },
        }
    }

    /// What [`RiskGuard::release_budget`] does.
    pub open spec fn releases(self, reservation: BudgetReservation, next: GuardState) -> bool {
        &&& next == (GuardState { spent: next.spent, ..self })
        &&& is_lowered(self.spent, reservation.reserved(), next.spent)
    }

    /// Decimal arithmetic can hold what [`RiskGuard::refund_budget_on_sell`] computes.
    pub open spec fn can_refund_sale(self, price: Option<Amount>, size: Option<Amount>) -> bool {
        price is Some && size is Some ==> {
            let notional = Amount::product(price->0, size->0);
            notional is Some && Amount::difference(self.spent, notional->0) is Some
        }
    }

    /// What [`RiskGuard::refund_budget_on_sell`] does.
    pub open spec fn refunds_sale(
        self,
        price: Option<Amount>,
        size: Option<Amount>,
        next: GuardState,
    ) -> bool {
        if price is Some && size is Some {
            let notional = Amount::product(price->0, size->0)->0;
            &&& is_cost(price->0, size->0, notional)
            &&& next == (GuardState { spent: next.spent, ..self })
            &&& is_lowered(self.spent, notional, next.spent)
        } else {
            next == self
        }
    }

    /// The price or size with zero for what decimal digits cannot hold.
    pub open spec fn or_zero(value: Option<Amount>) -> Amount {
        match value {
            Some(v) => v,
            None => Amount::nothing(),
        }
    }

    /// The part of a reservation that the fill did not use.
    pub open spec fn overpaid(
        reserved: Amount,
        actual_price: Option<Amount>,
        actual_size: Option<Amount>,
    ) -> Amount {
        lowered(
            reserved,
            Amount::product(Self::or_zero(actual_price), Self::or_zero(actual_size))->0,
        )
    }

    /// Decimal arithmetic can hold what [`RiskGuard::refund_budget_delta`] computes.
    pub open spec fn can_refund_delta(
        self,
        reserved: Amount,
        actual_price: Option<Amount>,
        actual_size: Option<Amount>,
    ) -> bool {
        let cost = Amount::product(Self::or_zero(actual_price), Self::or_zero(actual_size));
        &&& cost is Some
        &&& Amount::difference(reserved, cost->0) is Some
        &&& {
            let overpay = Self::overpaid(reserved, actual_price, actual_size);
            overpay@ > 0 ==> Amount::difference(self.spent, overpay) is Some
        }
    }

    /// What [`RiskGuard::refund_budget_delta`] does.
    pub open spec fn refunds_delta(
        self,
        reserved: Amount,
        actual_price: Option<Amount>,
        actual_size: Option<Amount>,
        next: GuardState,
    ) -> bool {
        let cost = Amount::product(Self::or_zero(actual_price), Self::or_zero(actual_size))->0;
        let overpay = Self::overpaid(reserved, actual_price, actual_size);
        &&& is_cost(Self::or_zero(actual_price), Self::or_zero(actual_size), cost)
        &&& is_lowered(reserved, cost, overpay)
        &&& if overpay@ > 0 {
            &&& next == (GuardState { spent: next.spent, ..self })
            &&& is_lowered(self.spent, overpay, next.spent)
        } else {
            next == self
        }
    }

    /// The verdict of [`RiskGuard::check_market_exposure`].
    pub open spec fn exposure_verdict(self, yes: Option<Amount>, no: Option<Amount>) -> Result<
        (),
        RiskError,
    > {
        if self.cap@ <= 0 {
            Ok(())
        } else if Amount::magnitude(Self::or_zero(yes))@ > self.cap@ {
            Err(RiskError::YesExposureExceeded)
        } else if Amount::magnitude(Self::or_zero(no))@ > self.cap@ {
            Err(RiskError::NoExposureExceeded)
        } else {
            Ok(())
        }
    }

    /// Whether buying is frozen once the drawdown is known.
    pub open spec fn frozen_at(self, drawdown_ratio: Scalar) -> bool {
        if self.max_budget@ <= 0 {
            self.frozen
        } else if self.frozen {
            !drawdown_ratio.at_most(Scalar::of(THAW_THRESHOLD))
        } else {
            Scalar::of(FREEZE_THRESHOLD).at_most(drawdown_ratio)
        }
    }

    /// What [`RiskGuard::try_acquire_global_buy_slot`] does.
    pub open spec fn acquires_buy(self, next: GuardState, r: bool) -> bool {
        &&& r == !self.buy_in_flight
        &&& next == (GuardState { buy_in_flight: true, ..self })
    }

    /// What [`RiskGuard::release_global_buy_slot`] does.
    pub open spec fn releases_buy(self, next: GuardState) -> bool {
        next == (GuardState { buy_in_flight: false, ..self })
    }

    /// What [`RiskGuard::try_acquire_token_buy_slot`] does.
    pub open spec fn acquires_token(self, key: Seq<char>, next: GuardState, r: bool) -> bool {
        &&& r == !self.token_slots.contains(key)
        &&& next == (GuardState { token_slots: self.token_slots.insert(key), ..self })
    }

    /// What [`RiskGuard::release_token_buy_slot`] does.
    pub open spec fn releases_token(self, key: Seq<char>, next: GuardState) -> bool {
        next == (GuardState { token_slots: self.token_slots.remove(key), ..self })
    }

    /// The spend is between nothing and the budget.
    pub open spec fn in_budget(self) -> bool {
        0 <= self.spent@ <= self.max_budget@
    }

    /// Whether `price` times `size` fits into what is left of the budget.
    pub open spec fn affords(self, price: Option<Amount>, size: Option<Amount>) -> bool {
        &&& price is Some
        &&& size is Some
        &&& Amount::sum(self.spent, Amount::product(price->0, size->0)->0)->0@ <= self.max_budget@
    }
}

/// The texts in a list.
pub open spec fn texts(list: Seq<String>) -> Set<Seq<char>> {
    Set::new(|t: Seq<char>| exists|i: int| 0 <= i < list.len() && #[trigger] list[i]@ == t)
}

fn lists(list: &Vec<String>, text: &str) -> (r: bool)
    ensures
        r == texts(list@).contains(text@),
{
    let mut i: usize = 0;
    while i < list.len()
        invariant
            i <= list.len(),
            forall|j: int| 0 <= j < i ==> #[trigger] list@[j]@ != text@,
        decreases list.len() - i,
    {
        if crate::text::same_text(list[i].as_str(), text) {
            assert(list@[i as int]@ == text@);
            return true;
        }
        i = i + 1;
    }
    false
}

/// `spent` less `by`, but never below zero; `None` where the difference is too large.
fn lower(spent: Amount, by: Amount) -> (r: Option<Amount>)
    ensures
        r is Some <==> Amount::difference(spent, by) is Some,
        r matches Some(next) ==> is_lowered(spent, by, next),
        spent@ >= 0 && by@ >= 0 ==> r is Some,
{
    let zero = Amount::zero();
    match spent.checked_sub(&by) {
        Some(left) => {
            proof {
                use_type_invariant(&zero);
            }
            Some(left.max(&zero))
        },
        None => None,
    }
}

fn unwrap_or_zero(value: Option<Amount>) -> (r: Amount)
    ensures
        r == GuardState::or_zero(value),
{
    match value {
        Some(v) => v,
        None => Amount::zero(),
    }
}

/// Budget, exposure cap, circuit breaker and buy slots of the whole engine.
pub struct RiskGuard {
    current_total_spend: Amount,
    max_budget: Amount,
    max_exposure_per_market: Amount,
    frozen: bool,
    pending_buy_in_flight: bool,
    token_buy_slots: Vec<String>,
}

impl View for RiskGuard {
    type V = GuardState;

    closed spec fn view(&self) -> GuardState {
        GuardState {
            spent: self.current_total_spend,
            max_budget: self.max_budget,
            cap: self.max_exposure_per_market,
            frozen: self.frozen,
            buy_in_flight: self.pending_buy_in_flight,
            token_slots: texts(self.token_buy_slots@),
        }
    }
}

impl RiskGuard {
    /// A guard with nothing spent. `max_budget` is the decimal value of the configured budget;
    /// without one (the configured value has none) there is no limit but that of the decimals.
    pub fn new(max_budget: Option<Amount>) -> (r: RiskGuard)
        ensures
            r@.spent == Amount::nothing(),
            r@.spent@ == 0,
            max_budget matches Some(b) ==> r@.max_budget == b,
            max_budget is None ==> r@.max_budget == Amount::of(crate::decimal::MAX_DIGITS, 0),
            r@.cap == Amount::nothing(),
            r@.cap@ == 0,
            !r@.frozen,
            !r@.buy_in_flight,
            r@.token_slots == Set::<Seq<char>>::empty(),
    {
        let r = RiskGuard {
            current_total_spend: Amount::zero(),
            max_budget: match max_budget {
                Some(b) => b,
                None => Amount::max_value(),
            },
            max_exposure_per_market: Amount::zero(),
            frozen: false,
            pending_buy_in_flight: false,
            token_buy_slots: Vec::new(),
        };
        assert(r@.token_slots =~= Set::<Seq<char>>::empty());
        r
    }

    /// The same guard with a cap on the position in one market; zero or less means no cap.
    pub fn with_max_exposure_per_market(self, max_per_market: Option<Amount>) -> (r: RiskGuard)
        ensures
            r@ == (GuardState { cap: GuardState::or_zero(max_per_market), ..self@ }),
    {
        let mut guard = self;
        guard.max_exposure_per_market = unwrap_or_zero(max_per_market);
        guard
    }

    /// Sets the cost of an order aside. Refused where price or size has no decimal value, or
    /// where the spend would go above the budget.
    pub fn reserve_budget(&mut self, price: Option<Amount>, size: Option<Amount>) -> (r: Result<
        BudgetReservation,
        RiskError,
    >)
        requires
            old(self)@.can_price(price, size),
        ensures
            old(self)@.reserves(price, size, final(self)@, r),
    {
        let p = match price {
            Some(p) => p,
            None => {
                return Err(RiskError::InvalidPrice);
            },
        };
        let s = match size {
            Some(s) => s,
            None => {
                return Err(RiskError::InvalidSize);
            },
        };
        let cost = p.checked_mul(&s).unwrap();
        let total = self.current_total_spend.checked_add(&cost).unwrap();
        if self.max_budget.lt(&total) {
            return Err(RiskError::BudgetExceeded);
        }
        self.current_total_spend = total;
        Ok(BudgetReservation { amount: cost })
    }

    /// [`RiskGuard::reserve_budget`] where decimal arithmetic can hold the cost and the spend
    /// with it; `None`, and nothing done, where it cannot.
    pub fn try_reserve_budget(
        &mut self,
        price: Option<Amount>,
        size: Option<Amount>,
    ) -> (r: Option<Result<BudgetReservation, RiskError>>)
        ensures
            r is Some <==> old(self)@.can_price(price, size),
            r matches Some(done) ==> old(self)@.reserves(price, size, final(self)@, done),
            r is None ==> final(self)@ == old(self)@,
    {
        if let (Some(p), Some(s)) = (price, size) {
            match p.checked_mul(&s) {
                Some(cost) => {
                    if self.current_total_spend.checked_add(&cost).is_none() {
                        return None;
                    }
                },
                None => {
                    return None;
                },
            }
        }
        Some(self.reserve_budget(price, size))
    }

    /// Gives a reservation back; the spend does not go below zero.
    pub fn release_budget(&mut self, reservation: BudgetReservation)
        requires
            Amount::difference(old(self)@.spent, reservation.reserved()) is Some,
        ensures
            old(self)@.releases(reservation, final(self)@),
    {
        self.current_total_spend = lower(self.current_total_spend, reservation.amount).unwrap();
    }

    /// [`RiskGuard::release_budget`] where decimal arithmetic can hold the difference; `false`,
    /// and nothing done, where it cannot.
    pub fn try_release_budget(&mut self, reservation: BudgetReservation) -> (r: bool)
        ensures
            r == Amount::difference(old(self)@.spent, reservation.reserved()) is Some,
            r ==> old(self)@.releases(reservation, final(self)@),
            !r ==> final(self)@ == old(self)@,
            old(self)@.spent@ >= 0 && reservation.reserved()@ >= 0 ==> r,
    {
        if lower(self.current_total_spend, reservation.amount).is_none() {
            return false;
        }
        self.release_budget(reservation);
        true
    }

    /// Takes the proceeds of a sale off the spend, which does not go below zero. Nothing is done
    /// where price or size has no decimal value.
    pub fn refund_budget_on_sell(
        &mut self,
        price: Option<Amount>,
        actual_filled_size: Option<Amount>,
    )
        requires
            old(self)@.can_refund_sale(price, actual_filled_size),
        ensures
            old(self)@.refunds_sale(price, actual_filled_size, final(self)@),
    {
        if let (Some(p), Some(s)) = (price, actual_filled_size) {
            let notional = p.checked_mul(&s).unwrap();
            self.current_total_spend = lower(self.current_total_spend, notional).unwrap();
        }
    }

    /// Whether decimal arithmetic can hold what [`RiskGuard::refund_budget_on_sell`] computes.
    pub fn can_refund_sale(&self, price: Option<Amount>, actual_filled_size: Option<Amount>) -> (r:
        bool)
        ensures
            r == self@.can_refund_sale(price, actual_filled_size),
    {
        if let (Some(p), Some(s)) = (price, actual_filled_size) {
            match p.checked_mul(&s) {
                Some(notional) => lower(self.current_total_spend, notional).is_some(),
                None => false,
            }
        } else {
            true
        }
    }

    /// [`RiskGuard::refund_budget_on_sell`] where decimal arithmetic can hold it; `false`, and
    /// nothing done, where it cannot.
    pub fn try_refund_budget_on_sell(
        &mut self,
        price: Option<Amount>,
        actual_filled_size: Option<Amount>,
    ) -> (r: bool)
        ensures
            r == old(self)@.can_refund_sale(price, actual_filled_size),
            r ==> old(self)@.refunds_sale(price, actual_filled_size, final(self)@),
            !r ==> final(self)@ == old(self)@,
    {
        if !self.can_refund_sale(price, actual_filled_size) {
            return false;
        }
        self.refund_budget_on_sell(price, actual_filled_size);
        true
    }

    /// Gives back what a fill left unused of its reservation. A price or size without a decimal
    /// value counts as zero.
    pub fn refund_budget_delta(
        &mut self,
        reserved: &BudgetReservation,
        actual_price: Option<Amount>,
        actual_size: Option<Amount>,
    )
        requires
            old(self)@.can_refund_delta(reserved.reserved(), actual_price, actual_size),
        ensures
            old(self)@.refunds_delta(
                reserved.reserved(),
                actual_price,
                actual_size,
                final(self)@,
            ),
    {
        let p = unwrap_or_zero(actual_price);
        let s = unwrap_or_zero(actual_size);
        let actual_cost = p.checked_mul(&s).unwrap();
        let overpay = lower(reserved.amount, actual_cost).unwrap();
        let zero = Amount::zero();
        if zero.lt(&overpay) {
            self.current_total_spend = lower(self.current_total_spend, overpay).unwrap();
        }
    }

    /// Whether decimal arithmetic can hold what [`RiskGuard::refund_budget_delta`] computes.
    pub fn can_refund_delta(
        &self,
        reserved: &BudgetReservation,
        actual_price: Option<Amount>,
        actual_size: Option<Amount>,
    ) -> (r: bool)
        ensures
            r == self@.can_refund_delta(reserved.reserved(), actual_price, actual_size),
    {
        let p = unwrap_or_zero(actual_price);
        let s = unwrap_or_zero(actual_size);
        let actual_cost = match p.checked_mul(&s) {
            Some(c) => c,
            None => {
                return false;
            },
        };
        let overpay = match lower(reserved.amount, actual_cost) {
            Some(o) => o,
            None => {
                return false;
            },
        };
        let zero = Amount::zero();
        !zero.lt(&overpay) || lower(self.current_total_spend, overpay).is_some()
    }

    /// [`RiskGuard::refund_budget_delta`] where decimal arithmetic can hold it; `false`, and
    /// nothing done, where it cannot.
    pub fn try_refund_budget_delta(
        &mut self,
        reserved: &BudgetReservation,
        actual_price: Option<Amount>,
        actual_size: Option<Amount>,
    ) -> (r: bool)
        ensures
            r == old(self)@.can_refund_delta(reserved.reserved(), actual_price, actual_size),
            r ==> old(self)@.refunds_delta(
                reserved.reserved(),
                actual_price,
                actual_size,
                final(self)@,
            ),
            !r ==> final(self)@ == old(self)@,
    {
        if !self.can_refund_delta(reserved, actual_price, actual_size) {
            return false;
        }
        self.refund_budget_delta(reserved, actual_price, actual_size);
        true
    }

    /// Refuses a position whose magnitude is above the cap on either side. A quantity without a
    /// decimal value counts as zero.
    pub fn check_market_exposure(&self, yes_qty: Option<Amount>, no_qty: Option<Amount>) -> (r:
        Result<(), RiskError>)
        ensures
            r == self@.exposure_verdict(yes_qty, no_qty),
    {
        let zero = Amount::zero();
        if self.max_exposure_per_market.le(&zero) {
            return Ok(());
        }
        if self.max_exposure_per_market.lt(&unwrap_or_zero(yes_qty).abs()) {
            return Err(RiskError::YesExposureExceeded);
        }
        if self.max_exposure_per_market.lt(&unwrap_or_zero(no_qty).abs()) {
            return Err(RiskError::NoExposureExceeded);
        }
        Ok(())
    }

    /// Freezes buying at a drawdown of 20 percent and thaws it at 15. `drawdown_ratio` is the
    /// realized loss divided by the budget. Without a budget above zero nothing changes and the
    /// answer is `false`.
    pub fn update_circuit_breaker(&mut self, drawdown_ratio: Scalar) -> (r: bool)
        ensures
            final(self)@ == (GuardState {
                frozen: old(self)@.frozen_at(drawdown_ratio),
                ..old(self)@
            }),
            r == (old(self)@.max_budget@ > 0 && final(self)@.frozen),
    {
        let zero = Amount::zero();
        if self.max_budget.le(&zero) {
            return false;
        }
        if self.frozen {
            if drawdown_ratio.le(&Scalar::from_bits(THAW_THRESHOLD)) {
                self.frozen = false;
            }
        } else if Scalar::from_bits(FREEZE_THRESHOLD).le(&drawdown_ratio) {
            self.frozen = true;
        }
        self.frozen
    }

    /// Whether buying is frozen.
    pub fn is_frozen(&self) -> (r: bool)
        ensures
            r == self@.frozen,
    {
        self.frozen
    }

    /// Whether the budget has room for `price` times `size`; never where one of them has no
    /// decimal value.
    pub fn can_afford(&self, price: Option<Amount>, size: Option<Amount>) -> (r: bool)
        requires
            self@.can_price(price, size),
        ensures
            r == self@.affords(price, size),
    {
        if let (Some(p), Some(s)) = (price, size) {
            let cost = p.checked_mul(&s).unwrap();
            let total = self.current_total_spend.checked_add(&cost).unwrap();
            total.le(&self.max_budget)
        } else {
            false
        }
    }

    /// [`RiskGuard::can_afford`] where decimal arithmetic can hold the cost and the spend with
    /// it; `None` where it cannot.
    pub fn try_can_afford(&self, price: Option<Amount>, size: Option<Amount>) -> (r: Option<bool>)
        ensures
            r is Some <==> self@.can_price(price, size),
            r matches Some(answer) ==> answer == self@.affords(price, size),
    {
        if let (Some(p), Some(s)) = (price, size) {
            match p.checked_mul(&s) {
                Some(cost) => {
                    if self.current_total_spend.checked_add(&cost).is_none() {
                        return None;
                    }
                },
                None => {
                    return None;
                },
            }
        }
        Some(self.can_afford(price, size))
    }

    /// The budget.
    pub fn max_budget(&self) -> (r: Amount)
        ensures
            r == self@.max_budget,
    {
        self.max_budget
    }

    /// The cap on the position in one market.
    pub fn max_exposure_per_market(&self) -> (r: Amount)
        ensures
            r == self@.cap,
    {
        self.max_exposure_per_market
    }

    /// What is spent or set aside.
    pub fn current_spent(&self) -> (r: Amount)
        ensures
            r == self@.spent,
            r.valid(),
    {
        proof {
            use_type_invariant(&self.current_total_spend);
        }
        self.current_total_spend
    }

    /// Takes the one slot for a buy order in flight; `false` where it is taken already.
    pub fn try_acquire_global_buy_slot(&mut self) -> (r: bool)
        ensures
            old(self)@.acquires_buy(final(self)@, r),
    {
        let free: bool = !self.pending_buy_in_flight;
        self.pending_buy_in_flight = true;
        free
    }

    /// Frees the slot for a buy order in flight.
    pub fn release_global_buy_slot(&mut self)
        ensures
            old(self)@.releases_buy(final(self)@),
    {
        self.pending_buy_in_flight = false;
    }

    /// Whether a buy order is in flight.
    pub fn is_global_buy_in_flight(&self) -> (r: bool)
        ensures
            r == self@.buy_in_flight,
    {
        self.pending_buy_in_flight
    }

    /// Takes the slot for a buy order in the market `market_key`; `false` where that market has
    /// one already.
    pub fn try_acquire_token_buy_slot(&mut self, market_key: &str) -> (r: bool)
        ensures
            old(self)@.acquires_token(market_key@, final(self)@, r),
    {
        let ghost before = self.token_buy_slots@;
        if lists(&self.token_buy_slots, market_key) {
            assert(texts(before).insert(market_key@) =~= texts(before));
            return false;
        }
        self.token_buy_slots.push(market_key.to_owned());
        proof {
            let after = self.token_buy_slots@;
            assert forall|t: Seq<char>| texts(after).contains(t) == texts(before).insert(
                market_key@,
            ).contains(t) by {
                assert(after[before.len() as int]@ == market_key@);
                if texts(before).contains(t) {
                    let i = choose|i: int| 0 <= i < before.len() && #[trigger] before[i]@ == t;
                    assert(after[i]@ == t);
                }
                if texts(after).contains(t) && t != market_key@ {
                    let i = choose|i: int| 0 <= i < after.len() && #[trigger] after[i]@ == t;
                    assert(before[i]@ == t);
                }
            }
            assert(texts(after) =~= texts(before).insert(market_key@));
        }
        true
    }

    /// Whether the market `market_key` has a buy order in flight.
    pub fn is_token_buy_in_flight(&self, market_key: &str) -> (r: bool)
        ensures
            r == self@.token_slots.contains(market_key@),
    {
        lists(&self.token_buy_slots, market_key)
    }

    /// Frees the slot for a buy order in the market `market_key`.
    pub fn release_token_buy_slot(&mut self, market_key: &str)
        ensures
            old(self)@.releases_token(market_key@, final(self)@),
    {
        let ghost before = self.token_buy_slots@;
        let mut kept: Vec<String> = Vec::new();
        let mut i: usize = 0;
        while i < self.token_buy_slots.len()
            invariant
                i <= self.token_buy_slots.len(),
                before == self.token_buy_slots@,
                self@ == old(self)@,
                forall|t: Seq<char>| #[trigger]
                    texts(kept@).contains(t) == (t != market_key@ && texts(
                        before.take(i as int),
                    ).contains(t)),
            decreases self.token_buy_slots.len() - i,
        {
            let ghost kept_before = kept@;
            let ghost head = before.take(i as int);
            let ghost longer = before.take(i + 1);
            proof {
                assert(longer =~= head.push(before[i as int]));
            }
            let keep: bool = !crate::text::same_text(self.token_buy_slots[i].as_str(), market_key);
            if keep {
                kept.push(self.token_buy_slots[i].clone());
            }
            proof {
                assert forall|t: Seq<char>| #[trigger]
                    texts(kept@).contains(t) == (t != market_key@ && texts(longer).contains(
                        t,
                    )) by {
                    lemma_texts_push(head, before[i as int], t);
                    if keep {
                        lemma_texts_push(kept_before, before[i as int], t);
                    }
                }
            }
            i = i + 1;
        }
        self.token_buy_slots = kept;
        proof {
            assert(before.take(before.len() as int) =~= before);
            assert(texts(self.token_buy_slots@) =~= texts(before).remove(market_key@));
        }
    }
}

proof fn lemma_texts_push(list: Seq<String>, last: String, t: Seq<char>)
    ensures
        texts(list.push(last)).contains(t) == (texts(list).contains(t) || last@ == t),
{
    let longer = list.push(last);
    assert(longer[list.len() as int]@ == last@);
    if texts(list).contains(t) {
        let i = choose|i: int| 0 <= i < list.len() && #[trigger] list[i]@ == t;
        assert(longer[i]@ == t);
    }
    if texts(longer).contains(t) && last@ != t {
        let i = choose|i: int| 0 <= i < longer.len() && #[trigger] longer[i]@ == t;
        assert(list[i]@ == t);
    }
}

/// A reservation that is granted keeps the spend within the budget, one that is refused changes
/// nothing, and it is granted exactly where the guard says that the order can be afforded.
pub proof fn law_reserve_stays_within_budget(
    pre: GuardState,
    price: Option<Amount>,
    size: Option<Amount>,
    post: GuardState,
    r: Result<BudgetReservation, RiskError>,
)
    requires
        pre.reserves(price, size, post, r),
    ensures
        r is Ok ==> post.spent@ <= post.max_budget@,
        r is Err ==> post == pre,
        r is Ok <==> pre.affords(price, size),
{
}

/// Giving a reservation back leaves the spend as it was before it was made (where the decimals
/// hold the sum without rounding).
pub proof fn law_release_undoes_reserve(
    pre: GuardState,
    price: Option<Amount>,
    size: Option<Amount>,
    mid: GuardState,
    reservation: BudgetReservation,
    post: GuardState,
)
    requires
        pre.spent.valid(),
        pre.spent@ >= 0,
        pre.reserves(price, size, mid, Ok(reservation)),
        mid.releases(reservation, post),
        representable(pre.spent@ + reservation.reserved()@),
    ensures
        post.spent@ == pre.spent@,
        post == (GuardState { spent: post.spent, ..pre }),
{
    crate::decimal::lemma_value_representable(pre.spent);
}

/// The smaller of two numbers.
pub open spec fn smaller_of(a: int, b: int) -> int {
    if a < b {
        a
    } else {
        b
    }
}

/// After a fill the spend has grown by what the fill cost, but by no more than had been set
/// aside for it (where the decimals hold the sums and differences without rounding).
pub proof fn law_refund_leaves_actual_cost(
    pre: GuardState,
    price: Option<Amount>,
    size: Option<Amount>,
    mid: GuardState,
    reservation: BudgetReservation,
    actual_price: Option<Amount>,
    actual_size: Option<Amount>,
    post: GuardState,
)
    requires
        pre.spent.valid(),
        pre.spent@ >= 0,
        pre.reserves(price, size, mid, Ok(reservation)),
        mid.refunds_delta(reservation.reserved(), actual_price, actual_size, post),
        ({
            let cost = Amount::product(
                GuardState::or_zero(actual_price),
                GuardState::or_zero(actual_size),
            )->0;
            &&& 0 <= cost@
            &&& representable(pre.spent@ + reservation.reserved()@)
            &&& representable(reservation.reserved()@ - cost@)
            &&& representable(pre.spent@ + smaller_of(reservation.reserved()@, cost@))
        }),
    ensures
        post.spent@ == pre.spent@ + smaller_of(
            reservation.reserved()@,
            Amount::product(
                GuardState::or_zero(actual_price),
                GuardState::or_zero(actual_size),
            )->0@,
        ),
        post == (GuardState { spent: post.spent, ..pre }),
{
    let reserved = reservation.reserved();
    let cost = Amount::product(
        GuardState::or_zero(actual_price),
        GuardState::or_zero(actual_size),
    )->0;
    let overpay = GuardState::overpaid(reserved, actual_price, actual_size);
    assert(mid.spent@ == pre.spent@ + reserved@);
    if cost@ < reserved@ {
        assert(overpay@ == reserved@ - cost@);
        assert(mid.spent@ - overpay@ == pre.spent@ + cost@);
    }
}

/// As long as prices and sizes are not negative, every step of the guard keeps the spend between
/// nothing and the budget.
pub proof fn law_spend_stays_in_range(
    pre: GuardState,
    price: Option<Amount>,
    size: Option<Amount>,
    reservation: BudgetReservation,
    post: GuardState,
)
    requires
        pre.in_budget(),
        GuardState::or_zero(price)@ >= 0,
        GuardState::or_zero(size)@ >= 0,
        reservation.reserved()@ >= 0,
    ensures
        (exists|r: Result<BudgetReservation, RiskError>|
            #[trigger] pre.reserves(price, size, post, r)) ==> post.in_budget(),
        pre.releases(reservation, post) ==> post.in_budget(),
        pre.refunds_sale(price, size, post) ==> post.in_budget(),
        pre.refunds_delta(reservation.reserved(), price, size, post) ==> post.in_budget(),
        post.max_budget == pre.max_budget && post.spent == pre.spent ==> post.in_budget(),
{
    if exists|r: Result<BudgetReservation, RiskError>| #[trigger]
        pre.reserves(price, size, post, r) {
        let r = choose|r: Result<BudgetReservation, RiskError>| #[trigger]
            pre.reserves(price, size, post, r);
        if r is Ok {
            assert(is_cost(price->0, size->0, r->Ok_0.reserved()));
        }
    }
}

/// Buying freezes at a drawdown of 20 percent, thaws at 15, and between the two stays as it is.
pub proof fn law_breaker_has_hysteresis(state: GuardState, drawdown_ratio: Scalar)
    requires
        state.max_budget@ > 0,
    ensures
        Scalar::of(THAW_THRESHOLD).below(Scalar::of(FREEZE_THRESHOLD)),
        Scalar::of(FREEZE_THRESHOLD).at_most(drawdown_ratio) ==> state.frozen_at(drawdown_ratio),
        drawdown_ratio.at_most(Scalar::of(THAW_THRESHOLD)) ==> !state.frozen_at(drawdown_ratio),
        Scalar::of(THAW_THRESHOLD).below(drawdown_ratio) && drawdown_ratio.below(
            Scalar::of(FREEZE_THRESHOLD),
        ) ==> state.frozen_at(drawdown_ratio) == state.frozen,
{
}

/// A buy slot that was taken cannot be taken again before it is freed, and can be afterwards;
/// the slots of other markets and all else stay as they are.
pub proof fn law_buy_slots_are_exclusive(
    pre: GuardState,
    key: Seq<char>,
    taken: GuardState,
    first: bool,
    again: GuardState,
    second: bool,
    freed: GuardState,
    later: GuardState,
    third: bool,
)
    ensures
        pre.acquires_buy(taken, first) && taken.acquires_buy(again, second)
            && again.releases_buy(freed) && freed.acquires_buy(later, third) ==> {
            &&& !second
            &&& again == taken
            &&& third
            &&& first ==> freed == pre
        },
        pre.acquires_token(key, taken, first) && taken.acquires_token(key, again, second)
            && again.releases_token(key, freed) && freed.acquires_token(key, later, third) ==> {
            &&& !second
            &&& again == taken
            &&& third
            &&& first ==> freed == pre
            &&& forall|other: Seq<char>|
                other != key ==> (#[trigger] taken.token_slots.contains(other)
                    == pre.token_slots.contains(other))
        },
{
    assert(pre.token_slots.insert(key).insert(key) =~= pre.token_slots.insert(key));
    if !pre.token_slots.contains(key) {
        assert(pre.token_slots.insert(key).remove(key) =~= pre.token_slots);
    }
}

/// With a cap above zero a position passes exactly where neither side is beyond the cap in
/// either direction; without one every position passes.
pub proof fn law_exposure_cap(state: GuardState, yes: Option<Amount>, no: Option<Amount>)
    requires
        GuardState::or_zero(yes).valid(),
        GuardState::or_zero(no).valid(),
    ensures
        state.cap@ > 0 ==> (state.exposure_verdict(yes, no) is Ok <==> {
            &&& -state.cap@ <= GuardState::or_zero(yes)@ <= state.cap@
            &&& -state.cap@ <= GuardState::or_zero(no)@ <= state.cap@
        }),
        state.cap@ <= 0 ==> state.exposure_verdict(yes, no) is Ok,
{
    crate::decimal::lemma_magnitude(GuardState::or_zero(yes));
    crate::decimal::lemma_magnitude(GuardState::or_zero(no));
}

/// A reservation is refused for a price or a size that the decimals cannot hold, in this order,
/// and where the spend with the cost of the order is above the budget; any other one is granted,
/// for exactly that cost, which is added to the spend (where the decimals hold the sum without
/// rounding). Nothing else changes.
pub proof fn law_a_reservation_is_for_the_cost(
    pre: GuardState,
    price: Option<Amount>,
    size: Option<Amount>,
    post: GuardState,
    r: Result<BudgetReservation, RiskError>,
)
    requires
        pre.reserves(price, size, post, r),
    ensures
        ({
            let cost = Amount::product(price->0, size->0)->0;
            let fits = Amount::sum(pre.spent, cost)->0@ <= pre.max_budget@;
            &&& price is None ==> r == Err::<BudgetReservation, _>(RiskError::InvalidPrice)
            &&& price is Some && size is None ==> r == Err::<BudgetReservation, _>(
                RiskError::InvalidSize,
            )
            &&& price is Some && size is Some && !fits ==> r == Err::<BudgetReservation, _>(
                RiskError::BudgetExceeded,
            )
            &&& price is Some && size is Some && fits ==> {
                &&& r is Ok
                &&& r->Ok_0.reserved() == cost
                &&& representable(pre.spent@ + cost@) ==> post.spent@ == pre.spent@ + cost@
                &&& post.spent@ <= pre.max_budget@
            }
            &&& post == (GuardState { spent: post.spent, ..pre })
            &&& pre.affords(price, size) <==> price is Some && size is Some && fits
        }),
{
}

/// What is given back of the budget comes off the spend, which does not go below zero: all of a
/// reservation, the proceeds of a sale, or what a fill left unused of its reservation. Where the
/// fill cost as much as was reserved, or more, nothing is given back. (Where the decimals hold the
/// differences without rounding.) Nothing else of the guard changes.
pub proof fn law_what_is_given_back_comes_off_the_spend(
    pre: GuardState,
    reservation: BudgetReservation,
    price: Amount,
    size: Amount,
    released: GuardState,
    sold: GuardState,
    refunded: GuardState,
)
    requires
        pre.releases(reservation, released),
        pre.refunds_sale(Some(price), Some(size), sold),
        pre.refunds_delta(reservation.reserved(), Some(price), Some(size), refunded),
    ensures
        ({
            let reserved = reservation.reserved()@;
            let worth = Amount::product(price, size)->0@;
            &&& representable(pre.spent@ - reserved) ==> released.spent@ == (if pre.spent@
                > reserved {
                pre.spent@ - reserved
            } else {
                0
            })
            &&& representable(pre.spent@ - worth) ==> sold.spent@ == (if pre.spent@ > worth {
                pre.spent@ - worth
            } else {
                0
            })
            &&& representable(reserved - worth) && worth >= reserved ==> refunded == pre
            &&& representable(reserved - worth) && worth < reserved && representable(
                pre.spent@ - (reserved - worth),
            ) ==> refunded.spent@ == (if pre.spent@ > reserved - worth {
                pre.spent@ - (reserved - worth)
            } else {
                0
            })
            &&& released == (GuardState { spent: released.spent, ..pre })
            &&& sold == (GuardState { spent: sold.spent, ..pre })
            &&& refunded == (GuardState { spent: refunded.spent, ..pre })
        }),
{
}

/// The proceeds of a sale whose price or size the decimals cannot hold leave the guard as it was;
/// in the refund of a fill what they cannot hold counts as zero.
pub proof fn law_a_sale_without_numbers_refunds_nothing(
    pre: GuardState,
    price: Option<Amount>,
    size: Option<Amount>,
    post: GuardState,
)
    requires
        price is None || size is None,
        pre.refunds_sale(price, size, post),
    ensures
        post == pre,
        pre.can_refund_sale(price, size),
        pre.can_price(price, size),
        GuardState::or_zero(None)@ == 0,
        price is Some ==> GuardState::or_zero(price) == price->0,
{
    crate::decimal::lemma_nothing();
}

/// Without a cap no position is refused. With one, the yes side is named where it is beyond the
/// cap in either direction, and the no side where it alone is.
pub proof fn law_the_side_beyond_the_cap_is_named(state: GuardState, yes: Amount, no: Amount)
    requires
        yes.valid(),
        no.valid(),
    ensures
        ({
            let r = state.exposure_verdict(Some(yes), Some(no));
            let yes_over = yes@ > state.cap@ || -yes@ > state.cap@;
            let no_over = no@ > state.cap@ || -no@ > state.cap@;
            &&& state.cap@ <= 0 ==> r is Ok
            &&& state.cap@ > 0 && yes_over ==> r == Err::<(), _>(RiskError::YesExposureExceeded)
            &&& state.cap@ > 0 && !yes_over && no_over ==> r == Err::<(), _>(
                RiskError::NoExposureExceeded,
            )
            &&& state.cap@ > 0 && !yes_over && !no_over ==> r is Ok
            &&& state.exposure_verdict(None, None) is Ok
        }),
{
    crate::decimal::lemma_magnitude(yes);
    crate::decimal::lemma_magnitude(no);
    crate::decimal::lemma_nothing();
    crate::decimal::lemma_magnitude(Amount::nothing());
}

/// The breaker stays as it is without a budget above zero. With one, only a drawdown of 20 percent
/// or more freezes buying and only one of 15 percent or less thaws it.
pub proof fn law_the_breaker_moves_only_for_a_reason(state: GuardState, drawdown_ratio: Scalar)
    ensures
        state.max_budget@ <= 0 ==> state.frozen_at(drawdown_ratio) == state.frozen,
        !state.frozen && state.frozen_at(drawdown_ratio) ==> state.max_budget@ > 0 && Scalar::of(
            0x3fc9_9999_9999_999a,
        ).at_most(drawdown_ratio),
        state.frozen && !state.frozen_at(drawdown_ratio) ==> state.max_budget@ > 0
            && drawdown_ratio.at_most(Scalar::of(0x3fc3_3333_3333_3333)),
        !drawdown_ratio.is_number() ==> state.frozen_at(drawdown_ratio) == state.frozen,
{
}

/// A slot is got exactly where it is free, is taken afterwards either way, and is free once it was
/// given back; neither touches the other slots or anything else.
pub proof fn law_a_free_slot_is_got(
    pre: GuardState,
    key: Seq<char>,
    taken: GuardState,
    got: bool,
    freed: GuardState,
    other: Seq<char>,
)
    ensures
        pre.acquires_buy(taken, got) && pre.releases_buy(freed) ==> {
            &&& got <==> !pre.buy_in_flight
            &&& taken.buy_in_flight
            &&& !freed.buy_in_flight
            &&& taken == (GuardState { buy_in_flight: taken.buy_in_flight, ..pre })
            &&& freed == (GuardState { buy_in_flight: freed.buy_in_flight, ..pre })
        },
        pre.acquires_token(key, taken, got) && pre.releases_token(key, freed) ==> {
            &&& got <==> !pre.token_slots.contains(key)
            &&& taken.token_slots.contains(key)
            &&& !freed.token_slots.contains(key)
            &&& other != key ==> taken.token_slots.contains(other) == pre.token_slots.contains(
                other,
            ) && freed.token_slots.contains(other) == pre.token_slots.contains(other)
            &&& taken == (GuardState { token_slots: taken.token_slots, ..pre })
            &&& freed == (GuardState { token_slots: freed.token_slots, ..pre })
        },
{
}

/// The budget can be asked exactly where the decimals hold what an order is worth and the spend
/// with it or without it.
pub proof fn law_only_the_decimals_stand_against_the_budget(
    state: GuardState,
    price: Amount,
    size: Amount,
    reserved: Amount,
)
    ensures
        ({
            let worth = Amount::product(price, size);
            let unused = Amount::difference(reserved, worth->0);
            &&& state.can_price(Some(price), Some(size)) <==> worth is Some && Amount::sum(
                state.spent,
                worth->0,
            ) is Some
            &&& state.can_refund_sale(Some(price), Some(size)) <==> worth is Some
                && Amount::difference(state.spent, worth->0) is Some
            &&& worth is Some && unused is Some && unused->0@ <= 0 ==> state.can_refund_delta(
                reserved,
                Some(price),
                Some(size),
            )
            &&& unused is Some && unused->0@ > 0 ==> (state.can_refund_delta(
                reserved,
                Some(price),
                Some(size),
            ) <==> worth is Some && Amount::difference(state.spent, unused->0) is Some)
            &&& state.can_refund_delta(reserved, Some(price), Some(size)) ==> worth is Some && unused
                is Some
        }),
{
    crate::decimal::lemma_nothing();
}

} // verus!
