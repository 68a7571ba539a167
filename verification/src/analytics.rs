//! The loss-versus-rebalancing accumulator: it takes observations of price,
//! volatility and marginal liquidity, estimates the loss that each adds, and
//! keeps running totals of loss and fees.

use crate::currency::Currency;
use crate::math::{mul_div, Error};
use crate::uint::{lemma_limbs4_bound, lemma_u256_determined_by_value, pow2_256, U256};
use vstd::arithmetic::div_mod::lemma_div_basics;
use vstd::prelude::*;

verus! {

/// The variance of an observation: `volatility² · price² / 2`, rounded down.
pub open spec fn variance(price: nat, volatility: nat) -> nat {
    ((volatility * volatility) * (price * price)) / 2
}

/// Whether every step of the loss formula fits in 256 bits: both squares, the
/// variance, and the variance times the marginal liquidity.
pub open spec fn lvr_fits(price: nat, volatility: nat, marginal_liquidity: nat) -> bool {
    &&& volatility * volatility < pow2_256()
    &&& price * price < pow2_256()
    &&& variance(price, volatility) < pow2_256()
    &&& variance(price, volatility) * marginal_liquidity < pow2_256()
}

/// The loss that one observation adds: the variance times the marginal
/// liquidity, or an overflow where a step of the formula does not fit.
pub open spec fn lvr_increment(price: nat, volatility: nat, marginal_liquidity: nat) -> Result<
    nat,
    Error,
> {
    if lvr_fits(price, volatility, marginal_liquidity) {
        Ok(variance(price, volatility) * marginal_liquidity)
    } else {
        Err(Error::Overflow)
    }
}

/// Computes the loss that one observation adds.
///
/// Each product is formed by [`mul_div`], so a step that does not fit in 256
/// bits is reported and never wraps.
pub fn lvr_contribution(price: U256, volatility: U256, marginal_liquidity: U256) -> (r: Result<
    U256,
    Error,
>)
    ensures
        match r {
            Ok(increment) => lvr_increment(price@, volatility@, marginal_liquidity@) == Ok::<
                nat,
                Error,
            >(increment@),
            Err(e) => lvr_increment(price@, volatility@, marginal_liquidity@) == Err::<nat, Error>(
                e,
            ),
        },
{
    let one = U256::from_u64(1);
    let two = U256::from_u64(2);
    proof {
        lemma_div_basics((volatility@ * volatility@) as int);
        lemma_div_basics((price@ * price@) as int);
        lemma_div_basics((variance(price@, volatility@) * marginal_liquidity@) as int);
    }
    let volatility_sq = match mul_div(volatility, volatility, one) {
        Ok(v) => v,
        Err(e) => { return Err(e); },
    };
    let price_sq = match mul_div(price, price, one) {
        Ok(v) => v,
        Err(e) => { return Err(e); },
    };
    let variance = match mul_div(volatility_sq, price_sq, two) {
        Ok(v) => v,
        Err(e) => { return Err(e); },
    };
    mul_div(variance, marginal_liquidity, one)
}

/// What an accumulator holds, as mathematical values.
pub struct LvrState {
    /// The risky asset of the pair.
    pub risky_asset: Currency,
    /// The asset in which the pair is priced.
    pub numeraire: Currency,
    /// The number of observations taken.
    pub trade_count: nat,
    /// The price of the latest observation.
    pub last_price: nat,
    /// The volatility of the latest observation.
    pub last_volatility: nat,
    /// The marginal liquidity of the latest observation.
    pub last_marginal_liquidity: nat,
    /// The loss that the latest observation added.
    pub last_increment: nat,
    /// The sum of the losses of all observations.
    pub cumulative_lvr: nat,
    /// The sum of all fees.
    pub cumulative_fees: nat,
}

impl LvrState {
    /// The state of a new accumulator for a pair: nothing observed, both
    /// totals zero.
    pub open spec fn fresh(risky_asset: Currency, numeraire: Currency) -> LvrState {
        LvrState {
            risky_asset,
            numeraire,
            trade_count: 0,
            last_price: 0,
            last_volatility: 0,
            last_marginal_liquidity: 0,
            last_increment: 0,
            cumulative_lvr: 0,
            cumulative_fees: 0,
        }
    }

    /// What holds of every state that is reached from a fresh one: the latest
    /// loss is part of the total, and before the first observation there is
    /// neither a latest observation nor a loss.
    pub open spec fn well_formed(self) -> bool {
        &&& self.last_increment <= self.cumulative_lvr
        &&& self.trade_count == 0 ==> {
            &&& self.last_price == 0
            &&& self.last_volatility == 0
            &&& self.last_marginal_liquidity == 0
            &&& self.cumulative_lvr == 0
        }
    }

    /// Whether every field fits the machine type that holds it.
    pub open spec fn representable(self) -> bool {
        &&& self.trade_count <= u64::MAX
        &&& self.last_price < pow2_256()
        &&& self.last_volatility < pow2_256()
        &&& self.last_marginal_liquidity < pow2_256()
        &&& self.last_increment < pow2_256()
        &&& self.cumulative_lvr < pow2_256()
        &&& self.cumulative_fees < pow2_256()
    }

    /// The state after an observation: the observation and its loss are
    /// recorded, the count grows by one and the loss is added to the total.
    /// It is an overflow where the loss formula overflows, the total would not
    /// fit in 256 bits, or the count would not fit in 64 bits.
    pub open spec fn after_feed_lvr(
        self,
        price: nat,
        volatility: nat,
        marginal_liquidity: nat,
    ) -> Result<LvrState, Error> {
        match lvr_increment(price, volatility, marginal_liquidity) {
            Err(e) => Err(e),
            Ok(increment) => if self.cumulative_lvr + increment >= pow2_256() || self.trade_count
                >= u64::MAX {
                Err(Error::Overflow)
            } else {
                Ok(
                    LvrState {
                        trade_count: self.trade_count + 1,
                        last_price: price,
                        last_volatility: volatility,
                        last_marginal_liquidity: marginal_liquidity,
                        last_increment: increment,
                        cumulative_lvr: self.cumulative_lvr + increment,
                        ..self
                    },
                )
            },
        }
    }

    /// The state after a fee: it is added to the total of fees. It is an
    /// overflow where that total would not fit in 256 bits.
    pub open spec fn after_feed_fees(self, fee_amount: nat) -> Result<LvrState, Error> {
        if self.cumulative_fees + fee_amount >= pow2_256() {
            Err(Error::Overflow)
        } else {
            Ok(LvrState { cumulative_fees: self.cumulative_fees + fee_amount, ..self })
        }
    }

    /// The state after the pair is named anew: only the pair changes.
    pub open spec fn after_set_asset(self, risky_asset: Currency, numeraire: Currency) -> LvrState {
        LvrState { risky_asset, numeraire, ..self }
    }
}

/// One call that changes an accumulator, with its arguments.
pub enum Call {
    /// An observation is fed.
    FeedLvr { price: nat, volatility: nat, marginal_liquidity: nat },
    /// A fee is fed.
    FeedFees { fee_amount: nat },
    /// The pair is named anew.
    SetAsset { risky_asset: Currency, numeraire: Currency },
}

impl LvrState {
    /// The state after one call. A call that fails leaves the state as it
    /// was.
    pub open spec fn after_call(self, call: Call) -> LvrState {
        match call {
            Call::FeedLvr { price, volatility, marginal_liquidity } => match self.after_feed_lvr(
                price,
                volatility,
                marginal_liquidity,
            ) {
                Ok(next) => next,
                Err(_) => self,
            },
            Call::FeedFees { fee_amount } => match self.after_feed_fees(fee_amount) {
                Ok(next) => next,
                Err(_) => self,
            },
            Call::SetAsset { risky_asset, numeraire } => self.after_set_asset(
                risky_asset,
                numeraire,
            ),
        }
    }

    /// The state after a sequence of calls, the first call first.
    pub open spec fn after_calls(self, calls: Seq<Call>) -> LvrState
        decreases calls.len(),
    {
        if calls.len() == 0 {
            self
        } else {
            self.after_calls(calls.drop_last()).after_call(calls.last())
        }
    }
}

/// At a price of one the variance is half the square of the volatility.
pub proof fn lemma_variance_at_unit_price(volatility: nat)
    ensures
        variance(1, volatility) == (volatility * volatility) / 2,
{
    assert((volatility * volatility) * (1nat * 1nat) == volatility * volatility)
        by (nonlinear_arith);
}

/// No call lowers the total loss, the total of fees or the number of
/// observations, and a well-formed state stays well formed.
pub proof fn lemma_call_never_decreases(s: LvrState, call: Call)
    ensures
        s.after_call(call).cumulative_lvr >= s.cumulative_lvr,
        s.after_call(call).cumulative_fees >= s.cumulative_fees,
        s.after_call(call).trade_count >= s.trade_count,
        s.well_formed() ==> s.after_call(call).well_formed(),
{
}

/// Over any sequence of calls the total loss, the total of fees and the
/// number of observations never go down, and a well-formed state stays well
/// formed.
pub proof fn lemma_calls_never_decrease(s: LvrState, calls: Seq<Call>)
    ensures
        s.after_calls(calls).cumulative_lvr >= s.cumulative_lvr,
        s.after_calls(calls).cumulative_fees >= s.cumulative_fees,
        s.after_calls(calls).trade_count >= s.trade_count,
        s.well_formed() ==> s.after_calls(calls).well_formed(),
    decreases calls.len(),
{
    if calls.len() > 0 {
        lemma_calls_never_decrease(s, calls.drop_last());
        lemma_call_never_decreases(s.after_calls(calls.drop_last()), calls.last());
    }
}

/// After two observations, each given as price, volatility and marginal
/// liquidity, the total loss is what it was plus the two losses that the
/// observations added.
pub proof fn lemma_two_feeds_add_up(
    s: LvrState,
    first: LvrState,
    second: LvrState,
    first_feed: (nat, nat, nat),
    second_feed: (nat, nat, nat),
)
    requires
        s.after_feed_lvr(first_feed.0, first_feed.1, first_feed.2) == Ok::<LvrState, Error>(first),
        first.after_feed_lvr(second_feed.0, second_feed.1, second_feed.2) == Ok::<LvrState, Error>(second),
    ensures
        second.cumulative_lvr == s.cumulative_lvr + first.last_increment + second.last_increment,
        second.trade_count == s.trade_count + 2,
        second.cumulative_fees == s.cumulative_fees,
{
}

/// Feeding fees and naming the pair anew leave the observations and the total
/// loss as they are.
pub proof fn lemma_fees_and_pair_keep_loss(s: LvrState, call: Call)
    requires
        !(call is FeedLvr),
    ensures
        s.after_call(call).cumulative_lvr == s.cumulative_lvr,
        s.after_call(call).last_increment == s.last_increment,
        s.after_call(call).trade_count == s.trade_count,
{
}

/// Interface of an accumulator of loss-versus-rebalancing.
pub trait IAnalytics: Sized {
    /// What the accumulator holds.
    spec fn state(&self) -> LvrState;

    /// Takes one observation and returns the loss that it adds. On an
    /// overflow nothing changes.
    fn feed_lvr_data(&mut self, price: U256, volatility: U256, marginal_liquidity: U256) -> (r:
        Result<U256, Error>)
        ensures
            match old(self).state().after_feed_lvr(price@, volatility@, marginal_liquidity@) {
                Ok(next) => final(self).state() == next && (r matches Ok(increment) && increment@
                    == next.last_increment),
                Err(e) => r == Err::<U256, Error>(e) && *final(self) == *old(self),
            },
    ;

    /// Adds a fee to the total of fees. On an overflow nothing changes.
    fn feed_fees(&mut self, fee_amount: U256) -> (r: Result<(), Error>)
        ensures
            match old(self).state().after_feed_fees(fee_amount@) {
                Ok(next) => final(self).state() == next && r == Ok::<(), Error>(()),
                Err(e) => r == Err::<(), Error>(e) && *final(self) == *old(self),
            },
    ;

    /// The sum of the losses of all observations.
    fn get_lvr(&self) -> (r: U256)
        ensures
            r@ == self.state().cumulative_lvr,
    ;

    /// The sum of all fees.
    fn get_fees(&self) -> (r: U256)
        ensures
            r@ == self.state().cumulative_fees,
    ;

    /// Names the pair anew. The observations and totals stay as they are.
    fn set_asset(&mut self, risky_asset: Currency, numeraire: Currency)
        ensures
            final(self).state() == old(self).state().after_set_asset(risky_asset, numeraire),
    ;

    /// The loss that an observation of the given volatility and marginal
    /// liquidity adds at a price of one. Nothing is recorded.
    fn compute_lvr(&self, volatility: U256, marginal_liq: U256) -> (r: Result<U256, Error>)
        ensures
            match r {
                Ok(lvr) => lvr_increment(1, volatility@, marginal_liq@) == Ok::<nat, Error>(lvr@),
                Err(e) => lvr_increment(1, volatility@, marginal_liq@) == Err::<nat, Error>(e),
            },
    ;
}

/// Reads of the totals that no call that changes the accumulator separates
/// give the same values: what a read returns is fixed by the state.
pub proof fn lemma_repeated_reads_agree<A: IAnalytics>(
    accumulator: A,
    first_lvr: U256,
    second_lvr: U256,
    first_fees: U256,
    second_fees: U256,
)
    requires
        first_lvr@ == accumulator.state().cumulative_lvr,
        second_lvr@ == accumulator.state().cumulative_lvr,
        first_fees@ == accumulator.state().cumulative_fees,
        second_fees@ == accumulator.state().cumulative_fees,
    ensures
        first_lvr == second_lvr,
        first_fees == second_fees,
{
    lemma_u256_determined_by_value(first_lvr, second_lvr);
    lemma_u256_determined_by_value(first_fees, second_fees);
}

/// An accumulator of loss-versus-rebalancing for one pair of assets.
#[derive(Clone, Copy, Debug, PartialEq, Eq)]
pub struct Compute {
    risky_asset: Currency,
    numeraire: Currency,
    trade_count: u64,
    last_price: U256,
    last_volatility: U256,
    last_marginal_liquidity: U256,
    last_increment: U256,
    cumulative_lvr: U256,
    cumulative_fees: U256,
}

impl View for Compute {
    type V = LvrState;

    closed spec fn view(&self) -> LvrState {
        LvrState {
            risky_asset: self.risky_asset,
            numeraire: self.numeraire,
            trade_count: self.trade_count as nat,
            last_price: self.last_price@,
            last_volatility: self.last_volatility@,
            last_marginal_liquidity: self.last_marginal_liquidity@,
            last_increment: self.last_increment@,
            cumulative_lvr: self.cumulative_lvr@,
            cumulative_fees: self.cumulative_fees@,
        }
    }
}

/// The fields of an accumulator as plain values: what is kept between calls.
#[derive(Clone, Copy, Debug, PartialEq, Eq)]
pub struct Snapshot {
    /// The risky asset of the pair.
    pub risky_asset: Currency,
    /// The asset in which the pair is priced.
    pub numeraire: Currency,
    /// The number of observations taken.
    pub trade_count: u64,
    /// The price of the latest observation.
    pub last_price: U256,
    /// The volatility of the latest observation.
    pub last_volatility: U256,
    /// The marginal liquidity of the latest observation.
    pub last_marginal_liquidity: U256,
    /// The loss that the latest observation added.
    pub last_increment: U256,
    /// The sum of the losses of all observations.
    pub cumulative_lvr: U256,
    /// The sum of all fees.
    pub cumulative_fees: U256,
}

impl View for Snapshot {
    type V = LvrState;

    open spec fn view(&self) -> LvrState {
        LvrState {
            risky_asset: self.risky_asset,
            numeraire: self.numeraire,
            trade_count: self.trade_count as nat,
            last_price: self.last_price@,
            last_volatility: self.last_volatility@,
            last_marginal_liquidity: self.last_marginal_liquidity@,
            last_increment: self.last_increment@,
            cumulative_lvr: self.cumulative_lvr@,
            cumulative_fees: self.cumulative_fees@,
        }
    }
}

impl Compute {
    #[verifier::type_invariant]
    spec fn reached_from_fresh(self) -> bool {
        self@.well_formed()
    }

    /// A new accumulator for a pair: nothing observed, both totals zero.
    pub fn new(risky_asset: Currency, numeraire: Currency) -> (r: Compute)
        ensures
            r@ == LvrState::fresh(risky_asset, numeraire),
            r@.well_formed(),
    {
        Compute {
            risky_asset,
            numeraire,
            trade_count: 0,
            last_price: U256::zero(),
            last_volatility: U256::zero(),
            last_marginal_liquidity: U256::zero(),
            last_increment: U256::zero(),
            cumulative_lvr: U256::zero(),
            cumulative_fees: U256::zero(),
        }
    }

    /// The fields of the accumulator.
    pub fn snapshot(&self) -> (r: Snapshot)
        ensures
            r@ == self@,
            self@.well_formed(),
    {
        proof {
            use_type_invariant(self);
        }
        Snapshot {
            risky_asset: self.risky_asset,
            numeraire: self.numeraire,
            trade_count: self.trade_count,
            last_price: self.last_price,
            last_volatility: self.last_volatility,
            last_marginal_liquidity: self.last_marginal_liquidity,
            last_increment: self.last_increment,
            cumulative_lvr: self.cumulative_lvr,
            cumulative_fees: self.cumulative_fees,
        }
    }

    /// The accumulator with the given fields, or `None` where they are not
    /// those of a well-formed state.
    pub fn restore(fields: Snapshot) -> (r: Option<Compute>)
        ensures
            fields@.well_formed() ==> r.is_some() && r.unwrap()@ == fields@,
            !fields@.well_formed() ==> r.is_none(),
    {
        if !fields.last_increment.le(&fields.cumulative_lvr) {
            return None;
        }
        if fields.trade_count == 0 && !(fields.last_price.is_zero()
            && fields.last_volatility.is_zero() && fields.last_marginal_liquidity.is_zero()
            && fields.cumulative_lvr.is_zero()) {
            return None;
        }
        Some(
            Compute {
                risky_asset: fields.risky_asset,
                numeraire: fields.numeraire,
                trade_count: fields.trade_count,
                last_price: fields.last_price,
                last_volatility: fields.last_volatility,
                last_marginal_liquidity: fields.last_marginal_liquidity,
                last_increment: fields.last_increment,
                cumulative_lvr: fields.cumulative_lvr,
                cumulative_fees: fields.cumulative_fees,
            },
        )
    }

    /// The number of observations taken.
    pub fn trade_count(&self) -> (r: u64)
        ensures
            r == self@.trade_count,
    {
        self.trade_count
    }

    /// What an accumulator holds fits its machine types.
    pub proof fn lemma_representable(&self)
        ensures
            self@.representable(),
    {
        lemma_limbs4_bound(self.last_price.limbs@);
        lemma_limbs4_bound(self.last_volatility.limbs@);
        lemma_limbs4_bound(self.last_marginal_liquidity.limbs@);
        lemma_limbs4_bound(self.last_increment.limbs@);
        lemma_limbs4_bound(self.cumulative_lvr.limbs@);
        lemma_limbs4_bound(self.cumulative_fees.limbs@);
    }
}

impl IAnalytics for Compute {
    open spec fn state(&self) -> LvrState {
        self@
    }

    fn feed_lvr_data(&mut self, price: U256, volatility: U256, marginal_liquidity: U256) -> (r:
        Result<U256, Error>)
        ensures
            final(self)@.well_formed(),
    {
        proof {
            use_type_invariant(&*self);
        }
        let increment = match lvr_contribution(price, volatility, marginal_liquidity) {
            Ok(v) => v,
            Err(e) => { return Err(e); },
        };
        let cumulative_lvr = match self.cumulative_lvr.checked_add(increment) {
            Some(v) => v,
            None => { return Err(Error::Overflow); },
        };
        if self.trade_count == u64::MAX {
            return Err(Error::Overflow);
        }
        *self = Compute {
            risky_asset: self.risky_asset,
            numeraire: self.numeraire,
            trade_count: self.trade_count + 1,
            last_price: price,
            last_volatility: volatility,
            last_marginal_liquidity: marginal_liquidity,
            last_increment: increment,
            cumulative_lvr,
            cumulative_fees: self.cumulative_fees,
        };
        Ok(increment)
    }

    fn feed_fees(&mut self, fee_amount: U256) -> (r: Result<(), Error>)
        ensures
            final(self)@.well_formed(),
    {
        proof {
            use_type_invariant(&*self);
        }
        match self.cumulative_fees.checked_add(fee_amount) {
            Some(total) => {
                self.cumulative_fees = total;
                Ok(())
            },
            None => Err(Error::Overflow),
        }
    }

    fn get_lvr(&self) -> (r: U256)
        ensures
            self@.well_formed(),
    {
        proof {
            use_type_invariant(self);
        }
        self.cumulative_lvr
    }

    fn get_fees(&self) -> (r: U256)
        ensures
            self@.well_formed(),
    {
        proof {
            use_type_invariant(self);
        }
        self.cumulative_fees
    }

    fn set_asset(&mut self, risky_asset: Currency, numeraire: Currency)
        ensures
            final(self)@.well_formed(),
    {
        proof {
            use_type_invariant(&*self);
        }
        *self = Compute { risky_asset, numeraire, ..*self };
    }

    fn compute_lvr(&self, volatility: U256, marginal_liq: U256) -> (r: Result<U256, Error>) {
        lvr_contribution(U256::from_u64(1), volatility, marginal_liq)
    }
}

} // verus!
