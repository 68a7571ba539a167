//! The swap curve: it converts between the exact input amount of a swap and
//! its output amount through a pricing strategy, and records a notification
//! of each amount it computed.

use crate::currency::Currency;
use crate::uint::U256;
use vstd::prelude::*;

verus! {

/// Indicates a custom error of a pricing strategy.
#[derive(Clone, Copy, Debug, PartialEq, Eq)]
pub struct CurveCustomError {}

/// Why a swap curve gave no amount.
#[derive(Clone, Copy, Debug, PartialEq, Eq)]
pub enum Error {
    /// The pricing strategy failed.
    CustomError(CurveCustomError),
}

/// Recorded when the amount of input tokens for an exact-output swap is
/// calculated.
#[derive(Clone, Copy, Debug, PartialEq, Eq)]
pub struct AmountInCalculated {
    /// The amount of output tokens that was asked for.
    pub amount_out: U256,
    /// The input token.
    pub input: Currency,
    /// The output token.
    pub output: Currency,
    /// True if the input token is the first token of the pair.
    pub zero_for_one: bool,
}

/// Recorded when the amount of output tokens for an exact-input swap is
/// calculated.
#[derive(Clone, Copy, Debug, PartialEq, Eq)]
pub struct AmountOutCalculated {
    /// The amount of input tokens that was given.
    pub amount_in: U256,
    /// The input token.
    pub input: Currency,
    /// The output token.
    pub output: Currency,
    /// True if the input token is the first token of the pair.
    pub zero_for_one: bool,
}

/// What a swap curve tells the outside when it has computed an amount.
#[derive(Clone, Copy, Debug, PartialEq, Eq)]
pub enum Notification {
    /// An amount of input tokens was calculated.
    AmountIn(AmountInCalculated),
    /// An amount of output tokens was calculated.
    AmountOut(AmountOutCalculated),
}

/// A pricing rule for swaps between two assets. What it quotes depends on
/// the rule and the arguments alone.
pub trait PricingStrategy {
    /// The amount of input tokens that the rule asks for an exact amount of
    /// output tokens.
    spec fn quote_in(
        &self,
        amount_out: nat,
        input: Currency,
        output: Currency,
        zero_for_one: bool,
    ) -> Result<nat, CurveCustomError>;

    /// The amount of output tokens that the rule gives for an exact amount
    /// of input tokens.
    spec fn quote_out(
        &self,
        amount_in: nat,
        input: Currency,
        output: Currency,
        zero_for_one: bool,
    ) -> Result<nat, CurveCustomError>;

    /// Computes the amount of input tokens for an exact-output swap.
    fn amount_in_for_exact_output(
        &self,
        amount_out: U256,
        input: Currency,
        output: Currency,
        zero_for_one: bool,
    ) -> (r: Result<U256, CurveCustomError>)
        ensures
            match r {
                Ok(amount_in) => self.quote_in(amount_out@, input, output, zero_for_one) == Ok::<
                    nat,
                    CurveCustomError,
                >(amount_in@),
                Err(e) => self.quote_in(amount_out@, input, output, zero_for_one) == Err::<
                    nat,
                    CurveCustomError,
                >(e),
            },
    ;

    /// Computes the amount of output tokens for an exact-input swap.
    fn amount_out_for_exact_input(
        &self,
        amount_in: U256,
        input: Currency,
        output: Currency,
        zero_for_one: bool,
    ) -> (r: Result<U256, CurveCustomError>)
        ensures
            match r {
                Ok(amount_out) => self.quote_out(amount_in@, input, output, zero_for_one) == Ok::<
                    nat,
                    CurveCustomError,
                >(amount_out@),
                Err(e) => self.quote_out(amount_in@, input, output, zero_for_one) == Err::<
                    nat,
                    CurveCustomError,
                >(e),
            },
    ;
}

/// The constant-sum rule: tokens are traded exactly 1:1.
#[derive(Clone, Copy, Debug, PartialEq, Eq)]
pub struct ConstantSum {}

impl PricingStrategy for ConstantSum {
    open spec fn quote_in(
        &self,
        amount_out: nat,
        input: Currency,
        output: Currency,
        zero_for_one: bool,
    ) -> Result<nat, CurveCustomError> {
        Ok(amount_out)
    }

    open spec fn quote_out(
        &self,
        amount_in: nat,
        input: Currency,
        output: Currency,
        zero_for_one: bool,
    ) -> Result<nat, CurveCustomError> {
        Ok(amount_in)
    }

    fn amount_in_for_exact_output(
        &self,
        amount_out: U256,
        input: Currency,
        output: Currency,
        zero_for_one: bool,
    ) -> (r: Result<U256, CurveCustomError>) {
        Ok(amount_out)
    }

    fn amount_out_for_exact_input(
        &self,
        amount_in: U256,
        input: Currency,
        output: Currency,
        zero_for_one: bool,
    ) -> (r: Result<U256, CurveCustomError>) {
        Ok(amount_in)
    }
}

/// The constant-sum rule for one pair of tokens: the tokens of the pair are
/// traded exactly 1:1, and a swap between any other tokens, or one that names
/// the pair against its direction, is refused.
#[derive(Clone, Copy, Debug, PartialEq, Eq)]
pub struct SinglePair {
    /// The first token of the pair.
    pub token_0: Currency,
    /// The second token of the pair.
    pub token_1: Currency,
}

impl SinglePair {
    /// Whether a swap from `input` to `output` is one of the pair: from the
    /// first token to the second where `zero_for_one` holds, and from the
    /// second to the first where it does not.
    pub open spec fn supports(&self, input: Currency, output: Currency, zero_for_one: bool) -> bool {
        if zero_for_one {
            input == self.token_0 && output == self.token_1
        } else {
            input == self.token_1 && output == self.token_0
        }
    }

    /// Decides whether a swap from `input` to `output` is one of the pair.
    pub fn is_supported(&self, input: &Currency, output: &Currency, zero_for_one: bool) -> (r:
        bool)
        ensures
            r == self.supports(*input, *output, zero_for_one),
    {
        if zero_for_one {
            input.same(&self.token_0) && output.same(&self.token_1)
        } else {
            input.same(&self.token_1) && output.same(&self.token_0)
        }
    }
}

impl PricingStrategy for SinglePair {
    open spec fn quote_in(
        &self,
        amount_out: nat,
        input: Currency,
        output: Currency,
        zero_for_one: bool,
    ) -> Result<nat, CurveCustomError> {
        if self.supports(input, output, zero_for_one) {
            Ok(amount_out)
        } else {
            Err(CurveCustomError {  })
        }
    }

    open spec fn quote_out(
        &self,
        amount_in: nat,
        input: Currency,
        output: Currency,
        zero_for_one: bool,
    ) -> Result<nat, CurveCustomError> {
        if self.supports(input, output, zero_for_one) {
            Ok(amount_in)
        } else {
            Err(CurveCustomError {  })
        }
    }

    fn amount_in_for_exact_output(
        &self,
        amount_out: U256,
        input: Currency,
        output: Currency,
        zero_for_one: bool,
    ) -> (r: Result<U256, CurveCustomError>) {
        if self.is_supported(&input, &output, zero_for_one) {
            Ok(amount_out)
        } else {
            Err(CurveCustomError {  })
        }
    }

    fn amount_out_for_exact_input(
        &self,
        amount_in: U256,
        input: Currency,
        output: Currency,
        zero_for_one: bool,
    ) -> (r: Result<U256, CurveCustomError>) {
        if self.is_supported(&input, &output, zero_for_one) {
            Ok(amount_in)
        } else {
            Err(CurveCustomError {  })
        }
    }
}

/// Interface of a swap curve: each amount it computes is the one that its
/// pricing rule quotes, and each computed amount is recorded as one
/// notification.
pub trait ICurve {
    /// The amount of input tokens that the curve's pricing rule asks for an
    /// exact amount of output tokens.
    spec fn quote_in(
        &self,
        amount_out: nat,
        input: Currency,
        output: Currency,
        zero_for_one: bool,
    ) -> Result<nat, CurveCustomError>;

    /// The amount of output tokens that the curve's pricing rule gives for an
    /// exact amount of input tokens.
    spec fn quote_out(
        &self,
        amount_in: nat,
        input: Currency,
        output: Currency,
        zero_for_one: bool,
    ) -> Result<nat, CurveCustomError>;

    /// The notifications that were recorded and not yet taken, the oldest
    /// first.
    spec fn pending(&self) -> Seq<Notification>;

    /// Returns the amount of input tokens for an exact-output swap, and
    /// records that it was calculated. Where the pricing rule fails, its
    /// error is returned and nothing is recorded.
    ///
    /// * `amount_out` - The amount of output tokens the user expects to
    ///   receive.
    /// * `input` - The input token.
    /// * `output` - The output token.
    /// * `zero_for_one` - True if the input token is the first token of the
    ///   pair.
    fn get_amount_in_for_exact_output(
        &mut self,
        amount_out: U256,
        input: Currency,
        output: Currency,
        zero_for_one: bool,
    ) -> (r: Result<U256, Error>)
        ensures
            match r {
                Ok(amount_in) => old(self).quote_in(amount_out@, input, output, zero_for_one)
                    == Ok::<nat, CurveCustomError>(amount_in@) && final(self).pending() == old(
                    self,
                ).pending().push(
                    Notification::AmountIn(
                        (AmountInCalculated { amount_out, input, output, zero_for_one }),
                    ),
                ),
                Err(e) => old(self).quote_in(amount_out@, input, output, zero_for_one) == Err::<
                    nat,
                    CurveCustomError,
                >(e->CustomError_0) && final(self).pending() == old(self).pending(),
            },
    ;

    /// Returns the amount of output tokens for an exact-input swap, and
    /// records that it was calculated. Where the pricing rule fails, its
    /// error is returned and nothing is recorded.
    ///
    /// * `amount_in` - The amount of input tokens.
    /// * `input` - The input token.
    /// * `output` - The output token.
    /// * `zero_for_one` - True if the input token is the first token of the
    ///   pair.
    fn get_amount_out_from_exact_input(
        &mut self,
        amount_in: U256,
        input: Currency,
        output: Currency,
        zero_for_one: bool,
    ) -> (r: Result<U256, Error>)
        ensures
            match r {
                Ok(amount_out) => old(self).quote_out(amount_in@, input, output, zero_for_one)
                    == Ok::<nat, CurveCustomError>(amount_out@) && final(self).pending() == old(
                    self,
                ).pending().push(
                    Notification::AmountOut(
                        (AmountOutCalculated { amount_in, input, output, zero_for_one }),
                    ),
                ),
                Err(e) => old(self).quote_out(amount_in@, input, output, zero_for_one) == Err::<
                    nat,
                    CurveCustomError,
                >(e->CustomError_0) && final(self).pending() == old(self).pending(),
            },
    ;
}

/// A swap curve over a pricing strategy. It keeps the notifications of the
/// amounts it computed until they are taken.
pub struct UniswapCurve<P: PricingStrategy> {
    pricing: P,
    pending: Vec<Notification>,
}

impl<P: PricingStrategy> UniswapCurve<P> {
    /// The pricing strategy of the curve.
    pub closed spec fn pricing(&self) -> P {
        self.pricing
    }

    /// The notifications that were recorded and not yet taken, the oldest
    /// first.
    pub closed spec fn recorded(&self) -> Seq<Notification> {
        self.pending@
    }

    /// A curve over the given pricing strategy, with no notification.
    pub fn new(pricing: P) -> (r: Self)
        ensures
            r.pricing() == pricing,
            r.recorded() == Seq::<Notification>::empty(),
    {
        UniswapCurve { pricing, pending: Vec::new() }
    }

    /// Takes the recorded notifications, the oldest first, and leaves none.
    pub fn take_notifications(&mut self) -> (r: Vec<Notification>)
        ensures
            r@ == old(self).recorded(),
            final(self).recorded() == Seq::<Notification>::empty(),
            final(self).pricing() == old(self).pricing(),
    {
        let mut taken: Vec<Notification> = Vec::new();
        std::mem::swap(&mut taken, &mut self.pending);
        taken
    }

    /// Calculates the amount of input tokens for an exact-output swap.
    pub fn calculate_amount_in(
        &self,
        amount_out: U256,
        input: Currency,
        output: Currency,
        zero_for_one: bool,
    ) -> (r: Result<U256, Error>)
        ensures
            match r {
                Ok(amount_in) => self.pricing().quote_in(amount_out@, input, output, zero_for_one)
                    == Ok::<nat, CurveCustomError>(amount_in@),
                Err(e) => self.pricing().quote_in(amount_out@, input, output, zero_for_one)
                    == Err::<nat, CurveCustomError>(e->CustomError_0),
            },
    {
        match self.pricing.amount_in_for_exact_output(amount_out, input, output, zero_for_one) {
            Ok(amount_in) => Ok(amount_in),
            Err(e) => Err(Error::CustomError(e)),
        }
    }

    /// Calculates the amount of output tokens for an exact-input swap.
    pub fn calculate_amount_out(
        &self,
        amount_in: U256,
        input: Currency,
        output: Currency,
        zero_for_one: bool,
    ) -> (r: Result<U256, Error>)
        ensures
            match r {
                Ok(amount_out) => self.pricing().quote_out(amount_in@, input, output, zero_for_one)
                    == Ok::<nat, CurveCustomError>(amount_out@),
                Err(e) => self.pricing().quote_out(amount_in@, input, output, zero_for_one)
                    == Err::<nat, CurveCustomError>(e->CustomError_0),
            },
    {
        match self.pricing.amount_out_for_exact_input(amount_in, input, output, zero_for_one) {
            Ok(amount_out) => Ok(amount_out),
            Err(e) => Err(Error::CustomError(e)),
        }
    }
}

impl<P: PricingStrategy> ICurve for UniswapCurve<P> {
    open spec fn quote_in(
        &self,
        amount_out: nat,
        input: Currency,
        output: Currency,
        zero_for_one: bool,
    ) -> Result<nat, CurveCustomError> {
        self.pricing().quote_in(amount_out, input, output, zero_for_one)
    }

    open spec fn quote_out(
        &self,
        amount_in: nat,
        input: Currency,
        output: Currency,
        zero_for_one: bool,
    ) -> Result<nat, CurveCustomError> {
        self.pricing().quote_out(amount_in, input, output, zero_for_one)
    }

    open spec fn pending(&self) -> Seq<Notification> {
        self.recorded()
    }

    fn get_amount_in_for_exact_output(
        &mut self,
        amount_out: U256,
        input: Currency,
        output: Currency,
        zero_for_one: bool,
    ) -> (r: Result<U256, Error>)
        ensures
            final(self).pricing() == old(self).pricing(),
    {
        let amount_in = match self.calculate_amount_in(amount_out, input, output, zero_for_one) {
            Ok(v) => v,
            Err(e) => { return Err(e); },
        };
        self.pending.push(
            Notification::AmountIn(AmountInCalculated { amount_out, input, output, zero_for_one }),
        );
        Ok(amount_in)
    }

    fn get_amount_out_from_exact_input(
        &mut self,
        amount_in: U256,
        input: Currency,
        output: Currency,
        zero_for_one: bool,
    ) -> (r: Result<U256, Error>)
        ensures
            final(self).pricing() == old(self).pricing(),
    {
        let amount_out = match self.calculate_amount_out(amount_in, input, output, zero_for_one) {
            Ok(v) => v,
            Err(e) => { return Err(e); },
        };
        self.pending.push(
            Notification::AmountOut(
                AmountOutCalculated { amount_in, input, output, zero_for_one },
            ),
        );
        Ok(amount_out)
    }
}

} // verus!
