use vstd::prelude::*;
use crate::num::Dec;
use crate::num::add_of;
use crate::num::add_some;
use crate::num::cdf_of;
use crate::num::dec_add;
use crate::num::dec_div;
use crate::num::dec_exp;
use crate::num::dec_le;
use crate::num::dec_le_v;
use crate::num::dec_ln;
use crate::num::dec_mul;
use crate::num::dec_sqrt;
use crate::num::dec_sub;
use crate::num::div_of;
use crate::num::div_some;
use crate::num::exp_of;
use crate::num::exp_some;
use crate::num::lemma_dec_le_v_trans;
use crate::num::ln_of;
use crate::num::mul_of;
use crate::num::mul_some;
use crate::num::norm_cdf;
use crate::num::norm_pdf;
use crate::num::pdf_of;
use crate::num::pow10;
use crate::num::sqrt_of;
use crate::num::sqrt_some;
use crate::num::sub_of;
use crate::num::sub_some;

verus! {

/// Whether a contract is a put or a call.
#[derive(Clone, Copy, Debug, PartialEq, Eq, Structural)]
pub enum OptionKind {
    Put,
    Call,
}

/// Why a contract could not be built.
#[derive(Clone, Copy, Debug, PartialEq, Eq, Structural)]
pub enum InputError {
    /// The strike was zero or negative.
    NonPositiveStrike,
    /// The time to expiry was zero or negative.
    NonPositiveExpiry,
}

/// Why a price or a sensitivity could not be computed.
#[derive(Clone, Copy, Debug, PartialEq, Eq, Structural)]
pub enum PriceError {
    /// The spot was zero or negative.
    NonPositiveSpot,
    /// The volatility was zero or negative.
    NonPositiveVolatility,
    /// A decimal step of the formula had no result (overflow, a quotient
    /// or logarithm that left the representable range).
    Numeric,
}

/// Why the implied-volatility solver returned no volatility.
#[derive(Clone, Copy, Debug)]
pub enum SolveError {
    /// The spot was zero or negative.
    NonPositiveSpot,
    /// The iteration cap was reached, or an iterate left the domain the
    /// pricing formulas accept; the last iterate and residual are carried.
    NoConvergence { last_vol: Dec, residual: Option<Dec>, iterations: u32 },
}

/// The price and sensitivities of one contract at one market state.
#[derive(Clone, Copy, Debug, PartialEq, Eq, Structural)]
pub struct RiskSnapshot {
    pub price: Dec,
    pub delta: Dec,
    pub gamma: Dec,
    pub vega: Dec,
    pub rho: Dec,
}

/// A European option: fixed terms (strike, time to expiry), a kind, and the
/// snapshot the last aggregation call wrote.
#[derive(Clone, Copy, Debug, PartialEq, Eq, Structural)]
pub struct OptionContract {
    pub kind: OptionKind,
    pub strike: Dec,
    pub time_to_expiry: Dec,
    pub snapshot: RiskSnapshot,
}

/// The iteration cap of the implied-volatility solver.
pub const MAX_ITERATIONS: u32 = 100;

/// The convergence tolerance of the implied-volatility solver, `10^-6`.
pub open spec fn solver_epsilon() -> Dec {
    Dec { mantissa: 1, scale: 6 }
}

/// The solver's fixed initial guess, `0.5`.
pub open spec fn initial_guess() -> Dec {
    Dec { mantissa: 5, scale: 1 }
}

/// The constant `0.5` of the `d1` numerator.
pub open spec fn dec_half() -> Dec {
    Dec { mantissa: 5, scale: 1 }
}

impl RiskSnapshot {
    /// All five fields are well-formed decimals.
    pub open spec fn wf(self) -> bool {
        &&& self.price.wf()
        &&& self.delta.wf()
        &&& self.gamma.wf()
        &&& self.vega.wf()
        &&& self.rho.wf()
    }

    /// The all-zero snapshot a fresh contract starts from.
    pub open spec fn zeroed() -> RiskSnapshot {
        RiskSnapshot {
            price: Dec { mantissa: 0, scale: 0 },
            delta: Dec { mantissa: 0, scale: 0 },
            gamma: Dec { mantissa: 0, scale: 0 },
            vega: Dec { mantissa: 0, scale: 0 },
            rho: Dec { mantissa: 0, scale: 0 },
        }
    }
}

impl OptionContract {
    /// The contract's invariant: positive strike, positive time to expiry,
    /// and a well-formed snapshot.
    pub open spec fn valid(self) -> bool {
        &&& self.strike.wf()
        &&& self.strike.mantissa > 0
        &&& self.time_to_expiry.wf()
        &&& self.time_to_expiry.mantissa > 0
        &&& self.snapshot.wf()
    }

    /// The Black-Scholes intermediate term of this system,
    /// `d1 = (ln(S/K) + 0.5*sigma^2*T) / (sigma*sqrt(T))`.
    /// The numerator carries no rate-drift term: that is this system's own
    /// pricing behaviour, kept as it stands.
    pub open spec fn d1_spec(self, spot: Dec, volatility: Dec) -> Dec {
        let ratio = div_of(spot, self.strike);
        let numerator = add_of(
            ln_of(ratio),
            mul_of(mul_of(dec_half(), mul_of(volatility, volatility)), self.time_to_expiry),
        );
        let denominator = mul_of(volatility, sqrt_of(self.time_to_expiry));
        div_of(numerator, denominator)
    }

    /// `d2 = d1 - sigma*sqrt(T)`.
    pub open spec fn d2_spec(self, spot: Dec, volatility: Dec) -> Dec {
        sub_of(
            self.d1_spec(spot, volatility),
            mul_of(volatility, sqrt_of(self.time_to_expiry)),
        )
    }

    /// The discounted strike `K*e^(-r*T)`.
    pub open spec fn discount_spec(self, rate: Dec) -> Dec {
        mul_of(self.strike, exp_of(mul_of(rate, self.time_to_expiry).neg_v()))
    }

    /// The fair value: `K*e^(-r*T)*cdf(-d2) - S*cdf(-d1)` for a put,
    /// `S*cdf(d1) - K*e^(-r*T)*cdf(d2)` for a call.
    pub open spec fn price_spec(self, spot: Dec, volatility: Dec, rate: Dec) -> Dec {
        let d1 = self.d1_spec(spot, volatility);
        let d2 = self.d2_spec(spot, volatility);
        let disc = self.discount_spec(rate);
        match self.kind {
            OptionKind::Put => sub_of(
                mul_of(disc, cdf_of(d2.neg_v())),
                mul_of(spot, cdf_of(d1.neg_v())),
            ),
            OptionKind::Call => sub_of(
                mul_of(spot, cdf_of(d1)),
                mul_of(disc, cdf_of(d2)),
            ),
        }
    }

    /// The sensitivity to spot: `-cdf(-d1)` for a put, `cdf(d1)` for a call.
    pub open spec fn delta_spec(self, spot: Dec, volatility: Dec) -> Dec {
        let d1 = self.d1_spec(spot, volatility);
        match self.kind {
            OptionKind::Put => cdf_of(d1.neg_v()).neg_v(),
            OptionKind::Call => cdf_of(d1),
        }
    }

    /// The second-order sensitivity to spot, `pdf(d1) / (S*sigma*sqrt(T))`.
    /// It does not read the contract's kind: put and call share it.
    pub open spec fn gamma_spec(self, spot: Dec, volatility: Dec) -> Dec {
        div_of(
            pdf_of(self.d1_spec(spot, volatility)),
            mul_of(mul_of(spot, volatility), sqrt_of(self.time_to_expiry)),
        )
    }

    /// The sensitivity to volatility, `S*pdf(d1)*sqrt(T)`.
    /// It does not read the contract's kind: put and call share it.
    pub open spec fn vega_spec(self, spot: Dec, volatility: Dec) -> Dec {
        mul_of(
            mul_of(spot, pdf_of(self.d1_spec(spot, volatility))),
            sqrt_of(self.time_to_expiry),
        )
    }

    /// The sensitivity to the rate: `-(K*T*e^(-r*T)*cdf(-d2))` for a put,
    /// `K*T*e^(-r*T)*cdf(d2)` for a call.
    pub open spec fn rho_spec(self, spot: Dec, volatility: Dec, rate: Dec) -> Dec {
        let d2 = self.d2_spec(spot, volatility);
        let base = mul_of(
            mul_of(self.strike, self.time_to_expiry),
            exp_of(mul_of(rate, self.time_to_expiry).neg_v()),
        );
        match self.kind {
            OptionKind::Put => mul_of(base, cdf_of(d2.neg_v())).neg_v(),
            OptionKind::Call => mul_of(base, cdf_of(d2)),
        }
    }

    /// A volatility at which this system's own price of the contract sits
    /// within the solver's tolerance of the target price.
    pub open spec fn converged(self, spot: Dec, target: Dec, rate: Dec, volatility: Dec) -> bool {
        dec_le_v(
            sub_of(self.price_spec(spot, volatility, rate), target).abs_v(),
            solver_epsilon(),
        )
    }

    /// Every decimal step of `d1` has a result: the spot-strike ratio
    /// divides, stays positive for the logarithm, and no product, sum,
    /// root or the final quotient overflows or divides by zero.
    pub open spec fn d1_some(self, spot: Dec, volatility: Dec) -> bool {
        let ratio = div_of(spot, self.strike);
        let vol_sq = mul_of(volatility, volatility);
        let half_vol_sq = mul_of(dec_half(), vol_sq);
        let variance_term = mul_of(half_vol_sq, self.time_to_expiry);
        let numerator = add_of(ln_of(ratio), variance_term);
        let denominator = mul_of(volatility, sqrt_of(self.time_to_expiry));
        &&& div_some(spot, self.strike)
        &&& ratio.mantissa > 0
        &&& mul_some(volatility, volatility)
        &&& mul_some(dec_half(), vol_sq)
        &&& mul_some(half_vol_sq, self.time_to_expiry)
        &&& add_some(ln_of(ratio), variance_term)
        &&& sqrt_some(self.time_to_expiry)
        &&& mul_some(volatility, sqrt_of(self.time_to_expiry))
        &&& div_some(numerator, denominator)
    }

    /// The spread `sigma*sqrt(T)` has a result.
    pub open spec fn spread_some(self, volatility: Dec) -> bool {
        &&& sqrt_some(self.time_to_expiry)
        &&& mul_some(volatility, sqrt_of(self.time_to_expiry))
    }

    /// The discounted strike `K*e^(-r*T)` has a result.
    pub open spec fn discount_some(self, rate: Dec) -> bool {
        let rate_t = mul_of(rate, self.time_to_expiry);
        &&& mul_some(rate, self.time_to_expiry)
        &&& exp_some(rate_t.neg_v())
        &&& mul_some(self.strike, exp_of(rate_t.neg_v()))
    }

    /// Every decimal step of the price formula has a result.
    pub open spec fn price_some(self, spot: Dec, volatility: Dec, rate: Dec) -> bool {
        let d1 = self.d1_spec(spot, volatility);
        let spread = mul_of(volatility, sqrt_of(self.time_to_expiry));
        let d2 = self.d2_spec(spot, volatility);
        let disc = self.discount_spec(rate);
        &&& self.d1_some(spot, volatility)
        &&& self.spread_some(volatility)
        &&& sub_some(d1, spread)
        &&& self.discount_some(rate)
        &&& match self.kind {
            OptionKind::Put => mul_some(disc, cdf_of(d2.neg_v())) && mul_some(
                spot,
                cdf_of(d1.neg_v()),
            ) && sub_some(mul_of(disc, cdf_of(d2.neg_v())), mul_of(spot, cdf_of(d1.neg_v()))),
            OptionKind::Call => mul_some(spot, cdf_of(d1)) && mul_some(disc, cdf_of(d2))
                && sub_some(mul_of(spot, cdf_of(d1)), mul_of(disc, cdf_of(d2))),
        }
    }

    /// Every decimal step of the gamma formula has a result.
    pub open spec fn gamma_some(self, spot: Dec, volatility: Dec) -> bool {
        let denominator = mul_of(mul_of(spot, volatility), sqrt_of(self.time_to_expiry));
        &&& self.d1_some(spot, volatility)
        &&& mul_some(spot, volatility)
        &&& sqrt_some(self.time_to_expiry)
        &&& mul_some(mul_of(spot, volatility), sqrt_of(self.time_to_expiry))
        &&& div_some(pdf_of(self.d1_spec(spot, volatility)), denominator)
    }

    /// Every decimal step of the vega formula has a result.
    pub open spec fn vega_some(self, spot: Dec, volatility: Dec) -> bool {
        let spot_pdf = mul_of(spot, pdf_of(self.d1_spec(spot, volatility)));
        &&& self.d1_some(spot, volatility)
        &&& mul_some(spot, pdf_of(self.d1_spec(spot, volatility)))
        &&& sqrt_some(self.time_to_expiry)
        &&& mul_some(spot_pdf, sqrt_of(self.time_to_expiry))
    }

    /// Every decimal step of the rho formula has a result.
    pub open spec fn rho_some(self, spot: Dec, volatility: Dec, rate: Dec) -> bool {
        let d2 = self.d2_spec(spot, volatility);
        let rate_t = mul_of(rate, self.time_to_expiry);
        let base = mul_of(mul_of(self.strike, self.time_to_expiry), exp_of(rate_t.neg_v()));
        &&& self.d1_some(spot, volatility)
        &&& self.spread_some(volatility)
        &&& sub_some(
            self.d1_spec(spot, volatility),
            mul_of(volatility, sqrt_of(self.time_to_expiry)),
        )
        &&& mul_some(self.strike, self.time_to_expiry)
        &&& mul_some(rate, self.time_to_expiry)
        &&& exp_some(rate_t.neg_v())
        &&& mul_some(mul_of(self.strike, self.time_to_expiry), exp_of(rate_t.neg_v()))
        &&& match self.kind {
            OptionKind::Put => mul_some(base, cdf_of(d2.neg_v())),
            OptionKind::Call => mul_some(base, cdf_of(d2)),
        }
    }

    /// Builds a contract from its fixed terms, rejecting a strike or a time
    /// to expiry that is not positive. The snapshot starts zeroed.
    pub fn new(kind: OptionKind, strike: Dec, time_to_expiry: Dec) -> (r: Result<
        OptionContract,
        InputError,
    >)
        requires
            strike.wf(),
            time_to_expiry.wf(),
        ensures
            r == Err::<OptionContract, InputError>(InputError::NonPositiveStrike) <==> strike.mantissa
                <= 0,
            r == Err::<OptionContract, InputError>(InputError::NonPositiveExpiry) <==> (
            strike.mantissa > 0 && time_to_expiry.mantissa <= 0),
            r matches Ok(c) ==> c == (OptionContract {
                kind,
                strike,
                time_to_expiry,
                snapshot: RiskSnapshot::zeroed(),
            }) && c.valid(),
            r is Ok <==> strike.mantissa > 0 && time_to_expiry.mantissa > 0,
    {
        if strike.mantissa <= 0 {
            Err(InputError::NonPositiveStrike)
        } else if time_to_expiry.mantissa <= 0 {
            Err(InputError::NonPositiveExpiry)
        } else {
            Ok(OptionContract {
                kind,
                strike,
                time_to_expiry,
                snapshot: RiskSnapshot {
                    price: Dec { mantissa: 0, scale: 0 },
                    delta: Dec { mantissa: 0, scale: 0 },
                    gamma: Dec { mantissa: 0, scale: 0 },
                    vega: Dec { mantissa: 0, scale: 0 },
                    rho: Dec { mantissa: 0, scale: 0 },
                },
            })
        }
    }

    /// Computes `d1`, or `None` when a decimal step has no result.
    fn d1_value(&self, spot: Dec, volatility: Dec) -> (r: Option<Dec>)
        requires
            self.valid(),
            spot.wf(),
            volatility.wf(),
        ensures
            r is Some <==> self.d1_some(spot, volatility),
            r matches Some(v) ==> v == self.d1_spec(spot, volatility) && v.wf(),
    {
        let ratio = match dec_div(spot, self.strike) {
            Some(v) => v,
            None => return None,
        };
        let log_ratio = match dec_ln(ratio) {
            Some(v) => v,
            None => return None,
        };
        let vol_sq = match dec_mul(volatility, volatility) {
            Some(v) => v,
            None => return None,
        };
        let half = Dec { mantissa: 5, scale: 1 };
        let half_vol_sq = match dec_mul(half, vol_sq) {
            Some(v) => v,
            None => return None,
        };
        let variance_term = match dec_mul(half_vol_sq, self.time_to_expiry) {
            Some(v) => v,
            None => return None,
        };
        let numerator = match dec_add(log_ratio, variance_term) {
            Some(v) => v,
            None => return None,
        };
        let root_t = match dec_sqrt(self.time_to_expiry) {
            Some(v) => v,
            None => return None,
        };
        let denominator = match dec_mul(volatility, root_t) {
            Some(v) => v,
            None => return None,
        };
        dec_div(numerator, denominator)
    }

    /// Computes `sigma*sqrt(T)`, the spread between `d1` and `d2`.
    fn vol_root_t(&self, volatility: Dec) -> (r: Option<Dec>)
        requires
            self.valid(),
            volatility.wf(),
        ensures
            r is Some <==> self.spread_some(volatility),
            r matches Some(v) ==> v == mul_of(volatility, sqrt_of(self.time_to_expiry))
                && v.wf(),
    {
        let root_t = match dec_sqrt(self.time_to_expiry) {
            Some(v) => v,
            None => return None,
        };
        dec_mul(volatility, root_t)
    }

    /// Computes the discounted strike `K*e^(-r*T)`.
    fn discount_value(&self, rate: Dec) -> (r: Option<Dec>)
        requires
            self.valid(),
            rate.wf(),
        ensures
            r is Some <==> self.discount_some(rate),
            r matches Some(v) ==> v == self.discount_spec(rate) && v.wf() && v.mantissa >= 0,
    {
        let rate_t = match dec_mul(rate, self.time_to_expiry) {
            Some(v) => v,
            None => return None,
        };
        let growth = match dec_exp(rate_t.neg()) {
            Some(v) => v,
            None => return None,
        };
        dec_mul(self.strike, growth)
    }

    /// The fair value of the contract at the given market state. A put's
    /// value never exceeds the discounted strike and a call's never exceeds
    /// the spot: the subtracted term is non-negative and a cumulative
    /// probability bounds the first factor.
    pub fn price(&self, spot: Dec, volatility: Dec, rate: Dec) -> (r: Result<Dec, PriceError>)
        requires
            self.valid(),
            spot.wf(),
            volatility.wf(),
            rate.wf(),
        ensures
            r is Ok <==> spot.mantissa > 0 && volatility.mantissa > 0 && self.price_some(
                spot,
                volatility,
                rate,
            ),
            r == Err::<Dec, PriceError>(PriceError::NonPositiveSpot) <==> spot.mantissa <= 0,
            r == Err::<Dec, PriceError>(PriceError::NonPositiveVolatility) <==> (spot.mantissa > 0
                && volatility.mantissa <= 0),
            r matches Ok(v) ==> v == self.price_spec(spot, volatility, rate) && v.wf()
                && spot.mantissa > 0 && volatility.mantissa > 0,
            self.kind == OptionKind::Put ==> (r matches Ok(v) ==> dec_le_v(
                v,
                self.discount_spec(rate),
            )),
            self.kind == OptionKind::Call ==> (r matches Ok(v) ==> dec_le_v(v, spot)),
    {
        if spot.mantissa <= 0 {
            return Err(PriceError::NonPositiveSpot);
        }
        if volatility.mantissa <= 0 {
            return Err(PriceError::NonPositiveVolatility);
        }
        let d1 = match self.d1_value(spot, volatility) {
            Some(v) => v,
            None => return Err(PriceError::Numeric),
        };
        let spread = match self.vol_root_t(volatility) {
            Some(v) => v,
            None => return Err(PriceError::Numeric),
        };
        let d2 = match dec_sub(d1, spread) {
            Some(v) => v,
            None => return Err(PriceError::Numeric),
        };
        let disc = match self.discount_value(rate) {
            Some(v) => v,
            None => return Err(PriceError::Numeric),
        };
        let (first, second) = match self.kind {
            OptionKind::Put => {
                let a = match dec_mul(disc, norm_cdf(d2.neg())) {
                    Some(v) => v,
                    None => return Err(PriceError::Numeric),
                };
                let b = match dec_mul(spot, norm_cdf(d1.neg())) {
                    Some(v) => v,
                    None => return Err(PriceError::Numeric),
                };
                (a, b)
            },
            OptionKind::Call => {
                let a = match dec_mul(spot, norm_cdf(d1)) {
                    Some(v) => v,
                    None => return Err(PriceError::Numeric),
                };
                let b = match dec_mul(disc, norm_cdf(d2)) {
                    Some(v) => v,
                    None => return Err(PriceError::Numeric),
                };
                (a, b)
            },
        };
        match dec_sub(first, second) {
            Some(v) => {
                proof {
                    match self.kind {
                        OptionKind::Put => lemma_dec_le_v_trans(v, first, disc),
                        OptionKind::Call => lemma_dec_le_v_trans(v, first, spot),
                    }
                }
                Ok(v)
            },
            None => Err(PriceError::Numeric),
        }
    }

    /// The sensitivity of the price to the spot. A put's delta lies in
    /// `[-1, 0]` and a call's in `[0, 1]`: a cumulative probability bounds
    /// it.
    pub fn delta(&self, spot: Dec, volatility: Dec) -> (r: Result<Dec, PriceError>)
        requires
            self.valid(),
            spot.wf(),
            volatility.wf(),
        ensures
            r is Ok <==> spot.mantissa > 0 && volatility.mantissa > 0 && self.d1_some(
                spot,
                volatility,
            ),
            r == Err::<Dec, PriceError>(PriceError::NonPositiveSpot) <==> spot.mantissa <= 0,
            r == Err::<Dec, PriceError>(PriceError::NonPositiveVolatility) <==> (spot.mantissa > 0
                && volatility.mantissa <= 0),
            r matches Ok(v) ==> v == self.delta_spec(spot, volatility) && v.wf(),
            self.kind == OptionKind::Put ==> (r matches Ok(v) ==> -pow10(v.scale as nat)
                <= v.mantissa <= 0),
            self.kind == OptionKind::Call ==> (r matches Ok(v) ==> 0 <= v.mantissa <= pow10(
                v.scale as nat,
            )),
    {
        if spot.mantissa <= 0 {
            return Err(PriceError::NonPositiveSpot);
        }
        if volatility.mantissa <= 0 {
            return Err(PriceError::NonPositiveVolatility);
        }
        let d1 = match self.d1_value(spot, volatility) {
            Some(v) => v,
            None => return Err(PriceError::Numeric),
        };
        match self.kind {
            OptionKind::Put => Ok(norm_cdf(d1.neg()).neg()),
            OptionKind::Call => Ok(norm_cdf(d1)),
        }
    }

    /// The second-order sensitivity of the price to the spot; shared by puts
    /// and calls, and never negative: a non-negative density over a positive
    /// denominator.
    pub fn gamma(&self, spot: Dec, volatility: Dec) -> (r: Result<Dec, PriceError>)
        requires
            self.valid(),
            spot.wf(),
            volatility.wf(),
        ensures
            r is Ok <==> spot.mantissa > 0 && volatility.mantissa > 0 && self.gamma_some(
                spot,
                volatility,
            ),
            r == Err::<Dec, PriceError>(PriceError::NonPositiveSpot) <==> spot.mantissa <= 0,
            r == Err::<Dec, PriceError>(PriceError::NonPositiveVolatility) <==> (spot.mantissa > 0
                && volatility.mantissa <= 0),
            r matches Ok(v) ==> v == self.gamma_spec(spot, volatility) && v.wf() && v.mantissa
                >= 0,
    {
        if spot.mantissa <= 0 {
            return Err(PriceError::NonPositiveSpot);
        }
        if volatility.mantissa <= 0 {
            return Err(PriceError::NonPositiveVolatility);
        }
        let d1 = match self.d1_value(spot, volatility) {
            Some(v) => v,
            None => return Err(PriceError::Numeric),
        };
        let spot_vol = match dec_mul(spot, volatility) {
            Some(v) => v,
            None => return Err(PriceError::Numeric),
        };
        let root_t = match dec_sqrt(self.time_to_expiry) {
            Some(v) => v,
            None => return Err(PriceError::Numeric),
        };
        let denominator = match dec_mul(spot_vol, root_t) {
            Some(v) => v,
            None => return Err(PriceError::Numeric),
        };
        match dec_div(norm_pdf(d1), denominator) {
            Some(v) => Ok(v),
            None => Err(PriceError::Numeric),
        }
    }

    /// The sensitivity of the price to the volatility; shared by puts and
    /// calls, never negative, and the derivative the implied-volatility
    /// solver divides by.
    pub fn vega(&self, spot: Dec, volatility: Dec) -> (r: Result<Dec, PriceError>)
        requires
            self.valid(),
            spot.wf(),
            volatility.wf(),
        ensures
            r is Ok <==> spot.mantissa > 0 && volatility.mantissa > 0 && self.vega_some(
                spot,
                volatility,
            ),
            r == Err::<Dec, PriceError>(PriceError::NonPositiveSpot) <==> spot.mantissa <= 0,
            r == Err::<Dec, PriceError>(PriceError::NonPositiveVolatility) <==> (spot.mantissa > 0
                && volatility.mantissa <= 0),
            r matches Ok(v) ==> v == self.vega_spec(spot, volatility) && v.wf() && v.mantissa
                >= 0,
    {
        if spot.mantissa <= 0 {
            return Err(PriceError::NonPositiveSpot);
        }
        if volatility.mantissa <= 0 {
            return Err(PriceError::NonPositiveVolatility);
        }
        let d1 = match self.d1_value(spot, volatility) {
            Some(v) => v,
            None => return Err(PriceError::Numeric),
        };
        let spot_pdf = match dec_mul(spot, norm_pdf(d1)) {
            Some(v) => v,
            None => return Err(PriceError::Numeric),
        };
        let root_t = match dec_sqrt(self.time_to_expiry) {
            Some(v) => v,
            None => return Err(PriceError::Numeric),
        };
        match dec_mul(spot_pdf, root_t) {
            Some(v) => Ok(v),
            None => Err(PriceError::Numeric),
        }
    }

    /// The sensitivity of the price to the risk-free rate: never positive
    /// for a put, never negative for a call.
    pub fn rho(&self, spot: Dec, volatility: Dec, rate: Dec) -> (r: Result<Dec, PriceError>)
        requires
            self.valid(),
            spot.wf(),
            volatility.wf(),
            rate.wf(),
        ensures
            r is Ok <==> spot.mantissa > 0 && volatility.mantissa > 0 && self.rho_some(
                spot,
                volatility,
                rate,
            ),
            r == Err::<Dec, PriceError>(PriceError::NonPositiveSpot) <==> spot.mantissa <= 0,
            r == Err::<Dec, PriceError>(PriceError::NonPositiveVolatility) <==> (spot.mantissa > 0
                && volatility.mantissa <= 0),
            r matches Ok(v) ==> v == self.rho_spec(spot, volatility, rate) && v.wf(),
            self.kind == OptionKind::Put ==> (r matches Ok(v) ==> v.mantissa <= 0),
            self.kind == OptionKind::Call ==> (r matches Ok(v) ==> v.mantissa >= 0),
    {
        if spot.mantissa <= 0 {
            return Err(PriceError::NonPositiveSpot);
        }
        if volatility.mantissa <= 0 {
            return Err(PriceError::NonPositiveVolatility);
        }
        let d1 = match self.d1_value(spot, volatility) {
            Some(v) => v,
            None => return Err(PriceError::Numeric),
        };
        let spread = match self.vol_root_t(volatility) {
            Some(v) => v,
            None => return Err(PriceError::Numeric),
        };
        let d2 = match dec_sub(d1, spread) {
            Some(v) => v,
            None => return Err(PriceError::Numeric),
        };
        let strike_t = match dec_mul(self.strike, self.time_to_expiry) {
            Some(v) => v,
            None => return Err(PriceError::Numeric),
        };
        let rate_t = match dec_mul(rate, self.time_to_expiry) {
            Some(v) => v,
            None => return Err(PriceError::Numeric),
        };
        let growth = match dec_exp(rate_t.neg()) {
            Some(v) => v,
            None => return Err(PriceError::Numeric),
        };
        let base = match dec_mul(strike_t, growth) {
            Some(v) => v,
            None => return Err(PriceError::Numeric),
        };
        match self.kind {
            OptionKind::Put => {
                match dec_mul(base, norm_cdf(d2.neg())) {
                    Some(v) => Ok(v.neg()),
                    None => Err(PriceError::Numeric),
                }
            },
            OptionKind::Call => {
                match dec_mul(base, norm_cdf(d2)) {
                    Some(v) => Ok(v),
                    None => Err(PriceError::Numeric),
                }
            },
        }
    }

    /// Recomputes price, delta, gamma, rho and vega at the given market
    /// state and overwrites the snapshot wholesale. On any error the
    /// contract, snapshot included, is left as it was: there is no partial
    /// update.
    pub fn price_and_risk(&mut self, spot: Dec, volatility: Dec, rate: Dec) -> (r: Result<
        (),
        PriceError,
    >)
        requires
            old(self).valid(),
            spot.wf(),
            volatility.wf(),
            rate.wf(),
        ensures
            final(self).valid(),
            final(self).kind == old(self).kind,
            final(self).strike == old(self).strike,
            final(self).time_to_expiry == old(self).time_to_expiry,
            r is Ok <==> spot.mantissa > 0 && volatility.mantissa > 0 && old(self).price_some(
                spot,
                volatility,
                rate,
            ) && old(self).d1_some(spot, volatility) && old(self).gamma_some(spot, volatility)
                && old(self).rho_some(spot, volatility, rate) && old(self).vega_some(
                spot,
                volatility,
            ),
            r == Err::<(), PriceError>(PriceError::NonPositiveSpot) <==> spot.mantissa <= 0,
            r == Err::<(), PriceError>(PriceError::NonPositiveVolatility) <==> (spot.mantissa > 0
                && volatility.mantissa <= 0),
            r is Err ==> *final(self) == *old(self),
            r is Ok ==> final(self).snapshot == (RiskSnapshot {
                price: old(self).price_spec(spot, volatility, rate),
                delta: old(self).delta_spec(spot, volatility),
                gamma: old(self).gamma_spec(spot, volatility),
                vega: old(self).vega_spec(spot, volatility),
                rho: old(self).rho_spec(spot, volatility, rate),
            }),
    {
        let price = match self.price(spot, volatility, rate) {
            Ok(v) => v,
            Err(e) => return Err(e),
        };
        let delta = match self.delta(spot, volatility) {
            Ok(v) => v,
            Err(e) => return Err(e),
        };
        let gamma = match self.gamma(spot, volatility) {
            Ok(v) => v,
            Err(e) => return Err(e),
        };
        let rho = match self.rho(spot, volatility, rate) {
            Ok(v) => v,
            Err(e) => return Err(e),
        };
        let vega = match self.vega(spot, volatility) {
            Ok(v) => v,
            Err(e) => return Err(e),
        };
        self.snapshot = RiskSnapshot { price, delta, gamma, vega, rho };
        Ok(())
    }

    /// The exact outcome of the capped Newton-Raphson iteration from the
    /// iterate `v`, with `residual` the difference the previous step
    /// computed and `i` steps already taken: the first iterate inside the
    /// cap that reprices the target within tolerance comes back as `Ok`;
    /// hitting the cap, an iterate the pricing formulas reject, or a
    /// decimal step without a result ends in the no-convergence outcome
    /// carrying the last iterate, residual and step count.
    pub open spec fn solve_rec(
        self,
        spot: Dec,
        target: Dec,
        rate: Dec,
        v: Dec,
        residual: Option<Dec>,
        i: u32,
    ) -> Result<Dec, SolveError>
        decreases MAX_ITERATIONS - i,
    {
        if i >= MAX_ITERATIONS {
            Err(SolveError::NoConvergence { last_vol: v, residual, iterations: i })
        } else if v.mantissa <= 0 || !self.price_some(spot, v, rate) {
            Err(SolveError::NoConvergence { last_vol: v, residual, iterations: i })
        } else if !sub_some(self.price_spec(spot, v, rate), target) {
            Err(SolveError::NoConvergence { last_vol: v, residual, iterations: i })
        } else {
            let diff = sub_of(self.price_spec(spot, v, rate), target);
            if dec_le_v(diff.abs_v(), solver_epsilon()) {
                Ok(v)
            } else if !self.vega_some(spot, v) {
                Err(SolveError::NoConvergence { last_vol: v, residual: Some(diff), iterations: i })
            } else if !div_some(diff, self.vega_spec(spot, v)) {
                Err(SolveError::NoConvergence { last_vol: v, residual: Some(diff), iterations: i })
            } else if !sub_some(v, div_of(diff, self.vega_spec(spot, v))) {
                Err(SolveError::NoConvergence { last_vol: v, residual: Some(diff), iterations: i })
            } else {
                self.solve_rec(
                    spot,
                    target,
                    rate,
                    sub_of(v, div_of(diff, self.vega_spec(spot, v))),
                    Some(diff),
                    (i + 1) as u32,
                )
            }
        }
    }

    /// Recovers the volatility at which this system prices the contract at
    /// the observed price, by Newton-Raphson from a fixed initial guess of
    /// `0.5`, with vega as the exact derivative. The iteration is capped at
    /// `MAX_ITERATIONS`; when the cap is hit, or an iterate leaves the
    /// domain the pricing formulas accept, the last iterate and residual
    /// come back in a `NoConvergence` outcome instead of looping on.
    pub fn implied_volatility(&self, spot: Dec, observed_price: Dec, rate: Dec) -> (r: Result<
        Dec,
        SolveError,
    >)
        requires
            self.valid(),
            spot.wf(),
            observed_price.wf(),
            rate.wf(),
        ensures
            spot.mantissa > 0 ==> r == self.solve_rec(
                spot,
                observed_price,
                rate,
                initial_guess(),
                None,
                0,
            ),
            r matches Err(e) && e is NonPositiveSpot <==> spot.mantissa <= 0,
            r matches Err(e) ==> (e matches SolveError::NoConvergence {
                last_vol,
                iterations,
                ..
            } ==> last_vol.wf() && iterations <= MAX_ITERATIONS),
            r matches Ok(v) ==> v.wf() && v.mantissa > 0 && self.converged(
                spot,
                observed_price,
                rate,
                v,
            ),
    {
        if spot.mantissa <= 0 {
            return Err(SolveError::NonPositiveSpot);
        }
        let epsilon = Dec { mantissa: 1, scale: 6 };
        let mut volatility = Dec { mantissa: 5, scale: 1 };
        let mut residual: Option<Dec> = None;
        let mut i: u32 = 0;
        while i < MAX_ITERATIONS
            invariant
                self.valid(),
                spot.wf(),
                spot.mantissa > 0,
                observed_price.wf(),
                rate.wf(),
                volatility.wf(),
                epsilon == solver_epsilon(),
                i <= MAX_ITERATIONS,
                self.solve_rec(spot, observed_price, rate, volatility, residual, i)
                    == self.solve_rec(spot, observed_price, rate, initial_guess(), None, 0),
            decreases MAX_ITERATIONS - i,
        {
            let price = match self.price(spot, volatility, rate) {
                Ok(v) => v,
                Err(_) => return Err(
                    SolveError::NoConvergence { last_vol: volatility, residual, iterations: i },
                ),
            };
            let diff = match dec_sub(price, observed_price) {
                Some(v) => v,
                None => return Err(
                    SolveError::NoConvergence { last_vol: volatility, residual, iterations: i },
                ),
            };
            if dec_le(diff.abs(), epsilon) {
                return Ok(volatility);
            }
            residual = Some(diff);
            let vega = match self.vega(spot, volatility) {
                Ok(v) => v,
                Err(_) => return Err(
                    SolveError::NoConvergence { last_vol: volatility, residual, iterations: i },
                ),
            };
            let step = match dec_div(diff, vega) {
                Some(v) => v,
                None => return Err(
                    SolveError::NoConvergence { last_vol: volatility, residual, iterations: i },
                ),
            };
            volatility = match dec_sub(volatility, step) {
                Some(v) => v,
                None => return Err(
                    SolveError::NoConvergence { last_vol: volatility, residual, iterations: i },
                ),
            };
            i += 1;
        }
        Err(SolveError::NoConvergence { last_vol: volatility, residual, iterations: i })
    }
}

/// Gamma and vega do not read the contract's kind: a put and a call sharing
/// strike, time to expiry, spot and volatility carry the same gamma term and
/// the same vega term.
pub proof fn lemma_gamma_vega_shared(
    put: OptionContract,
    call: OptionContract,
    spot: Dec,
    volatility: Dec,
)
    requires
        put.strike == call.strike,
        put.time_to_expiry == call.time_to_expiry,
    ensures
        put.gamma_spec(spot, volatility) == call.gamma_spec(spot, volatility),
        put.vega_spec(spot, volatility) == call.vega_spec(spot, volatility),
{
}

} // verus!
