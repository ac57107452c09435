use option_pricing::engine::{InputError, OptionContract, OptionKind, PriceError, RiskSnapshot};
use option_pricing::num::Dec;
use statrs::distribution::{Continuous, ContinuousCDF, Normal};

fn dec(mantissa: i64, scale: u32) -> Dec {
    Dec::new(mantissa, scale)
}

fn to_f(d: Dec) -> f64 {
    (d.mantissa as f64) / 10f64.powi(d.scale as i32)
}

fn phi(x: f64) -> f64 {
    Normal::standard().cdf(x)
}

fn pdf(x: f64) -> f64 {
    Normal::standard().pdf(x)
}

/// This system's own d1: (ln(S/K) + 0.5*sigma^2*T) / (sigma*sqrt(T)).
/// The numerator carries no rate-drift term.
fn d1_ref(s: f64, k: f64, t: f64, sigma: f64) -> f64 {
    ((s / k).ln() + 0.5 * sigma * sigma * t) / (sigma * t.sqrt())
}

fn d2_ref(s: f64, k: f64, t: f64, sigma: f64) -> f64 {
    d1_ref(s, k, t, sigma) - sigma * t.sqrt()
}

fn put_price_ref(s: f64, k: f64, t: f64, sigma: f64, r: f64) -> f64 {
    k * (-r * t).exp() * phi(-d2_ref(s, k, t, sigma)) - s * phi(-d1_ref(s, k, t, sigma))
}

fn call_price_ref(s: f64, k: f64, t: f64, sigma: f64, r: f64) -> f64 {
    s * phi(d1_ref(s, k, t, sigma)) - k * (-r * t).exp() * phi(d2_ref(s, k, t, sigma))
}

fn sample_put() -> OptionContract {
    OptionContract::new(OptionKind::Put, dec(105, 0), dec(1, 0)).unwrap()
}

fn sample_call() -> OptionContract {
    OptionContract::new(OptionKind::Call, dec(105, 0), dec(1, 0)).unwrap()
}

#[test]
fn put_price_matches_formula() {
    let put = sample_put();
    let price = put.price(dec(100, 0), dec(5, 1), dec(5, 2)).unwrap();
    let expected = put_price_ref(100.0, 105.0, 1.0, 0.5, 0.05);
    assert!((to_f(price) - expected).abs() < 1e-7);
}

#[test]
fn call_price_matches_formula() {
    let call = sample_call();
    let price = call.price(dec(100, 0), dec(5, 1), dec(5, 2)).unwrap();
    let expected = call_price_ref(100.0, 105.0, 1.0, 0.5, 0.05);
    assert!((to_f(price) - expected).abs() < 1e-7);
}

#[test]
fn delta_matches_formula() {
    let put = sample_put();
    let call = sample_call();
    let put_delta = put.delta(dec(100, 0), dec(5, 1)).unwrap();
    let call_delta = call.delta(dec(100, 0), dec(5, 1)).unwrap();
    let d1 = d1_ref(100.0, 105.0, 1.0, 0.5);
    assert!((to_f(put_delta) - (-phi(-d1))).abs() < 1e-9);
    assert!((to_f(call_delta) - phi(d1)).abs() < 1e-9);
}

#[test]
fn delta_is_bounded() {
    let cases = [
        (dec(100, 0), dec(5, 1)),
        (dec(100, 0), dec(1, 2)),
        (dec(1, 0), dec(3, 0)),
        (dec(100000, 0), dec(9, 1)),
    ];
    for (spot, vol) in cases {
        let put_delta = sample_put().delta(spot, vol).unwrap();
        let call_delta = sample_call().delta(spot, vol).unwrap();
        let p = to_f(put_delta);
        let c = to_f(call_delta);
        assert!(-1.0 <= p && p <= 0.0);
        assert!(0.0 <= c && c <= 1.0);
    }
}

#[test]
fn gamma_and_vega_match_formula() {
    let put = sample_put();
    let gamma = put.gamma(dec(100, 0), dec(5, 1)).unwrap();
    let vega = put.vega(dec(100, 0), dec(5, 1)).unwrap();
    let d1 = d1_ref(100.0, 105.0, 1.0, 0.5);
    assert!((to_f(gamma) - pdf(d1) / (100.0 * 0.5)).abs() < 1e-9);
    assert!((to_f(vega) - 100.0 * pdf(d1)).abs() < 1e-7);
}

#[test]
fn gamma_and_vega_shared_by_put_and_call() {
    let cases = [
        (dec(100, 0), dec(5, 1)),
        (dec(80, 0), dec(25, 2)),
        (dec(130, 0), dec(12, 1)),
    ];
    for (spot, vol) in cases {
        let put_gamma = sample_put().gamma(spot, vol).unwrap();
        let call_gamma = sample_call().gamma(spot, vol).unwrap();
        let put_vega = sample_put().vega(spot, vol).unwrap();
        let call_vega = sample_call().vega(spot, vol).unwrap();
        assert_eq!(put_gamma.mantissa, call_gamma.mantissa);
        assert_eq!(put_gamma.scale, call_gamma.scale);
        assert_eq!(put_vega.mantissa, call_vega.mantissa);
        assert_eq!(put_vega.scale, call_vega.scale);
    }
}

#[test]
fn rho_matches_formula() {
    let put = sample_put();
    let call = sample_call();
    let put_rho = put.rho(dec(100, 0), dec(5, 1), dec(5, 2)).unwrap();
    let call_rho = call.rho(dec(100, 0), dec(5, 1), dec(5, 2)).unwrap();
    let d2 = d2_ref(100.0, 105.0, 1.0, 0.5);
    let disc = 105.0 * (-0.05f64).exp();
    assert!((to_f(put_rho) - (-disc * phi(-d2))).abs() < 1e-7);
    assert!((to_f(call_rho) - disc * phi(d2)).abs() < 1e-7);
}

#[test]
fn prices_stay_inside_their_bounds() {
    let cases = [
        (dec(100, 0), dec(5, 1), dec(5, 2)),
        (dec(20, 0), dec(15, 1), dec(1, 1)),
        (dec(500, 0), dec(3, 2), dec(0, 0)),
    ];
    for (spot, vol, rate) in cases {
        let put_price = sample_put().price(spot, vol, rate).unwrap();
        let call_price = sample_call().price(spot, vol, rate).unwrap();
        let discounted_strike = 105.0 * (-to_f(rate)).exp();
        assert!(to_f(put_price) <= discounted_strike);
        assert!(to_f(call_price) <= to_f(spot));
    }
}

#[test]
fn greeks_carry_their_signs() {
    let cases = [(dec(100, 0), dec(5, 1)), (dec(70, 0), dec(11, 1))];
    let rate = dec(5, 2);
    for (spot, vol) in cases {
        assert!(to_f(sample_put().gamma(spot, vol).unwrap()) >= 0.0);
        assert!(to_f(sample_put().vega(spot, vol).unwrap()) >= 0.0);
        assert!(to_f(sample_put().rho(spot, vol, rate).unwrap()) <= 0.0);
        assert!(to_f(sample_call().rho(spot, vol, rate).unwrap()) >= 0.0);
    }
}

#[test]
fn put_call_parity() {
    let cases = [
        (dec(100, 0), dec(5, 1), dec(5, 2)),
        (dec(90, 0), dec(2, 1), dec(1, 2)),
        (dec(120, 0), dec(8, 1), dec(0, 0)),
    ];
    for (spot, vol, rate) in cases {
        let put_price = sample_put().price(spot, vol, rate).unwrap();
        let call_price = sample_call().price(spot, vol, rate).unwrap();
        let discounted_strike = 105.0 * (-to_f(rate)).exp();
        let lhs = to_f(put_price) + to_f(spot);
        let rhs = to_f(call_price) + discounted_strike;
        assert!((lhs - rhs).abs() < 1e-9);
    }
}

#[test]
fn price_approaches_intrinsic_value_near_expiry() {
    let near = dec(1, 3);
    let put = OptionContract::new(OptionKind::Put, dec(105, 0), near).unwrap();
    let call = OptionContract::new(OptionKind::Call, dec(105, 0), near).unwrap();
    let below = put.price(dec(100, 0), dec(2, 1), dec(5, 2)).unwrap();
    assert!((to_f(below) - 5.0).abs() < 0.01);
    let call_below = call.price(dec(100, 0), dec(2, 1), dec(5, 2)).unwrap();
    assert!(to_f(call_below).abs() < 0.01);
    let above = put.price(dec(110, 0), dec(2, 1), dec(5, 2)).unwrap();
    assert!(to_f(above).abs() < 0.01);
    let call_above = call.price(dec(110, 0), dec(2, 1), dec(5, 2)).unwrap();
    assert!((to_f(call_above) - 5.0).abs() < 0.01);
}

#[test]
fn constructor_rejects_bad_terms() {
    assert!(matches!(
        OptionContract::new(OptionKind::Put, dec(0, 0), dec(1, 0)),
        Err(InputError::NonPositiveStrike)
    ));
    assert!(matches!(
        OptionContract::new(OptionKind::Call, dec(-5, 0), dec(1, 0)),
        Err(InputError::NonPositiveStrike)
    ));
    assert!(matches!(
        OptionContract::new(OptionKind::Put, dec(105, 0), dec(0, 0)),
        Err(InputError::NonPositiveExpiry)
    ));
    assert!(matches!(
        OptionContract::new(OptionKind::Call, dec(105, 0), dec(-1, 0)),
        Err(InputError::NonPositiveExpiry)
    ));
}

#[test]
fn price_rejects_bad_market_inputs() {
    let put = sample_put();
    assert!(matches!(
        put.price(dec(-1, 0), dec(5, 1), dec(5, 2)),
        Err(PriceError::NonPositiveSpot)
    ));
    assert!(matches!(
        put.price(dec(100, 0), dec(0, 0), dec(5, 2)),
        Err(PriceError::NonPositiveVolatility)
    ));
    assert!(matches!(
        put.delta(dec(0, 0), dec(5, 1)),
        Err(PriceError::NonPositiveSpot)
    ));
    assert!(matches!(
        put.vega(dec(100, 0), dec(-3, 1)),
        Err(PriceError::NonPositiveVolatility)
    ));
}

#[test]
fn numeric_failure_is_reported() {
    let put = sample_put();
    let deep_discount_rate = dec(-100, 0);
    assert!(matches!(
        put.price(dec(100, 0), dec(5, 1), deep_discount_rate),
        Err(PriceError::Numeric)
    ));
}

#[test]
fn snapshot_starts_zeroed_and_is_overwritten_wholesale() {
    let mut put = sample_put();
    assert_eq!(put.snapshot.price, dec(0, 0));
    assert_eq!(put.snapshot.delta, dec(0, 0));
    assert_eq!(put.snapshot.gamma, dec(0, 0));
    assert_eq!(put.snapshot.vega, dec(0, 0));
    assert_eq!(put.snapshot.rho, dec(0, 0));

    put.price_and_risk(dec(100, 0), dec(5, 1), dec(5, 2)).unwrap();
    let first: RiskSnapshot = put.snapshot;
    assert_eq!(first.price, put.price(dec(100, 0), dec(5, 1), dec(5, 2)).unwrap());
    assert_eq!(first.delta, put.delta(dec(100, 0), dec(5, 1)).unwrap());
    assert_eq!(first.gamma, put.gamma(dec(100, 0), dec(5, 1)).unwrap());
    assert_eq!(first.vega, put.vega(dec(100, 0), dec(5, 1)).unwrap());
    assert_eq!(first.rho, put.rho(dec(100, 0), dec(5, 1), dec(5, 2)).unwrap());

    put.price_and_risk(dec(100, 0), dec(5, 1), dec(5, 2)).unwrap();
    assert_eq!(put.snapshot, first);

    let failed = put.price_and_risk(dec(-1, 0), dec(5, 1), dec(5, 2));
    assert!(matches!(failed, Err(PriceError::NonPositiveSpot)));
    assert_eq!(put.snapshot, first);
}
