use option_pricing::engine::{OptionContract, OptionKind, SolveError};
use option_pricing::num::Dec;

fn dec(mantissa: i64, scale: u32) -> Dec {
    Dec::new(mantissa, scale)
}

fn to_f(d: Dec) -> f64 {
    (d.mantissa as f64) / 10f64.powi(d.scale as i32)
}

fn sample(kind: OptionKind) -> OptionContract {
    OptionContract::new(kind, dec(105, 0), dec(1, 0)).unwrap()
}

#[test]
fn straddle_scenario_converges_for_both_legs() {
    let spot = dec(100, 0);
    let rate = dec(5, 2);
    let straddle_price = dec(20, 0);

    for kind in [OptionKind::Put, OptionKind::Call] {
        let mut contract = sample(kind);
        let vol = contract.implied_volatility(spot, straddle_price, rate).unwrap();
        let v = to_f(vol);
        assert!(v > 0.0 && v < 5.0);

        contract.price_and_risk(spot, vol, rate).unwrap();
        let s = contract.snapshot;
        assert!((to_f(s.price) - 20.0).abs() <= 2e-6);
        for field in [s.price, s.delta, s.gamma, s.vega, s.rho] {
            assert!(to_f(field).is_finite());
        }
    }
}

#[test]
fn implied_volatility_recovers_the_priced_volatility() {
    let spot = dec(100, 0);
    let rate = dec(5, 2);
    let sigmas = [dec(1, 1), dec(3, 1), dec(1, 0)];

    for kind in [OptionKind::Put, OptionKind::Call] {
        let contract = sample(kind);
        for sigma in sigmas {
            let price = contract.price(spot, sigma, rate).unwrap();
            let recovered = contract.implied_volatility(spot, price, rate).unwrap();
            assert!((to_f(recovered) - to_f(sigma)).abs() <= 1e-6);
        }
    }
}

#[test]
fn solver_is_deterministic_and_keeps_a_repricing_guess() {
    let spot = dec(100, 0);
    let rate = dec(5, 2);
    let put = sample(OptionKind::Put);

    let first = put.implied_volatility(spot, dec(20, 0), rate).unwrap();
    let second = put.implied_volatility(spot, dec(20, 0), rate).unwrap();
    assert_eq!(first.mantissa, second.mantissa);
    assert_eq!(first.scale, second.scale);

    let at_guess = put.price(spot, dec(5, 1), rate).unwrap();
    let recovered = put.implied_volatility(spot, at_guess, rate).unwrap();
    assert_eq!(recovered.mantissa as i64, 5);
    assert_eq!(recovered.scale, 1);
}

#[test]
fn negative_target_price_reports_no_convergence() {
    let put = sample(OptionKind::Put);
    let outcome = put.implied_volatility(dec(100, 0), dec(-5, 0), dec(5, 2));
    assert!(matches!(outcome, Err(SolveError::NoConvergence { .. })));
}

#[test]
fn target_above_spot_reports_no_convergence() {
    let spot = dec(100, 0);
    let rate = dec(5, 2);
    let unreachable_price = dec(150, 0);
    for kind in [OptionKind::Put, OptionKind::Call] {
        let outcome = sample(kind).implied_volatility(spot, unreachable_price, rate);
        match outcome {
            Err(SolveError::NoConvergence { iterations, .. }) => {
                assert!(iterations <= 100);
            }
            _ => panic!("expected a no-convergence outcome"),
        }
    }
}

#[test]
fn solver_rejects_non_positive_spot() {
    let put = sample(OptionKind::Put);
    let outcome = put.implied_volatility(dec(0, 0), dec(20, 0), dec(5, 2));
    assert!(matches!(outcome, Err(SolveError::NonPositiveSpot)));
}
