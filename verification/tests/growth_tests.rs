use venear::fraction::Fraction;
use venear::growth::{
    truncate_near_to_millis, truncate_to_seconds, VenearGrowthConfig, VenearGrowthConfigFixedRate,
};

const NEAR: u128 = 1_000_000_000_000_000_000_000_000;
const YEAR_NS: u128 = 365 * 24 * 60 * 60 * 1_000_000_000;

fn six_percent() -> VenearGrowthConfig {
    VenearGrowthConfigFixedRate {
        annual_growth_rate_ns: Fraction { numerator: 6, denominator: 100 * YEAR_NS },
    }
    .into()
}

#[test]
fn u384_mul_small_values() {
    let f = Fraction { numerator: 6, denominator: 100 };
    assert_eq!(f.u384_mul(50, 7), 21);
    assert_eq!(f.u384_mul(1, 1), 0);
    assert_eq!(f.u384_mul(0, 12345), 0);
    assert_eq!(f.u384_mul(12345, 0), 0);
}

#[test]
fn u384_mul_rounds_down() {
    let f = Fraction { numerator: 1, denominator: 3 };
    assert_eq!(f.u384_mul(10, 1), 3);
    assert_eq!(f.u384_mul(2, 1), 0);
    assert_eq!(f.u384_mul(3, 3), 3);
}

#[test]
fn u384_mul_wide_intermediate() {
    // The product 2^240 does not fit in 128 bits, the result 2^120 does.
    let f = Fraction { numerator: 1 << 80, denominator: 1 << 120 };
    assert_eq!(f.u384_mul(1 << 80, 1 << 80), 1 << 120);
    let g = Fraction { numerator: u128::MAX, denominator: u128::MAX };
    assert_eq!(g.u384_mul(u128::MAX, 1), u128::MAX);
    assert_eq!(g.u384_mul(u128::MAX - 5, 1), u128::MAX - 5);
    let h = Fraction { numerator: u128::MAX, denominator: u128::MAX - 1 };
    // (2^128 - 1) * (2^127 - 1) / (2^128 - 2) rounds down to 2^127 - 1.
    assert_eq!(h.u384_mul(u128::MAX / 2, 1), u128::MAX / 2);
}

#[test]
fn u384_mul_matches_narrow_arithmetic() {
    let cases: [(u128, u128, u128, u128); 6] = [
        (7, 11, 13, 5),
        (1_000_000_007, 998_244_353, 12_345_678, 97),
        (u64::MAX as u128, u64::MAX as u128, 1, 3),
        (123, 456, 789, 1),
        (99, 1, 1, 100),
        (1 << 40, 1 << 40, 1 << 40, 1 << 60),
    ];
    for (n, a, b, d) in cases {
        let f = Fraction { numerator: n, denominator: d };
        assert_eq!(f.u384_mul(a, b), n * a * b / d);
    }
}

#[test]
fn truncations() {
    assert_eq!(truncate_to_seconds(1_999_999_999), 1_000_000_000);
    assert_eq!(truncate_to_seconds(2_000_000_000), 2_000_000_000);
    assert_eq!(truncate_to_seconds(999), 0);
    assert_eq!(truncate_near_to_millis(NEAR + 123), NEAR);
    assert_eq!(truncate_near_to_millis(1_500_000_000_000_000_000_000), 1_000_000_000_000_000_000_000);
    assert_eq!(truncate_near_to_millis(999_999_999_999_999_999_999), 0);
}

#[test]
fn calculate_one_year_at_six_percent() {
    let config = six_percent();
    let start: u64 = 1_700_000_000_000_000_000;
    let end = start + YEAR_NS as u64;
    assert_eq!(config.calculate(start, end, 1000 * NEAR), 60 * NEAR);
}

#[test]
fn calculate_without_time_is_zero() {
    let config = six_percent();
    let t: u64 = 1_700_000_000_000_000_000;
    assert_eq!(config.calculate(t, t, 1000 * NEAR), 0);
}

#[test]
fn calculate_ignores_sub_millinear_balance() {
    let config = six_percent();
    let start: u64 = 1_700_000_000_000_000_000;
    let end = start + YEAR_NS as u64;
    let with_dust = config.calculate(start, end, 1000 * NEAR + 999_999_999_999_999_999_999);
    assert_eq!(with_dust, 60 * NEAR);
    // Less than a milliNEAR does not grow at all.
    assert_eq!(config.calculate(start, end, 999_999_999_999_999_999_999), 0);
}

#[test]
fn calculate_split_period_loses_at_most_one_yocto() {
    let config = six_percent();
    let t0: u64 = 1_700_000_000_000_000_000;
    let t1 = t0 + 1_000_000_000;
    let t2 = t1 + 7_000_000_000;
    let balance = 123 * NEAR + 456_000_000_000_000_000_000;
    let whole = config.calculate(t0, t2, balance);
    let parts = config.calculate(t0, t1, balance) + config.calculate(t1, t2, balance);
    assert!(parts <= whole && whole <= parts + 1);
}

#[test]
fn calculate_is_monotone() {
    let config = six_percent();
    let t0: u64 = 1_700_000_000_000_000_000;
    let t1 = t0 + 3_000_000_000;
    let t2 = t1 + 3_000_000_000;
    assert!(config.calculate(t0, t1, 5 * NEAR) <= config.calculate(t0, t2, 5 * NEAR));
    assert!(config.calculate(t0, t1, 5 * NEAR) <= config.calculate(t0, t1, 6 * NEAR));
}
