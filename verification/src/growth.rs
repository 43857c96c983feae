//! Growth of veNEAR balances over time at a fixed rate per nanosecond.
use crate::fraction::Fraction;
use vstd::arithmetic::div_mod::*;
use vstd::arithmetic::mul::*;
use vstd::prelude::*;

verus! {

/// Nanoseconds in one second.
pub const NANOS_PER_SECOND: u64 = 1_000_000_000;

/// yoctoNEAR in one milliNEAR.
pub const YOCTO_PER_MILLINEAR: u128 = 1_000_000_000_000_000_000_000;

/// `timestamp` rounded down to a whole second.
pub open spec fn spec_truncate_to_seconds(timestamp: u64) -> int {
    (timestamp / NANOS_PER_SECOND) * NANOS_PER_SECOND
}

/// `balance` rounded down to a whole milliNEAR.
pub open spec fn spec_truncate_near_to_millis(balance: u128) -> int {
    (balance / YOCTO_PER_MILLINEAR) * YOCTO_PER_MILLINEAR
}

/// Rounds a timestamp in nanoseconds down to a whole second.
pub fn truncate_to_seconds(timestamp: u64) -> (r: u64)
    ensures
        r == spec_truncate_to_seconds(timestamp),
        r == (timestamp / 1_000_000_000) * 1_000_000_000,
        r <= timestamp,
        timestamp - r < NANOS_PER_SECOND,
{
    proof {
        lemma_fundamental_div_mod(timestamp as int, NANOS_PER_SECOND as int);
    }
    (timestamp / NANOS_PER_SECOND) * NANOS_PER_SECOND
}

/// Rounds a balance in yoctoNEAR down to a whole milliNEAR.
pub fn truncate_near_to_millis(balance: u128) -> (r: u128)
    ensures
        r == spec_truncate_near_to_millis(balance),
        r == (balance / 1_000_000_000_000_000_000_000u128) * 1_000_000_000_000_000_000_000u128,
        r <= balance,
        balance - r < YOCTO_PER_MILLINEAR,
{
    proof {
        lemma_fundamental_div_mod(balance as int, YOCTO_PER_MILLINEAR as int);
    }
    (balance / YOCTO_PER_MILLINEAR) * YOCTO_PER_MILLINEAR
}

/// The fixed annual growth rate of veNEAR tokens.
/// The growth rate can be changed in the future through the upgrade mechanism, by
/// introducing timepoints when the growth rate changes.
#[derive(Clone)]
pub struct VenearGrowthConfigFixedRate {
    /// The growth rate of veNEAR tokens per nanosecond. E.g. `6 / (100 * NUM_SEC_IN_YEAR * 10**9)`
    /// means 6% annual growth rate.
    /// The denominator has to be `10**30` to avoid precision issues.
    pub annual_growth_rate_ns: Fraction,
}

/// How veNEAR balances grow over time.
#[derive(Clone)]
pub enum VenearGrowthConfig {
    FixedRate(Box<VenearGrowthConfigFixedRate>),
}

impl From<VenearGrowthConfigFixedRate> for VenearGrowthConfig {
    fn from(config: VenearGrowthConfigFixedRate) -> (r: Self) {
        VenearGrowthConfig::FixedRate(Box::new(config))
    }
}

impl vstd::std_specs::convert::FromSpecImpl<VenearGrowthConfigFixedRate> for VenearGrowthConfig {
    open spec fn obeys_from_spec() -> bool {
        true
    }

    open spec fn from_spec(config: VenearGrowthConfigFixedRate) -> VenearGrowthConfig {
        VenearGrowthConfig::FixedRate(Box::new(config))
    }
}

impl VenearGrowthConfig {
    /// The growth rate per nanosecond.
    pub open spec fn rate(self) -> Fraction {
        match self {
            VenearGrowthConfig::FixedRate(config) => config.annual_growth_rate_ns,
        }
    }

    /// The growth between two second-aligned timestamps of a balance: the rate times
    /// the elapsed nanoseconds times the balance rounded down to a milliNEAR, itself
    /// rounded down to a yoctoNEAR.
    pub open spec fn spec_calculate(self, previous_timestamp: u64, current_timestamp: u64, balance: u128) -> int {
        if previous_timestamp == current_timestamp {
            0
        } else {
            self.rate().spec_u384_mul(
                current_timestamp - previous_timestamp,
                spec_truncate_near_to_millis(balance),
            )
        }
    }

    /// The inputs on which `calculate` is defined: increasing second-aligned
    /// timestamps, and for a non-empty period a rate with a positive denominator and
    /// a growth that fits in 128 bits.
    pub open spec fn calculate_accepts(self, previous_timestamp: u64, current_timestamp: u64, balance: u128) -> bool {
        &&& previous_timestamp <= current_timestamp
        &&& current_timestamp == spec_truncate_to_seconds(current_timestamp)
        &&& previous_timestamp == spec_truncate_to_seconds(previous_timestamp)
        &&& previous_timestamp < current_timestamp ==> {
            &&& self.rate().denominator > 0
            &&& self.spec_calculate(previous_timestamp, current_timestamp, balance) <= u128::MAX
        }
    }

    /// The veNEAR growth of `balance` between `previous_timestamp` and
    /// `current_timestamp`, both truncated to seconds.
    pub fn calculate(&self, previous_timestamp: u64, current_timestamp: u64, balance: u128) -> (r: u128)
        requires
            self.calculate_accepts(previous_timestamp, current_timestamp, balance),
        ensures
            r == self.spec_calculate(previous_timestamp, current_timestamp, balance),
            previous_timestamp == current_timestamp ==> r == 0,
            previous_timestamp < current_timestamp ==> match *self {
                VenearGrowthConfig::FixedRate(config) => r == config.annual_growth_rate_ns.numerator
                    * (current_timestamp - previous_timestamp) * ((balance / 1_000_000_000_000_000_000_000u128)
                    * 1_000_000_000_000_000_000_000u128) / (config.annual_growth_rate_ns.denominator as int),
            },
    {
        if previous_timestamp == current_timestamp {
            return 0;
        }
        let truncated_near_balance = truncate_near_to_millis(balance);
        match self {
            VenearGrowthConfig::FixedRate(config) => {
                let growth_period_ns = current_timestamp - previous_timestamp;
                config.annual_growth_rate_ns.u384_mul(growth_period_ns as u128, truncated_near_balance)
            },
        }
    }
}

/// A whole-second timestamp is left as it is by truncation, so truncating twice is
/// truncating once.
pub proof fn lemma_truncate_to_seconds_idempotent(timestamp: u64)
    ensures
        0 <= spec_truncate_to_seconds(timestamp) <= timestamp,
        spec_truncate_to_seconds(spec_truncate_to_seconds(timestamp) as u64)
            == spec_truncate_to_seconds(timestamp),
{
    let n = NANOS_PER_SECOND as int;
    let q = timestamp as int / n;
    lemma_fundamental_div_mod(timestamp as int, n);
    lemma_div_pos_is_pos(timestamp as int, n);
    lemma_mul_nonnegative(q, n);
    lemma_mod_pos_bound(timestamp as int, n);
    lemma_mul_is_commutative(q, n);
    lemma_div_multiples_vanish(q, n);
}

/// `x / d + y / d <= (x + y) / d <= x / d + y / d + 1` for non-negative `x`, `y`.
proof fn lemma_floor_sum(x: int, y: int, d: int)
    requires
        x >= 0,
        y >= 0,
        d > 0,
    ensures
        x / d + y / d <= (x + y) / d <= x / d + y / d + 1,
{
    lemma_fundamental_div_mod(x, d);
    lemma_fundamental_div_mod(y, d);
    lemma_mod_pos_bound(x, d);
    lemma_mod_pos_bound(y, d);
    let qx = x / d;
    let qy = y / d;
    let rx = x % d;
    let ry = y % d;
    lemma_mul_is_distributive_add(d, qx, qy);
    if rx + ry < d {
        lemma_mul_is_commutative(d, qx + qy);
        lemma_fundamental_div_mod_converse(x + y, d, qx + qy, rx + ry);
    } else {
        lemma_mul_is_distributive_add(d, qx + qy, 1);
        lemma_mul_is_commutative(d, qx + qy + 1);
        lemma_fundamental_div_mod_converse(x + y, d, qx + qy + 1, rx + ry - d);
    }
}

/// Rounding a balance down to a milliNEAR keeps the order of balances.
proof fn lemma_truncate_near_monotone(b1: u128, b2: u128)
    requires
        b1 <= b2,
    ensures
        0 <= spec_truncate_near_to_millis(b1) <= spec_truncate_near_to_millis(b2),
{
    let m = YOCTO_PER_MILLINEAR as int;
    lemma_div_is_ordered(b1 as int, b2 as int, m);
    lemma_div_pos_is_pos(b1 as int, m);
    lemma_mul_inequality(b1 as int / m, b2 as int / m, m);
    lemma_mul_nonnegative(b1 as int / m, m);
}

impl VenearGrowthConfig {
    /// No time elapsed, no growth.
    pub proof fn lemma_no_growth_without_time(self, timestamp: u64, balance: u128)
        ensures
            self.spec_calculate(timestamp, timestamp, balance) == 0,
    {
    }

    /// Over the same period a larger balance never grows by less.
    pub proof fn lemma_growth_monotone_in_balance(
        self,
        previous_timestamp: u64,
        current_timestamp: u64,
        smaller: u128,
        larger: u128,
    )
        requires
            previous_timestamp <= current_timestamp,
            smaller <= larger,
            self.rate().denominator > 0,
        ensures
            0 <= self.spec_calculate(previous_timestamp, current_timestamp, smaller)
                <= self.spec_calculate(previous_timestamp, current_timestamp, larger),
    {
        if previous_timestamp != current_timestamp {
            let n = self.rate().numerator as int;
            let d = self.rate().denominator as int;
            let t = current_timestamp - previous_timestamp;
            let s = spec_truncate_near_to_millis(smaller);
            let l = spec_truncate_near_to_millis(larger);
            lemma_truncate_near_monotone(smaller, larger);
            assert(0 <= n * t * s <= n * t * l) by (nonlinear_arith)
                requires
                    0 <= s <= l,
                    n >= 0,
                    t >= 0,
            ;
            lemma_div_is_ordered(n * t * s, n * t * l, d);
            lemma_div_pos_is_pos(n * t * s, d);
        }
    }

    /// From the same start, a longer period never yields less growth.
    pub proof fn lemma_growth_monotone_in_time(
        self,
        previous_timestamp: u64,
        earlier: u64,
        later: u64,
        balance: u128,
    )
        requires
            previous_timestamp <= earlier <= later,
            self.rate().denominator > 0,
        ensures
            0 <= self.spec_calculate(previous_timestamp, earlier, balance)
                <= self.spec_calculate(previous_timestamp, later, balance),
    {
        let n = self.rate().numerator as int;
        let d = self.rate().denominator as int;
        let b = spec_truncate_near_to_millis(balance);
        lemma_truncate_near_monotone(0, balance);
        assert(0 <= n * (earlier - previous_timestamp) * b <= n * (later - previous_timestamp) * b)
            by (nonlinear_arith)
            requires
                b >= 0,
                n >= 0,
                previous_timestamp <= earlier <= later,
        ;
        lemma_div_is_ordered(n * (earlier - previous_timestamp) * b, n * (later - previous_timestamp) * b, d);
        lemma_div_pos_is_pos(n * (earlier - previous_timestamp) * b, d);
        lemma_div_pos_is_pos(n * (later - previous_timestamp) * b, d);
    }

    /// Accruing growth over a period in two steps never gives more than accruing it
    /// at once, and at most one yoctoNEAR less.
    pub proof fn lemma_growth_split(self, t0: u64, t1: u64, t2: u64, balance: u128)
        requires
            t0 <= t1 <= t2,
            self.rate().denominator > 0,
        ensures
            self.spec_calculate(t0, t1, balance) + self.spec_calculate(t1, t2, balance)
                <= self.spec_calculate(t0, t2, balance),
            self.spec_calculate(t0, t2, balance)
                <= self.spec_calculate(t0, t1, balance) + self.spec_calculate(t1, t2, balance) + 1,
    {
        let n = self.rate().numerator as int;
        let d = self.rate().denominator as int;
        let b = spec_truncate_near_to_millis(balance);
        lemma_truncate_near_monotone(0, balance);
        let x = n * (t1 - t0) * b;
        let y = n * (t2 - t1) * b;
        assert(x >= 0 && y >= 0 && x + y == n * (t2 - t0) * b) by (nonlinear_arith)
            requires
                b >= 0,
                n >= 0,
                t0 <= t1 <= t2,
                x == n * (t1 - t0) * b,
                y == n * (t2 - t1) * b,
        ;
        lemma_floor_sum(x, y, d);
        lemma_basic_div(0, d);
    }
}

impl VenearGrowthConfig {
    /// The growth over a non-empty period is the rate's numerator times the elapsed
    /// nanoseconds times the balance rounded down to a whole milliNEAR, divided by the
    /// rate's denominator and rounded down, all in unbounded integers; so it is positive
    /// exactly where that quotient is, whatever the size of the balance.
    pub proof fn lemma_growth_formula(self, previous_timestamp: u64, current_timestamp: u64, balance: u128)
        requires
            previous_timestamp < current_timestamp,
        ensures
            match self {
                VenearGrowthConfig::FixedRate(config) => self.spec_calculate(
                    previous_timestamp,
                    current_timestamp,
                    balance,
                ) == config.annual_growth_rate_ns.numerator * (current_timestamp - previous_timestamp) * ((
                balance / 1_000_000_000_000_000_000_000u128) * 1_000_000_000_000_000_000_000u128)
                    / (config.annual_growth_rate_ns.denominator as int),
            },
    {
    }

    /// With no time elapsed there is no growth, and the growth never depends on the part
    /// of the balance below a milliNEAR: balances with the same whole milliNEARs grow
    /// alike.
    pub proof fn lemma_growth_ignores_sub_millinear(
        self,
        previous_timestamp: u64,
        current_timestamp: u64,
        b1: u128,
        b2: u128,
    )
        requires
            b1 / 1_000_000_000_000_000_000_000u128 == b2 / 1_000_000_000_000_000_000_000u128,
        ensures
            self.spec_calculate(previous_timestamp, previous_timestamp, b1) == 0,
            self.spec_calculate(previous_timestamp, current_timestamp, b1)
                == self.spec_calculate(previous_timestamp, current_timestamp, b2),
    {
    }
}

} // verus!
