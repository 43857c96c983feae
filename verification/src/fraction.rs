//! Exact `numerator * a * b / denominator` on 128-bit operands, with a 384-bit
//! intermediate product, computed with 128-bit words only.
use vstd::arithmetic::div_mod::*;
use vstd::arithmetic::mul::*;
use vstd::arithmetic::power2::*;
use vstd::bits::*;
use vstd::prelude::*;

verus! {

/// A non-negative rational number `numerator / denominator`.
#[derive(Clone, Copy, Debug, PartialEq, Eq)]
pub struct Fraction {
    pub numerator: u128,
    pub denominator: u128,
}

/// `x + y` split into a carry and a remainder modulo `d`, for `x, y < d`.
fn add_mod(x: u128, y: u128, d: u128) -> (res: (u128, u128))
    requires
        x < d,
        y < d,
    ensures
        res.0 <= 1,
        res.1 < d,
        x + y == res.0 * d + res.1,
{
    if x >= d - y {
        (1, x - (d - y))
    } else {
        (0, x + y)
    }
}

/// One doubling step of the quotient/remainder pair: from `q * d + r == p * x`
/// and the two carries to `(2 * q + bit * q0 + c1 + c2) * d + s2 == (2 * p + bit) * x`.
proof fn lemma_double_step(
    q: int, r: int, p: int, x: int, q0: int, r0: int, d: int,
    c1: int, s1: int, c2: int, s2: int, bit: int,
)
    by (nonlinear_arith)
    requires
        q * d + r == p * x,
        x == q0 * d + r0,
        r + r == c1 * d + s1,
        s1 + bit * r0 == c2 * d + s2,
    ensures
        (2 * q + bit * q0 + c1 + c2) * d + s2 == (2 * p + bit) * x,
{
}

/// A quotient of a part of `a * x` by `d` is bounded by the quotient of the whole.
proof fn lemma_quotient_bound(q: int, s: int, d: int, p: int, a: int, x: int)
    requires
        d > 0,
        s >= 0,
        x >= 0,
        0 <= p <= a,
        q * d + s == p * x,
        a * x / d <= u128::MAX,
    ensures
        q <= u128::MAX,
{
    lemma_mul_inequality(p, a, x);
    lemma_fundamental_div_mod(a * x, d);
    lemma_mod_pos_bound(a * x, d);
    let m: int = a * x / d;
    assert(q * d < (u128::MAX + 1) * d) by (nonlinear_arith)
        requires
            q * d + s == p * x,
            s >= 0,
            p * x <= a * x,
            a * x == d * m + (a * x) % d,
            (a * x) % d < d,
            m <= u128::MAX,
    ;
    lemma_mul_strict_inequality_converse(q, u128::MAX + 1, d);
}

/// The binary digits of `a`, read from the top: the value of the digits above
/// position `k` doubles and takes digit `k` in.
proof fn lemma_digit_step(a: u128, k: u128)
    requires
        k < 128,
    ensures
        (a >> k) & 1 <= 1,
        a as int / (pow2(k as nat) as int) == 2 * (a as int / (pow2((k + 1) as nat) as int)) + ((a >> k) & 1),
{
    lemma_u128_shr_is_div(a, k);
    let y: u128 = a >> k;
    assert(y & 1 == y % 2 && y & 1 <= 1) by (bit_vector);
    lemma_pow2_unfold((k + 1) as nat);
    lemma_pow2_pos(k as nat);
    lemma_div_denominator(a as int, pow2(k as nat) as int, 2);
    lemma_fundamental_div_mod(y as int, 2);
}

/// No digit of a 128-bit value lies at position 128 or above.
proof fn lemma_digits_start(a: u128)
    ensures
        a as int / (pow2(128) as int) == 0,
        a as int / (pow2(0) as int) == a,
{
    lemma2_to64();
    lemma_pow2_adds(64, 64);
    lemma_basic_div(a as int, pow2(128) as int);
}

/// `a * (q0 * d + r0)` as a quotient and a remainder modulo `d`, by binary
/// long multiplication over the digits of `a` with the remainder kept below `d`.
fn mul_quot_rem(a: u128, q0: u128, r0: u128, d: u128) -> (res: (u128, u128))
    requires
        d > 0,
        r0 < d,
        a * (q0 * d + r0) / (d as int) <= u128::MAX,
    ensures
        res.1 < d,
        res.0 * d + res.1 == a * (q0 * d + r0),
{
    let ghost x: int = q0 * d + r0;
    let mut q: u128 = 0;
    let mut r: u128 = 0;
    let mut k: u128 = 128;
    proof {
        lemma_digits_start(a);
    }
    while k > 0
        invariant
            k <= 128,
            d > 0,
            r0 < d,
            r < d,
            x == q0 * d + r0,
            x >= 0,
            a * x / (d as int) <= u128::MAX,
            q * d + r == (a as int / (pow2(k as nat) as int)) * x,
        decreases k,
    {
        k = k - 1;
        let bit: u128 = (a >> k) & 1;
        let ghost p: int = a as int / (pow2((k + 1) as nat) as int);
        let ghost p2: int = a as int / (pow2(k as nat) as int);
        proof {
            lemma_digit_step(a, k);
            lemma_pow2_pos(k as nat);
            lemma_div_is_ordered_by_denominator(a as int, 1, pow2(k as nat) as int);
            lemma_div_pos_is_pos(a as int, pow2(k as nat) as int);
        }
        let (c1, s1) = add_mod(r, r, d);
        let (c2, s2) = if bit == 1 {
            add_mod(s1, r0, d)
        } else {
            (0, s1)
        };
        let extra: u128 = if bit == 1 {
            q0
        } else {
            0
        };
        proof {
            lemma_double_step(
                q as int, r as int, p, x, q0 as int, r0 as int, d as int,
                c1 as int, s1 as int, c2 as int, s2 as int, bit as int,
            );
            assert(2 * p + bit == p2);
            assert(extra == bit * q0);
            lemma_quotient_bound(2 * q + extra + c1 + c2, s2 as int, d as int, p2, a as int, x);
        }
        q = q + q + extra + c1 + c2;
        r = s2;
    }
    (q, r)
}

impl Fraction {
    /// `numerator * a * b / denominator`, rounded down.
    pub open spec fn spec_u384_mul(self, a: int, b: int) -> int {
        self.numerator * a * b / self.denominator as int
    }

    /// Multiplies the fraction by `a` and by `b` exactly and rounds the result down.
    /// The product is formed in full before the division, so no precision is lost
    /// on the way.
    pub fn u384_mul(&self, a: u128, b: u128) -> (r: u128)
        requires
            self.denominator > 0,
            self.spec_u384_mul(a as int, b as int) <= u128::MAX,
        ensures
            r == self.spec_u384_mul(a as int, b as int),
            r == self.numerator * a * b / (self.denominator as int),
            r * self.denominator <= self.numerator * a * b < (r + 1) * self.denominator,
    {
        let n = self.numerator;
        let d = self.denominator;
        if a == 0 || b == 0 {
            proof {
                assert(n * a * b == 0) by (nonlinear_arith)
                    requires
                        a == 0 || b == 0,
                ;
                lemma_basic_div(0, d as int);
            }
            return 0;
        }
        let q1 = n / d;
        let r1 = n % d;
        proof {
            lemma_fundamental_div_mod(n as int, d as int);
            lemma_mul_is_commutative(q1 as int, d as int);
            assert(b * (q1 * d + r1) <= n * a * b) by (nonlinear_arith)
                requires
                    q1 * d + r1 == n,
                    a >= 1,
                    b >= 0,
                    n >= 0,
            ;
            lemma_div_is_ordered(b * (q1 * d + r1), n * a * b, d as int);
        }
        let (q2, r2) = mul_quot_rem(b, q1, r1, d);
        proof {
            assert(a * (q2 * d + r2) == n * a * b) by (nonlinear_arith)
                requires
                    q2 * d + r2 == b * (q1 * d + r1),
                    q1 * d + r1 == n,
            ;
        }
        let (q3, r3) = mul_quot_rem(a, q2, r2, d);
        proof {
            lemma_fundamental_div_mod_converse(n * a * b, d as int, q3 as int, r3 as int);
            assert((q3 + 1) * d == q3 * d + d) by (nonlinear_arith);
        }
        q3
    }
}

} // verus!
