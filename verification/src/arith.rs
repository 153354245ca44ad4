//! Exact signed arithmetic on parsed operands.
//!
//! Operands are 64-bit magnitudes with a sign; results are 128-bit
//! magnitudes with a sign, which is wide enough that addition,
//! subtraction, multiplication and division never overflow.  Only
//! exponentiation can outgrow the result type, and it reports that case.

use vstd::prelude::*;
use vstd::arithmetic::power::{pow, lemma_pow_increases};
use vstd::math::abs;
use crate::number::Num;

verus! {

/// A computed result: a signed 128-bit magnitude.
pub struct Signed {
    pub neg: bool,
    pub mag: u128,
}

impl Signed {
    /// The integer this result denotes.
    pub open spec fn val(self) -> int {
        if self.neg {
            -(self.mag as int)
        } else {
            self.mag as int
        }
    }
}

/// Division truncated toward zero, as on machine integers.
pub open spec fn trunc_div(a: int, b: int) -> int
    recommends
        b != 0,
{
    if (a < 0) == (b < 0) {
        abs(a) as int / abs(b) as int
    } else {
        -(abs(a) as int / abs(b) as int)
    }
}

/// Exact sum of two operands.
pub fn add_nums(a: Num, b: Num) -> (r: Signed)
    ensures
        r.val() == a.val() + b.val(),
{
    if a.neg == b.neg {
        Signed { neg: a.neg, mag: a.mag as u128 + b.mag as u128 }
    } else if a.mag >= b.mag {
        Signed { neg: a.neg, mag: (a.mag - b.mag) as u128 }
    } else {
        Signed { neg: b.neg, mag: (b.mag - a.mag) as u128 }
    }
}

/// Exact difference of two operands.
pub fn sub_nums(a: Num, b: Num) -> (r: Signed)
    ensures
        r.val() == a.val() - b.val(),
{
    add_nums(a, Num { neg: !b.neg, mag: b.mag })
}

/// Exact product of two operands.
pub fn mul_nums(a: Num, b: Num) -> (r: Signed)
    ensures
        r.val() == a.val() * b.val(),
{
    proof {
        assert((a.mag as int) * (b.mag as int) <= (u64::MAX as int) * (u64::MAX as int)
            && (a.mag as int) * (b.mag as int) >= 0) by (nonlinear_arith)
            requires
                0 <= a.mag as int <= u64::MAX as int,
                0 <= b.mag as int <= u64::MAX as int,
        ;
    }
    let mag: u128 = (a.mag as u128) * (b.mag as u128);
    let r = Signed { neg: a.neg != b.neg, mag };
    proof {
        assert(r.val() == a.val() * b.val()) by (nonlinear_arith)
            requires
                r.mag == (a.mag as int) * (b.mag as int),
                r.neg == (a.neg != b.neg),
                r.val() == if r.neg { -(r.mag as int) } else { r.mag as int },
                a.val() == if a.neg { -(a.mag as int) } else { a.mag as int },
                b.val() == if b.neg { -(b.mag as int) } else { b.mag as int },
        ;
    }
    r
}

/// Exact quotient of two operands, truncated toward zero.
pub fn div_nums(a: Num, b: Num) -> (r: Signed)
    requires
        b.val() != 0,
    ensures
        r.val() == trunc_div(a.val(), b.val()),
{
    let mag: u64 = a.mag / b.mag;
    Signed { neg: a.neg != b.neg, mag: mag as u128 }
}

/// Raising a negative base to a power flips the sign exactly on odd
/// exponents.
proof fn lemma_pow_neg_base(m: int, e: nat)
    requires
        m >= 0,
    ensures
        pow(-m, e) == if e % 2 == 0 {
            pow(m, e)
        } else {
            -pow(m, e)
        },
    decreases e,
{
    reveal(pow);
    if e > 0 {
        lemma_pow_neg_base(m, (e - 1) as nat);
        if e % 2 == 0 {
            assert((-m) * (-pow(m, (e - 1) as nat)) == m * pow(m, (e - 1) as nat))
                by (nonlinear_arith);
        } else {
            assert((-m) * pow(m, (e - 1) as nat) == -(m * pow(m, (e - 1) as nat)))
                by (nonlinear_arith);
        }
    }
}

/// A larger base raises to a larger power.
proof fn lemma_pow_base_le(b1: int, b2: int, e: nat)
    requires
        0 < b1 <= b2,
    ensures
        pow(b1, e) <= pow(b2, e),
    decreases e,
{
    reveal(pow);
    if e > 0 {
        lemma_pow_base_le(b1, b2, (e - 1) as nat);
        vstd::arithmetic::power::lemma_pow_positive(b1, (e - 1) as nat);
        vstd::arithmetic::power::lemma_pow_positive(b2, (e - 1) as nat);
        assert(b1 * pow(b1, (e - 1) as nat) <= b2 * pow(b2, (e - 1) as nat)) by (nonlinear_arith)
            requires
                0 <= b1 <= b2,
                0 < pow(b1, (e - 1) as nat) <= pow(b2, (e - 1) as nat),
        ;
    }
}

/// A power of a nonnegative base is nonnegative.
proof fn lemma_pow_nonneg(m: int, e: nat)
    requires
        m >= 0,
    ensures
        pow(m, e) >= 0,
{
    if m > 0 {
        vstd::arithmetic::power::lemma_pow_positive(m, e);
    } else if e == 0 {
        vstd::arithmetic::power::lemma_pow0(m);
    } else {
        vstd::arithmetic::power::lemma0_pow(e);
    }
}

/// The magnitude of a power is the power of the magnitude.
pub proof fn lemma_pow_abs(a: int, e: nat)
    ensures
        abs(pow(a, e)) == pow(abs(a) as int, e),
{
    if a >= 0 {
        lemma_pow_nonneg(a, e);
    } else {
        let m: int = -a;
        lemma_pow_neg_base(m, e);
        lemma_pow_nonneg(m, e);
    }
}

/// Exact power of an operand.  `None` exactly when the magnitude of the
/// true result exceeds the result type.
pub fn pow_nums(a: Num, e: u64) -> (r: Option<Signed>)
    ensures
        match r {
            Some(s) => s.val() == pow(a.val(), e as nat),
            None => pow(abs(a.val()) as int, e as nat) > u128::MAX,
        },
{
    let neg: bool = a.neg && a.mag > 0 && e % 2 == 1;
    proof {
        lemma_pow_neg_base(a.mag as int, e as nat);
        if a.mag == 0 {
            assert(a.val() == 0);
            assert(abs(a.val()) == a.mag);
        } else {
            assert(abs(a.val()) == a.mag);
        }
    }
    if a.mag == 0 {
        if e == 0 {
            proof {
                vstd::arithmetic::power::lemma_pow0(a.val());
            }
            return Some(Signed { neg: false, mag: 1 });
        }
        proof {
            vstd::arithmetic::power::lemma0_pow(e as nat);
        }
        return Some(Signed { neg: false, mag: 0 });
    }
    if a.mag == 1 {
        proof {
            vstd::arithmetic::power::lemma1_pow(e as nat);
        }
        return Some(Signed { neg, mag: 1 });
    }
    if e >= 128 {
        proof {
            lemma_pow_base_le(2, a.mag as int, e as nat);
            lemma_pow_increases(2, 128, e as nat);
            vstd::arithmetic::power2::lemma2_to64();
            vstd::arithmetic::power2::lemma_pow2_adds(64, 64);
            vstd::arithmetic::power2::lemma_pow2(128);
            vstd::arithmetic::power2::lemma_pow2(64);
            assert(pow(2, 128) > u128::MAX as int);
        }
        return None;
    }
    let mut acc: u128 = 1;
    let mut i: u64 = 0;
    proof {
        vstd::arithmetic::power::lemma_pow0(a.mag as int);
    }
    while i < e
        invariant
            i <= e,
            e < 128,
            a.mag >= 2,
            acc == pow(a.mag as int, i as nat),
        decreases e - i,
    {
        proof {
            vstd::arithmetic::power::lemma_pow_positive(a.mag as int, i as nat);
        }
        let next: u128 = match acc.checked_mul(a.mag as u128) {
            Some(x) => x,
            None => {
                proof {
                    assert(pow(a.mag as int, (i + 1) as nat) == pow(a.mag as int, i as nat) * (
                    a.mag as int)) by {
                        vstd::arithmetic::power::lemma_pow1(a.mag as int);
                        vstd::arithmetic::power::lemma_pow_adds(a.mag as int, i as nat, 1);
                    }
                    assert(pow(a.mag as int, (i + 1) as nat) > u128::MAX);
                    lemma_pow_increases(a.mag as nat, (i + 1) as nat, e as nat);
                }
                return None;
            },
        };
        proof {
            assert(pow(a.mag as int, (i + 1) as nat) == pow(a.mag as int, i as nat) * (
            a.mag as int)) by {
                vstd::arithmetic::power::lemma_pow1(a.mag as int);
                vstd::arithmetic::power::lemma_pow_adds(a.mag as int, i as nat, 1);
            }
        }
        acc = next;
        i = i + 1;
    }
    Some(Signed { neg, mag: acc })
}

} // verus!
