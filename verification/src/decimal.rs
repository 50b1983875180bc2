//! Exact base-10 fixed-point numbers.
//!
//! A `Decimal` stores the literal exactly as written in the source: the
//! mantissa holds all written digits and the scale counts the digits after
//! the decimal point, so `2.50` and `2.5` are distinct values that compare
//! numerically equal.  Literals are bounded to 18 significant digits with at
//! most 9 of them fractional; the lexer rejects anything longer, so every
//! parsed value satisfies [`Decimal::wf`].

use vstd::prelude::*;

verus! {

/// Largest admissible mantissa magnitude (exclusive): ten to the eighteenth.
pub const MANT_LIMIT: i128 = 1_000_000_000_000_000_000;

/// Largest admissible scale: nine fractional digits.
pub const SCALE_LIMIT: u32 = 9;

/// An exact fixed-point decimal: the represented number is
/// `mant / 10^scale`.
#[derive(Clone, Copy, Debug, PartialEq, Eq, Structural)]
pub struct Decimal {
    pub mant: i128,
    pub scale: u32,
}

pub open spec fn pow10(e: nat) -> int
    decreases e,
{
    if e == 0 {
        1
    } else {
        10 * pow10((e - 1) as nat)
    }
}

pub proof fn lemma_pow10_pos(e: nat)
    ensures
        pow10(e) >= 1,
    decreases e,
{
    if e > 0 {
        lemma_pow10_pos((e - 1) as nat);
    }
}

impl Decimal {
    /// Every value built by the parser satisfies this bound.
    pub open spec fn wf(self) -> bool {
        -MANT_LIMIT < self.mant < MANT_LIMIT && self.scale <= SCALE_LIMIT
    }

    /// The number written with `extra` further fractional digits: the
    /// mantissa scaled up so that two values can be compared or added at a
    /// common scale.
    pub open spec fn mant_at(self, s: nat) -> int
        recommends
            self.scale <= s,
    {
        self.mant * pow10((s - self.scale) as nat)
    }

    /// Numeric equality: equal rationals, whatever the scales.
    pub open spec fn num_eq(self, other: Decimal) -> bool {
        self.mant * pow10(other.scale as nat) == other.mant * pow10(self.scale as nat)
    }

    /// Numeric strict order.
    pub open spec fn num_lt(self, other: Decimal) -> bool {
        self.mant * pow10(other.scale as nat) < other.mant * pow10(self.scale as nat)
    }

    /// The common scale used when aligning two values.
    pub open spec fn join_scale(self, other: Decimal) -> nat {
        if self.scale >= other.scale {
            self.scale as nat
        } else {
            other.scale as nat
        }
    }

    /// Mantissa of the exact sum at the joined scale.
    pub open spec fn sum_mant(self, other: Decimal) -> int {
        self.mant_at(self.join_scale(other)) + other.mant_at(self.join_scale(other))
    }
}

/// Raises ten to a small power.
pub fn pow10_exec(e: u32) -> (r: i128)
    requires
        e <= 9,
    ensures
        r == pow10(e as nat),
        1 <= r <= 1_000_000_000,
{
    proof {
        reveal_with_fuel(pow10, 11);
    }
    if e == 0 {
        1
    } else if e == 1 {
        10
    } else if e == 2 {
        100
    } else if e == 3 {
        1_000
    } else if e == 4 {
        10_000
    } else if e == 5 {
        100_000
    } else if e == 6 {
        1_000_000
    } else if e == 7 {
        10_000_000
    } else if e == 8 {
        100_000_000
    } else {
        1_000_000_000
    }
}

impl Default for Decimal {
    fn default() -> (r: Decimal)
        ensures
            r == (Decimal { mant: 0, scale: 0 }),
    {
        Decimal { mant: 0, scale: 0 }
    }
}

impl Decimal {
    /// The exact zero, the default value of decimal-valued fields.
    pub fn zero() -> (r: Decimal)
        ensures
            r == (Decimal { mant: 0, scale: 0 }),
    {
        Decimal { mant: 0, scale: 0 }
    }

    /// The exact one.
    pub fn one() -> (r: Decimal)
        ensures
            r == (Decimal { mant: 1, scale: 0 }),
    {
        Decimal { mant: 1, scale: 0 }
    }

    /// Numeric equality test.
    pub fn eq_num(&self, other: &Decimal) -> (r: bool)
        requires
            self.wf(),
            other.wf(),
        ensures
            r == self.num_eq(*other),
    {
        let ps = pow10_exec(other.scale);
        let po = pow10_exec(self.scale);
        proof {
            assert(-MANT_LIMIT * 1_000_000_000 < self.mant * ps < MANT_LIMIT * 1_000_000_000)
                by (nonlinear_arith)
                requires
                    -MANT_LIMIT < self.mant < MANT_LIMIT,
                    1 <= ps <= 1_000_000_000,
            ;
            assert(-MANT_LIMIT * 1_000_000_000 < other.mant * po < MANT_LIMIT * 1_000_000_000)
                by (nonlinear_arith)
                requires
                    -MANT_LIMIT < other.mant < MANT_LIMIT,
                    1 <= po <= 1_000_000_000,
            ;
        }
        let a: i128 = self.mant * ps;
        let b: i128 = other.mant * po;
        a == b
    }

    /// Numeric strict-order test.
    pub fn lt_num(&self, other: &Decimal) -> (r: bool)
        requires
            self.wf(),
            other.wf(),
        ensures
            r == self.num_lt(*other),
    {
        let ps = pow10_exec(other.scale);
        let po = pow10_exec(self.scale);
        proof {
            assert(-MANT_LIMIT * 1_000_000_000 < self.mant * ps < MANT_LIMIT * 1_000_000_000)
                by (nonlinear_arith)
                requires
                    -MANT_LIMIT < self.mant < MANT_LIMIT,
                    1 <= ps <= 1_000_000_000,
            ;
            assert(-MANT_LIMIT * 1_000_000_000 < other.mant * po < MANT_LIMIT * 1_000_000_000)
                by (nonlinear_arith)
                requires
                    -MANT_LIMIT < other.mant < MANT_LIMIT,
                    1 <= po <= 1_000_000_000,
            ;
        }
        let a: i128 = self.mant * ps;
        let b: i128 = other.mant * po;
        a < b
    }

    /// Exact addition, `None` when the sum leaves the representable range.
    pub fn checked_add(&self, other: &Decimal) -> (r: Option<Decimal>)
        requires
            self.wf(),
            other.wf(),
        ensures
            ({
                let m = self.sum_mant(*other);
                let s = self.join_scale(*other);
                if -MANT_LIMIT < m < MANT_LIMIT {
                    r == Some(Decimal { mant: m as i128, scale: s as u32 }) && r.unwrap().wf()
                } else {
                    r is None
                }
            }),
    {
        let s: u32 = if self.scale >= other.scale {
            self.scale
        } else {
            other.scale
        };
        let pa = pow10_exec(s - self.scale);
        let pb = pow10_exec(s - other.scale);
        proof {
            assert(-MANT_LIMIT * 1_000_000_000 < self.mant * pa < MANT_LIMIT * 1_000_000_000)
                by (nonlinear_arith)
                requires
                    -MANT_LIMIT < self.mant < MANT_LIMIT,
                    1 <= pa <= 1_000_000_000,
            ;
            assert(-MANT_LIMIT * 1_000_000_000 < other.mant * pb < MANT_LIMIT * 1_000_000_000)
                by (nonlinear_arith)
                requires
                    -MANT_LIMIT < other.mant < MANT_LIMIT,
                    1 <= pb <= 1_000_000_000,
            ;
        }
        let a: i128 = self.mant * pa;
        let b: i128 = other.mant * pb;
        let m: i128 = a + b;
        if -MANT_LIMIT < m && m < MANT_LIMIT {
            Some(Decimal { mant: m, scale: s })
        } else {
            None
        }
    }

    /// The negated value.
    pub fn neg(&self) -> (r: Decimal)
        requires
            self.wf(),
        ensures
            r == self.neg_spec(),
            r.wf(),
    {
        Decimal { mant: -self.mant, scale: self.scale }
    }

    /// Exact subtraction, `None` when the difference leaves the range.
    pub fn checked_sub(&self, other: &Decimal) -> (r: Option<Decimal>)
        requires
            self.wf(),
            other.wf(),
        ensures
            ({
                let m = self.sum_mant(other.neg_spec());
                let s = self.join_scale(other.neg_spec());
                if -MANT_LIMIT < m < MANT_LIMIT {
                    r == Some(Decimal { mant: m as i128, scale: s as u32 }) && r.unwrap().wf()
                } else {
                    r is None
                }
            }),
    {
        let n = other.neg();
        self.checked_add(&n)
    }

    /// The negated value, for contracts.
    pub open spec fn neg_spec(self) -> Decimal {
        Decimal { mant: (-self.mant) as i128, scale: self.scale }
    }

    /// Truncation toward zero of the fractional digits beyond `s`.
    pub open spec fn trunc_spec(self, s: u32) -> Decimal {
        if self.scale <= s {
            self
        } else {
            Decimal {
                mant: div_trunc(self.mant as int, pow10((self.scale - s) as nat)) as i128,
                scale: s,
            }
        }
    }

    /// Drops fractional digits beyond `s`, truncating toward zero.
    pub fn trunc_with_scale(&self, s: u32) -> (r: Decimal)
        requires
            self.wf(),
        ensures
            r == self.trunc_spec(s),
            r.wf(),
    {
        if self.scale <= s {
            *self
        } else {
            let p = pow10_exec(self.scale - s);
            if self.mant >= 0 {
                let mag: u128 = self.mant as u128;
                let q: u128 = mag / (p as u128);
                proof {
                    assert(q <= mag);
                }
                Decimal { mant: q as i128, scale: s }
            } else {
                let mag: u128 = (-self.mant) as u128;
                let q: u128 = mag / (p as u128);
                proof {
                    assert(q <= mag);
                }
                Decimal { mant: -(q as i128), scale: s }
            }
        }
    }
}

/// Integer division truncating toward zero, for nonnegative divisors.
pub open spec fn div_trunc(m: int, d: int) -> int
    recommends
        d >= 1,
{
    if m >= 0 {
        m / d
    } else {
        -((-m) / d)
    }
}

} // verus!
