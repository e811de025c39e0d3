//! Fill fractions: exact ratios between nought and one.
//!
//! A fraction says how full an indicator is. It is kept as a numerator over a
//! positive denominator, so that the number of pixels it fills is an exact
//! floor and never a rounding.

use vstd::prelude::*;

verus! {

/// A ratio `num / den`. It is valid when `0 < den` and `num <= den`; the
/// constructors make none but valid ones.
#[derive(Clone, Copy, PartialEq, Eq, Structural, Debug)]
pub struct Fraction {
    pub num: u64,
    pub den: u64,
}

/// The ratio `num / den` brought into the range from nought to one: the
/// numerator is cut off at both ends, the denominator stays.
pub open spec fn clamp_ratio(num: int, den: u64) -> Fraction {
    if num <= 0 {
        Fraction { num: 0, den }
    } else if num >= den {
        Fraction { num: den, den }
    } else {
        Fraction { num: num as u64, den }
    }
}

/// `floor(length * num / den)`: the pixels that a ratio fills of a bar.
pub open spec fn floor_of(length: nat, num: nat, den: nat) -> nat {
    (length * num) / den
}

impl Fraction {
    /// The ratio is defined and lies between nought and one.
    pub open spec fn wf(self) -> bool {
        0 < self.den && self.num <= self.den
    }

    /// The number of pixels that the fraction fills of a bar of `length`
    /// pixels: `floor(length * fraction)`.
    pub open spec fn filled(self, length: nat) -> nat {
        floor_of(length, self.num as nat, self.den as nat)
    }

    /// The empty fraction, `0 / 1`.
    pub fn zero() -> (f: Fraction)
        ensures
            f == (Fraction { num: 0, den: 1 }),
    {
        Fraction { num: 0, den: 1 }
    }

    /// The full fraction, `1 / 1`.
    pub fn one() -> (f: Fraction)
        ensures
            f == (Fraction { num: 1, den: 1 }),
    {
        Fraction { num: 1, den: 1 }
    }

    /// The fraction nearest to `num / den` that lies between nought and one:
    /// a negative ratio becomes nought, a ratio above one becomes one, any
    /// other is kept as it is.
    pub fn clamped(num: i64, den: u64) -> (f: Fraction)
        requires
            den > 0,
        ensures
            f.wf(),
            f == clamp_ratio(num as int, den),
    {
        if num <= 0 {
            Fraction { num: 0, den }
        } else if num as u64 >= den {
            Fraction { num: den, den }
        } else {
            Fraction { num: num as u64, den }
        }
    }

    /// The number of pixels filled of a bar of `length` pixels.
    pub fn pixels(&self, length: usize) -> (n: usize)
        requires
            self.wf(),
        ensures
            n == self.filled(length as nat),
            n <= length,
    {
        let l: u128 = length as u128;
        let a: u128 = self.num as u128;
        let d: u128 = self.den as u128;
        assert(l * a <= 0xffff_ffff_ffff_ffff * 0xffff_ffff_ffff_ffff) by (nonlinear_arith)
            requires
                0 <= l <= 0xffff_ffff_ffff_ffff,
                0 <= a <= 0xffff_ffff_ffff_ffff,
        ;
        proof {
            lemma_floor_bounds(length as nat, self.num as nat, self.den as nat);
        }
        let n: u128 = (l * a) / d;
        n as usize
    }

    /// Whether the fraction is at most `num / den`.
    pub fn at_most(&self, num: u64, den: u64) -> (b: bool)
        requires
            self.wf(),
            den > 0,
        ensures
            b == (self.num * den <= num * self.den),
    {
        let left: u128 = self.num as u128;
        let right: u128 = num as u128;
        let d: u128 = den as u128;
        let e: u128 = self.den as u128;
        assert(left * d <= 0xffff_ffff_ffff_ffff * 0xffff_ffff_ffff_ffff) by (nonlinear_arith)
            requires
                0 <= left <= 0xffff_ffff_ffff_ffff,
                0 <= d <= 0xffff_ffff_ffff_ffff,
        ;
        assert(right * e <= 0xffff_ffff_ffff_ffff * 0xffff_ffff_ffff_ffff) by (nonlinear_arith)
            requires
                0 <= right <= 0xffff_ffff_ffff_ffff,
                0 <= e <= 0xffff_ffff_ffff_ffff,
        ;
        left * d <= right * e
    }
}

/// The floor of `length * num / den` is the one whole number `n` with
/// `n * den <= length * num < (n + 1) * den`, and it is at most `length`
/// when the ratio is at most one.
pub proof fn lemma_floor_bounds(length: nat, num: nat, den: nat)
    requires
        0 < den,
    ensures
        floor_of(length, num, den) * den <= length * num,
        length * num < (floor_of(length, num, den) + 1) * den,
        num <= den ==> floor_of(length, num, den) <= length,
{
    let p = length * num;
    let q = p / den;
    assert(q * den <= p && p < (q + 1) * den) by (nonlinear_arith)
        requires
            0 < den,
            q == p / den,
            0 <= p,
    ;
    if num <= den {
        assert(length * num <= length * den) by (nonlinear_arith)
            requires
                num <= den,
                0 <= length,
        ;
        assert(q <= length) by (nonlinear_arith)
            requires
                q * den <= p,
                p <= length * den,
                0 < den,
                0 <= q,
        ;
    }
}

/// A full fraction fills every pixel of a bar, whatever its length.
pub proof fn lemma_full_fills_all(f: Fraction, length: nat)
    requires
        f.wf(),
        f.num == f.den,
    ensures
        f.filled(length) == length,
{
    let d = f.den as nat;
    assert((length * d) / d == length) by (nonlinear_arith)
        requires
            0 < d,
    ;
}

/// An empty fraction fills no pixel of a bar, whatever its length.
pub proof fn lemma_empty_fills_none(f: Fraction, length: nat)
    requires
        f.wf(),
        f.num == 0,
    ensures
        f.filled(length) == 0,
{
    let d = f.den as nat;
    assert(length * 0 == 0) by (nonlinear_arith);
    assert(0nat / d == 0) by (nonlinear_arith)
        requires
            0 < d,
    ;
}

/// What a clamped ratio fills: nothing when the ratio is negative or nought,
/// the whole bar when it is one or more, and the floor of `length * num / den`
/// in between.
pub proof fn lemma_clamped_fill(num: int, den: u64, length: nat)
    requires
        0 < den,
    ensures
        clamp_ratio(num, den).wf(),
        num <= 0 ==> clamp_ratio(num, den).filled(length) == 0,
        num >= den ==> clamp_ratio(num, den).filled(length) == length,
        0 <= num <= den ==> clamp_ratio(num, den).filled(length) == floor_of(
            length,
            num as nat,
            den as nat,
        ),
{
    let f = clamp_ratio(num, den);
    if num <= 0 {
        lemma_empty_fills_none(f, length);
    } else if num >= den {
        lemma_full_fills_all(f, length);
    }
}

} // verus!
