//! Single-precision numbers, carried by their IEEE 754 bit pattern.
//!
//! The library stores such numbers and compares them; it never adds or
//! multiplies two of them, so every result here is exact.

use vstd::arithmetic::power2::{
    lemma2_to64, lemma_pow2_adds, lemma_pow2_pos, lemma_pow2_strictly_increases, lemma_pow2_unfold,
};
use vstd::prelude::*;

verus! {

/// A single-precision number. `==` compares bit patterns; for the numeric order
/// see [`Single::less`].
#[derive(Clone, Copy, Debug, PartialEq, Eq, Structural)]
pub struct Single {
    /// The IEEE 754 bit pattern.
    pub bits: u32,
}

/// The bit pattern of zero.
pub const ZERO: u32 = 0;

/// The bit pattern of one.
pub const ONE: u32 = 0x3F80_0000;

impl Single {
    /// Whether the sign bit is set.
    pub open spec fn is_negative(self) -> bool {
        self.bits >= 0x8000_0000
    }

    /// The pattern without its sign bit.
    pub open spec fn unsigned_bits(self) -> int {
        if self.is_negative() {
            self.bits - 0x8000_0000
        } else {
            self.bits as int
        }
    }

    /// The biased exponent.
    pub open spec fn exponent(self) -> int {
        self.unsigned_bits() / 0x80_0000
    }

    /// The stored fraction bits.
    pub open spec fn fraction(self) -> int {
        self.unsigned_bits() % 0x80_0000
    }

    /// Not a number.
    pub open spec fn is_nan(self) -> bool {
        self.exponent() == 255 && self.fraction() != 0
    }

    /// The absolute value, in units of the smallest positive number (an
    /// infinity counts as the number one step above the largest finite one).
    pub open spec fn magnitude(self) -> int {
        if self.exponent() == 0 {
            self.fraction()
        } else {
            (self.fraction() + 0x80_0000) * vstd::arithmetic::power2::pow2(
                (self.exponent() - 1) as nat,
            )
        }
    }

    /// The number itself, in units of the smallest positive number.
    pub open spec fn value(self) -> int {
        if self.is_negative() {
            -self.magnitude()
        } else {
            self.magnitude()
        }
    }

    /// `self < other` as numbers; never with a NaN.
    pub open spec fn lt(self, other: Single) -> bool {
        !self.is_nan() && !other.is_nan() && self.value() < other.value()
    }

    /// `self <= other` as numbers; never with a NaN.
    pub open spec fn le(self, other: Single) -> bool {
        !self.is_nan() && !other.is_nan() && self.value() <= other.value()
    }

    /// The larger of two numbers; a NaN gives way to the other.
    pub open spec fn larger(self, other: Single) -> Single {
        if self.is_nan() || self.lt(other) {
            other
        } else {
            self
        }
    }

    /// The smaller of two numbers; a NaN gives way to the other.
    pub open spec fn smaller(self, other: Single) -> Single {
        if self.is_nan() || other.lt(self) {
            other
        } else {
            self
        }
    }

    /// `self` moved into `lo..=hi`; a NaN stays.
    pub open spec fn clamped(self, lo: Single, hi: Single) -> Single {
        if self.lt(lo) {
            lo
        } else if hi.lt(self) {
            hi
        } else {
            self
        }
    }

    proof fn lemma_magnitude_increases(self, other: Single)
        requires
            self.unsigned_bits() < other.unsigned_bits(),
        ensures
            0 <= self.magnitude() < other.magnitude(),
    {
        let (e, f) = (self.exponent(), self.fraction());
        let (d, g) = (other.exponent(), other.fraction());
        assert(e <= d);
        assert(0 <= f < 0x80_0000 && 0 <= g < 0x80_0000);
        if d > 0 {
            lemma_pow2_pos((d - 1) as nat);
        }
        let q = vstd::arithmetic::power2::pow2((d - 1) as nat);
        if e == 0 && d > 0 {
            assert((g + 0x80_0000) * q >= 0x80_0000) by (nonlinear_arith)
                requires
                    g >= 0,
                    q >= 1,
            ;
        } else if e > 0 {
            lemma_pow2_pos((e - 1) as nat);
            let p = vstd::arithmetic::power2::pow2((e - 1) as nat);
            if e == d {
                assert(f < g);
                assert((f + 0x80_0000) * p < (g + 0x80_0000) * p) by (nonlinear_arith)
                    requires
                        f < g,
                        p > 0,
                ;
            } else {
                lemma_pow2_unfold(e as nat);
                if e < d - 1 {
                    lemma_pow2_strictly_increases(e as nat, (d - 1) as nat);
                }
                assert(q >= 2 * p);
                assert((f + 0x80_0000) * p < (g + 0x80_0000) * q) by (nonlinear_arith)
                    requires
                        0 <= f < 0x80_0000,
                        0 <= g,
                        p > 0,
                        q >= 2 * p,
                ;
            }
            assert((f + 0x80_0000) * p >= 0) by (nonlinear_arith)
                requires
                    f >= 0,
                    p > 0,
            ;
        }
    }

    /// Bit patterns order numbers of one sign as their values do.
    proof fn lemma_magnitude_order(self, other: Single)
        ensures
            self.unsigned_bits() < other.unsigned_bits() <==> self.magnitude() < other.magnitude(),
            self.unsigned_bits() == other.unsigned_bits() ==> self.magnitude()
                == other.magnitude(),
            0 <= self.magnitude(),
            self.magnitude() == 0 <==> self.unsigned_bits() == 0,
    {
        if self.unsigned_bits() < other.unsigned_bits() {
            self.lemma_magnitude_increases(other);
        } else if other.unsigned_bits() < self.unsigned_bits() {
            other.lemma_magnitude_increases(self);
        }
        let zero = Single { bits: 0 };
        if self.unsigned_bits() > 0 {
            zero.lemma_magnitude_increases(self);
        }
    }

    fn low(self) -> (r: u32)
        ensures
            r == self.unsigned_bits(),
    {
        if self.bits >= 0x8000_0000 {
            self.bits - 0x8000_0000
        } else {
            self.bits
        }
    }

    /// Whether this is not a number.
    pub fn nan(self) -> (r: bool)
        ensures
            r == self.is_nan(),
    {
        let u: u32 = self.low();
        u / 0x80_0000 == 255 && u % 0x80_0000 != 0
    }

    /// `self < other` as numbers; never with a NaN.
    pub fn less(self, other: Single) -> (r: bool)
        ensures
            r == self.lt(other),
    {
        if self.nan() || other.nan() {
            return false;
        }
        let a: u32 = self.low();
        let b: u32 = other.low();
        proof {
            self.lemma_magnitude_order(other);
            other.lemma_magnitude_order(self);
        }
        if self.bits >= 0x8000_0000 {
            if other.bits >= 0x8000_0000 {
                b < a
            } else {
                a != 0 || b != 0
            }
        } else if other.bits >= 0x8000_0000 {
            false
        } else {
            a < b
        }
    }

    /// `self <= other` as numbers; never with a NaN.
    pub fn less_eq(self, other: Single) -> (r: bool)
        ensures
            r == self.le(other),
    {
        !self.nan() && !other.nan() && !other.less(self)
    }

    /// The larger of two numbers; a NaN gives way to the other.
    pub fn max(self, other: Single) -> (r: Single)
        ensures
            r == self.larger(other),
    {
        if self.nan() || self.less(other) {
            other
        } else {
            self
        }
    }

    /// The smaller of two numbers; a NaN gives way to the other.
    pub fn min(self, other: Single) -> (r: Single)
        ensures
            r == self.smaller(other),
    {
        if self.nan() || other.less(self) {
            other
        } else {
            self
        }
    }

    /// `self` moved into `lo..=hi`; a NaN stays.
    pub fn clamp(self, lo: Single, hi: Single) -> (r: Single)
        requires
            lo.le(hi),
        ensures
            r == self.clamped(lo, hi),
    {
        if self.less(lo) {
            lo
        } else if hi.less(self) {
            hi
        } else {
            self
        }
    }
}

/// How many of the smallest positive number make one.
pub open spec fn one_value() -> int {
    vstd::arithmetic::power2::pow2(149) as int
}

/// The bit pattern of a number with the integer significand `m` and the exponent
/// `k`, once the significand is doubled into place.
pub open spec fn normalized(m: int, k: int) -> int
    decreases k,
{
    if m >= 0x80_0000 || k <= 0 {
        (127 + k) * 0x80_0000 + (m - 0x80_0000)
    } else {
        normalized(2 * m, k - 1)
    }
}

/// The number `n`.
pub open spec fn whole_of(n: int) -> Single {
    Single {
        bits: if n == 0 {
            0
        } else {
            normalized(n, 23) as u32
        },
    }
}

/// The number `n`, exactly.
pub fn whole(n: u32) -> (r: Single)
    requires
        n < 0x100_0000,
    ensures
        !r.is_nan(),
        !r.is_negative(),
        r.value() == n * one_value(),
        r == whole_of(n as int),
{
    if n == 0 {
        return Single { bits: 0 };
    }
    let mut m: u32 = n;
    let mut k: u32 = 23;
    proof {
        lemma2_to64();
        assert(m == n * vstd::arithmetic::power2::pow2(0));
    }
    while m < 0x80_0000
        invariant
            k <= 23,
            0 < m < 0x100_0000,
            0 < n,
            m == n * vstd::arithmetic::power2::pow2((23 - k) as nat),
            normalized(m as int, k as int) == normalized(n as int, 23),
            vstd::arithmetic::power2::pow2(23) == 0x80_0000,
        decreases k,
    {
        proof {
            let p = vstd::arithmetic::power2::pow2((23 - k) as nat);
            if k == 0 {
                assert(n * 0x80_0000 >= 0x80_0000) by (nonlinear_arith)
                    requires
                        n >= 1,
                ;
            }
            lemma_pow2_unfold((24 - k) as nat);
            assert(2 * (n * p) == n * (2 * p)) by (nonlinear_arith);
        }
        m = m * 2;
        k = k - 1;
    }
    let r = Single { bits: (127 + k) * 0x80_0000 + (m - 0x80_0000) };
    proof {
        assert(r.exponent() == 127 + k);
        assert(r.fraction() == m - 0x80_0000);
        let p = vstd::arithmetic::power2::pow2((23 - k) as nat);
        let q = vstd::arithmetic::power2::pow2((126 + k) as nat);
        lemma_pow2_adds((23 - k) as nat, (126 + k) as nat);
        assert((n * p) * q == n * (p * q)) by (nonlinear_arith);
    }
    r
}

proof fn lemma_normalized(n: int, m: int, k: int)
    requires
        0 < n,
        0 < m < 0x100_0000,
        0 <= k <= 23,
        m == n * vstd::arithmetic::power2::pow2((23 - k) as nat),
    ensures
        0 <= normalized(m, k) < 0x7F80_0000,
        ({
            let r = Single { bits: normalized(m, k) as u32 };
            !r.is_nan() && !r.is_negative() && r.value() == n * one_value()
        }),
    decreases k,
{
    let p = vstd::arithmetic::power2::pow2((23 - k) as nat);
    if m >= 0x80_0000 {
        let r = Single { bits: normalized(m, k) as u32 };
        assert(r.exponent() == 127 + k);
        assert(r.fraction() == m - 0x80_0000);
        let q = vstd::arithmetic::power2::pow2((126 + k) as nat);
        lemma_pow2_adds((23 - k) as nat, (126 + k) as nat);
        assert((n * p) * q == n * (p * q)) by (nonlinear_arith);
    } else {
        lemma2_to64();
        if k == 0 {
            assert(n * 0x80_0000 >= 0x80_0000) by (nonlinear_arith)
                requires
                    n >= 1,
            ;
        }
        lemma_pow2_unfold((24 - k) as nat);
        assert(2 * (n * p) == n * (2 * p)) by (nonlinear_arith);
        lemma_normalized(n, 2 * m, k - 1);
    }
}

/// A whole number is stored exactly.
pub proof fn wholes_are_exact(n: int)
    requires
        0 <= n < 0x100_0000,
    ensures
        !whole_of(n).is_nan(),
        !whole_of(n).is_negative(),
        whole_of(n).value() == n * one_value(),
{
    if n > 0 {
        lemma2_to64();
        assert(n == n * vstd::arithmetic::power2::pow2(0));
        lemma_normalized(n, n, 23);
    }
}

/// The first whole numbers, by their bit patterns.
pub proof fn small_wholes()
    ensures
        whole_of(1).bits == 0x3F80_0000,
        whole_of(2).bits == 0x4000_0000,
        whole_of(3).bits == 0x4040_0000,
        whole_of(5).bits == 0x40A0_0000,
{
    reveal_with_fuel(normalized, 25);
}

/// The larger of two numbers is one of them, and neither is above it.
pub proof fn the_larger_is_above_both(a: Single, b: Single)
    requires
        !a.is_nan(),
        !b.is_nan(),
    ensures
        a.larger(b) == a || a.larger(b) == b,
        a.le(a.larger(b)),
        b.le(a.larger(b)),
{
}

/// The smaller of two numbers is one of them, and neither is below it.
pub proof fn the_smaller_is_below_both(a: Single, b: Single)
    requires
        !a.is_nan(),
        !b.is_nan(),
    ensures
        a.smaller(b) == a || a.smaller(b) == b,
        a.smaller(b).le(a),
        a.smaller(b).le(b),
{
}

/// What is not a number gives way to what is.
pub proof fn numbers_win(a: Single, b: Single)
    requires
        a.is_nan(),
        !b.is_nan(),
    ensures
        a.larger(b) == b,
        b.larger(a) == b,
        a.smaller(b) == b,
        b.smaller(a) == b,
{
}

/// A number already in range is left as it is, and so is what is not a number.
pub proof fn clamping_leaves_what_fits(x: Single, lo: Single, hi: Single)
    requires
        x.is_nan() || lo.le(x) && x.le(hi),
    ensures
        x.clamped(lo, hi) == x,
{
}

/// What is not a number has a pattern past that of an infinity of either sign.
pub proof fn what_is_not_a_number(a: Single)
    ensures
        a.is_nan() <==> 0x7F80_0000 < a.bits < 0x8000_0000 || a.bits > 0xFF80_0000,
{
}

/// Numbers are ordered: exactly one of two is below the other, or they are equal in value.
/// Zero is above every negative number and below every positive one.
pub proof fn numbers_are_ordered(a: Single, b: Single)
    requires
        !a.is_nan(),
        !b.is_nan(),
    ensures
        a.lt(b) <==> !b.le(a),
        a.le(b) <==> a.lt(b) || (a.le(b) && b.le(a)),
        a.is_negative() && a.bits != 0x8000_0000 ==> a.lt(Single { bits: 0 }),
        !a.is_negative() && a.bits != 0 ==> (Single { bits: 0 }).lt(a),
        !a.is_negative() && !b.is_negative() ==> (a.lt(b) <==> a.bits < b.bits),
        a.is_negative() && b.is_negative() ==> (a.lt(b) <==> a.bits > b.bits),
{
    let zero = Single { bits: 0 };
    a.lemma_magnitude_order(b);
    b.lemma_magnitude_order(a);
    a.lemma_magnitude_order(zero);
    zero.lemma_magnitude_order(a);
}

/// Numbers from zero up order as their bit patterns do.
pub proof fn patterns_keep_their_order(a: Single, b: Single)
    requires
        a.bits < b.bits <= 0x7F80_0000,
    ensures
        a.lt(b),
        a.le(b),
        !b.lt(a),
{
    a.lemma_magnitude_order(b);
    b.lemma_magnitude_order(a);
}

/// A clamped number lies in its range, unless it was not a number.
pub proof fn clamping_lands_in_range(x: Single, lo: Single, hi: Single)
    requires
        lo.le(hi),
        !x.is_nan(),
    ensures
        lo.le(x.clamped(lo, hi)),
        x.clamped(lo, hi).le(hi),
{
}

} // verus!
