//! Single-precision numbers nearest to given fractions, so that settings can be
//! written down as decimals.

use crate::single::{Single, ZERO};
use vstd::arithmetic::power2::pow2;
use vstd::prelude::*;

verus! {

/// How often `num` has to be doubled until `num / den` has all the digits of a single.
pub open spec fn doublings(num: int, den: int) -> nat
    decreases 0x100_0000 * den - num,
{
    if num <= 0 || num >= 0x80_0000 * den {
        0
    } else {
        1 + doublings(2 * num, den)
    }
}

/// `num`, so often doubled.
pub open spec fn doubled(num: int, den: int) -> int {
    num * pow2(doublings(num, den))
}

/// The whole number nearest to `num / den`; halfway between two, the even one.
pub open spec fn rounded(num: int, den: int) -> int {
    let q = num / den;
    let r = num % den;
    if 2 * r > den || (2 * r == den && q % 2 == 1) {
        q + 1
    } else {
        q
    }
}

/// The single nearest to `num / den`; halfway between two, the even one. A number is
/// its digits (a whole number from 2 to the 23rd up to twice that) over a power of two.
pub open spec fn nearest(num: int, den: int) -> Single {
    if num == 0 {
        Single { bits: ZERO }
    } else {
        Single {
            bits: ((149 - doublings(num, den)) * 0x80_0000 + rounded(doubled(num, den), den)) as u32,
        }
    }
}

/// The single nearest to `num / den`.
pub fn ratio(num: u64, den: u64) -> (r: Single)
    requires
        0 < den <= 0x1_0000_0000,
        num < 0x100_0000 * den,
    ensures
        r == nearest(num as int, den as int),
{
    if num == 0 {
        return Single { bits: ZERO };
    }
    let mut n: u64 = num;
    let mut k: u64 = 0;
    proof {
        vstd::arithmetic::power2::lemma2_to64();
    }
    while n < 0x80_0000 * den
        invariant
            0 < den <= 0x1_0000_0000,
            num > 0,
            0 < n < 0x100_0000 * den,
            n == num * pow2(k as nat),
            n >= pow2(k as nat),
            k < 57,
            k + doublings(n as int, den as int) == doublings(num as int, den as int),
        decreases 0x100_0000 * den - n,
    {
        proof {
            vstd::arithmetic::power2::lemma_pow2_unfold((k + 1) as nat);
            assert(num * (2 * pow2(k as nat)) == 2 * (num * pow2(k as nat))) by (nonlinear_arith);
            lemma_large_powers();
            if k + 1 == 57 {
                assert(2 * n >= pow2(57));
            }
        }
        n = 2 * n;
        k += 1;
    }
    let q: u64 = n / den;
    let rem: u64 = n % den;
    let digits: u64 = if 2 * rem > den || (2 * rem == den && q % 2 == 1) {
        q + 1
    } else {
        q
    };
    proof {
        lemma_rounding(n as int, den as int);
        assert(k == doublings(num as int, den as int));
        assert(n == doubled(num as int, den as int));
        assert(digits == rounded(n as int, den as int));
    }
    Single { bits: ((149 - k) * 0x80_0000 + digits) as u32 }
}

proof fn lemma_large_powers()
    ensures
        pow2(55) == 0x80_0000_0000_0000,
        pow2(57) == 0x200_0000_0000_0000,
{
    vstd::arithmetic::power2::lemma2_to64();
    vstd::arithmetic::power2::lemma_pow2_adds(32, 23);
    vstd::arithmetic::power2::lemma_pow2_adds(32, 25);
}

proof fn lemma_rounding(n: int, den: int)
    requires
        den > 0,
        0x80_0000 * den <= n < 0x100_0000 * den,
    ensures
        0x80_0000 <= n / den < 0x100_0000,
        0x80_0000 <= rounded(n, den) <= 0x100_0000,
        -den <= 2 * (rounded(n, den) * den - n) <= den,
{
    let q = n / den;
    let r = n % den;
    vstd::arithmetic::div_mod::lemma_fundamental_div_mod(n, den);
    vstd::arithmetic::div_mod::lemma_mod_bound(n, den);
    assert(den * q == q * den) by (nonlinear_arith);
    assert((q + 1) * den == q * den + den) by (nonlinear_arith);
    assert(q >= 0x80_0000) by (nonlinear_arith)
        requires
            n == q * den + r,
            0 <= r < den,
            n >= 0x80_0000 * den,
            den > 0,
    ;
    assert(q < 0x100_0000) by (nonlinear_arith)
        requires
            n == q * den + r,
            0 <= r < den,
            n < 0x100_0000 * den,
            den > 0,
    ;
}

/// Doubling stops as soon as all the digits are there.
proof fn lemma_doublings(num: int, den: int, j: nat)
    requires
        num > 0,
        den > 0,
    ensures
        num * pow2(j) >= 0x80_0000 * den ==> doublings(num, den) <= j,
        num * pow2(j) < 0x80_0000 * den ==> doublings(num, den) > j,
    decreases j,
{
    vstd::arithmetic::power2::lemma2_to64();
    if j == 0 {
        assert(num * pow2(0) == num);
    } else {
        vstd::arithmetic::power2::lemma_pow2_unfold(j);
        vstd::arithmetic::power2::lemma_pow2_pos((j - 1) as nat);
        let p = pow2((j - 1) as nat);
        assert(num * (2 * p) == (2 * num) * p) by (nonlinear_arith);
        assert(num * (2 * p) >= num) by (nonlinear_arith)
            requires
                p >= 1,
                num > 0,
        ;
        if num < 0x80_0000 * den {
            lemma_doublings(2 * num, den, (j - 1) as nat);
        }
    }
}

proof fn lemma_doubled(num: int, den: int)
    requires
        num > 0,
        den > 0,
        num < 0x100_0000 * den,
    ensures
        0x80_0000 * den <= doubled(num, den) < 0x100_0000 * den,
{
    let k = doublings(num, den);
    lemma_doublings(num, den, k);
    vstd::arithmetic::power2::lemma2_to64();
    if k == 0 {
        assert(num * pow2(0) == num);
    } else {
        lemma_doublings(num, den, (k - 1) as nat);
        vstd::arithmetic::power2::lemma_pow2_unfold(k);
        let p = pow2((k - 1) as nat);
        assert(num * (2 * p) == 2 * (num * p)) by (nonlinear_arith);
    }
}

/// A fraction's single is off by no more than half a unit of its last digit: it is
/// `digits` over 2 to the `k`-th, and `digits` misses `num * 2^k / den` by at most one
/// half.
pub proof fn nearest_is_within_half_a_digit(num: int, den: int)
    requires
        0 < num < 0x100_0000 * den,
        0 < den <= 0x1_0000_0000,
    ensures
        ({
            let k = doublings(num, den);
            let digits = rounded(doubled(num, den), den);
            &&& k < 56
            &&& nearest(num, den).bits == (149 - k) * 0x80_0000 + digits
            &&& nearest(num, den).value() == digits * pow2((149 - k) as nat)
            &&& 0x80_0000 <= digits <= 0x100_0000
            &&& -den <= 2 * (digits * den - num * pow2(k)) <= den
        }),
{
    lemma_doubled(num, den);
    lemma_rounding(doubled(num, den), den);
    lemma_large_powers();
    assert(num * pow2(55) >= 0x80_0000 * den) by (nonlinear_arith)
        requires
            num >= 1,
            pow2(55) == 0x80_0000_0000_0000,
            den <= 0x1_0000_0000,
    ;
    lemma_doublings(num, den, 55);
    let k = doublings(num, den);
    let digits = rounded(doubled(num, den), den);
    let x = nearest(num, den);
    assert(x.bits == (149 - k) * 0x80_0000 + digits);
    if digits == 0x100_0000 {
        assert(x.exponent() == 151 - k);
        assert(x.fraction() == 0);
        vstd::arithmetic::power2::lemma_pow2_unfold((150 - k) as nat);
        let p = pow2((149 - k) as nat);
        assert(0x80_0000 * (2 * p) == 0x100_0000 * p) by (nonlinear_arith);
    } else {
        assert(x.exponent() == 150 - k);
        assert(x.fraction() == digits - 0x80_0000);
    }
}

/// The single nearest to `t` ten-thousandths.
pub open spec fn decimal_value(t: u32) -> Single {
    nearest(t as int, 10_000)
}

/// The single nearest to `t` ten-thousandths: `decimal(0_6480)` is 0.648.
#[verifier::when_used_as_spec(decimal_value)]
pub fn decimal(t: u32) -> (r: Single)
    ensures
        r == decimal_value(t),
{
    ratio(t as u64, 10_000)
}

/// The single nearest to minus `t` ten-thousandths.
pub open spec fn minus_value(t: u32) -> Single {
    Single { bits: (0x8000_0000 + nearest(t as int, 10_000).bits) as u32 }
}

/// The single nearest to minus `t` ten-thousandths.
#[verifier::when_used_as_spec(minus_value)]
pub fn minus(t: u32) -> (r: Single)
    ensures
        r == minus_value(t),
{
    proof {
        if t > 0 {
            nearest_is_within_half_a_digit(t as int, 10_000);
        }
    }
    Single { bits: 0x8000_0000 + decimal(t).bits }
}

/// The speed of sound in air, metres per second.
pub const SOUND_SPEED: u64 = 343;

/// A positive number between one and two to the 23rd, as its digits over a power of two.
pub open spec fn is_moderate(x: Single) -> bool {
    127 <= x.bits / 0x80_0000 <= 149
}

/// Half the wavelength in air of a pitch in hertz: the speed of sound over twice the
/// pitch.
pub open spec fn half_wave_value(hz: Single) -> Single {
    nearest(
        SOUND_SPEED * pow2((149 - hz.bits / 0x80_0000) as nat),
        (hz.bits % 0x80_0000) + 0x80_0000,
    )
}

/// Half the wavelength in air of a pitch in hertz.
#[verifier::when_used_as_spec(half_wave_value)]
pub fn half_wave(hz: Single) -> (r: Single)
    requires
        is_moderate(hz),
    ensures
        r == half_wave_value(hz),
{
    let shift: u64 = (149 - hz.bits / 0x80_0000) as u64;
    let digits: u64 = (hz.bits % 0x80_0000) as u64 + 0x80_0000;
    proof {
        vstd::arithmetic::power2::lemma2_to64();
        if shift < 22 {
            vstd::arithmetic::power2::lemma_pow2_strictly_increases(shift as nat, 22);
        }
        vstd::bits::lemma_u64_shl_is_mul(SOUND_SPEED, shift);
    }
    ratio(SOUND_SPEED << shift, digits)
}

/// Any decimal from one up to four thousand or so is moderate.
pub proof fn decimals_are_moderate(t: u32)
    requires
        1_0000 <= t < 4_096_0000,
    ensures
        is_moderate(decimal_value(t)),
{
    nearest_is_within_half_a_digit(t as int, 10_000);
    vstd::arithmetic::power2::lemma2_to64();
    lemma_doublings(t as int, 10_000, 23);
    lemma_doublings(t as int, 10_000, 10);
}

/// Halfway between two singles, the even one is taken.
pub proof fn ties_go_to_the_even_one(num: int, den: int)
    requires
        0 < num < 0x100_0000 * den,
        0 < den <= 0x1_0000_0000,
    ensures
        ({
            let k = doublings(num, den);
            let digits = rounded(doubled(num, den), den);
            let miss = 2 * (digits * den - num * pow2(k));
            miss == den || miss == -den ==> digits % 2 == 0
        }),
        nearest(0, den) == (Single { bits: 0 }),
{
    let n = doubled(num, den);
    let q = n / den;
    let r = n % den;
    vstd::arithmetic::div_mod::lemma_fundamental_div_mod(n, den);
    vstd::arithmetic::div_mod::lemma_mod_bound(n, den);
    assert(den * q == q * den) by (nonlinear_arith);
    assert((q + 1) * den == q * den + den) by (nonlinear_arith);
}

/// A negative decimal is the positive one with the opposite value.
pub proof fn negatives_mirror(t: u32)
    requires
        t > 0,
    ensures
        minus_value(t).value() == -decimal_value(t).value(),
        !minus_value(t).is_nan(),
        decimal_value(t).value() > 0,
{
    nearest_is_within_half_a_digit(t as int, 10_000);
    let x = decimal_value(t);
    let k = doublings(t as int, 10_000);
    let digits = rounded(doubled(t as int, 10_000), 10_000);
    vstd::arithmetic::power2::lemma_pow2_pos((149 - k) as nat);
    assert(digits * pow2((149 - k) as nat) > 0) by (nonlinear_arith)
        requires
            digits > 0,
            pow2((149 - k) as nat) > 0,
    ;
    assert(x.bits < 0x7F80_0000);
    let y = minus_value(t);
    assert(y.unsigned_bits() == x.bits);
    assert(y.exponent() == x.exponent());
    assert(y.fraction() == x.fraction());
}

/// Half a wavelength is the single nearest to the speed of sound over twice the pitch: the
/// fraction is exactly that.
pub proof fn half_waves_are_sound_over_twice_the_pitch(hz: Single) -> (fraction: (int, int))
    requires
        is_moderate(hz),
    ensures
        half_wave_value(hz) == nearest(fraction.0, fraction.1),
        fraction.1 > 0,
        fraction.0 * (2 * hz.value()) == 343 * crate::single::one_value() * fraction.1,
{
    let e = hz.bits / 0x80_0000;
    let m = (hz.bits % 0x80_0000) + 0x80_0000;
    let p = pow2((149 - e) as nat);
    let q = pow2((e - 1) as nat);
    assert(hz.exponent() == e);
    assert(hz.fraction() == hz.bits % 0x80_0000);
    assert(hz.value() == m * q);
    vstd::arithmetic::power2::lemma_pow2_unfold(e as nat);
    vstd::arithmetic::power2::lemma_pow2_adds((149 - e) as nat, e as nat);
    assert((343 * p) * (2 * (m * q)) == 343 * (p * (2 * q)) * m) by (nonlinear_arith);
    (343 * (p as int), m as int)
}

/// A decimal's single, worked out: `p` is two to the `k`-th, by which the decimal has to be
/// multiplied to have all the digits of a single, and `digits` are these.
pub proof fn decimal_is(t: u32, k: nat, p: int, digits: int)
    requires
        0 < k < 56,
        p == pow2(k),
        0x80_0000 * 10_000 <= t * p < 0x100_0000 * 10_000,
        -10_000 < 2 * (digits * 10_000 - t * p) < 10_000,
    ensures
        decimal_value(t).bits == (149 - k) * 0x80_0000 + digits,
{
    let num = t as int;
    lemma_doublings(num, 10_000, k);
    vstd::arithmetic::power2::lemma_pow2_unfold(k);
    let h = pow2((k - 1) as nat) as int;
    assert(num * p == 2 * (num * h)) by (nonlinear_arith)
        requires
            p == 2 * h,
    ;
    lemma_doublings(num, 10_000, (k - 1) as nat);
    assert(doublings(num, 10_000) == k);
    nearest_is_within_half_a_digit(num, 10_000);
    let n = doubled(num, 10_000);
    assert(n == num * p);
    assert(rounded(n, 10_000) == digits);
}

} // verus!
