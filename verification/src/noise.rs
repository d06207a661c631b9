//! The generator behind filtered noise: a 32-bit xorshift, seeded per voice.

use vstd::prelude::*;

verus! {

/// One step of the generator.
pub open spec fn xorshift(x: u32) -> u32 {
    let a = x ^ (x << 13);
    let b = a ^ (a >> 17);
    b ^ (b << 5)
}

/// One step of the generator.
pub fn next(x: u32) -> (r: u32)
    ensures
        r == xorshift(x),
{
    let a: u32 = x ^ (x << 13);
    let b: u32 = a ^ (a >> 17);
    b ^ (b << 5)
}

/// The seed of voice `vi` for the note struck as number `age`: a spread-out mix of
/// both, made odd.
pub open spec fn seed_of(age: u64, vi: int) -> u32 {
    let mixed = ((age % 0x1_0000_0000) * 2_654_435_761 + vi + 1) % 0x1_0000_0000;
    if mixed % 2 == 0 {
        (mixed + 1) as u32
    } else {
        mixed as u32
    }
}

/// The seed of voice `vi` for the note struck as number `age`.
pub fn seed(age: u64, vi: usize) -> (r: u32)
    requires
        vi < 0xFFFF_FFFF,
    ensures
        r == seed_of(age, vi as int),
{
    let wide: u64 = (age % 0x1_0000_0000) * 2_654_435_761 + (vi as u64 + 1);
    let mixed: u32 = (wide % 0x1_0000_0000) as u32;
    proof {
        assert(mixed % 2 == 0 ==> mixed | 1 == mixed + 1) by (bit_vector);
        assert(mixed % 2 != 0 ==> mixed | 1 == mixed) by (bit_vector);
    }
    mixed | 1
}

/// A seed is odd, so never zero.
pub proof fn seeds_are_never_zero(age: u64, vi: int)
    requires
        0 <= vi,
    ensures
        seed_of(age, vi) % 2 == 1,
{
    let mixed = ((age % 0x1_0000_0000) * 2_654_435_761 + vi + 1) % 0x1_0000_0000;
    assert(0 <= mixed < 0x1_0000_0000);
    assert(mixed % 2 == 0 ==> mixed + 1 < 0x1_0000_0000);
}

/// The generator never falls into the zero state, in which it would stay.
pub proof fn generator_never_reaches_zero(x: u32)
    requires
        x != 0,
    ensures
        xorshift(x) != 0,
{
    assert(x != 0 ==> {
        let a = x ^ (x << 13u32);
        let b = a ^ (a >> 17u32);
        b ^ (b << 5u32) != 0
    }) by (bit_vector);
}

/// No two states lead to the same next state, so the generator runs in cycles.
pub proof fn generator_steps_are_reversible(x: u32, y: u32)
    requires
        xorshift(x) == xorshift(y),
    ensures
        x == y,
{
    assert(({
        let a = x ^ (x << 13u32);
        let b = a ^ (a >> 17u32);
        b ^ (b << 5u32)
    }) == ({
        let c = y ^ (y << 13u32);
        let d = c ^ (c >> 17u32);
        d ^ (d << 5u32)
    }) ==> x == y) by (bit_vector);
}

/// Neighbouring voices of one strike get seeds of their own, and so do the first voices of
/// two strikes in a row.
pub proof fn seeds_differ(age: u64, vi: int)
    requires
        0 <= vi < 0xFFFF_FFF0,
        age < 0xFFFF_FFFF,
    ensures
        seed_of(age, vi) != seed_of(age, vi + 2),
        seed_of(0, 0) == 1,
{
    let a = (age % 0x1_0000_0000) * 2_654_435_761 + vi + 1;
    assert(a % 0x1_0000_0000 != (a + 2) % 0x1_0000_0000);
    let (m, n) = (a % 0x1_0000_0000, (a + 2) % 0x1_0000_0000);
    assert(m % 2 == n % 2);
    assert(m % 2 == 0 ==> m + 1 != n + 1);
}

/// A step adds, without carry, what the state is when moved up thirteen places, then down
/// seventeen, then up five.
pub proof fn a_step_is_three_shifts(x: u32, a: u32, b: u32)
    requires
        a == x ^ ((x % 0x8_0000) * 0x2000) as u32,
        b == a ^ (a / 0x2_0000),
    ensures
        xorshift(x) == b ^ ((b % 0x800_0000) * 0x20) as u32,
{
    assert(x << 13u32 == (x % 0x8_0000) * 0x2000) by (bit_vector);
    assert(a >> 17u32 == a / 0x2_0000) by (bit_vector);
    assert(b << 5u32 == (b % 0x800_0000) * 0x20) by (bit_vector);
}

} // verus!
