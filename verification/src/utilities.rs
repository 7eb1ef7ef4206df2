//! Small bit-manipulation helpers shared by the hardware modules.
use vstd::prelude::*;

verus! {

/// The 16 bit value whose low byte is `lo` and whose high byte is `hi`.
pub open spec fn spec_to16(lo: u8, hi: u8) -> u16 {
    (hi as u16 * 256 + lo as u16) as u16
}

/// Join a low and a high byte into a 16 bit value.
pub fn to16(lo: u8, hi: u8) -> (r: u16)
    ensures
        r == spec_to16(lo, hi),
        r as int == hi as int * 256 + lo as int,
{
    let r = ((hi as u16) << 8) | (lo as u16);
    assert(((hi as u16) << 8) | (lo as u16) == hi as u16 * 256 + lo as u16) by (bit_vector);
    r
}

/// Split a 16 bit value into its low and high bytes.
pub fn to8(x: u16) -> (r: (u8, u8))
    ensures
        r.0 as int == x as int % 256,
        r.1 as int == x as int / 256,
{
    let lo = (x & 0xFF) as u8;
    let hi = ((x & 0xFF00) >> 8) as u8;
    assert((x & 0xFF) == x % 256) by (bit_vector);
    assert(((x & 0xFF00) >> 8) == x / 256) by (bit_vector);
    (lo, hi)
}

/// Set bit number `bit` of `dest`.
pub fn set_bit(dest: &mut u8, bit: u8)
    requires
        bit < 8,
    ensures
        *final(dest) == *old(dest) | (1u8 << bit),
{
    *dest = *dest | (1u8 << bit);
}

/// Clear bit number `bit` of `dest`.
pub fn clear_bit(dest: &mut u8, bit: u8)
    requires
        bit < 8,
    ensures
        *final(dest) == *old(dest) & !(1u8 << bit),
{
    *dest = *dest & !(1u8 << bit);
}

/// Splitting a joined value gives back the two bytes, and joining the two
/// halves of a value gives back the value.
pub proof fn lemma_to16_to8_inverse(lo: u8, hi: u8, x: u16)
    ensures
        spec_to16(lo, hi) as int % 256 == lo as int,
        spec_to16(lo, hi) as int / 256 == hi as int,
        spec_to16((x as int % 256) as u8, (x as int / 256) as u8) == x,
{
}

/// How long a clock running at `frequency` Hz takes for `cycles` cycles:
/// whole seconds, and the nanoseconds past them (rounded down).
pub fn cycles_duration(cycles: u64, frequency: u64) -> (r: (u64, u32))
    requires
        0 < frequency <= 18_446_744_073,
    ensures
        r.0 == cycles / frequency,
        r.1 == (1_000_000_000 * (cycles % frequency)) / frequency as int,
        r.1 < 1_000_000_000,
        r.0 * 1_000_000_000 + r.1 == (cycles as int * 1_000_000_000) / frequency as int,
{
    let seconds = cycles / frequency;
    let remainder = cycles % frequency;
    assert(1_000_000_000 * remainder <= u64::MAX) by (nonlinear_arith)
        requires
            remainder < frequency,
            frequency <= 18_446_744_073,
    ;
    let nanos = (1_000_000_000 * remainder) / frequency;
    assert(nanos < 1_000_000_000) by (nonlinear_arith)
        requires
            nanos == (1_000_000_000 * remainder) / frequency as int,
            remainder < frequency,
            frequency > 0,
    ;
    proof {
        vstd::arithmetic::div_mod::lemma_fundamental_div_mod(cycles as int, frequency as int);
        vstd::arithmetic::div_mod::lemma_hoist_over_denominator(
            1_000_000_000 * remainder as int,
            seconds * 1_000_000_000,
            frequency as nat,
        );
        assert(1_000_000_000 * remainder as int + (seconds * 1_000_000_000) * frequency as int
            == cycles as int * 1_000_000_000) by (nonlinear_arith)
            requires
                cycles as int == frequency as int * seconds as int + remainder as int,
        ;
    }
    (seconds, nanos as u32)
}

} // verus!
