//! Decoding of the hardware power-unit register.
//!
//! One 64-bit register value carries three scaling exponents (time, energy,
//! power). Each exponent `n` stands for the multiplicative factor `2^-n`
//! that converts raw accumulator counts into physical units. The library
//! keeps the exponents themselves; turning an exponent into a
//! floating-point factor is the caller's one-line job.

use vstd::arithmetic::power2::lemma_pow2_pos;
use vstd::arithmetic::power2::pow2;
use vstd::prelude::*;

verus! {

/// Mask selecting the time-unit exponent field of the power-unit register.
pub const TIME_UNIT_MASK: u64 = 0xF0000;

/// Mask selecting the energy-unit exponent field of the power-unit register.
pub const ENERGY_UNIT_MASK: u64 = 0x1F00;

/// Mask selecting the power-unit exponent field of the power-unit register.
pub const POWER_UNIT_MASK: u64 = 0xF;

/// The three scaling exponents decoded from one power-unit register value.
///
/// An exponent `n` stands for the scaling factor `2^-n`; the decoder
/// guarantees the bounds of [`exponents_bounded`], so every factor is a
/// positive fraction no greater than one.
#[derive(Clone, Copy, Debug, PartialEq, Eq, Structural)]
pub struct UnitExponents {
    /// Exponent of the time scaling factor.
    pub time: u64,
    /// Exponent of the energy scaling factor.
    pub energy: u64,
    /// Exponent of the power scaling factor.
    pub power: u64,
}

/// The time exponent: a four-bit field of the raw register value.
pub open spec fn spec_time_exp(raw: u64) -> u64 {
    (raw & TIME_UNIT_MASK) >> 16
}

/// The energy exponent: a five-bit field of the raw register value.
pub open spec fn spec_energy_exp(raw: u64) -> u64 {
    (raw & ENERGY_UNIT_MASK) >> 8
}

/// The power exponent: a four-bit field of the raw register value.
pub open spec fn spec_power_exp(raw: u64) -> u64 {
    raw & POWER_UNIT_MASK
}

/// What decoding a raw power-unit register value yields.
pub open spec fn spec_decode_units(raw: u64) -> UnitExponents {
    UnitExponents {
        time: spec_time_exp(raw),
        energy: spec_energy_exp(raw),
        power: spec_power_exp(raw),
    }
}

/// Field widths bound the exponents: four bits for time and power, five
/// bits for energy.
pub open spec fn exponents_bounded(u: UnitExponents) -> bool {
    u.time < 16 && u.energy < 32 && u.power < 16
}

/// Decode the three scaling exponents out of one raw register value.
pub fn decode_units(raw: u64) -> (u: UnitExponents)
    ensures
        u == spec_decode_units(raw),
        exponents_bounded(u),
{
    let time: u64 = (raw & TIME_UNIT_MASK) >> 16;
    let energy: u64 = (raw & ENERGY_UNIT_MASK) >> 8;
    let power: u64 = raw & POWER_UNIT_MASK;
    proof {
        assert((raw & 0xF0000) >> 16 < 16 && (raw & 0x1F00) >> 8 < 32 && (raw & 0xF)
            < 16) by (bit_vector);
    }
    UnitExponents { time, energy, power }
}

/// The denominator of the scaling factor an exponent stands for: the
/// factor itself is the fraction `1 / 2^exp`.
pub open spec fn spec_unit_denominator(exp: u64) -> nat {
    pow2(exp as nat)
}

/// Law: every decoded scaling factor lies in the interval `(0, 1]`.
///
/// The factor for an exponent `n` is `1 / 2^n`; its denominator `2^n` is
/// at least its numerator `1`, so the factor is positive and no greater
/// than one.
pub proof fn lemma_units_in_unit_interval(raw: u64)
    ensures
        1 <= spec_unit_denominator(spec_time_exp(raw)),
        1 <= spec_unit_denominator(spec_energy_exp(raw)),
        1 <= spec_unit_denominator(spec_power_exp(raw)),
{
    lemma_pow2_pos(spec_time_exp(raw) as nat);
    lemma_pow2_pos(spec_energy_exp(raw) as nat);
    lemma_pow2_pos(spec_power_exp(raw) as nat);
}

/// Law: decoding is a pure function of the raw register value, so decoding
/// the same value twice yields identical exponents.
pub proof fn lemma_decode_deterministic(a: u64, b: u64)
    requires
        a == b,
    ensures
        spec_decode_units(a) == spec_decode_units(b),
{
}

} // verus!
