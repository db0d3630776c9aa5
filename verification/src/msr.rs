//! The hardware-fixed register addresses the engine reads, and the
//! decoding of a raw register read.
//!
//! A register address doubles as the absolute seek offset into the per-CPU
//! register device; a register read yields exactly eight bytes, little
//! endian.

use vstd::prelude::*;

verus! {

/// Address of the power-unit register holding the three scaling exponents.
pub const MSR_POWER_UNIT: u64 = 0xC0010299;

/// Address of the per-core accumulated-energy register.
pub const MSR_CORE_ENERGY: u64 = 0xC001029A;

/// Address of the per-package accumulated-energy register.
pub const MSR_PACKAGE_ENERGY: u64 = 0xC001029B;

/// The unsigned value of eight bytes interpreted little-endian.
pub open spec fn spec_le64(s: Seq<u8>) -> int {
    s[0] + s[1] * 0x100 + s[2] * 0x1_0000 + s[3] * 0x100_0000 + s[4] * 0x1_0000_0000 + s[5]
        * 0x100_0000_0000 + s[6] * 0x1_0000_0000_0000 + s[7] * 0x100_0000_0000_0000
}

/// Assemble the eight bytes of one register read, least significant
/// first, into the register's value.
pub fn register_value_from_le(data: &[u8]) -> (r: u64)
    requires
        data@.len() == 8,
    ensures
        r == spec_le64(data@),
{
    let b0: u64 = data[0] as u64;
    let b1: u64 = data[1] as u64;
    let b2: u64 = data[2] as u64;
    let b3: u64 = data[3] as u64;
    let b4: u64 = data[4] as u64;
    let b5: u64 = data[5] as u64;
    let b6: u64 = data[6] as u64;
    let b7: u64 = data[7] as u64;
    let r: u64 = b0 | (b1 << 8) | (b2 << 16) | (b3 << 24) | (b4 << 32) | (b5 << 40) | (b6 << 48)
        | (b7 << 56);
    proof {
        assert(b0 | (b1 << 8) | (b2 << 16) | (b3 << 24) | (b4 << 32) | (b5 << 40) | (b6 << 48) | (
        b7 << 56) == b0 + b1 * 0x100 + b2 * 0x1_0000 + b3 * 0x100_0000 + b4 * 0x1_0000_0000 + b5
            * 0x100_0000_0000 + b6 * 0x1_0000_0000_0000 + b7 * 0x100_0000_0000_0000) by (bit_vector)
            requires
                b0 < 256 && b1 < 256 && b2 < 256 && b3 < 256 && b4 < 256 && b5 < 256 && b6 < 256
                    && b7 < 256,
        ;
    }
    r
}

} // verus!
