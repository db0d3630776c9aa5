//! The sampling engine: decoded units, the per-core package ids, and the
//! differential computation that turns two passes of raw accumulator
//! readings into a power snapshot.
//!
//! The engine never touches a register file itself. The caller reads the
//! registers — one reading per core, in enumeration order, once at the
//! start and once at the end of the sampling window — and hands the raw
//! values in; the engine pairs the passes by position and computes the
//! deltas.

use crate::snapshot::CorePowerDelta;
use crate::snapshot::PowerSnapshot;
use crate::units::decode_units;
use crate::units::exponents_bounded;
use crate::units::spec_decode_units;
use crate::units::UnitExponents;
use vstd::prelude::*;

verus! {

/// Number of sampling windows per second. The window length and the
/// watt scale are both derived from this one ratio, so they cannot drift
/// apart: a delta of `d` raw counts over one window is an average power of
/// `d * energy_unit * SAMPLES_PER_SECOND` watts.
pub const SAMPLES_PER_SECOND: u64 = 100;

/// Length of one sampling window in milliseconds: the caller suspends this
/// long between the two passes.
pub const SAMPLE_DELAY_MS: u64 = 1000 / SAMPLES_PER_SECOND;

/// One pass's raw accumulator readings for one core, as read from the
/// core's register device.
#[derive(Clone, Copy, Debug, PartialEq, Eq, Structural)]
pub struct EnergyReading {
    /// The per-core accumulated-energy register value.
    pub core_energy: u64,
    /// The per-package accumulated-energy register value.
    pub package_energy: u64,
}

/// The sampling engine: one package id per enumerated core, in enumeration
/// order, and the scaling exponents decoded once at construction.
pub struct Engine {
    /// Package id of each core, in enumeration order.
    pub packages: Vec<u32>,
    /// The scaling exponents, decoded from the first core's power-unit
    /// register.
    pub units: UnitExponents,
}

/// The delta entry for core `i`: end reading minus start reading, with the
/// core's package id carried through unchanged.
pub open spec fn spec_delta(
    packages: Seq<u32>,
    start: Seq<EnergyReading>,
    end: Seq<EnergyReading>,
    i: int,
) -> CorePowerDelta {
    CorePowerDelta {
        core_delta: (end[i].core_energy - start[i].core_energy) as i128,
        package_delta: (end[i].package_energy - start[i].package_energy) as i128,
        package: packages[i],
    }
}

/// What one differential sample yields: exactly one delta entry per core,
/// in enumeration order.
pub open spec fn spec_snapshot_entries(
    packages: Seq<u32>,
    start: Seq<EnergyReading>,
    end: Seq<EnergyReading>,
) -> Seq<CorePowerDelta> {
    Seq::new(packages.len(), |i: int| spec_delta(packages, start, end, i))
}

impl Engine {
    /// An engine is never built over an empty core set, and its exponents
    /// come from the decoder, so they carry the decoder's field bounds.
    pub open spec fn wf(&self) -> bool {
        self.packages@.len() > 0 && exponents_bounded(self.units)
    }

    /// Build the engine from the enumerated package ids and the raw
    /// power-unit register value read from the first core.
    ///
    /// Discovery fails with `NoCores` before ever reaching this point, so
    /// a core set is never empty.
    pub fn new(packages: Vec<u32>, raw_units: u64) -> (e: Engine)
        requires
            packages@.len() > 0,
        ensures
            e.wf(),
            e.packages@ == packages@,
            e.units == spec_decode_units(raw_units),
    {
        let units = decode_units(raw_units);
        Engine { packages, units }
    }

    /// How many cores the engine samples.
    pub fn core_count(&self) -> (n: usize)
        ensures
            n == self.packages@.len(),
    {
        self.packages.len()
    }

    /// Pair the two passes of readings by position and compute one delta
    /// entry per core: exactly one entry per core, in enumeration order,
    /// each carrying its core's package id unchanged.
    pub fn snapshot(&self, start: &Vec<EnergyReading>, end: &Vec<EnergyReading>) -> (snap:
        PowerSnapshot)
        requires
            start@.len() == self.packages@.len(),
            end@.len() == self.packages@.len(),
        ensures
            snap.entries@ == spec_snapshot_entries(self.packages@, start@, end@),
            snap.entries@.len() == self.packages@.len(),
    {
        let n = self.packages.len();
        let mut entries: Vec<CorePowerDelta> = Vec::new();
        let mut i: usize = 0;
        while i < n
            invariant
                i <= n,
                n == self.packages@.len(),
                start@.len() == n,
                end@.len() == n,
                entries@ == spec_snapshot_entries(self.packages@, start@, end@).take(i as int),
            decreases n - i,
        {
            let s = start[i];
            let e = end[i];
            let core_delta: i128 = e.core_energy as i128 - s.core_energy as i128;
            let package_delta: i128 = e.package_energy as i128 - s.package_energy as i128;
            entries.push(CorePowerDelta { core_delta, package_delta, package: self.packages[i] });
            proof {
                assert(entries@ =~= spec_snapshot_entries(self.packages@, start@, end@).take(
                    i as int + 1,
                ));
            }
            i = i + 1;
        }
        proof {
            assert(spec_snapshot_entries(self.packages@, start@, end@).take(n as int)
                =~= spec_snapshot_entries(self.packages@, start@, end@));
        }
        PowerSnapshot { entries }
    }
}

/// Law: one differential sample yields exactly one delta entry per core,
/// in enumeration order: entry `i` pairs the `i`-th readings of the two
/// passes and carries the `i`-th core's package id unchanged.
pub proof fn lemma_one_entry_per_core(
    packages: Seq<u32>,
    start: Seq<EnergyReading>,
    end: Seq<EnergyReading>,
)
    requires
        start.len() == packages.len(),
        end.len() == packages.len(),
    ensures
        spec_snapshot_entries(packages, start, end).len() == packages.len(),
        forall|i: int|
            0 <= i < packages.len() ==> #[trigger] spec_snapshot_entries(packages, start, end)[i]
                == spec_delta(packages, start, end, i),
{
}

/// Law: if every raw accumulator strictly increases between the two passes
/// — no wraparound — every delta is non-negative, and so is every power
/// value derived from it by the positive watt scaling.
pub proof fn lemma_monotonic_energy_nonnegative(
    packages: Seq<u32>,
    start: Seq<EnergyReading>,
    end: Seq<EnergyReading>,
)
    requires
        start.len() == packages.len(),
        end.len() == packages.len(),
        forall|i: int| 0 <= i < packages.len() ==> start[i].core_energy < end[i].core_energy,
        forall|i: int|
            0 <= i < packages.len() ==> start[i].package_energy < end[i].package_energy,
    ensures
        forall|i: int|
            0 <= i < packages.len() ==> spec_snapshot_entries(packages, start, end)[i].core_delta
                >= 0,
        forall|i: int|
            0 <= i < packages.len() ==> spec_snapshot_entries(
                packages,
                start,
                end,
            )[i].package_delta >= 0,
{
}

} // verus!
