//! The CPU-discovery state machine.
//!
//! Construction probes CPU ordinals densely from zero: the caller opens the
//! per-CPU files for exactly the ordinals this machine hands out, in order,
//! and records each outcome. The first probe that finds the ordinal absent
//! ends the scan — an absent ordinal means the ordinal space is exhausted,
//! so the ordinal after a gap is never probed. Any other failure aborts the
//! scan and is kept for the caller.

use crate::error::Error;
use vstd::prelude::*;

verus! {

/// Hard ceiling on probed CPU ordinals.
pub const MAX_CPUS: u32 = 1024;

/// What probing one CPU ordinal turned up.
pub enum ProbeOutcome {
    /// The ordinal exists; its topology attribute gave this package id.
    Found(u32),
    /// The ordinal has no register device or topology entry: since
    /// ordinals are dense starting at zero, the ordinal space is
    /// exhausted.
    Exhausted,
    /// The ordinal exists but probing it failed.
    Failed(Error),
}

/// Where a scan stands.
pub enum EnumerationPhase {
    /// Still probing ordinals.
    Scanning,
    /// A probe reported the end of the ordinal space.
    Complete,
    /// A probe failed; the failure is kept for the caller.
    Aborted(Error),
}

/// The discovery state machine: package ids of the cores found so far, the
/// next ordinal to probe, and the phase of the scan.
///
/// No method ever moves the machine out of `Complete` or `Aborted`, so a
/// finished scan stays finished.
pub struct Enumeration {
    /// Package id of each discovered core, in ordinal order.
    pub packages: Vec<u32>,
    /// The next ordinal to probe.
    pub next: u32,
    /// The phase of the scan.
    pub phase: EnumerationPhase,
}

/// The ordinal to probe next: only a machine still scanning below the
/// ceiling hands one out.
pub open spec fn spec_next_ordinal(e: Enumeration) -> Option<u32> {
    if e.phase is Scanning && e.next < MAX_CPUS {
        Some(e.next)
    } else {
        None
    }
}

impl Enumeration {
    /// While scanning, every probed ordinal was answered `Found`, so the
    /// number of recorded package ids equals the next ordinal.
    pub open spec fn wf(&self) -> bool {
        self.next <= MAX_CPUS && (self.phase is Scanning ==> self.packages@.len()
            == self.next)
    }

    /// A fresh scan: nothing found, ordinal zero up first.
    pub fn new() -> (e: Enumeration)
        ensures
            e.wf(),
            e.packages@ =~= Seq::<u32>::empty(),
            e.next == 0,
            e.phase is Scanning,
    {
        Enumeration { packages: Vec::new(), next: 0, phase: EnumerationPhase::Scanning }
    }

    /// The ordinal the caller must probe next, or `None` once the scan is
    /// over.
    pub fn next_ordinal(&self) -> (r: Option<u32>)
        ensures
            r == spec_next_ordinal(*self),
    {
        match self.phase {
            EnumerationPhase::Scanning => if self.next < MAX_CPUS {
                Some(self.next)
            } else {
                None
            },
            _ => None,
        }
    }

    /// Record the outcome of probing the handed-out ordinal.
    pub fn record(&mut self, outcome: ProbeOutcome)
        requires
            old(self).wf(),
            old(self).phase is Scanning,
            old(self).next < MAX_CPUS,
        ensures
            final(self).wf(),
            match outcome {
                ProbeOutcome::Found(p) => final(self).phase is Scanning
                    && final(self).packages@ == old(self).packages@.push(p)
                    && final(self).next == old(self).next + 1,
                ProbeOutcome::Exhausted => final(self).phase is Complete
                    && final(self).packages@ == old(self).packages@
                    && final(self).next == old(self).next,
                ProbeOutcome::Failed(e) => (final(self).phase matches EnumerationPhase::Aborted(e2)
                    && e2 == e) && final(self).packages@ == old(self).packages@,
            },
    {
        match outcome {
            ProbeOutcome::Found(p) => {
                self.packages.push(p);
                self.next = self.next + 1;
            },
            ProbeOutcome::Exhausted => {
                self.phase = EnumerationPhase::Complete;
            },
            ProbeOutcome::Failed(e) => {
                self.phase = EnumerationPhase::Aborted(e);
            },
        }
    }

    /// Close the scan: an aborted scan hands back its failure, a scan that
    /// found no core at all fails with `NoCores`, and any other scan hands
    /// back the package ids in ordinal order.
    pub fn finish(self) -> (r: Result<Vec<u32>, Error>)
        ensures
            match self.phase {
                EnumerationPhase::Aborted(e) => r matches Err(e2) && e2 == e,
                _ => if self.packages@.len() == 0 {
                    r matches Err(e) && e is NoCores
                } else {
                    (r matches Ok(v) && v@ == self.packages@)
                },
            },
    {
        match self.phase {
            EnumerationPhase::Aborted(e) => Err(e),
            _ => {
                if self.packages.len() == 0 {
                    Err(Error::NoCores)
                } else {
                    Ok(self.packages)
                }
            },
        }
    }
}

/// Law: enumeration never proceeds past a gap. A machine whose scan has
/// ended — in particular one that just recorded an `Exhausted` probe, which
/// `record` moves to `Complete` — hands out no further ordinal, and no
/// method moves a machine back into `Scanning`.
pub proof fn lemma_no_probe_past_gap(e: Enumeration)
    requires
        !(e.phase is Scanning),
    ensures
        spec_next_ordinal(e) is None,
{
}

} // verus!
