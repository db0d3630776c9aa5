//! The result of one differential sampling pass.
//!
//! A snapshot holds one entry per enumerated core, in enumeration order.
//! Each entry carries the raw accumulator deltas of the sampling window —
//! watts are the delta scaled by the energy unit and the sampling rate,
//! a scaling the caller applies — plus the core's package id.

use vstd::prelude::*;

verus! {

/// Deltas of one core over the sampling window: raw end-of-window
/// accumulator value minus start-of-window value, for the core's own and
/// its package's energy accumulator.
///
/// A delta is signed on purpose: accumulator wraparound is not handled, so
/// a wrapped counter surfaces as a large negative delta rather than being
/// silently clamped.
#[derive(Clone, Copy, Debug, PartialEq, Eq, Structural)]
pub struct CorePowerDelta {
    /// Raw delta of the per-core energy accumulator.
    pub core_delta: i128,
    /// Raw delta of the per-package energy accumulator, as read through
    /// this core.
    pub package_delta: i128,
    /// The package this core belongs to.
    pub package: u32,
}

/// One differential sample: an ordered sequence of per-core deltas, one
/// per enumerated core. Immutable once produced.
#[derive(Clone, Debug)]
pub struct PowerSnapshot {
    /// One entry per core, in enumeration order.
    pub entries: Vec<CorePowerDelta>,
}

/// The per-core projection: every entry's core delta, in order.
pub open spec fn spec_cores(s: Seq<CorePowerDelta>) -> Seq<i128> {
    s.map_values(|e: CorePowerDelta| e.core_delta)
}

/// The per-package projection: one package delta per contiguous run of
/// equal package ids, scanning left to right. The first entry always
/// emits; after that an entry emits exactly when its package id differs
/// from its predecessor's. Same-package cores are assumed contiguous in
/// enumeration order.
pub open spec fn spec_packages(s: Seq<CorePowerDelta>) -> Seq<i128>
    decreases s.len(),
{
    if s.len() == 0 {
        Seq::empty()
    } else if s.len() == 1 || s[s.len() - 2].package != s[s.len() - 1].package {
        spec_packages(s.drop_last()).push(s[s.len() - 1].package_delta)
    } else {
        spec_packages(s.drop_last())
    }
}

impl PowerSnapshot {
    /// How many cores the snapshot covers.
    pub fn len(&self) -> (n: usize)
        ensures
            n == self.entries@.len(),
    {
        self.entries.len()
    }

    /// The power draw of every core, in enumeration order, as raw deltas.
    pub fn cores(&self) -> (r: Vec<i128>)
        ensures
            r@ == spec_cores(self.entries@),
    {
        let n = self.entries.len();
        let mut r: Vec<i128> = Vec::new();
        let mut i: usize = 0;
        while i < n
            invariant
                i <= n,
                n == self.entries@.len(),
                r@ == spec_cores(self.entries@.take(i as int)),
            decreases n - i,
        {
            r.push(self.entries[i].core_delta);
            proof {
                assert(spec_cores(self.entries@.take(i as int + 1)) =~= spec_cores(
                    self.entries@.take(i as int),
                ).push(self.entries@[i as int].core_delta));
            }
            i = i + 1;
        }
        proof {
            assert(self.entries@.take(n as int) =~= self.entries@);
        }
        r
    }

    /// The power draw of every package, as raw deltas: one value per
    /// contiguous run of equal package ids, in enumeration order.
    pub fn packages(&self) -> (r: Vec<i128>)
        ensures
            r@ == spec_packages(self.entries@),
    {
        let n = self.entries.len();
        let mut r: Vec<i128> = Vec::new();
        let mut i: usize = 0;
        while i < n
            invariant
                i <= n,
                n == self.entries@.len(),
                r@ == spec_packages(self.entries@.take(i as int)),
            decreases n - i,
        {
            let emit = if i == 0 {
                true
            } else {
                self.entries[i - 1].package != self.entries[i].package
            };
            if emit {
                r.push(self.entries[i].package_delta);
            }
            proof {
                assert(self.entries@.take(i as int + 1).drop_last() =~= self.entries@.take(
                    i as int,
                ));
            }
            i = i + 1;
        }
        proof {
            assert(self.entries@.take(n as int) =~= self.entries@);
        }
        r
    }
}

/// Law: a snapshot never yields more package readings than core readings,
/// and the two counts are equal exactly when no two neighbouring entries
/// share a package id.
pub proof fn lemma_packages_at_most_cores(s: Seq<CorePowerDelta>)
    ensures
        spec_packages(s).len() <= s.len(),
        (spec_packages(s).len() == s.len()) <==> (forall|i: int|
            1 <= i < s.len() ==> (#[trigger] s[i]).package != s[i - 1].package),
    decreases s.len(),
{
    if s.len() == 0 {
    } else {
        let t = s.drop_last();
        lemma_packages_at_most_cores(t);
        assert(forall|i: int| 0 <= i < t.len() ==> t[i] == s[i]);
        if s.len() == 1 || s[s.len() - 2].package != s[s.len() - 1].package {
            assert((spec_packages(t).len() == t.len()) <==> (forall|i: int|
                1 <= i < s.len() - 1 ==> (#[trigger] s[i]).package != s[i - 1].package));
        } else {
            assert(!(s[s.len() - 1].package != s[s.len() - 2].package));
        }
    }
}

} // verus!
