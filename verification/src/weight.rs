//! The scalar weight type and the database cost table it is charged
//! against. All arithmetic saturates at `u64::MAX` instead of wrapping,
//! so adding up many weights can never overflow or panic.

use vstd::prelude::*;

verus! {

/// Saturating sum of two 64-bit values.
pub open spec fn sat_add(a: u64, b: u64) -> u64 {
    if a + b > u64::MAX {
        u64::MAX
    } else {
        (a + b) as u64
    }
}

/// Saturating product of two 64-bit values.
pub open spec fn sat_mul(a: u64, b: u64) -> u64 {
    if a * b > u64::MAX {
        u64::MAX
    } else {
        (a * b) as u64
    }
}

/// A two-dimensional resource cost: computation time in picoseconds and
/// proof size in bytes.
#[derive(Clone, Copy, Debug, PartialEq, Eq, Structural)]
pub struct Weight {
    /// Estimated computation time, in picoseconds.
    pub ref_time: u64,
    /// Estimated proof-size footprint, in bytes.
    pub proof_size: u64,
}

impl Weight {
    /// The weight with the given time and proof-size components.
    pub fn from_parts(ref_time: u64, proof_size: u64) -> (w: Weight)
        ensures
            w.ref_time == ref_time,
            w.proof_size == proof_size,
    {
        Weight { ref_time, proof_size }
    }

    /// Component-wise saturating sum of two weights.
    pub open spec fn spec_saturating_add(self, rhs: Weight) -> Weight {
        Weight {
            ref_time: sat_add(self.ref_time, rhs.ref_time),
            proof_size: sat_add(self.proof_size, rhs.proof_size),
        }
    }

    /// Adds `rhs` component-wise, saturating at `u64::MAX`.
    pub fn saturating_add(self, rhs: Weight) -> (w: Weight)
        ensures
            w == self.spec_saturating_add(rhs),
    {
        Weight {
            ref_time: self.ref_time.saturating_add(rhs.ref_time),
            proof_size: self.proof_size.saturating_add(rhs.proof_size),
        }
    }

    /// The time component, in picoseconds.
    pub fn ref_time(&self) -> (t: u64)
        ensures
            t == self.ref_time,
    {
        self.ref_time
    }

    /// The proof-size component, in bytes.
    pub fn proof_size(&self) -> (p: u64)
        ensures
            p == self.proof_size,
    {
        self.proof_size
    }
}

/// The cost the runtime charges for one storage read and one storage
/// write, in picoseconds each.
#[derive(Clone, Copy, Debug, PartialEq, Eq, Structural)]
pub struct RuntimeDbWeight {
    /// Time charged per storage read, in picoseconds.
    pub read: u64,
    /// Time charged per storage write, in picoseconds.
    pub write: u64,
}

impl RuntimeDbWeight {
    /// The cost table with the given per-read and per-write charges.
    pub fn new(read: u64, write: u64) -> (d: RuntimeDbWeight)
        ensures
            d.read == read,
            d.write == write,
    {
        RuntimeDbWeight { read, write }
    }

    /// The weight of `n` storage reads: pure computation time, no
    /// proof-size footprint.
    pub open spec fn spec_reads(self, n: u64) -> Weight {
        Weight { ref_time: sat_mul(self.read, n), proof_size: 0 }
    }

    /// The weight of `n` storage writes: pure computation time, no
    /// proof-size footprint.
    pub open spec fn spec_writes(self, n: u64) -> Weight {
        Weight { ref_time: sat_mul(self.write, n), proof_size: 0 }
    }

    /// The weight of `n` storage reads, saturating at `u64::MAX`.
    pub fn reads(&self, n: u64) -> (w: Weight)
        ensures
            w == self.spec_reads(n),
    {
        let t: u64 = match self.read.checked_mul(n) {
            Some(v) => v,
            None => u64::MAX,
        };
        Weight { ref_time: t, proof_size: 0 }
    }

    /// The weight of `n` storage writes, saturating at `u64::MAX`.
    pub fn writes(&self, n: u64) -> (w: Weight)
        ensures
            w == self.spec_writes(n),
    {
        let t: u64 = match self.write.checked_mul(n) {
            Some(v) => v,
            None => u64::MAX,
        };
        Weight { ref_time: t, proof_size: 0 }
    }
}

} // verus!
