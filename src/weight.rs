use vstd::prelude::*;

verus! {

/// A two-dimensional execution cost: computation time and proof size.
///
/// The nonce check only carries a weight from one phase to the next; it never
/// looks at its magnitude.
#[derive(Clone, Copy, PartialEq, Eq, Debug, Structural)]
pub struct Weight {
    pub ref_time: u64,
    pub proof_size: u64,
}

impl Weight {
    /// The weight of nothing.
    pub fn zero() -> (r: Weight)
        ensures
            r == (Weight { ref_time: 0, proof_size: 0 }),
    {
        Weight { ref_time: 0, proof_size: 0 }
    }

    /// A weight made of its two components.
    pub fn from_parts(ref_time: u64, proof_size: u64) -> (r: Weight)
        ensures
            r.ref_time == ref_time,
            r.proof_size == proof_size,
    {
        Weight { ref_time, proof_size }
    }
}

} // verus!
