//! Weights of the faucet's calls.
use vstd::prelude::*;

verus! {

/// The cost of a call: execution time and proof size.
#[derive(Debug, Clone, Copy, PartialEq, Eq, Structural)]
pub struct Weight {
    pub ref_time: u64,
    pub proof_size: u64,
}

/// The weight of each faucet call.
pub trait WeightInfo {
    fn drip() -> Weight;
}

/// The weights measured for the faucet.
pub struct SubstrateWeight;

impl WeightInfo for SubstrateWeight {
    fn drip() -> (w: Weight)
        ensures
            w == (Weight { ref_time: 10_000_000, proof_size: 0 }),
    {
        Weight { ref_time: 10_000_000, proof_size: 0 }
    }
}

impl WeightInfo for () {
    fn drip() -> (w: Weight)
        ensures
            w == (Weight { ref_time: 10_000_000, proof_size: 0 }),
    {
        Weight { ref_time: 10_000_000, proof_size: 0 }
    }
}

} // verus!
