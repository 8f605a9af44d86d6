//! Host state snapshots that the eligibility and mutation gates read.

use vstd::prelude::*;

verus! {

/// Balances of a host's bio-token state, in millionths.
#[derive(Clone, Copy, Debug)]
pub struct BioTokenState {
    pub brain: i64,
    pub blood: i64,
    pub oxygen: i64,
    pub smart: i64,
}

/// Host-defined floors and ceilings for the bio-token balances, in
/// millionths.
#[derive(Clone, Copy, Debug)]
pub struct HostEnvelope {
    pub brainmin: i64,
    pub bloodmin: i64,
    pub oxygenmin: i64,
    pub smartmax: i64,
}

/// A small adjustment of the bio-token balances proposed to the ledger,
/// in millionths.
#[derive(Clone, Copy, Debug)]
pub struct SystemAdjustment {
    pub deltabrain: i64,
    pub deltablood: i64,
    pub deltaoxygen: i64,
    pub deltasmart: i64,
}

} // verus!
