//! Propose-only terminals: they may submit proposals and can never
//! actuate.

use vstd::prelude::*;

verus! {

/// What a propose-only terminal is allowed to emit.
#[derive(Clone, Debug)]
pub struct ProposedUpgrade {
    pub session_id: String,
    /// The proposal as written.
    pub raw_aln: String,
    /// Human-checked label of the intent.
    pub parsed_intent: String,
}

/// Why a proposal was refused.
#[derive(Clone, Copy, Debug, PartialEq, Eq, Structural)]
pub enum PolicyError {
    InvalidGrammar,
    UnsafeTerminalClass,
    MissingEvidenceBundle,
}

/// A terminal that can only propose.
pub trait ProposeOnlyTerminal {
    /// Submits a proposal as written.
    fn submit_proposal_aln(&self, raw_aln: &str) -> Result<ProposedUpgrade, PolicyError>;
}

} // verus!
