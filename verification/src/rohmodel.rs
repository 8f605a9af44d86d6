//! Risk-of-harm model configuration: the two ceilings and their
//! invariants.

use vstd::prelude::*;

verus! {

/// The absolute maximum of any risk ceiling: 0.45.
pub const ROH_CEILING_MAX: i64 = 450_000;

/// The two ceilings of the risk score, in millionths.
#[derive(Clone, Copy, Debug)]
pub struct RohBands {
    pub rohceiling_strict: i64,
    pub rohceiling_research: i64,
}

/// A risk model as configured.
#[derive(Clone, Debug)]
pub struct RohModelCore {
    pub id: String,
    pub bands: RohBands,
    pub notes: Option<String>,
}

/// A risk model as loaded from its shard.
#[derive(Clone, Debug)]
pub struct RohModelShard {
    pub model: RohModelCore,
}

/// A configuration that must not be loaded.
#[derive(Clone, Copy, Debug, PartialEq, Eq, Structural)]
pub enum RohConfigError {
    /// The research ceiling lies below the strict ceiling.
    ResearchBelowStrict,
    /// The research ceiling lies above the absolute maximum.
    ResearchAboveMax,
}

impl RohConfigError {
    /// The message of the error.
    pub fn message(&self) -> (r: &'static str)
        ensures
            r == match *self {
                RohConfigError::ResearchBelowStrict => "research ceiling < strict ceiling",
                RohConfigError::ResearchAboveMax => "research ceiling > 0.45",
            },
    {
        match self {
            RohConfigError::ResearchBelowStrict => "research ceiling < strict ceiling",
            RohConfigError::ResearchAboveMax => "research ceiling > 0.45",
        }
    }
}

/// Whether the ceilings are ordered: strict, then research, then the
/// absolute maximum.
pub open spec fn bands_ordered(bands: RohBands) -> bool {
    bands.rohceiling_strict <= bands.rohceiling_research <= ROH_CEILING_MAX
}

impl RohModelShard {
    /// Verdict on the ceilings. A research ceiling below the strict one is
    /// reported before one above the absolute maximum.
    pub open spec fn validate_spec(&self) -> Result<(), RohConfigError> {
        if self.model.bands.rohceiling_research < self.model.bands.rohceiling_strict {
            Err(RohConfigError::ResearchBelowStrict)
        } else if self.model.bands.rohceiling_research > ROH_CEILING_MAX {
            Err(RohConfigError::ResearchAboveMax)
        } else {
            Ok(())
        }
    }

    /// The strict ceiling.
    pub fn roh_ceiling_strict(&self) -> (r: i64)
        ensures
            r == self.model.bands.rohceiling_strict,
    {
        self.model.bands.rohceiling_strict
    }

    /// The research ceiling.
    pub fn roh_ceiling_research(&self) -> (r: i64)
        ensures
            r == self.model.bands.rohceiling_research,
    {
        self.model.bands.rohceiling_research
    }

    /// Validates the ceilings at load time. A research ceiling below the
    /// strict one is reported first.
    pub fn validate_invariants(&self) -> (r: Result<(), RohConfigError>)
        ensures
            r == self.validate_spec(),
            r is Ok <==> bands_ordered(self.model.bands),
    {
        if self.model.bands.rohceiling_research < self.model.bands.rohceiling_strict {
            return Err(RohConfigError::ResearchBelowStrict);
        }
        if self.model.bands.rohceiling_research > ROH_CEILING_MAX {
            return Err(RohConfigError::ResearchAboveMax);
        }
        Ok(())
    }
}

} // verus!
