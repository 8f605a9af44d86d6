//! Risk-of-harm evaluation against the strict and the research ceiling.
//!
//! A risk score is a number in millionths, computed fresh for the state
//! before and after a proposal. The evaluator only compares scores.

use vstd::prelude::*;
use crate::reason::DenyReason;
use crate::sovereigntycore::ProposalKind;
use crate::tokenguard::{
    elevated_verdict, enforce_research_band, token_of, verify_token, CapabilityToken,
    NormalizedMetrics, RiskBand,
};
use crate::rohmodel::{bands_ordered, RohBands, RohConfigError, RohModelShard, ROH_CEILING_MAX};

verus! {

/// What one risk evaluation is asked: the scores before and after the
/// proposal, the size and kind of the effect, the time, and the host's
/// physiology. Scores and measures are in millionths.
#[derive(Clone, Copy, Debug)]
pub struct RiskQuery {
    pub roh_before: i64,
    pub roh_after: i64,
    pub effect_l2: i64,
    pub kind: ProposalKind,
    pub now_unix: i64,
    pub metrics: NormalizedMetrics,
    pub pain_vas: i64,
}

/// An accepted risk evaluation: the band it was accepted under and the
/// score it ends at.
#[derive(Clone, Copy, Debug, PartialEq, Eq, Structural)]
pub struct RiskDecision {
    pub band: RiskBand,
    pub roh_after: i64,
}

/// Verdict of a risk evaluation under `band`.
///
/// The strict band requires that risk does not rise and ends at or below
/// the strict ceiling. The elevated band requires the full token gate, an
/// effect within the token's limit, an end at or below the elevated
/// ceiling and a satisfied physiological guard; it does not require that
/// risk does not rise.
pub open spec fn risk_verdict(
    bands: RohBands,
    q: RiskQuery,
    band: RiskBand,
    token: Option<CapabilityToken>,
    subjectid: Seq<char>,
) -> Result<RiskDecision, DenyReason> {
    match band {
        RiskBand::Strict => if strict_band_holds(bands, q.roh_before, q.roh_after) {
            Ok(RiskDecision { band: RiskBand::Strict, roh_after: q.roh_after })
        } else {
            Err(DenyReason::StrictCeilingViolation)
        },
        RiskBand::Elevated => match elevated_verdict(
            token,
            subjectid,
            q.kind,
            q.now_unix,
            q.effect_l2,
            q.roh_after,
            bands.rohceiling_research,
            q.metrics,
            q.pain_vas,
        ) {
            Err(e) => Err(e),
            Ok(_) => Ok(RiskDecision { band: RiskBand::Elevated, roh_after: q.roh_after }),
        },
    }
}

/// Verdict of a risk evaluation that selects the band itself: the strict
/// band where it holds, the elevated band otherwise.
pub open spec fn selected_verdict(
    bands: RohBands,
    q: RiskQuery,
    token: Option<CapabilityToken>,
    subjectid: Seq<char>,
) -> Result<RiskDecision, DenyReason> {
    if strict_band_holds(bands, q.roh_before, q.roh_after) {
        Ok(RiskDecision { band: RiskBand::Strict, roh_after: q.roh_after })
    } else {
        risk_verdict(bands, q, RiskBand::Elevated, token, subjectid)
    }
}

/// Evaluator of risk scores under a validated model.
#[derive(Debug)]
pub struct RiskOfHarm {
    model: RohModelShard,
}

impl RiskOfHarm {
    /// The ceilings of the model.
    pub closed spec fn bands(&self) -> RohBands {
        self.model.model.bands
    }

    /// The ceilings are ordered: strict, research, absolute maximum.
    #[verifier::type_invariant]
    pub closed spec fn well_formed(&self) -> bool {
        bands_ordered(self.model.model.bands)
    }

    /// Takes a model into use. A model whose ceilings are out of order is
    /// refused, so no evaluator exists for it.
    pub fn new(model: RohModelShard) -> (r: Result<RiskOfHarm, RohConfigError>)
        ensures
            r is Ok <==> bands_ordered(model.model.bands),
            r is Ok ==> r.unwrap().bands() == model.model.bands,
            r is Err ==> Err::<(), _>(r.unwrap_err()) == model.validate_spec(),
    {
        match model.validate_invariants() {
            Err(e) => Err(e),
            Ok(_) => Ok(RiskOfHarm { model }),
        }
    }

    /// The strict ceiling.
    pub fn ceiling_strict(&self) -> (r: i64)
        ensures
            r == self.bands().rohceiling_strict,
    {
        self.model.roh_ceiling_strict()
    }

    /// The research ceiling.
    pub fn ceiling_research(&self) -> (r: i64)
        ensures
            r == self.bands().rohceiling_research,
    {
        self.model.roh_ceiling_research()
    }

    /// Strict band: risk must not rise and must end at or below the strict
    /// ceiling.
    pub fn check_normal(&self, roh_before: i64, roh_after: i64) -> (r: bool)
        ensures
            r == strict_band_holds(self.bands(), roh_before, roh_after),
            bands_ordered(self.bands()),
    {
        proof {
            use_type_invariant(self);
        }
        roh_after <= roh_before && roh_after <= self.ceiling_strict()
    }

    /// Evaluates a proposal's risk under `band`. A token matters only to
    /// the elevated band.
    pub fn evaluate(
        &self,
        q: &RiskQuery,
        band: RiskBand,
        token: Option<&CapabilityToken>,
        subjectid: &str,
    ) -> (r: Result<RiskDecision, DenyReason>)
        ensures
            r == risk_verdict(self.bands(), *q, band, token_of(token), subjectid@),
            bands_ordered(self.bands()),
    {
        proof {
            use_type_invariant(self);
        }
        match band {
            RiskBand::Strict => {
                if self.check_normal(q.roh_before, q.roh_after) {
                    Ok(RiskDecision { band: RiskBand::Strict, roh_after: q.roh_after })
                } else {
                    Err(DenyReason::StrictCeilingViolation)
                }
            },
            RiskBand::Elevated => {
                match verify_token(token, subjectid, q.kind, q.now_unix) {
                    Err(e) => {
                        return Err(e);
                    },
                    Ok(_) => {},
                }
                let t = match token {
                    Some(t) => t,
                    None => {
                        return Err(DenyReason::TokenMissing);
                    },
                };
                match enforce_research_band(
                    t,
                    q.effect_l2,
                    q.roh_after,
                    self.ceiling_research(),
                    &q.metrics,
                    q.pain_vas,
                ) {
                    Err(e) => Err(e),
                    Ok(_) => Ok(RiskDecision { band: RiskBand::Elevated, roh_after: q.roh_after }),
                }
            },
        }
    }

    /// Evaluates a proposal's risk, selecting the band: the strict band is
    /// tried first; where it fails the proposal needs the elevated band and
    /// with it the token.
    pub fn evaluate_selecting_band(
        &self,
        q: &RiskQuery,
        token: Option<&CapabilityToken>,
        subjectid: &str,
    ) -> (r: Result<RiskDecision, DenyReason>)
        ensures
            r == selected_verdict(self.bands(), *q, token_of(token), subjectid@),
            bands_ordered(self.bands()),
    {
        match self.evaluate(q, RiskBand::Strict, None, subjectid) {
            Ok(d) => Ok(d),
            Err(_) => self.evaluate(q, RiskBand::Elevated, token, subjectid),
        }
    }

    /// Research band: risk must end at or below the research ceiling. It
    /// may rise.
    pub fn check_research(&self, roh_before: i64, roh_after: i64) -> (r: bool)
        ensures
            r == research_band_holds(self.bands(), roh_after),
            bands_ordered(self.bands()),
    {
        proof {
            use_type_invariant(self);
        }
        roh_after <= self.ceiling_research()
    }
}

/// Strict band: no rise of risk, and the end at or below the strict
/// ceiling.
pub open spec fn strict_band_holds(bands: RohBands, roh_before: i64, roh_after: i64) -> bool {
    roh_after <= roh_before && roh_after <= bands.rohceiling_strict
}

/// Research band: the end at or below the research ceiling.
pub open spec fn research_band_holds(bands: RohBands, roh_after: i64) -> bool {
    roh_after <= bands.rohceiling_research
}

/// Under ordered ceilings, what the strict band accepts the research band
/// accepts too, and nothing above the absolute maximum is accepted by
/// either.
pub proof fn lemma_strict_within_research(bands: RohBands, roh_before: i64, roh_after: i64)
    requires
        bands_ordered(bands),
    ensures
        strict_band_holds(bands, roh_before, roh_after) ==> research_band_holds(bands, roh_after),
        research_band_holds(bands, roh_after) ==> roh_after <= ROH_CEILING_MAX,
{
}

} // verus!
