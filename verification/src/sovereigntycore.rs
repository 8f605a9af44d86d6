//! The sovereignty core: decides on a proposal for the host's own state.
//!
//! A proposal must come from the host, stay inside the neurorights
//! envelope and the safety corridor, and pass the risk evaluation: under
//! the strict band if it can, under the elevated band with a capability
//! token otherwise.

use vstd::prelude::*;
use crate::bio_defense::EvolutionDomainId;
use crate::reason::{reason_text, DenyReason};
use crate::riskofharm::{selected_verdict, RiskDecision, RiskOfHarm, RiskQuery};
use crate::rohmodel::RohBands;
use crate::text::str_eq;
use crate::tokenguard::{token_of, CapabilityToken, NormalizedMetrics};

verus! {

/// Classification of a proposal.
#[derive(Clone, Copy, Debug, PartialEq, Eq, Structural)]
pub enum ProposalKind {
    ParamNudge,
    ThresholdShift,
    ModeShift,
    PolicyUpdate,
    /// An upgrade specific to one domain.
    DomainUpgrade,
}

/// The host's current state as the core reads it, in millionths.
#[derive(Clone, Copy, Debug)]
pub struct NormalizedBioState {
    pub metrics: NormalizedMetrics,
    /// Current risk score.
    pub roh: i64,
    pub pain_vas: i64,
    pub cognitive_load: i64,
}

/// A proposed mutation. It is built once and only read afterwards.
#[derive(Clone, Debug)]
pub struct Proposal {
    pub id: String,
    /// Subject the mutation applies to.
    pub subjectid: String,
    /// Domain the mutation targets.
    pub domain_id: EvolutionDomainId,
    pub kind: ProposalKind,
    /// Change of the risk score that the mutation would cause, in
    /// millionths.
    pub roh_delta: i64,
    /// Whether the mutation is flagged critical.
    pub critical: bool,
    /// Physiological measures projected for the state after the mutation.
    pub projected_metrics: NormalizedMetrics,
}

/// Decision of the core, with the reason of a denial as text.
#[derive(Clone, Debug)]
pub enum Decision {
    Allowed,
    Denied(String),
}

/// Envelope of the host's neurorights, in millionths.
#[derive(Clone, Copy, Debug)]
pub struct NeurorightsProfile {
    pub max_pain_vas: i64,
    pub max_cognitive_load: i64,
}

/// Who holds the stake in the state: the host.
#[derive(Clone, Debug)]
pub struct StakePolicy {
    pub subjectid: String,
}

/// Why the core denied a proposal.
#[derive(Clone, Copy, Debug, PartialEq, Eq, Structural)]
pub enum Denial {
    /// The proposal's subject is not the host.
    SubjectNotHost,
    /// Pain is above the neurorights envelope.
    PainEnvelopeExceeded,
    /// Cognitive load is above the neurorights envelope.
    CognitiveLoadExceeded,
    /// The projected state leaves the safety corridor.
    LeavesCorridor,
    /// The risk evaluation denied.
    Risk(DenyReason),
}

/// The core with its policies.
#[derive(Debug)]
pub struct SovereigntyCore {
    pub neurorights: NeurorightsProfile,
    pub stake: StakePolicy,
    pub risk: RiskOfHarm,
}

/// The risk score after a change of `delta`, saturating at the limits of
/// the number type.
pub open spec fn projected_roh(roh: i64, delta: i64) -> i64 {
    if roh + delta > i64::MAX {
        i64::MAX
    } else if roh + delta < i64::MIN {
        i64::MIN
    } else {
        (roh + delta) as i64
    }
}

/// The magnitude of a change of the risk score, saturating at the upper
/// limit of the number type.
pub open spec fn effect_magnitude(delta: i64) -> i64 {
    if delta == i64::MIN {
        i64::MAX
    } else if delta < 0 {
        (-delta) as i64
    } else {
        delta
    }
}

/// The text of a denial.
pub open spec fn denial_text(d: Denial) -> &'static str {
    match d {
        Denial::SubjectNotHost => "Subject is not host",
        Denial::PainEnvelopeExceeded => "Pain envelope exceeded",
        Denial::CognitiveLoadExceeded => "Cognitive load envelope exceeded",
        Denial::LeavesCorridor => "Projected state leaves safety corridor",
        Denial::Risk(r) => reason_text(r),
    }
}

/// What the risk evaluation of a proposal is asked.
pub open spec fn risk_query(state: NormalizedBioState, proposal: Proposal, now_unix: i64)
    -> RiskQuery {
    RiskQuery {
        roh_before: state.roh,
        roh_after: projected_roh(state.roh, proposal.roh_delta),
        effect_l2: effect_magnitude(proposal.roh_delta),
        kind: proposal.kind,
        now_unix,
        metrics: proposal.projected_metrics,
        pain_vas: state.pain_vas,
    }
}

/// Verdict of the neurorights envelope: pain is judged before cognitive
/// load. At an envelope limit the state is still inside.
pub open spec fn neurorights_verdict(
    profile: NeurorightsProfile,
    state: NormalizedBioState,
) -> Result<(), Denial> {
    if state.pain_vas > profile.max_pain_vas {
        Err(Denial::PainEnvelopeExceeded)
    } else if state.cognitive_load > profile.max_cognitive_load {
        Err(Denial::CognitiveLoadExceeded)
    } else {
        Ok(())
    }
}

/// Verdict of the core on a proposal.
///
/// In order: the subject must be the host; the state must be inside the
/// neurorights envelope; the projected state must be inside the corridor.
/// Then the risk is evaluated: under the strict band where it holds,
/// under the elevated band otherwise, whose denial is the verdict.
pub open spec fn assessment(
    neurorights: NeurorightsProfile,
    host: Seq<char>,
    bands: RohBands,
    state: NormalizedBioState,
    proposal: Proposal,
    projected_in_corridor: bool,
    token: Option<CapabilityToken>,
    now_unix: i64,
) -> Result<RiskDecision, Denial> {
    let q = risk_query(state, proposal, now_unix);
    if proposal.subjectid@ != host {
        Err(Denial::SubjectNotHost)
    } else if neurorights_verdict(neurorights, state) is Err {
        Err(neurorights_verdict(neurorights, state).unwrap_err())
    } else if !projected_in_corridor {
        Err(Denial::LeavesCorridor)
    } else {
        match selected_verdict(bands, q, token, proposal.subjectid@) {
            Ok(d) => Ok(d),
            Err(e) => Err(Denial::Risk(e)),
        }
    }
}

impl Denial {
    /// The text of the denial.
    pub fn describe(&self) -> (r: &'static str)
        ensures
            r == denial_text(*self),
    {
        match self {
            Denial::SubjectNotHost => "Subject is not host",
            Denial::PainEnvelopeExceeded => "Pain envelope exceeded",
            Denial::CognitiveLoadExceeded => "Cognitive load envelope exceeded",
            Denial::LeavesCorridor => "Projected state leaves safety corridor",
            Denial::Risk(r) => r.describe(),
        }
    }
}

/// Computes the risk score after a change of `delta`.
pub fn project_roh(roh: i64, delta: i64) -> (r: i64)
    ensures
        r == projected_roh(roh, delta),
{
    let sum: i128 = roh as i128 + delta as i128;
    if sum > i64::MAX as i128 {
        i64::MAX
    } else if sum < i64::MIN as i128 {
        i64::MIN
    } else {
        sum as i64
    }
}

/// Computes the magnitude of a change of the risk score.
pub fn magnitude(delta: i64) -> (r: i64)
    ensures
        r == effect_magnitude(delta),
        r >= 0,
{
    if delta == i64::MIN {
        i64::MAX
    } else if delta < 0 {
        -delta
    } else {
        delta
    }
}

/// Builds the risk query of a proposal.
pub fn build_risk_query(state: &NormalizedBioState, proposal: &Proposal, now_unix: i64) -> (q:
    RiskQuery)
    ensures
        q == risk_query(*state, *proposal, now_unix),
{
    RiskQuery {
        roh_before: state.roh,
        roh_after: project_roh(state.roh, proposal.roh_delta),
        effect_l2: magnitude(proposal.roh_delta),
        kind: proposal.kind,
        now_unix,
        metrics: proposal.projected_metrics,
        pain_vas: state.pain_vas,
    }
}

impl SovereigntyCore {
    /// Checks the state against the neurorights envelope.
    pub fn check_neurorights(&self, state: &NormalizedBioState) -> (r: Result<(), Denial>)
        ensures
            r == neurorights_verdict(self.neurorights, *state),
    {
        if state.pain_vas > self.neurorights.max_pain_vas {
            return Err(Denial::PainEnvelopeExceeded);
        }
        if state.cognitive_load > self.neurorights.max_cognitive_load {
            return Err(Denial::CognitiveLoadExceeded);
        }
        Ok(())
    }

    /// Assesses a proposal and names the band it was accepted under, or
    /// the reason it was denied for. `projected_in_corridor` says whether
    /// the projected state lies inside the safety corridor.
    pub fn assess(
        &self,
        state: &NormalizedBioState,
        proposal: &Proposal,
        projected_in_corridor: bool,
        token: Option<&CapabilityToken>,
        now_unix: i64,
    ) -> (r: Result<RiskDecision, Denial>)
        ensures
            r == assessment(
                self.neurorights,
                self.stake.subjectid@,
                self.risk.bands(),
                *state,
                *proposal,
                projected_in_corridor,
                token_of(token),
                now_unix,
            ),
    {
        if !str_eq(proposal.subjectid.as_str(), self.stake.subjectid.as_str()) {
            return Err(Denial::SubjectNotHost);
        }
        match self.check_neurorights(state) {
            Err(e) => {
                return Err(e);
            },
            Ok(_) => {},
        }
        if !projected_in_corridor {
            return Err(Denial::LeavesCorridor);
        }
        let q = build_risk_query(state, proposal, now_unix);
        match self.risk.evaluate_selecting_band(&q, token, proposal.subjectid.as_str()) {
            Ok(d) => Ok(d),
            Err(e) => Err(Denial::Risk(e)),
        }
    }

    /// Decides on a proposal. A denial carries the text of its reason.
    pub fn evaluate(
        &self,
        state: &NormalizedBioState,
        proposal: &Proposal,
        projected_in_corridor: bool,
        token: Option<&CapabilityToken>,
        now_unix: i64,
    ) -> (d: Decision)
        ensures
            match assessment(
                self.neurorights,
                self.stake.subjectid@,
                self.risk.bands(),
                *state,
                *proposal,
                projected_in_corridor,
                token_of(token),
                now_unix,
            ) {
                Ok(_) => d is Allowed,
                Err(e) => d is Denied && d->0@ == denial_text(e)@,
            },
    {
        match self.assess(state, proposal, projected_in_corridor, token, now_unix) {
            Ok(_) => Decision::Allowed,
            Err(e) => Decision::Denied(e.describe().to_owned()),
        }
    }
}

} // verus!
