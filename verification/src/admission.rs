//! The admission orchestrator: the single entry point that composes every
//! layer into one decision. An engine is started once for a domain, which
//! validates its configuration, and then decides on proposals.
//!
//! The layers run in a fixed order: consent, lifeforce band, resource
//! ceilings, damping bounds, risk of harm, corridor envelope where the
//! domain has one, then evidence and coverage. The first denial is final.
//! Only the corridor layer gathers several reasons, one per breached
//! dimension group.

use vstd::prelude::*;
use crate::bio_defense::{
    assert_epoch_usage_within_bounds, assert_lifeforce_allows_trait, decay_verdict,
    assert_policy_respects_doctrine, enforce_decay_multiplier_bounds, epoch_usage_verdict,
    policy_verdict, BioDefenseDoctrineError, DefensiveEvolutionDomain, DemonstratedConsentShard,
    TraitEpochUsage,
};
use crate::coverage::{check_coverage, coverage_verdict, KaniHarnessIndex, UpgradeTestIndex};
use crate::evidence_bundle::{enforce_evidence_bundle, evidence_verdict, EvidenceBundle};
use crate::fixed::{
    clamp_unit_spec, lemma_damping_never_amplifies, saturated, scale_by, scaled_spec, UNIT,
};
use crate::gaze_v1::{
    breaches, XrCorridorGuardKernel, XrGazeCorridorGuardV1, XrGazeCorridorStateV1,
};
use crate::lifeforce::{LifeforceBand, LifeforceBandSeries};
use crate::metrics::CorridorMetricsSink;
use crate::reason::DenyReason;
use crate::riskofharm::{selected_verdict, RiskOfHarm};
use crate::rohmodel::{RohBands, RohConfigError, RohModelShard};
use crate::sovereigntycore::{build_risk_query, risk_query, NormalizedBioState, Proposal};
use crate::text::str_eq;
use crate::tokenguard::CapabilityToken;
use crate::types::SystemAdjustment;

verus! {

/// The terminal decision on one proposal.
#[derive(Clone, Debug)]
pub enum AdmissionDecision {
    /// The proposal may be applied; the weight damps its magnitude and lies
    /// within zero and one, in millionths.
    Allow { damping_weight: i64 },
    /// The proposal is denied for the listed reasons, in order.
    Deny { reasons: Vec<DenyReason> },
}

/// A corridor guard together with the live state it is to judge.
#[derive(Clone, Debug)]
pub struct CorridorCheck {
    pub guard: XrGazeCorridorGuardV1,
    pub state: XrGazeCorridorStateV1,
}

/// The snapshots one admission decision is taken on.
#[derive(Clone, Debug)]
pub struct AdmissionContext {
    /// Consent record found for host and domain, if any.
    pub consent: Option<DemonstratedConsentShard>,
    /// Lifeforce samples, oldest first.
    pub lifeforce: LifeforceBandSeries,
    /// Usage of the domain in the current epoch.
    pub usage: TraitEpochUsage,
    /// Raw damping multiplier, in millionths.
    pub damping_raw: i64,
    /// Current state of the host.
    pub state: NormalizedBioState,
    /// Capability token, if one was presented.
    pub token: Option<CapabilityToken>,
    /// Time of the decision, Unix seconds.
    pub now_unix: i64,
    /// Corridor of the domain, if it defines one.
    pub corridor: Option<CorridorCheck>,
    /// Evidence bundle of the proposal.
    pub evidence: EvidenceBundle,
    /// Index of unit tests.
    pub test_index: UpgradeTestIndex,
    /// Index of formal harnesses.
    pub kani_index: KaniHarnessIndex,
}

/// Whether a consent record covers the proposal: the policy is that of
/// the domain the proposal targets, and the record names the proposal's
/// subject as host, names that domain, and is revocable.
pub open spec fn consent_covers(
    proposal: Proposal,
    consent: Option<DemonstratedConsentShard>,
    domain: DefensiveEvolutionDomain,
) -> bool {
    &&& consent is Some
    &&& proposal.domain_id.0@ == domain.id.0@
    &&& consent.unwrap().host_id.0@ == proposal.subjectid@
    &&& consent.unwrap().domain_id.0@ == domain.id.0@
    &&& consent.unwrap().is_revocable
}

/// The consent record behind an optional reference.
pub open spec fn consent_of(consent: Option<&DemonstratedConsentShard>) -> Option<
    DemonstratedConsentShard,
> {
    match consent {
        Some(c) => Some(*c),
        None => None,
    }
}

/// Verifies that revocable consent covers the proposal's host and target
/// domain, and that the policy is the one of that domain. Nothing is
/// changed.
pub fn verify_consent(
    proposal: &Proposal,
    consent: Option<&DemonstratedConsentShard>,
    domain: &DefensiveEvolutionDomain,
) -> (r: Result<(), DenyReason>)
    ensures
        r == (if consent_covers(*proposal, consent_of(consent), *domain) {
            Ok::<(), DenyReason>(())
        } else {
            Err::<(), _>(DenyReason::NoValidConsent)
        }),
{
    let c = match consent {
        None => {
            return Err(DenyReason::NoValidConsent);
        },
        Some(c) => c,
    };
    if !str_eq(proposal.domain_id.0.as_str(), domain.id.0.as_str()) {
        return Err(DenyReason::NoValidConsent);
    }
    if !str_eq(c.host_id.0.as_str(), proposal.subjectid.as_str()) {
        return Err(DenyReason::NoValidConsent);
    }
    if !str_eq(c.domain_id.0.as_str(), domain.id.0.as_str()) {
        return Err(DenyReason::NoValidConsent);
    }
    if !c.is_revocable {
        return Err(DenyReason::NoValidConsent);
    }
    Ok(())
}

/// The denial of the lifeforce layer, if it denies: an empty series, a
/// hard stop in the last sample, or a last sample below the domain floor.
pub open spec fn band_denial(lifeforce: LifeforceBandSeries, domain: DefensiveEvolutionDomain)
    -> Option<DenyReason> {
    match lifeforce.last_sample() {
        None => Some(DenyReason::NoSamples),
        Some(last) => if last.band == LifeforceBand::HardStop {
            Some(DenyReason::HardStop)
        } else if last.lifeforcel < domain.lifeforce_floor {
            Some(DenyReason::BelowFloor)
        } else {
            None
        },
    }
}

/// The safety-band guard: judges the last sample of the series. An empty
/// series, a hard stop and a level below the domain floor deny, in this
/// order of precedence. A hard stop cannot be overridden by any other
/// layer.
pub fn assert_safe(lifeforce: &LifeforceBandSeries, domain: &DefensiveEvolutionDomain) -> (r:
    Result<(), DenyReason>)
    ensures
        r == (match band_denial(*lifeforce, *domain) {
            Some(reason) => Err::<(), _>(reason),
            None => Ok::<(), DenyReason>(()),
        }),
        lifeforce.hard_stopped() ==> r == Err::<(), _>(DenyReason::HardStop),
{
    match assert_lifeforce_allows_trait(lifeforce, domain) {
        Ok(_) => Ok(()),
        Err(BioDefenseDoctrineError::LifeforceHardStop) => Err(DenyReason::HardStop),
        Err(BioDefenseDoctrineError::NoSamples) => Err(DenyReason::NoSamples),
        Err(_) => Err(DenyReason::BelowFloor),
    }
}

/// The resource ceiling tracker: usage strictly above the fractional or
/// the cost ceiling of the epoch denies; usage equal to a ceiling passes.
/// The usage is only read.
pub fn check_ceilings(domain: &DefensiveEvolutionDomain, usage: &TraitEpochUsage) -> (r: Result<
    (),
    DenyReason,
>)
    ensures
        r == (if usage.scale_used > domain.scale_limit_per_epoch || usage.eco_cost_used
            > domain.eco_ceiling_per_epoch {
            Err::<(), _>(DenyReason::CapacityExceeded)
        } else {
            Ok::<(), DenyReason>(())
        }),
{
    match assert_epoch_usage_within_bounds(domain, usage) {
        Ok(_) => Ok(()),
        Err(_) => Err(DenyReason::CapacityExceeded),
    }
}

/// The damping modifier: a multiplier above one is rejected as
/// amplification, a negative one becomes zero, and any other is returned
/// unchanged.
pub fn clamp_damping(raw: i64) -> (r: Result<i64, DenyReason>)
    ensures
        raw > UNIT ==> r == Err::<i64, _>(DenyReason::AmplificationForbidden),
        0 <= raw <= UNIT ==> r == Ok::<i64, DenyReason>(raw),
        raw < 0 ==> r == Ok::<i64, DenyReason>(0i64),
        r is Ok <==> decay_verdict(raw) is Ok,
        r is Ok ==> r.unwrap() == decay_verdict(raw).unwrap(),
{
    match enforce_decay_multiplier_bounds(raw) {
        Ok(w) => Ok(w),
        Err(_) => Err(DenyReason::AmplificationForbidden),
    }
}

/// The reasons of the corridor layer: one per breached group, in checking
/// order; none where the domain has no corridor.
pub open spec fn corridor_denials(corridor: Option<CorridorCheck>) -> Seq<DenyReason> {
    match corridor {
        None => Seq::empty(),
        Some(c) => {
            let b = breaches(c.guard.envelope, c.state);
            Seq::new(b.len(), |i: int| DenyReason::CorridorBreach { dimension: b[i] })
        },
    }
}

/// The decision of the orchestrator: the clamped damping weight of an
/// admitted proposal, or the reasons of the first layer that denies.
pub open spec fn admission_verdict(
    proposal: Proposal,
    bands: RohBands,
    domain: DefensiveEvolutionDomain,
    ctx: AdmissionContext,
) -> Result<i64, Seq<DenyReason>> {
    if !consent_covers(proposal, ctx.consent, domain) {
        Err(seq![DenyReason::NoValidConsent])
    } else if band_denial(ctx.lifeforce, domain) is Some {
        Err(seq![band_denial(ctx.lifeforce, domain).unwrap()])
    } else if epoch_usage_verdict(domain, ctx.usage) is Err {
        Err(seq![DenyReason::CapacityExceeded])
    } else if decay_verdict(ctx.damping_raw) is Err {
        Err(seq![DenyReason::AmplificationForbidden])
    } else if selected_verdict(
        bands,
        risk_query(ctx.state, proposal, ctx.now_unix),
        ctx.token,
        proposal.subjectid@,
    ) is Err {
        Err(
            seq![
                selected_verdict(
                    bands,
                    risk_query(ctx.state, proposal, ctx.now_unix),
                    ctx.token,
                    proposal.subjectid@,
                ).unwrap_err(),
            ],
        )
    } else if corridor_denials(ctx.corridor).len() > 0 {
        Err(corridor_denials(ctx.corridor))
    } else if evidence_verdict(ctx.evidence.tags@) is Err {
        Err(seq![evidence_verdict(ctx.evidence.tags@).unwrap_err()])
    } else if coverage_verdict(
        proposal.id@,
        proposal.critical,
        ctx.test_index.upgrade_ids@,
        ctx.kani_index.upgrade_ids@,
    ) is Err {
        Err(
            seq![
                coverage_verdict(
                    proposal.id@,
                    proposal.critical,
                    ctx.test_index.upgrade_ids@,
                    ctx.kani_index.upgrade_ids@,
                ).unwrap_err(),
            ],
        )
    } else {
        Ok(decay_verdict(ctx.damping_raw).unwrap())
    }
}

/// Whether `d` is the decision that `verdict` stands for.
pub open spec fn decision_is(d: AdmissionDecision, verdict: Result<i64, Seq<DenyReason>>) -> bool {
    match verdict {
        Ok(w) => d == (AdmissionDecision::Allow { damping_weight: w }),
        Err(reasons) => d is Deny && d->reasons@ == reasons,
    }
}

/// A denial for one reason.
fn deny(reason: DenyReason) -> (d: AdmissionDecision)
    ensures
        d is Deny,
        d->reasons@ == seq![reason],
{
    let mut reasons: Vec<DenyReason> = Vec::new();
    reasons.push(reason);
    assert(reasons@ =~= seq![reason]);
    AdmissionDecision::Deny { reasons }
}

/// Runs the corridor layer, if the domain has a corridor, and gives its
/// denials.
fn corridor_layer<M: CorridorMetricsSink>(corridor: &Option<CorridorCheck>, metrics: &M) -> (r: Vec<
    DenyReason,
>)
    ensures
        r@ == corridor_denials(*corridor),
{
    let mut out: Vec<DenyReason> = Vec::new();
    match corridor {
        None => {},
        Some(c) => {
            let decision = c.guard.check_and_decide(&c.state, metrics);
            let mut i: usize = 0;
            while i < decision.reasons.len()
                invariant
                    i <= decision.reasons.len(),
                    decision.reasons@ == breaches(c.guard.envelope, c.state),
                    out@.len() == i,
                    forall|k: int|
                        0 <= k < i ==> out@[k] == (DenyReason::CorridorBreach {
                            dimension: decision.reasons@[k],
                        }),
                decreases decision.reasons.len() - i,
            {
                out.push(DenyReason::CorridorBreach { dimension: decision.reasons[i] });
                i += 1;
            }
        },
    }
    assert(out@ =~= corridor_denials(*corridor));
    out
}

/// Runs the layers in order and returns the first denial.
fn decide_admission<M: CorridorMetricsSink>(
    proposal: &Proposal,
    risk: &RiskOfHarm,
    domain: &DefensiveEvolutionDomain,
    ctx: &AdmissionContext,
    metrics: &M,
) -> (d: AdmissionDecision)
    ensures
        decision_is(d, admission_verdict(*proposal, risk.bands(), *domain, *ctx)),
        ctx.lifeforce.hard_stopped() ==> d is Deny,
        d is Allow ==> 0 <= d->damping_weight <= UNIT,
{
    let consent = match &ctx.consent {
        Some(c) => Some(c),
        None => None,
    };
    match verify_consent(proposal, consent, domain) {
        Err(e) => {
            return deny(e);
        },
        Ok(_) => {},
    }
    match assert_safe(&ctx.lifeforce, domain) {
        Err(e) => {
            return deny(e);
        },
        Ok(_) => {},
    }
    match check_ceilings(domain, &ctx.usage) {
        Err(e) => {
            return deny(e);
        },
        Ok(_) => {},
    }
    let damping_weight = match clamp_damping(ctx.damping_raw) {
        Err(e) => {
            return deny(e);
        },
        Ok(w) => w,
    };
    let q = build_risk_query(&ctx.state, proposal, ctx.now_unix);
    let token = match &ctx.token {
        Some(t) => Some(t),
        None => None,
    };
    match risk.evaluate_selecting_band(&q, token, proposal.subjectid.as_str()) {
        Err(e) => {
            return deny(e);
        },
        Ok(_) => {},
    }
    let corridor_reasons = corridor_layer(&ctx.corridor, metrics);
    if corridor_reasons.len() > 0 {
        return AdmissionDecision::Deny { reasons: corridor_reasons };
    }
    match enforce_evidence_bundle(&ctx.evidence) {
        Err(e) => {
            return deny(e);
        },
        Ok(_) => {},
    }
    match check_coverage(
        proposal.id.as_str(),
        proposal.critical,
        &ctx.test_index,
        &ctx.kani_index,
    ) {
        Err(e) => {
            return deny(e);
        },
        Ok(_) => {},
    }
    AdmissionDecision::Allow { damping_weight }
}

/// Why an engine cannot be started.
#[derive(Clone, Copy, Debug, PartialEq, Eq, Structural)]
pub enum ConfigError {
    /// The domain policy violates the doctrine.
    Doctrine(BioDefenseDoctrineError),
    /// The ceilings of the risk model are out of order.
    Ceilings(RohConfigError),
}

/// An engine for one domain: a domain policy and a risk model, both
/// validated when the engine was started. No engine exists for a policy
/// with a structural ban or for ceilings out of order.
#[derive(Debug)]
pub struct AdmissionEngine {
    risk: RiskOfHarm,
    domain: DefensiveEvolutionDomain,
}

/// Verdict on a configuration: the policy is judged before the ceilings.
pub open spec fn config_verdict(
    model: RohModelShard,
    domain: DefensiveEvolutionDomain,
    declares_structural_bans: bool,
) -> Result<(), ConfigError> {
    if policy_verdict(domain, declares_structural_bans) is Err {
        Err(ConfigError::Doctrine(BioDefenseDoctrineError::StructuralDomainBanAttempted))
    } else if model.validate_spec() is Err {
        Err(ConfigError::Ceilings(model.validate_spec().unwrap_err()))
    } else {
        Ok(())
    }
}

impl AdmissionEngine {
    /// The ceilings of the risk model.
    pub closed spec fn bands(&self) -> RohBands {
        self.risk.bands()
    }

    /// The policy of the domain.
    pub closed spec fn policy(&self) -> DefensiveEvolutionDomain {
        self.domain
    }

    /// The policy declares no permanent ban.
    #[verifier::type_invariant]
    pub closed spec fn well_formed(&self) -> bool {
        self.domain.allow_temporary_denial_only
    }

    /// Starts an engine. A policy that declares or encodes a structural
    /// ban, and ceilings out of order, are configuration errors: they stop
    /// the start and never surface as a denial of a proposal.
    pub fn start(
        model: RohModelShard,
        domain: DefensiveEvolutionDomain,
        declares_structural_bans: bool,
    ) -> (r: Result<AdmissionEngine, ConfigError>)
        ensures
            match config_verdict(model, domain, declares_structural_bans) {
                Ok(_) => r is Ok && r.unwrap().bands() == model.model.bands && r.unwrap().policy()
                    == domain,
                Err(e) => r is Err && r.unwrap_err() == e,
            },
    {
        match assert_policy_respects_doctrine(&domain, declares_structural_bans) {
            Err(e) => {
                return Err(ConfigError::Doctrine(e));
            },
            Ok(_) => {},
        }
        match RiskOfHarm::new(model) {
            Err(e) => Err(ConfigError::Ceilings(e)),
            Ok(risk) => Ok(AdmissionEngine { risk, domain }),
        }
    }

    /// The validated risk evaluator of the engine.
    pub fn risk(&self) -> (r: &RiskOfHarm)
        ensures
            r.bands() == self.bands(),
    {
        &self.risk
    }

    /// The validated policy of the engine.
    pub fn domain(&self) -> (r: &DefensiveEvolutionDomain)
        ensures
            *r == self.policy(),
            r.allow_temporary_denial_only,
    {
        proof {
            use_type_invariant(self);
        }
        &self.domain
    }

    /// Decides on a proposal under the policy and the risk model of the
    /// engine.
    ///
    /// The layers run in order and the first denial is returned: consent,
    /// lifeforce band, resource ceilings, damping bounds, risk of harm,
    /// corridor, evidence, coverage. An admitted proposal carries the
    /// clamped damping weight. The corridor guard reports to `metrics`
    /// when, and only when, the decision reaches the corridor layer.
    /// Nothing else is touched.
    pub fn decide<M: CorridorMetricsSink>(
        &self,
        proposal: &Proposal,
        ctx: &AdmissionContext,
        metrics: &M,
    ) -> (d: AdmissionDecision)
        ensures
            decision_is(d, admission_verdict(*proposal, self.bands(), self.policy(), *ctx)),
            ctx.lifeforce.hard_stopped() ==> d is Deny,
            d is Allow ==> 0 <= d->damping_weight <= UNIT,
            self.policy().allow_temporary_denial_only,
    {
        proof {
            use_type_invariant(self);
        }
        decide_admission(proposal, &self.risk, &self.domain, ctx, metrics)
    }
}

/// The adjustment that a decision lets through: under an allowing
/// decision the BRAIN delta damped by the weight, the other deltas as
/// proposed; under a denial nothing.
pub open spec fn let_through(d: AdmissionDecision, adj: SystemAdjustment) -> Option<
    SystemAdjustment,
> {
    match d {
        AdmissionDecision::Allow { damping_weight } => Some(
            SystemAdjustment {
                deltabrain: saturated(scaled_spec(adj.deltabrain as int, damping_weight as int)),
                deltablood: adj.deltablood,
                deltaoxygen: adj.deltaoxygen,
                deltasmart: adj.deltasmart,
            },
        ),
        AdmissionDecision::Deny { reasons } => None,
    }
}

/// Sizes an adjustment by a decision. This is the one way from a decision
/// to what the ledger may apply: a denial yields nothing to apply.
pub fn admitted_adjustment(decision: &AdmissionDecision, adj: SystemAdjustment) -> (r: Option<
    SystemAdjustment,
>)
    ensures
        r == let_through(*decision, adj),
        decision is Deny ==> r is None,
{
    match decision {
        AdmissionDecision::Allow { damping_weight } => Some(
            SystemAdjustment {
                deltabrain: scale_by(adj.deltabrain, *damping_weight),
                deltablood: adj.deltablood,
                deltaoxygen: adj.deltaoxygen,
                deltasmart: adj.deltasmart,
            },
        ),
        AdmissionDecision::Deny { reasons: _ } => None,
    }
}

/// What the orchestrator lets through is never larger in magnitude than
/// what was proposed: the damping weight of an admitted proposal lies
/// within zero and one.
pub proof fn lemma_admitted_is_damped(
    proposal: Proposal,
    bands: RohBands,
    domain: DefensiveEvolutionDomain,
    ctx: AdmissionContext,
    adj: SystemAdjustment,
)
    requires
        admission_verdict(proposal, bands, domain, ctx) is Ok,
    ensures
        ({
            let w = admission_verdict(proposal, bands, domain, ctx)->Ok_0;
            let out = let_through(AdmissionDecision::Allow { damping_weight: w }, adj);
            &&& 0 <= w <= UNIT
            &&& out is Some
            &&& adj.deltabrain >= 0 ==> 0 <= out.unwrap().deltabrain <= adj.deltabrain
            &&& adj.deltabrain <= 0 ==> adj.deltabrain <= out.unwrap().deltabrain <= 0
        }),
{
    let w = admission_verdict(proposal, bands, domain, ctx)->Ok_0;
    lemma_damping_never_amplifies(adj.deltabrain as int, w as int);
}

/// A hard stop in the last lifeforce sample denies every proposal. Where
/// consent covers the proposal the one reason is the hard stop, whatever
/// usage, damping, token, risk, corridor, evidence and coverage are.
pub proof fn lemma_hard_stop_is_unconditional(
    proposal: Proposal,
    bands: RohBands,
    domain: DefensiveEvolutionDomain,
    ctx: AdmissionContext,
)
    requires
        ctx.lifeforce.hard_stopped(),
    ensures
        admission_verdict(proposal, bands, domain, ctx) is Err,
        consent_covers(proposal, ctx.consent, domain) ==> admission_verdict(
            proposal,
            bands,
            domain,
            ctx,
        ) == Err::<i64, _>(seq![DenyReason::HardStop]),
        !consent_covers(proposal, ctx.consent, domain) ==> admission_verdict(
            proposal,
            bands,
            domain,
            ctx,
        ) == Err::<i64, _>(seq![DenyReason::NoValidConsent]),
{
}

/// A proposal is admitted exactly when every layer accepts it, and then
/// with the clamped damping weight.
pub proof fn lemma_admitted_passes_every_layer(
    proposal: Proposal,
    bands: RohBands,
    domain: DefensiveEvolutionDomain,
    ctx: AdmissionContext,
)
    ensures
        admission_verdict(proposal, bands, domain, ctx) is Ok <==> {
            &&& consent_covers(proposal, ctx.consent, domain)
            &&& band_denial(ctx.lifeforce, domain) is None
            &&& epoch_usage_verdict(domain, ctx.usage) is Ok
            &&& decay_verdict(ctx.damping_raw) is Ok
            &&& selected_verdict(
                bands,
                risk_query(ctx.state, proposal, ctx.now_unix),
                ctx.token,
                proposal.subjectid@,
            ) is Ok
            &&& corridor_denials(ctx.corridor).len() == 0
            &&& evidence_verdict(ctx.evidence.tags@) is Ok
            &&& coverage_verdict(
                proposal.id@,
                proposal.critical,
                ctx.test_index.upgrade_ids@,
                ctx.kani_index.upgrade_ids@,
            ) is Ok
        },
        admission_verdict(proposal, bands, domain, ctx) is Ok ==> admission_verdict(
            proposal,
            bands,
            domain,
            ctx,
        )->Ok_0 as int == clamp_unit_spec(ctx.damping_raw as int),
        admission_verdict(proposal, bands, domain, ctx) is Err ==> admission_verdict(
            proposal,
            bands,
            domain,
            ctx,
        ).unwrap_err().len() >= 1,
{
}

/// A damping multiplier above one is never admitted, whatever every other
/// layer says.
pub proof fn lemma_amplification_never_admitted(
    proposal: Proposal,
    bands: RohBands,
    domain: DefensiveEvolutionDomain,
    ctx: AdmissionContext,
)
    requires
        ctx.damping_raw > UNIT,
    ensures
        admission_verdict(proposal, bands, domain, ctx) is Err,
{
}

} // verus!
