//! Doctrine-level invariants of the bio-defense trait.
//!
//! The trait is a host-local, per-domain regulator of defensive evolution.
//! It allocates existing capacity, is bound by lifeforce bands and per-epoch
//! ceilings, is consent-gated, and may be damped but never amplified.

use vstd::prelude::*;
use crate::fixed::{clamp_unit_spec, UNIT};
use crate::lifeforce::{LifeforceBand, LifeforceBandSeries};
use crate::reason::DenyReason;

verus! {

/// Identifier of a host.
#[derive(Clone, Debug)]
pub struct HostId(pub String);

/// Identifier of an evolution domain.
#[derive(Clone, Debug)]
pub struct EvolutionDomainId(pub String);

/// Defensive evolution domain: immutable, domain-scoped policy.
#[derive(Clone, Debug)]
pub struct DefensiveEvolutionDomain {
    pub id: EvolutionDomainId,
    /// Human-readable label.
    pub name: String,
    /// Minimum normalized lifeforce that must remain, in millionths.
    pub lifeforce_floor: i64,
    /// Eco cost this domain may consume per epoch, in millionths.
    pub eco_ceiling_per_epoch: i64,
    /// Fraction of the host's scale budget this domain may consume per
    /// epoch, in millionths.
    pub scale_limit_per_epoch: i64,
    /// Whether denial of this domain is only ever temporary. It must be
    /// `true`: a defensive domain is never permanently banned.
    pub allow_temporary_denial_only: bool,
}

/// Host-authored, revocable consent for one defensive domain.
#[derive(Clone, Debug)]
pub struct DemonstratedConsentShard {
    pub host_id: HostId,
    pub domain_id: EvolutionDomainId,
    /// Unix milliseconds at which consent was granted.
    pub granted_at_ms_utc: i64,
    /// Whether the host marked this consent as revocable. It must be `true`.
    pub is_revocable: bool,
    /// Opaque proof bytes, verified upstream.
    pub zk_proof: Vec<u8>,
}

/// Live runtime view of a bio-defense trait on a host.
#[derive(Clone, Debug)]
pub struct ActiveBioDefenseTrait {
    pub shard: DemonstratedConsentShard,
    pub domain: DefensiveEvolutionDomain,
    /// Whether the trait is currently allowed to apply micro-steps.
    pub is_active: bool,
    /// Unix milliseconds of the last successful activation.
    pub last_activation_ms_utc: Option<i64>,
}

/// Consumption of one domain within one epoch.
#[derive(Clone, Debug)]
pub struct TraitEpochUsage {
    /// Key of the epoch, such as an hour stamp.
    pub epoch_id: String,
    /// Fraction of the host's scale budget consumed, in millionths.
    pub scale_used: i64,
    /// Eco cost consumed, in millionths.
    pub eco_cost_used: i64,
}

/// Violations of the bio-defense doctrine.
#[derive(Clone, Copy, Debug, PartialEq, Eq, Structural)]
pub enum BioDefenseDoctrineError {
    /// Usage exceeds a scale or eco ceiling of the epoch.
    CapacityExceeded,
    /// A step would exceed the brain's sovereign capacity.
    BRAINInsufficientCapacity,
    /// The lifeforce series holds no sample to judge by.
    NoSamples,
    /// The most recent lifeforce sample is a hard stop.
    LifeforceHardStop,
    /// Lifeforce is, or would fall, below the domain floor.
    LifeforceBelowFloor,
    /// A decay multiplier above one would amplify risk.
    KarmaAmplificationForbidden,
    /// A policy declares a permanent ban of a defensive domain.
    StructuralDomainBanAttempted,
    /// No valid, revocable consent covers the domain.
    NoValidConsent,
    /// The environment is unsafe for automation.
    EnvironmentUnsafe,
}

/// The reason code of a doctrine violation. An unsafe environment stops an
/// activation, not a proposal, and has no code.
pub open spec fn reason_code_of(e: BioDefenseDoctrineError) -> Option<DenyReason> {
    match e {
        BioDefenseDoctrineError::CapacityExceeded => Some(DenyReason::CapacityExceeded),
        BioDefenseDoctrineError::BRAINInsufficientCapacity => Some(DenyReason::CapacityExceeded),
        BioDefenseDoctrineError::NoSamples => Some(DenyReason::NoSamples),
        BioDefenseDoctrineError::LifeforceHardStop => Some(DenyReason::HardStop),
        BioDefenseDoctrineError::LifeforceBelowFloor => Some(DenyReason::BelowFloor),
        BioDefenseDoctrineError::KarmaAmplificationForbidden => Some(
            DenyReason::AmplificationForbidden,
        ),
        BioDefenseDoctrineError::StructuralDomainBanAttempted => Some(
            DenyReason::StructuralBanAttempted,
        ),
        BioDefenseDoctrineError::NoValidConsent => Some(DenyReason::NoValidConsent),
        BioDefenseDoctrineError::EnvironmentUnsafe => None,
    }
}

impl BioDefenseDoctrineError {
    /// The reason code of the violation, if the taxonomy of denials has
    /// one for it.
    pub fn reason_code(&self) -> (r: Option<DenyReason>)
        ensures
            r == reason_code_of(*self),
    {
        match self {
            BioDefenseDoctrineError::CapacityExceeded => Some(DenyReason::CapacityExceeded),
            BioDefenseDoctrineError::BRAINInsufficientCapacity => Some(
                DenyReason::CapacityExceeded,
            ),
            BioDefenseDoctrineError::NoSamples => Some(DenyReason::NoSamples),
            BioDefenseDoctrineError::LifeforceHardStop => Some(DenyReason::HardStop),
            BioDefenseDoctrineError::LifeforceBelowFloor => Some(DenyReason::BelowFloor),
            BioDefenseDoctrineError::KarmaAmplificationForbidden => Some(
                DenyReason::AmplificationForbidden,
            ),
            BioDefenseDoctrineError::StructuralDomainBanAttempted => Some(
                DenyReason::StructuralBanAttempted,
            ),
            BioDefenseDoctrineError::NoValidConsent => Some(DenyReason::NoValidConsent),
            BioDefenseDoctrineError::EnvironmentUnsafe => None,
        }
    }
}

/// Host-local consent scope.
pub trait MetabolicConsentScope {
    /// Whether the host has active, revocable consent for the domain.
    fn is_domain_allowed(&self, host: &HostId, domain_id: &EvolutionDomainId) -> bool;
}

/// Runtime view of environment safety.
pub trait SmartRuntimeView {
    /// Whether automatic micro-steps are permitted right now.
    fn is_environment_safe_for_automation(&self) -> bool;
}

/// Verdict on a policy: a structural ban, declared or encoded in the domain
/// itself, is a doctrine violation.
pub open spec fn policy_verdict(
    domain: DefensiveEvolutionDomain,
    declares_structural_bans: bool,
) -> Result<(), BioDefenseDoctrineError> {
    if declares_structural_bans || !domain.allow_temporary_denial_only {
        Err(BioDefenseDoctrineError::StructuralDomainBanAttempted)
    } else {
        Ok(())
    }
}

/// Checks that a defensive domain policy encodes no structural ban.
pub fn assert_policy_respects_doctrine(
    domain: &DefensiveEvolutionDomain,
    declares_structural_bans: bool,
) -> (r: Result<(), BioDefenseDoctrineError>)
    ensures
        r == policy_verdict(*domain, declares_structural_bans),
        !domain.allow_temporary_denial_only ==> r == Err::<(), _>(
            BioDefenseDoctrineError::StructuralDomainBanAttempted,
        ),
{
    if declares_structural_bans {
        return Err(BioDefenseDoctrineError::StructuralDomainBanAttempted);
    }
    if !domain.allow_temporary_denial_only {
        return Err(BioDefenseDoctrineError::StructuralDomainBanAttempted);
    }
    Ok(())
}

/// Verdict on a raw decay multiplier: amplification is rejected, anything
/// else is clamped into the unit interval.
pub open spec fn decay_verdict(raw: i64) -> Result<i64, BioDefenseDoctrineError> {
    if raw > UNIT {
        Err(BioDefenseDoctrineError::KarmaAmplificationForbidden)
    } else if raw < 0 {
        Ok(0i64)
    } else {
        Ok(raw)
    }
}

/// Clamps a decay multiplier into the unit interval, rejecting
/// amplification.
pub fn enforce_decay_multiplier_bounds(raw: i64) -> (r: Result<i64, BioDefenseDoctrineError>)
    ensures
        r == decay_verdict(raw),
        raw > UNIT ==> r == Err::<i64, _>(BioDefenseDoctrineError::KarmaAmplificationForbidden),
        0 <= raw <= UNIT ==> r == Ok::<i64, BioDefenseDoctrineError>(raw),
        raw < 0 ==> r == Ok::<i64, BioDefenseDoctrineError>(0i64),
        r is Ok ==> r.unwrap() as int == clamp_unit_spec(raw as int),
{
    if raw > UNIT {
        return Err(BioDefenseDoctrineError::KarmaAmplificationForbidden);
    }
    let clamped: i64 = if raw < 0 {
        0
    } else {
        raw
    };
    Ok(clamped)
}

/// Verdict of the lifeforce gate on the most recent sample.
pub open spec fn lifeforce_verdict(
    lifeforce: LifeforceBandSeries,
    domain: DefensiveEvolutionDomain,
) -> Result<(), BioDefenseDoctrineError> {
    match lifeforce.last_sample() {
        None => Err(BioDefenseDoctrineError::NoSamples),
        Some(last) => if last.band == LifeforceBand::HardStop {
            Err(BioDefenseDoctrineError::LifeforceHardStop)
        } else if last.lifeforcel < domain.lifeforce_floor {
            Err(BioDefenseDoctrineError::LifeforceBelowFloor)
        } else {
            Ok(())
        },
    }
}

/// Checks the lifeforce series and the domain floor before any defensive
/// step. Only the most recent sample counts.
pub fn assert_lifeforce_allows_trait(
    lifeforce: &LifeforceBandSeries,
    domain: &DefensiveEvolutionDomain,
) -> (r: Result<(), BioDefenseDoctrineError>)
    ensures
        r == lifeforce_verdict(*lifeforce, *domain),
{
    let last = match lifeforce.last() {
        Some(s) => s,
        None => {
            return Err(BioDefenseDoctrineError::NoSamples);
        },
    };
    if last.band == LifeforceBand::HardStop {
        return Err(BioDefenseDoctrineError::LifeforceHardStop);
    }
    if last.lifeforcel < domain.lifeforce_floor {
        return Err(BioDefenseDoctrineError::LifeforceBelowFloor);
    }
    Ok(())
}

/// Verdict of the ceiling check: usage strictly above either ceiling is
/// rejected, usage equal to a ceiling is allowed.
pub open spec fn epoch_usage_verdict(
    domain: DefensiveEvolutionDomain,
    usage: TraitEpochUsage,
) -> Result<(), BioDefenseDoctrineError> {
    if usage.scale_used > domain.scale_limit_per_epoch || usage.eco_cost_used
        > domain.eco_ceiling_per_epoch {
        Err(BioDefenseDoctrineError::CapacityExceeded)
    } else {
        Ok(())
    }
}

/// Checks that usage stays within the scale and eco ceilings of the current
/// epoch. The usage is only read.
pub fn assert_epoch_usage_within_bounds(
    domain: &DefensiveEvolutionDomain,
    usage: &TraitEpochUsage,
) -> (r: Result<(), BioDefenseDoctrineError>)
    ensures
        r == epoch_usage_verdict(*domain, *usage),
        r is Ok <==> usage.scale_used <= domain.scale_limit_per_epoch && usage.eco_cost_used
            <= domain.eco_ceiling_per_epoch,
{
    if usage.scale_used > domain.scale_limit_per_epoch {
        return Err(BioDefenseDoctrineError::CapacityExceeded);
    }
    if usage.eco_cost_used > domain.eco_ceiling_per_epoch {
        return Err(BioDefenseDoctrineError::CapacityExceeded);
    }
    Ok(())
}

/// Verdict on one evolution step against brain capacity and lifeforce floor.
pub open spec fn brain_capacity_verdict(
    evolution_delta: i64,
    brain_capacity: i64,
    lifeforce_consumption: i64,
    lifeforce_floor: i64,
) -> Result<(), BioDefenseDoctrineError> {
    if evolution_delta > brain_capacity {
        Err(BioDefenseDoctrineError::BRAINInsufficientCapacity)
    } else if lifeforce_consumption > lifeforce_floor {
        Err(BioDefenseDoctrineError::LifeforceBelowFloor)
    } else {
        Ok(())
    }
}

/// Validates a proposed evolution step against the brain's capacity. All
/// four quantities are in millionths.
pub fn validate_evolution_step_against_brain_capacity(
    evolution_delta: i64,
    brain_capacity: i64,
    lifeforce_consumption: i64,
    lifeforce_floor: i64,
) -> (r: Result<(), BioDefenseDoctrineError>)
    ensures
        r == brain_capacity_verdict(
            evolution_delta,
            brain_capacity,
            lifeforce_consumption,
            lifeforce_floor,
        ),
{
    if evolution_delta > brain_capacity {
        return Err(BioDefenseDoctrineError::BRAINInsufficientCapacity);
    }
    if lifeforce_consumption > lifeforce_floor {
        return Err(BioDefenseDoctrineError::LifeforceBelowFloor);
    }
    Ok(())
}

/// The gates that stand between consent and the environment check, in
/// order: lifeforce, epoch ceilings, decay bounds. `Ok` carries the clamped
/// decay multiplier.
pub open spec fn doctrine_gate(
    domain: DefensiveEvolutionDomain,
    lifeforce: LifeforceBandSeries,
    usage: TraitEpochUsage,
    karma_decay_raw: i64,
) -> Result<i64, BioDefenseDoctrineError> {
    match lifeforce_verdict(lifeforce, domain) {
        Err(e) => Err(e),
        Ok(_) => match epoch_usage_verdict(domain, usage) {
            Err(e) => Err(e),
            Ok(_) => decay_verdict(karma_decay_raw),
        },
    }
}

/// Whether `t` is the trait as it stands right after a successful
/// activation: a fresh revocable shard without proof bytes, stamped `now`.
pub open spec fn is_fresh_activation(
    t: ActiveBioDefenseTrait,
    host_id: HostId,
    domain: DefensiveEvolutionDomain,
    now_ms_utc: i64,
) -> bool {
    &&& t.shard.host_id == host_id
    &&& t.shard.domain_id.0@ == domain.id.0@
    &&& t.shard.granted_at_ms_utc == now_ms_utc
    &&& t.shard.is_revocable
    &&& t.shard.zk_proof@ == Seq::<u8>::empty()
    &&& t.domain == domain
    &&& t.is_active
    &&& t.last_activation_ms_utc == Some(now_ms_utc)
}

/// The first failure of an activation attempt, in the fixed order consent,
/// lifeforce, epoch ceilings, decay bounds, environment; `None` when every
/// gate passes.
pub open spec fn activation_error(
    consent_allowed: bool,
    environment_safe: bool,
    domain: DefensiveEvolutionDomain,
    lifeforce: LifeforceBandSeries,
    usage: TraitEpochUsage,
    karma_decay_raw: i64,
) -> Option<BioDefenseDoctrineError> {
    if !consent_allowed {
        Some(BioDefenseDoctrineError::NoValidConsent)
    } else {
        match doctrine_gate(domain, lifeforce, usage, karma_decay_raw) {
            Err(e) => Some(e),
            Ok(_) => if !environment_safe {
                Some(BioDefenseDoctrineError::EnvironmentUnsafe)
            } else {
                None
            },
        }
    }
}

/// Whether `r` is what an activation attempt returns, given what the
/// consent scope and the runtime view answered.
pub open spec fn activation_outcome(
    r: Result<ActiveBioDefenseTrait, BioDefenseDoctrineError>,
    consent_allowed: bool,
    environment_safe: bool,
    host_id: HostId,
    domain: DefensiveEvolutionDomain,
    lifeforce: LifeforceBandSeries,
    usage: TraitEpochUsage,
    karma_decay_raw: i64,
    now_ms_utc: i64,
) -> bool {
    match activation_error(
        consent_allowed,
        environment_safe,
        domain,
        lifeforce,
        usage,
        karma_decay_raw,
    ) {
        Some(e) => r == Err::<ActiveBioDefenseTrait, _>(e),
        None => r is Ok && is_fresh_activation(r.unwrap(), host_id, domain, now_ms_utc),
    }
}

/// Runs the lifeforce, ceiling and decay gates in order.
fn run_doctrine_gate(
    domain: &DefensiveEvolutionDomain,
    lifeforce: &LifeforceBandSeries,
    usage: &TraitEpochUsage,
    karma_decay_raw: i64,
) -> (r: Result<i64, BioDefenseDoctrineError>)
    ensures
        r == doctrine_gate(*domain, *lifeforce, *usage, karma_decay_raw),
{
    match assert_lifeforce_allows_trait(lifeforce, domain) {
        Err(e) => {
            return Err(e);
        },
        Ok(_) => {},
    }
    match assert_epoch_usage_within_bounds(domain, usage) {
        Err(e) => {
            return Err(e);
        },
        Ok(_) => {},
    }
    enforce_decay_multiplier_bounds(karma_decay_raw)
}

/// Builds the active trait with a fresh consent shard. The proof bytes are
/// left empty: the consent-governance layer injects them.
fn fresh_activation(host_id: HostId, domain: DefensiveEvolutionDomain, now_ms_utc: i64) -> (t:
    ActiveBioDefenseTrait)
    ensures
        is_fresh_activation(t, host_id, domain, now_ms_utc),
{
    let shard = DemonstratedConsentShard {
        host_id,
        domain_id: EvolutionDomainId(domain.id.0.clone()),
        granted_at_ms_utc: now_ms_utc,
        is_revocable: true,
        zk_proof: Vec::new(),
    };
    ActiveBioDefenseTrait { shard, domain, is_active: true, last_activation_ms_utc: Some(now_ms_utc) }
}

/// Decides an activation attempt from the answers of the consent scope and
/// of the runtime view. The gates run in the fixed order consent, lifeforce,
/// epoch ceilings, decay bounds, environment, and the first failure is
/// returned.
pub fn decide_activation(
    consent_allowed: bool,
    environment_safe: bool,
    host_id: HostId,
    domain: DefensiveEvolutionDomain,
    lifeforce: &LifeforceBandSeries,
    epoch_usage: &TraitEpochUsage,
    karma_decay_raw: i64,
    now_ms_utc: i64,
) -> (r: Result<ActiveBioDefenseTrait, BioDefenseDoctrineError>)
    ensures
        activation_outcome(
            r,
            consent_allowed,
            environment_safe,
            host_id,
            domain,
            *lifeforce,
            *epoch_usage,
            karma_decay_raw,
            now_ms_utc,
        ),
{
    if !consent_allowed {
        return Err(BioDefenseDoctrineError::NoValidConsent);
    }
    match run_doctrine_gate(&domain, lifeforce, epoch_usage, karma_decay_raw) {
        Err(e) => {
            return Err(e);
        },
        Ok(_) => {},
    }
    if !environment_safe {
        return Err(BioDefenseDoctrineError::EnvironmentUnsafe);
    }
    Ok(fresh_activation(host_id, domain, now_ms_utc))
}

/// Tries to activate or maintain a bio-defense trait.
///
/// The consent scope is asked first; the runtime view is asked only once
/// lifeforce, ceilings and decay bounds have passed. Whatever the two
/// answer, the result is the one `decide_activation` gives for those
/// answers.
pub fn try_activate_bio_defense_trait<C: MetabolicConsentScope, S: SmartRuntimeView>(
    host_id: HostId,
    domain: DefensiveEvolutionDomain,
    lifeforce: &LifeforceBandSeries,
    epoch_usage: &TraitEpochUsage,
    metabolic_consent: &C,
    smart_view: &S,
    karma_decay_raw: i64,
    now_ms_utc: i64,
) -> (r: Result<ActiveBioDefenseTrait, BioDefenseDoctrineError>)
    ensures
        exists|consent_allowed: bool, environment_safe: bool| #[trigger]
            activation_outcome(
                r,
                consent_allowed,
                environment_safe,
                host_id,
                domain,
                *lifeforce,
                *epoch_usage,
                karma_decay_raw,
                now_ms_utc,
            ),
        lifeforce.hard_stopped() ==> r is Err,
{
    if !metabolic_consent.is_domain_allowed(&host_id, &domain.id) {
        let r = Err(BioDefenseDoctrineError::NoValidConsent);
        assert(activation_outcome(
            r,
            false,
            false,
            host_id,
            domain,
            *lifeforce,
            *epoch_usage,
            karma_decay_raw,
            now_ms_utc,
        ));
        return r;
    }
    match run_doctrine_gate(&domain, lifeforce, epoch_usage, karma_decay_raw) {
        Err(e) => {
            let r = Err(e);
            assert(activation_outcome(
                r,
                true,
                false,
                host_id,
                domain,
                *lifeforce,
                *epoch_usage,
                karma_decay_raw,
                now_ms_utc,
            ));
            return r;
        },
        Ok(_) => {},
    }
    let environment_safe = smart_view.is_environment_safe_for_automation();
    decide_activation(
        true,
        environment_safe,
        host_id,
        domain,
        lifeforce,
        epoch_usage,
        karma_decay_raw,
        now_ms_utc,
    )
}

/// At a ceiling usage is allowed; one millionth above either ceiling it is
/// rejected for exceeded capacity.
pub proof fn lemma_ceiling_boundary(domain: DefensiveEvolutionDomain, usage: TraitEpochUsage)
    ensures
        usage.scale_used == domain.scale_limit_per_epoch && usage.eco_cost_used
            == domain.eco_ceiling_per_epoch ==> epoch_usage_verdict(domain, usage) == Ok::<
            (),
            BioDefenseDoctrineError,
        >(()),
        usage.scale_used == domain.scale_limit_per_epoch + 1 ==> epoch_usage_verdict(domain, usage)
            == Err::<(), _>(BioDefenseDoctrineError::CapacityExceeded),
        usage.eco_cost_used == domain.eco_ceiling_per_epoch + 1 ==> epoch_usage_verdict(
            domain,
            usage,
        ) == Err::<(), _>(BioDefenseDoctrineError::CapacityExceeded),
{
}

/// A hard stop in the most recent sample fails the doctrine gate with the
/// hard-stop error, whatever the usage, the ceilings and the decay
/// multiplier are.
pub proof fn lemma_hard_stop_blocks_gate(
    domain: DefensiveEvolutionDomain,
    lifeforce: LifeforceBandSeries,
    usage: TraitEpochUsage,
    karma_decay_raw: i64,
)
    requires
        lifeforce.hard_stopped(),
    ensures
        doctrine_gate(domain, lifeforce, usage, karma_decay_raw) == Err::<i64, _>(
            BioDefenseDoctrineError::LifeforceHardStop,
        ),
{
}

} // verus!
