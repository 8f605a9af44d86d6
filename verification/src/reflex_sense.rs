//! Eligibility of neuromorphic reflex and sense evolution.
//!
//! The check is pure policy over the current balances, the host envelope
//! and a comfort context. SMART acts as the automation allowance; comfort,
//! overload, interface stability and scale usage damp the weight of a step.

use vstd::prelude::*;
use crate::fixed::{clamp_unit, clamp_unit_spec, UNIT};
use crate::lifeforce::LifeforceError;
use crate::types::{BioTokenState, HostEnvelope};

verus! {

/// Neuromorphic micro-evolution domains. All are software-only.
#[derive(Clone, Copy, Debug, PartialEq, Eq, Structural)]
pub enum NeuromorphDomain {
    /// Reflex safety controllers.
    ReflexSafety,
    /// Sensory clarity: denoising and decoding.
    SensoryClarity,
    /// Attention and load balancing across senses.
    AttentionRouting,
}

/// Host comfort and load context, each index in millionths. Values outside
/// the unit interval are clamped into it before use.
#[derive(Clone, Copy, Debug)]
pub struct NeuromorphContext {
    /// Zero is fully comfortable, one is severe discomfort.
    pub discomfort_index: i64,
    /// Fraction of recent epochs that were overloaded.
    pub overload_ratio: i64,
    /// How unstable the host interface has been recently.
    pub interface_instability: i64,
    /// Fraction of the scale budget already used by neuromorphic domains.
    pub neuromorph_scale_usage: i64,
}

/// Result of an eligibility check.
#[derive(Clone, Copy, Debug)]
pub struct ReflexSenseEligibility {
    /// Whether an upgrade in the domain may be proposed.
    pub allowed: bool,
    /// Weight of the step in millionths; zero when not allowed.
    pub decay_weight: i64,
    /// Whether automatic micro-evolution is permitted.
    pub auto_allowed: bool,
    /// Diagnostic tag.
    pub reason: &'static str,
}

impl ReflexSenseEligibility {
    /// A denial: no weight and no automation.
    pub fn denied(reason: &'static str) -> (r: Self)
        ensures
            r == (ReflexSenseEligibility {
                allowed: false,
                decay_weight: 0,
                auto_allowed: false,
                reason,
            }),
    {
        ReflexSenseEligibility { allowed: false, decay_weight: 0, auto_allowed: false, reason }
    }

    /// A permission with the given weight.
    pub fn allowed(decay_weight: i64, auto_allowed: bool, reason: &'static str) -> (r: Self)
        ensures
            r == (ReflexSenseEligibility { allowed: true, decay_weight, auto_allowed, reason }),
    {
        ReflexSenseEligibility { allowed: true, decay_weight, auto_allowed, reason }
    }
}

/// Discomfort above this level denies any new neuromorphic mutation.
pub const DISCOMFORT_HARD_STOP: i64 = 850_000;

/// Overload above this level denies any new neuromorphic mutation.
pub const OVERLOAD_HARD_STOP: i64 = 750_000;

/// Whether SMART, taken as a share of BRAIN and never below zero, reaches
/// `percent` hundredths. With no positive BRAIN the share counts as zero.
pub open spec fn smart_share_reaches(state: BioTokenState, percent: int) -> bool {
    state.brain > 0 && 100 * (if state.smart > 0 {
        state.smart as int
    } else {
        0
    }) >= percent * state.brain
}

/// The weight before domain shaping, in ten-millionths: one, less 0.6 of
/// the discomfort, 0.4 of the overload, 0.3 of the instability and 0.3 of
/// the scale usage, each clamped into the unit interval first.
pub open spec fn base_weight_tenths(ctx: NeuromorphContext) -> int {
    10 * UNIT - 6 * clamp_unit_spec(ctx.discomfort_index as int) - 4 * clamp_unit_spec(
        ctx.overload_ratio as int,
    ) - 3 * clamp_unit_spec(ctx.interface_instability as int) - 3 * clamp_unit_spec(
        ctx.neuromorph_scale_usage as int,
    )
}

/// `x` limited from above by `hi`, then from below by `lo`.
pub open spec fn bounded(x: int, lo: int, hi: int) -> int {
    let capped = if x > hi {
        hi
    } else {
        x
    };
    if capped < lo {
        lo
    } else {
        capped
    }
}

/// The weight after domain shaping, in ten-millionths. Reflex safety never
/// drops below 0.25; sensory clarity gains 0.1 and stays within 0.2 and 0.9;
/// attention routing stays within 0.2 and 0.7.
pub open spec fn shaped_weight_tenths(domain: NeuromorphDomain, ctx: NeuromorphContext) -> int {
    let w = base_weight_tenths(ctx);
    match domain {
        NeuromorphDomain::ReflexSafety => if w < 2_500_000 {
            2_500_000
        } else {
            w
        },
        NeuromorphDomain::SensoryClarity => bounded(w + 1_000_000, 2_000_000, 9_000_000),
        NeuromorphDomain::AttentionRouting => bounded(w, 2_000_000, 7_000_000),
    }
}

/// The decay weight of an allowed step, in millionths, rounded down.
pub open spec fn decay_weight_spec(domain: NeuromorphDomain, ctx: NeuromorphContext) -> int {
    shaped_weight_tenths(domain, ctx) / 10
}

/// The tag of an allowed step.
pub open spec fn allowed_reason(domain: NeuromorphDomain, auto_allowed: bool) -> &'static str {
    match domain {
        NeuromorphDomain::ReflexSafety => if auto_allowed {
            "allowed_reflex_safety_auto_micro"
        } else {
            "allowed_reflex_safety_manual_only"
        },
        NeuromorphDomain::SensoryClarity => if auto_allowed {
            "allowed_sensory_clarity_auto_micro"
        } else {
            "allowed_sensory_clarity_manual_only"
        },
        NeuromorphDomain::AttentionRouting => if auto_allowed {
            "allowed_attention_routing_auto_micro"
        } else {
            "allowed_attention_routing_manual_only"
        },
    }
}

/// A denial with the given tag.
pub open spec fn denial(reason: &'static str) -> ReflexSenseEligibility {
    ReflexSenseEligibility { allowed: false, decay_weight: 0, auto_allowed: false, reason }
}

/// The eligibility of a neuromorphic step.
///
/// BRAIN below its floor denies. BLOOD or OXYGEN at or below their floors,
/// and SMART above its ceiling or above BRAIN, are lifeforce errors. SMART
/// under 2% of BRAIN denies; from 10% on automation is allowed. Discomfort
/// above 0.85 or overload above 0.75 denies. Otherwise the step is allowed
/// with the shaped decay weight.
pub open spec fn eligibility_spec(
    domain: NeuromorphDomain,
    state: BioTokenState,
    env: HostEnvelope,
    ctx: NeuromorphContext,
) -> Result<ReflexSenseEligibility, LifeforceError> {
    if state.brain < env.brainmin {
        Ok(denial("brain_below_min"))
    } else if state.blood <= env.bloodmin {
        Err(LifeforceError::BloodDepletion)
    } else if state.oxygen <= env.oxygenmin {
        Err(LifeforceError::OxygenDepletion)
    } else if state.smart > env.smartmax || state.smart > state.brain {
        Err(LifeforceError::SmartOverMax)
    } else if !smart_share_reaches(state, 2) {
        Ok(denial("smart_too_low_for_neuromorph"))
    } else if clamp_unit_spec(ctx.discomfort_index as int) > DISCOMFORT_HARD_STOP {
        Ok(denial("discomfort_hard_stop"))
    } else if clamp_unit_spec(ctx.overload_ratio as int) > OVERLOAD_HARD_STOP {
        Ok(denial("overload_hard_stop"))
    } else {
        Ok(
            ReflexSenseEligibility {
                allowed: true,
                decay_weight: decay_weight_spec(domain, ctx) as i64,
                auto_allowed: smart_share_reaches(state, 10),
                reason: allowed_reason(domain, smart_share_reaches(state, 10)),
            },
        )
    }
}

/// More discomfort, overload, instability or scale usage never raises the
/// weight of a step.
pub proof fn lemma_weight_never_rises_with_load(
    domain: NeuromorphDomain,
    calm: NeuromorphContext,
    loaded: NeuromorphContext,
)
    requires
        clamp_unit_spec(calm.discomfort_index as int) <= clamp_unit_spec(
            loaded.discomfort_index as int,
        ),
        clamp_unit_spec(calm.overload_ratio as int) <= clamp_unit_spec(loaded.overload_ratio as int),
        clamp_unit_spec(calm.interface_instability as int) <= clamp_unit_spec(
            loaded.interface_instability as int,
        ),
        clamp_unit_spec(calm.neuromorph_scale_usage as int) <= clamp_unit_spec(
            loaded.neuromorph_scale_usage as int,
        ),
    ensures
        decay_weight_spec(domain, loaded) <= decay_weight_spec(domain, calm),
        200_000 <= decay_weight_spec(domain, loaded),
        decay_weight_spec(domain, calm) <= UNIT,
{
}

/// Whether SMART reaches `percent` hundredths of BRAIN.
fn smart_share_at_least(state: &BioTokenState, percent: u8) -> (r: bool)
    ensures
        r == smart_share_reaches(*state, percent as int),
{
    if state.brain <= 0 {
        return false;
    }
    let smart: i128 = if state.smart > 0 {
        state.smart as i128
    } else {
        0
    };
    let share: i128 = percent as i128;
    let brain: i128 = state.brain as i128;
    assert(0 <= share * brain <= 255 * 0x7fff_ffff_ffff_ffff) by (nonlinear_arith)
        requires
            0 <= share <= 255,
            0 < brain <= 0x7fff_ffff_ffff_ffff,
    ;
    100 * smart >= share * brain
}

/// The shaped weight in ten-millionths.
fn shaped_weight(domain: NeuromorphDomain, ctx: &NeuromorphContext) -> (w: i64)
    ensures
        w as int == shaped_weight_tenths(domain, *ctx),
        2_000_000 <= w <= 10_000_000,
{
    let discomfort = clamp_unit(ctx.discomfort_index);
    let overload = clamp_unit(ctx.overload_ratio);
    let instability = clamp_unit(ctx.interface_instability);
    let scale_use = clamp_unit(ctx.neuromorph_scale_usage);
    let mut weight: i64 = 10 * UNIT;
    weight -= 6 * discomfort;
    weight -= 4 * overload;
    weight -= 3 * instability;
    weight -= 3 * scale_use;
    match domain {
        NeuromorphDomain::ReflexSafety => {
            if weight < 2_500_000 {
                weight = 2_500_000;
            }
        },
        NeuromorphDomain::SensoryClarity => {
            weight = weight + 1_000_000;
            if weight > 9_000_000 {
                weight = 9_000_000;
            }
            if weight < 2_000_000 {
                weight = 2_000_000;
            }
        },
        NeuromorphDomain::AttentionRouting => {
            if weight > 7_000_000 {
                weight = 7_000_000;
            }
            if weight < 2_000_000 {
                weight = 2_000_000;
            }
        },
    }
    weight
}

/// The tag of an allowed step.
fn reason_tag(domain: NeuromorphDomain, auto_allowed: bool) -> (r: &'static str)
    ensures
        r == allowed_reason(domain, auto_allowed),
{
    match domain {
        NeuromorphDomain::ReflexSafety => {
            if auto_allowed {
                "allowed_reflex_safety_auto_micro"
            } else {
                "allowed_reflex_safety_manual_only"
            }
        },
        NeuromorphDomain::SensoryClarity => {
            if auto_allowed {
                "allowed_sensory_clarity_auto_micro"
            } else {
                "allowed_sensory_clarity_manual_only"
            }
        },
        NeuromorphDomain::AttentionRouting => {
            if auto_allowed {
                "allowed_attention_routing_auto_micro"
            } else {
                "allowed_attention_routing_manual_only"
            }
        },
    }
}

/// Decides whether a neuromorphic evolution step may be proposed, and with
/// what weight. Nothing is mutated.
pub fn check_neuromorph_eligibility(
    domain: NeuromorphDomain,
    state: &BioTokenState,
    env: &HostEnvelope,
    ctx: &NeuromorphContext,
) -> (r: Result<ReflexSenseEligibility, LifeforceError>)
    ensures
        r == eligibility_spec(domain, *state, *env, *ctx),
        r is Ok && r.unwrap().allowed ==> 200_000 <= r.unwrap().decay_weight <= UNIT,
        r is Ok && !r.unwrap().allowed ==> r.unwrap().decay_weight == 0 && !r.unwrap().auto_allowed,
{
    if state.brain < env.brainmin {
        return Ok(ReflexSenseEligibility::denied("brain_below_min"));
    }
    if state.blood <= env.bloodmin {
        return Err(LifeforceError::BloodDepletion);
    }
    if state.oxygen <= env.oxygenmin {
        return Err(LifeforceError::OxygenDepletion);
    }
    if state.smart > env.smartmax || state.smart > state.brain {
        return Err(LifeforceError::SmartOverMax);
    }
    if !smart_share_at_least(state, 2) {
        return Ok(ReflexSenseEligibility::denied("smart_too_low_for_neuromorph"));
    }
    let auto_allowed = smart_share_at_least(state, 10);
    if clamp_unit(ctx.discomfort_index) > DISCOMFORT_HARD_STOP {
        return Ok(ReflexSenseEligibility::denied("discomfort_hard_stop"));
    }
    if clamp_unit(ctx.overload_ratio) > OVERLOAD_HARD_STOP {
        return Ok(ReflexSenseEligibility::denied("overload_hard_stop"));
    }
    let decay_weight = shaped_weight(domain, ctx) / 10;
    let reason = reason_tag(domain, auto_allowed);
    Ok(ReflexSenseEligibility::allowed(decay_weight, auto_allowed, reason))
}

} // verus!
