//! Capability tokens and the way into the elevated risk band.
//!
//! The elevated band relaxes the strict rule that risk must not rise. It is
//! reachable only through a token that names the subject, declares the
//! elevated band, carries the high-risk scope, is inside its validity
//! window and is used for a permitted kind of proposal.

use vstd::prelude::*;
use crate::reason::DenyReason;
use crate::sovereigntycore::ProposalKind;
use crate::text::str_eq;

verus! {

/// Risk band of an evaluation, and the band a token declares.
#[derive(Clone, Copy, Debug, PartialEq, Eq, Structural)]
pub enum RiskBand {
    /// The ordinary band under the strict ceiling.
    Strict,
    /// The research band under the elevated ceiling.
    Elevated,
}

/// Physiological thresholds a token is bound to, in millionths.
#[derive(Clone, Copy, Debug)]
pub struct PhysioGuard {
    pub min_hrv_sdnn: i64,
    pub max_emg_tension: i64,
    pub max_fatigue_index: i64,
    pub max_pain_vas: i64,
}

/// Physiological measures a guard is held against, in millionths.
#[derive(Clone, Copy, Debug)]
pub struct NormalizedMetrics {
    pub hrv_sdnn: i64,
    pub emg_tension: i64,
    pub fatigue_index: i64,
}

/// A scoped, time-bounded credential for the elevated band.
#[derive(Clone, Debug)]
pub struct CapabilityToken {
    /// Subject the token was issued to.
    pub subjectid: String,
    /// Band the token declares.
    pub roh_band: RiskBand,
    /// Scopes the token carries.
    pub scope: Vec<String>,
    /// Largest effect magnitude the token permits, in millionths.
    pub max_effectsize: i64,
    /// First instant of validity, Unix seconds.
    pub valid_from: i64,
    /// Last instant of validity, Unix seconds.
    pub valid_until: i64,
    /// Thresholds the host's physiology must satisfy.
    pub physioguard: PhysioGuard,
}

/// The scope that the elevated band requires.
pub const HIGHRISK_RESEARCH_SCOPE: &'static str = "highrisk_research";

/// Whether `scope` holds the string `wanted`.
pub open spec fn has_scope(scope: Seq<String>, wanted: Seq<char>) -> bool {
    exists|i: int| 0 <= i < scope.len() && (#[trigger] scope[i])@ == wanted
}

/// Whether a kind of proposal may use the elevated band: parameter nudges
/// and threshold shifts only.
pub open spec fn kind_permitted(kind: ProposalKind) -> bool {
    kind == ProposalKind::ParamNudge || kind == ProposalKind::ThresholdShift
}

/// Whether `now` lies in the validity window of the token, both ends
/// included.
pub open spec fn in_window(t: CapabilityToken, now: i64) -> bool {
    t.valid_from <= now <= t.valid_until
}

/// Whether the physiological guard is satisfied: variability at or above
/// its minimum; tension, fatigue and pain at or below their maxima.
pub open spec fn physio_guard_holds(
    guard: PhysioGuard,
    metrics: NormalizedMetrics,
    pain_vas: i64,
) -> bool {
    &&& metrics.hrv_sdnn >= guard.min_hrv_sdnn
    &&& metrics.emg_tension <= guard.max_emg_tension
    &&& metrics.fatigue_index <= guard.max_fatigue_index
    &&& pain_vas <= guard.max_pain_vas
}

/// Verdict of the token gate: the first failure in the order missing
/// token, subject, band, scope, validity window, kind.
pub open spec fn token_gate(
    token: Option<CapabilityToken>,
    subjectid: Seq<char>,
    kind: ProposalKind,
    now: i64,
) -> Result<(), DenyReason> {
    match token {
        None => Err(DenyReason::TokenMissing),
        Some(t) => if t.subjectid@ != subjectid {
            Err(DenyReason::SubjectMismatch)
        } else if t.roh_band != RiskBand::Elevated {
            Err(DenyReason::WrongBand)
        } else if !has_scope(t.scope@, HIGHRISK_RESEARCH_SCOPE@) {
            Err(DenyReason::ScopeMissing)
        } else if !in_window(t, now) {
            Err(DenyReason::TokenExpired)
        } else if !kind_permitted(kind) {
            Err(DenyReason::KindNotPermitted)
        } else {
            Ok(())
        },
    }
}

/// Verdict on the use of the research band with a given token: the first
/// failure in the order band, scope, effect size, ceiling, physiological
/// guard.
pub open spec fn research_band_verdict(
    t: CapabilityToken,
    effect_l2: i64,
    roh_after: i64,
    roh_ceiling_research: i64,
    metrics: NormalizedMetrics,
    pain_vas: i64,
) -> Result<(), DenyReason> {
    if t.roh_band != RiskBand::Elevated {
        Err(DenyReason::WrongBand)
    } else if !has_scope(t.scope@, HIGHRISK_RESEARCH_SCOPE@) {
        Err(DenyReason::ScopeMissing)
    } else if effect_l2 > t.max_effectsize {
        Err(DenyReason::EffectSizeExceeded)
    } else if roh_after > roh_ceiling_research {
        Err(DenyReason::ElevatedCeilingViolation)
    } else if !physio_guard_holds(t.physioguard, metrics, pain_vas) {
        Err(DenyReason::PhysioGuardViolation)
    } else {
        Ok(())
    }
}

/// Verdict of an elevated-band evaluation: the token gate first, then
/// effect size, ceiling and physiological guard.
pub open spec fn elevated_verdict(
    token: Option<CapabilityToken>,
    subjectid: Seq<char>,
    kind: ProposalKind,
    now: i64,
    effect_l2: i64,
    roh_after: i64,
    roh_ceiling_research: i64,
    metrics: NormalizedMetrics,
    pain_vas: i64,
) -> Result<(), DenyReason> {
    match token_gate(token, subjectid, kind, now) {
        Err(e) => Err(e),
        Ok(_) => research_band_verdict(
            token.unwrap(),
            effect_l2,
            roh_after,
            roh_ceiling_research,
            metrics,
            pain_vas,
        ),
    }
}

/// The token behind an optional reference.
pub open spec fn token_of(token: Option<&CapabilityToken>) -> Option<CapabilityToken> {
    match token {
        Some(t) => Some(*t),
        None => None,
    }
}

/// Whether the token carries the scope `wanted`.
pub fn token_has_scope(token: &CapabilityToken, wanted: &str) -> (r: bool)
    ensures
        r == has_scope(token.scope@, wanted@),
{
    let mut i: usize = 0;
    while i < token.scope.len()
        invariant
            i <= token.scope.len(),
            forall|k: int| 0 <= k < i ==> (#[trigger] token.scope@[k])@ != wanted@,
        decreases token.scope.len() - i,
    {
        if str_eq(token.scope[i].as_str(), wanted) {
            return true;
        }
        i += 1;
    }
    false
}

/// Checks the physiological guard of a token.
pub fn check_physioguard(guard: &PhysioGuard, metrics: &NormalizedMetrics, pain_vas: i64) -> (r:
    Result<(), DenyReason>)
    ensures
        r == (if physio_guard_holds(*guard, *metrics, pain_vas) {
            Ok::<(), DenyReason>(())
        } else {
            Err::<(), _>(DenyReason::PhysioGuardViolation)
        }),
{
    if metrics.hrv_sdnn < guard.min_hrv_sdnn {
        return Err(DenyReason::PhysioGuardViolation);
    }
    if metrics.emg_tension > guard.max_emg_tension {
        return Err(DenyReason::PhysioGuardViolation);
    }
    if metrics.fatigue_index > guard.max_fatigue_index {
        return Err(DenyReason::PhysioGuardViolation);
    }
    if pain_vas > guard.max_pain_vas {
        return Err(DenyReason::PhysioGuardViolation);
    }
    Ok(())
}

/// Verifies a capability token for a proposal of `subjectid` and `kind` at
/// time `now_unix`.
pub fn verify_token(
    token: Option<&CapabilityToken>,
    subjectid: &str,
    kind: ProposalKind,
    now_unix: i64,
) -> (r: Result<(), DenyReason>)
    ensures
        r == token_gate(token_of(token), subjectid@, kind, now_unix),
{
    let t = match token {
        None => {
            return Err(DenyReason::TokenMissing);
        },
        Some(t) => t,
    };
    if !str_eq(t.subjectid.as_str(), subjectid) {
        return Err(DenyReason::SubjectMismatch);
    }
    if t.roh_band != RiskBand::Elevated {
        return Err(DenyReason::WrongBand);
    }
    if !token_has_scope(t, HIGHRISK_RESEARCH_SCOPE) {
        return Err(DenyReason::ScopeMissing);
    }
    if now_unix < t.valid_from || now_unix > t.valid_until {
        return Err(DenyReason::TokenExpired);
    }
    match kind {
        ProposalKind::ParamNudge | ProposalKind::ThresholdShift => {},
        _ => {
            return Err(DenyReason::KindNotPermitted);
        },
    }
    Ok(())
}

/// Enforces the research band for a token already tied to its proposal:
/// band, scope, effect size, ceiling and physiological guard.
pub fn enforce_research_band(
    token: &CapabilityToken,
    effect_l2: i64,
    roh_after: i64,
    roh_ceiling_research: i64,
    metrics: &NormalizedMetrics,
    pain_vas: i64,
) -> (r: Result<(), DenyReason>)
    ensures
        r == research_band_verdict(
            *token,
            effect_l2,
            roh_after,
            roh_ceiling_research,
            *metrics,
            pain_vas,
        ),
{
    if token.roh_band != RiskBand::Elevated {
        return Err(DenyReason::WrongBand);
    }
    if !token_has_scope(token, HIGHRISK_RESEARCH_SCOPE) {
        return Err(DenyReason::ScopeMissing);
    }
    if effect_l2 > token.max_effectsize {
        return Err(DenyReason::EffectSizeExceeded);
    }
    if roh_after > roh_ceiling_research {
        return Err(DenyReason::ElevatedCeilingViolation);
    }
    check_physioguard(&token.physioguard, metrics, pain_vas)
}

/// Whether every condition of the elevated band holds.
pub open spec fn escalation_granted(
    token: Option<CapabilityToken>,
    subjectid: Seq<char>,
    kind: ProposalKind,
    now: i64,
    effect_l2: i64,
    roh_after: i64,
    roh_ceiling_research: i64,
    metrics: NormalizedMetrics,
    pain_vas: i64,
) -> bool {
    &&& token is Some
    &&& token.unwrap().subjectid@ == subjectid
    &&& token.unwrap().roh_band == RiskBand::Elevated
    &&& has_scope(token.unwrap().scope@, HIGHRISK_RESEARCH_SCOPE@)
    &&& in_window(token.unwrap(), now)
    &&& kind_permitted(kind)
    &&& effect_l2 <= token.unwrap().max_effectsize
    &&& roh_after <= roh_ceiling_research
    &&& physio_guard_holds(token.unwrap().physioguard, metrics, pain_vas)
}

/// The elevated band is granted exactly when every one of its conditions
/// holds, and a single failed condition denies with its own reason:
/// subject, band, scope, window, kind, effect size, ceiling, guard.
pub proof fn lemma_escalation_requires_all(
    token: Option<CapabilityToken>,
    subjectid: Seq<char>,
    kind: ProposalKind,
    now: i64,
    effect_l2: i64,
    roh_after: i64,
    roh_ceiling_research: i64,
    metrics: NormalizedMetrics,
    pain_vas: i64,
)
    ensures
        ({
            let v = elevated_verdict(
                token,
                subjectid,
                kind,
                now,
                effect_l2,
                roh_after,
                roh_ceiling_research,
                metrics,
                pain_vas,
            );
            let t = token.unwrap();
            let others = |skip: int|
                {
                    &&& token is Some
                    &&& (skip == 0 || t.subjectid@ == subjectid)
                    &&& (skip == 1 || t.roh_band == RiskBand::Elevated)
                    &&& (skip == 2 || has_scope(t.scope@, HIGHRISK_RESEARCH_SCOPE@))
                    &&& (skip == 3 || in_window(t, now))
                    &&& (skip == 4 || kind_permitted(kind))
                    &&& (skip == 5 || effect_l2 <= t.max_effectsize)
                    &&& (skip == 6 || roh_after <= roh_ceiling_research)
                    &&& (skip == 7 || physio_guard_holds(t.physioguard, metrics, pain_vas))
                };
            &&& v is Ok <==> escalation_granted(
                token,
                subjectid,
                kind,
                now,
                effect_l2,
                roh_after,
                roh_ceiling_research,
                metrics,
                pain_vas,
            )
            &&& token is None ==> v == Err::<(), _>(DenyReason::TokenMissing)
            &&& others(0) && t.subjectid@ != subjectid ==> v == Err::<(), _>(
                DenyReason::SubjectMismatch,
            )
            &&& others(1) && t.roh_band != RiskBand::Elevated ==> v == Err::<(), _>(
                DenyReason::WrongBand,
            )
            &&& others(2) && !has_scope(t.scope@, HIGHRISK_RESEARCH_SCOPE@) ==> v == Err::<(), _>(
                DenyReason::ScopeMissing,
            )
            &&& others(3) && !in_window(t, now) ==> v == Err::<(), _>(DenyReason::TokenExpired)
            &&& others(4) && !kind_permitted(kind) ==> v == Err::<(), _>(
                DenyReason::KindNotPermitted,
            )
            &&& others(5) && effect_l2 > t.max_effectsize ==> v == Err::<(), _>(
                DenyReason::EffectSizeExceeded,
            )
            &&& others(6) && roh_after > roh_ceiling_research ==> v == Err::<(), _>(
                DenyReason::ElevatedCeilingViolation,
            )
            &&& others(7) && !physio_guard_holds(t.physioguard, metrics, pain_vas) ==> v == Err::<
                (),
                _,
            >(DenyReason::PhysioGuardViolation)
        }),
{
}

} // verus!
