//! Reason codes of a denial. The taxonomy is closed: every denial carries
//! exactly one of these codes.

use vstd::prelude::*;

verus! {

/// Dimension group of a corridor envelope.
#[derive(Clone, Copy, Debug, PartialEq, Eq, Structural)]
pub enum CorridorDimension {
    /// Spatial error.
    Spatial,
    /// Energy per event, per session and per day.
    Energy,
    /// Biological load and thermal deltas.
    Thermal,
    /// Duty fraction and event timing.
    DutyTiming,
    /// Heart-rate variability, EEG load and risk estimate.
    HrvEegRoh,
}

/// Why a proposal was denied.
#[derive(Clone, Copy, Debug, PartialEq, Eq, Structural)]
pub enum DenyReason {
    /// The most recent lifeforce sample is a hard stop.
    HardStop,
    /// The most recent lifeforce sample is below the domain floor.
    BelowFloor,
    /// The lifeforce series is empty.
    NoSamples,
    /// No revocable consent record covers host and domain.
    NoValidConsent,
    /// The token is outside its validity window.
    TokenExpired,
    /// The elevated band was needed and no token was given.
    TokenMissing,
    /// The token lacks the required scope.
    ScopeMissing,
    /// The token was issued to another subject.
    SubjectMismatch,
    /// The token does not declare the elevated band.
    WrongBand,
    /// The proposal kind may not use the elevated band.
    KindNotPermitted,
    /// Usage exceeds a per-epoch ceiling.
    CapacityExceeded,
    /// A damping multiplier above one.
    AmplificationForbidden,
    /// Risk rises, or ends above the strict ceiling.
    StrictCeilingViolation,
    /// Risk ends above the elevated ceiling.
    ElevatedCeilingViolation,
    /// The effect is larger than the token permits.
    EffectSizeExceeded,
    /// A physiological guard threshold is violated.
    PhysioGuardViolation,
    /// A corridor dimension group is outside its envelope.
    CorridorBreach { dimension: CorridorDimension },
    /// The evidence bundle does not hold exactly ten tags.
    WrongCardinality,
    /// A required evidence tag is absent.
    MissingRequiredTags,
    /// No unit test is indexed for the proposal.
    MissingUnitTest,
    /// No formal harness is indexed for a critical proposal.
    MissingFormalHarness,
    /// A policy declares a permanent ban.
    StructuralBanAttempted,
}

/// The text of a reason, fit for display or logging.
pub open spec fn reason_text(r: DenyReason) -> &'static str {
    match r {
        DenyReason::HardStop => "lifeforce band is HardStop",
        DenyReason::BelowFloor => "lifeforce below the domain floor",
        DenyReason::NoSamples => "lifeforce series holds no sample",
        DenyReason::NoValidConsent => "no valid, revocable consent for this domain",
        DenyReason::TokenExpired => "Token expired or not yet valid",
        DenyReason::TokenMissing => "RoH override requires EVOLVE token",
        DenyReason::ScopeMissing => "Token missing highrisk_research scope",
        DenyReason::SubjectMismatch => "Token subject mismatch",
        DenyReason::WrongBand => "Token roh_band must be 'research'",
        DenyReason::KindNotPermitted => "High-risk research allows only ParamNudge or ThresholdShift",
        DenyReason::CapacityExceeded => "usage exceeds a per-epoch ceiling",
        DenyReason::AmplificationForbidden => "damping multiplier above 1.0",
        DenyReason::StrictCeilingViolation => "risk rises or exceeds the strict ceiling",
        DenyReason::ElevatedCeilingViolation => "roh_after exceeds research ceiling",
        DenyReason::EffectSizeExceeded => "effect size exceeds token.maxeffectsize",
        DenyReason::PhysioGuardViolation => "physioguard thresholds violated",
        DenyReason::CorridorBreach { dimension } => match dimension {
            CorridorDimension::Spatial => "spatial_error_exceeds_corridor",
            CorridorDimension::Energy => "energy_envelope_exceeded",
            CorridorDimension::Thermal => "sbio_or_thermal_envelope_exceeded",
            CorridorDimension::DutyTiming => "duty_or_timing_violation",
            CorridorDimension::HrvEegRoh => "hrv_eeg_or_roh_violation",
        },
        DenyReason::WrongCardinality => "evidence bundle must contain exactly 10 tags",
        DenyReason::MissingRequiredTags => "evidence bundle missing one or more required tags",
        DenyReason::MissingUnitTest => "missing associated unit test in test index",
        DenyReason::MissingFormalHarness => "critical upgrade missing formal harness",
        DenyReason::StructuralBanAttempted => "policy attempts a permanent ban",
    }
}

impl DenyReason {
    /// The text of the reason, fit for display or logging.
    pub fn describe(&self) -> (r: &'static str)
        ensures
            r == reason_text(*self),
    {
        match self {
            DenyReason::HardStop => "lifeforce band is HardStop",
            DenyReason::BelowFloor => "lifeforce below the domain floor",
            DenyReason::NoSamples => "lifeforce series holds no sample",
            DenyReason::NoValidConsent => "no valid, revocable consent for this domain",
            DenyReason::TokenExpired => "Token expired or not yet valid",
            DenyReason::TokenMissing => "RoH override requires EVOLVE token",
            DenyReason::ScopeMissing => "Token missing highrisk_research scope",
            DenyReason::SubjectMismatch => "Token subject mismatch",
            DenyReason::WrongBand => "Token roh_band must be 'research'",
            DenyReason::KindNotPermitted => {
                "High-risk research allows only ParamNudge or ThresholdShift"
            },
            DenyReason::CapacityExceeded => "usage exceeds a per-epoch ceiling",
            DenyReason::AmplificationForbidden => "damping multiplier above 1.0",
            DenyReason::StrictCeilingViolation => "risk rises or exceeds the strict ceiling",
            DenyReason::ElevatedCeilingViolation => "roh_after exceeds research ceiling",
            DenyReason::EffectSizeExceeded => "effect size exceeds token.maxeffectsize",
            DenyReason::PhysioGuardViolation => "physioguard thresholds violated",
            DenyReason::CorridorBreach { dimension } => match dimension {
                CorridorDimension::Spatial => "spatial_error_exceeds_corridor",
                CorridorDimension::Energy => "energy_envelope_exceeded",
                CorridorDimension::Thermal => "sbio_or_thermal_envelope_exceeded",
                CorridorDimension::DutyTiming => "duty_or_timing_violation",
                CorridorDimension::HrvEegRoh => "hrv_eeg_or_roh_violation",
            },
            DenyReason::WrongCardinality => "evidence bundle must contain exactly 10 tags",
            DenyReason::MissingRequiredTags => "evidence bundle missing one or more required tags",
            DenyReason::MissingUnitTest => "missing associated unit test in test index",
            DenyReason::MissingFormalHarness => "critical upgrade missing formal harness",
            DenyReason::StructuralBanAttempted => "policy attempts a permanent ban",
        }
    }
}

} // verus!
