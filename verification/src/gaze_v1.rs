//! Corridor guard for the gaze corridor, version one.
//!
//! A corridor is a named, versioned safety envelope for one use-case. The
//! guard checks a live state against the static envelope, one dimension
//! group at a time. Every group is checked, so a denial carries all
//! breaches at once.

use vstd::prelude::*;
use crate::evidence_bundle::{
    hex_tag, lemma_registry_hex, required_hex, required_tag_list, required_tags, tag_hex,
};
use crate::fixed::{clamp_unit_spec, UNIT};
use crate::metrics::CorridorMetricsSink;
use crate::reason::CorridorDimension;

verus! {

/// Stable identifier of this corridor.
pub const XR_GAZE_CORRIDOR_ID: &'static str = "bio.corridor.xr.gaze.v1";

/// Evidence bundle of this corridor: exactly ten tags as hex text.
#[derive(Clone, Debug)]
pub struct XrGazeEvidenceBundleV1 {
    pub tags: [String; 10],
}

/// Static envelope of the corridor. Real-valued ceilings are in millionths
/// of their unit; times are in milliseconds.
#[derive(Clone, Copy, Debug)]
pub struct XrGazeCorridorEnvelopeV1 {
    pub max_spatial_error_cm: i64,
    pub per_event_energy_j: i64,
    pub per_session_energy_j: i64,
    pub daily_energy_j: i64,
    pub sbio_load_index_max: i64,
    pub local_thermal_delta_c_max: i64,
    pub global_thermal_delta_c_max: i64,
    pub max_duty_fraction_session: i64,
    pub min_inter_event_ms: u64,
    pub max_continuous_burst_ms: u64,
    pub min_cooldown_between_bursts_ms: u64,
    pub hrv_drop_allowed_ratio: i64,
    pub eeg_beta_gamma_ceiling: i64,
    pub roh_ceiling: i64,
    pub roh_target: i64,
}

/// Observables of one decision step, in the units of the envelope.
#[derive(Clone, Copy, Debug)]
pub struct XrGazeCorridorStateV1 {
    pub spatial_error_cm: i64,
    pub event_energy_j: i64,
    pub session_energy_j: i64,
    pub daily_energy_j: i64,
    pub sbio_load_index: i64,
    pub local_thermal_delta_c: i64,
    pub global_thermal_delta_c: i64,
    pub session_duty_fraction: i64,
    pub inter_event_ms: u64,
    pub continuous_burst_ms: u64,
    pub cooldown_since_last_burst_ms: u64,
    pub hrv_ratio: i64,
    pub eeg_beta_gamma_load: i64,
    pub roh_estimate_window: i64,
}

/// Outcome of a corridor decision.
#[derive(Clone, Copy, Debug, PartialEq, Eq, Structural)]
pub enum EvolutionDecisionKind {
    Allow,
    Deny,
}

/// Decision of a corridor guard: the outcome, the corridor and every
/// breached dimension group, in the fixed order of the groups.
#[derive(Clone, Debug)]
pub struct EvolutionDecision {
    pub kind: EvolutionDecisionKind,
    pub corridor_id: String,
    pub reasons: Vec<CorridorDimension>,
}

/// One breach as reported to the metrics sink.
#[derive(Clone, Copy, Debug)]
pub struct BreachSignal {
    pub dimension: CorridorDimension,
    /// The offending magnitude of the group, in millionths.
    pub value: i64,
}

/// Everything one corridor decision yields: the decision and the
/// observations that go to the metrics sink.
#[derive(Clone, Debug)]
pub struct CorridorReport {
    pub decision: EvolutionDecision,
    /// One signal per breached group, in the order of the reasons.
    pub breach_signals: Vec<BreachSignal>,
    /// Kernel distance: the spatial error.
    pub kernel_distance: i64,
    /// Knowledge factor within zero and one, in millionths.
    pub knowledge_factor: i64,
}

/// Guard of the gaze corridor.
#[derive(Clone, Debug)]
pub struct XrGazeCorridorGuardV1 {
    pub envelope: XrGazeCorridorEnvelopeV1,
    pub evidence: XrGazeEvidenceBundleV1,
}

/// A guard kernel of a corridor.
pub trait XrCorridorGuardKernel {
    /// Identifier of the corridor the kernel guards.
    fn corridor_id(&self) -> &'static str;

    /// Checks `state` against the envelope, reports to `metrics` and
    /// decides.
    fn check_and_decide<M: CorridorMetricsSink>(
        &self,
        state: &XrGazeCorridorStateV1,
        metrics: &M,
    ) -> EvolutionDecision;
}

impl CorridorDimension {
    /// Reason text of a breach of this group.
    pub fn reason(&self) -> (r: &'static str)
        ensures
            r == breach_reason(*self),
    {
        match self {
            CorridorDimension::Spatial => "spatial_error_exceeds_corridor",
            CorridorDimension::Energy => "energy_envelope_exceeded",
            CorridorDimension::Thermal => "sbio_or_thermal_envelope_exceeded",
            CorridorDimension::DutyTiming => "duty_or_timing_violation",
            CorridorDimension::HrvEegRoh => "hrv_eeg_or_roh_violation",
        }
    }

    /// Label under which a breach of this group is counted.
    pub fn breach_type(&self) -> (r: &'static str)
        ensures
            r == breach_label(*self),
    {
        match self {
            CorridorDimension::Spatial => "spatial",
            CorridorDimension::Energy => "energy",
            CorridorDimension::Thermal => "thermal",
            CorridorDimension::DutyTiming => "duty_timing",
            CorridorDimension::HrvEegRoh => "hrv_eeg_roh",
        }
    }
}

/// Reason text of a breach.
pub open spec fn breach_reason(d: CorridorDimension) -> &'static str {
    match d {
        CorridorDimension::Spatial => "spatial_error_exceeds_corridor",
        CorridorDimension::Energy => "energy_envelope_exceeded",
        CorridorDimension::Thermal => "sbio_or_thermal_envelope_exceeded",
        CorridorDimension::DutyTiming => "duty_or_timing_violation",
        CorridorDimension::HrvEegRoh => "hrv_eeg_or_roh_violation",
    }
}

/// Label under which a breach is counted.
pub open spec fn breach_label(d: CorridorDimension) -> &'static str {
    match d {
        CorridorDimension::Spatial => "spatial",
        CorridorDimension::Energy => "energy",
        CorridorDimension::Thermal => "thermal",
        CorridorDimension::DutyTiming => "duty_timing",
        CorridorDimension::HrvEegRoh => "hrv_eeg_roh",
    }
}

/// Whether the state is inside the envelope in one dimension group. Every
/// bound is inclusive.
pub open spec fn within(
    e: XrGazeCorridorEnvelopeV1,
    s: XrGazeCorridorStateV1,
    d: CorridorDimension,
) -> bool {
    match d {
        CorridorDimension::Spatial => s.spatial_error_cm <= e.max_spatial_error_cm,
        CorridorDimension::Energy => {
            &&& s.event_energy_j <= e.per_event_energy_j
            &&& s.session_energy_j <= e.per_session_energy_j
            &&& s.daily_energy_j <= e.daily_energy_j
        },
        CorridorDimension::Thermal => {
            &&& s.sbio_load_index <= e.sbio_load_index_max
            &&& s.local_thermal_delta_c <= e.local_thermal_delta_c_max
            &&& s.global_thermal_delta_c <= e.global_thermal_delta_c_max
        },
        CorridorDimension::DutyTiming => {
            &&& s.session_duty_fraction <= e.max_duty_fraction_session
            &&& s.inter_event_ms >= e.min_inter_event_ms
            &&& s.continuous_burst_ms <= e.max_continuous_burst_ms
            &&& s.cooldown_since_last_burst_ms >= e.min_cooldown_between_bursts_ms
        },
        CorridorDimension::HrvEegRoh => {
            &&& s.hrv_ratio >= e.hrv_drop_allowed_ratio
            &&& s.eeg_beta_gamma_load <= e.eeg_beta_gamma_ceiling
            &&& s.roh_estimate_window <= e.roh_ceiling
        },
    }
}

/// The magnitude reported with a breach of a group.
pub open spec fn breach_value(s: XrGazeCorridorStateV1, d: CorridorDimension) -> i64 {
    match d {
        CorridorDimension::Spatial => s.spatial_error_cm,
        CorridorDimension::Energy => s.event_energy_j,
        CorridorDimension::Thermal => s.local_thermal_delta_c,
        CorridorDimension::DutyTiming => s.session_duty_fraction,
        CorridorDimension::HrvEegRoh => s.roh_estimate_window,
    }
}

/// The group `d` alone if the state breaches it, nothing otherwise.
pub open spec fn breach_if(
    e: XrGazeCorridorEnvelopeV1,
    s: XrGazeCorridorStateV1,
    d: CorridorDimension,
) -> Seq<CorridorDimension> {
    if within(e, s, d) {
        Seq::empty()
    } else {
        seq![d]
    }
}

/// The breached groups, in checking order: spatial, energy, thermal, duty
/// and timing, then heart-rate variability, EEG and risk.
pub open spec fn breaches(e: XrGazeCorridorEnvelopeV1, s: XrGazeCorridorStateV1) -> Seq<
    CorridorDimension,
> {
    breach_if(e, s, CorridorDimension::Spatial) + breach_if(e, s, CorridorDimension::Energy)
        + breach_if(e, s, CorridorDimension::Thermal) + breach_if(
        e,
        s,
        CorridorDimension::DutyTiming,
    ) + breach_if(e, s, CorridorDimension::HrvEegRoh)
}

/// The signal reported for a breach of group `d`.
pub open spec fn signal_of(s: XrGazeCorridorStateV1, d: CorridorDimension) -> BreachSignal {
    BreachSignal { dimension: d, value: breach_value(s, d) }
}

/// Whether `signals` reports exactly `reasons`, one signal each, in order.
pub open spec fn signals_match(
    s: XrGazeCorridorStateV1,
    reasons: Seq<CorridorDimension>,
    signals: Seq<BreachSignal>,
) -> bool {
    &&& signals.len() == reasons.len()
    &&& forall|i: int| 0 <= i < reasons.len() ==> #[trigger] signals[i] == signal_of(s, reasons[i])
}

/// Whether `report` is what the guard yields for `s` under envelope `e`.
pub open spec fn is_report_of(
    report: CorridorReport,
    e: XrGazeCorridorEnvelopeV1,
    s: XrGazeCorridorStateV1,
) -> bool {
    &&& report.decision.reasons@ == breaches(e, s)
    &&& report.decision.kind == (if breaches(e, s).len() == 0 {
        EvolutionDecisionKind::Allow
    } else {
        EvolutionDecisionKind::Deny
    })
    &&& report.decision.corridor_id@ == XR_GAZE_CORRIDOR_ID@
    &&& signals_match(s, report.decision.reasons@, report.breach_signals@)
    &&& report.kernel_distance == s.spatial_error_cm
    &&& report.knowledge_factor as int == knowledge_factor_spec(s)
}

/// Thirty times the unclamped knowledge factor, in millionths: eighteen
/// parts for the margin of the spatial error under 0.20 cm, twelve for the
/// margin of the risk estimate under 0.30. Each margin is at least zero,
/// and is the whole when the measure is zero.
pub open spec fn knowledge_factor_thirtieths(s: XrGazeCorridorStateV1) -> int {
    let spatial_ratio = if 5 * s.spatial_error_cm > UNIT {
        UNIT as int
    } else {
        5 * s.spatial_error_cm
    };
    let roh_ratio_thirds = if 10 * s.roh_estimate_window > 3 * UNIT {
        3 * UNIT
    } else {
        10 * s.roh_estimate_window
    };
    18 * (UNIT - spatial_ratio) + 4 * (3 * UNIT - roh_ratio_thirds)
}

/// The knowledge factor in millionths: 0.6 of the spatial margin plus 0.4
/// of the risk margin, rounded down and clamped into the unit interval.
pub open spec fn knowledge_factor_spec(s: XrGazeCorridorStateV1) -> int {
    clamp_unit_spec(knowledge_factor_thirtieths(s) / 30)
}

/// Computes the knowledge factor of a state.
pub fn compute_knowledge_factor(state: &XrGazeCorridorStateV1) -> (kf: i64)
    ensures
        kf as int == knowledge_factor_spec(*state),
        0 <= kf <= UNIT,
{
    let unit: i128 = UNIT as i128;
    let spatial_scaled: i128 = 5 * (state.spatial_error_cm as i128);
    let spatial_ratio: i128 = if spatial_scaled > unit {
        unit
    } else {
        spatial_scaled
    };
    let roh_scaled: i128 = 10 * (state.roh_estimate_window as i128);
    let roh_ratio_thirds: i128 = if roh_scaled > 3 * unit {
        3 * unit
    } else {
        roh_scaled
    };
    let thirtieths: i128 = 18 * (unit - spatial_ratio) + 4 * (3 * unit - roh_ratio_thirds);
    let raw: i128 = thirtieths / 30;
    if raw < 0 {
        0
    } else if raw > unit {
        UNIT
    } else {
        raw as i64
    }
}

impl Default for XrGazeEvidenceBundleV1 {
    /// The bundle of the corridor: the ten registry tags as hex text.
    fn default() -> (r: Self)
        ensures
            forall|i: int| 0 <= i < 10 ==> (#[trigger] r.tags@[i])@ == tag_hex(required_tags()[i]),
            forall|i: int| 0 <= i < 10 ==> (#[trigger] r.tags@[i])@ == required_hex()[i],
    {
        proof {
            lemma_registry_hex();
        }
        let t = required_tag_list();
        XrGazeEvidenceBundleV1 {
            tags: [
                hex_tag(t[0]),
                hex_tag(t[1]),
                hex_tag(t[2]),
                hex_tag(t[3]),
                hex_tag(t[4]),
                hex_tag(t[5]),
                hex_tag(t[6]),
                hex_tag(t[7]),
                hex_tag(t[8]),
                hex_tag(t[9]),
            ],
        }
    }
}

impl Default for XrGazeCorridorEnvelopeV1 {
    /// The reference envelope of the corridor.
    fn default() -> (r: Self)
        ensures
            r == reference_envelope(),
    {
        XrGazeCorridorEnvelopeV1 {
            max_spatial_error_cm: 200_000,
            per_event_energy_j: 50_000,
            per_session_energy_j: 5_000_000,
            daily_energy_j: 25_000_000,
            sbio_load_index_max: 300_000,
            local_thermal_delta_c_max: 800_000,
            global_thermal_delta_c_max: 400_000,
            max_duty_fraction_session: 350_000,
            min_inter_event_ms: 25,
            max_continuous_burst_ms: 500,
            min_cooldown_between_bursts_ms: 250,
            hrv_drop_allowed_ratio: 850_000,
            eeg_beta_gamma_ceiling: 800_000,
            roh_ceiling: 300_000,
            roh_target: 100_000,
        }
    }
}

/// The reference envelope: 0.20 cm of spatial error; 0.05 J per event, 5 J
/// per session and 25 J per day; load index 0.30, thermal deltas 0.8 and
/// 0.4 degrees; duty 0.35 with at least 25 ms between events, bursts of at
/// most 500 ms and 250 ms of cooldown; heart-rate variability ratio at
/// least 0.85, EEG load at most 0.80, risk ceiling 0.30 and target 0.10.
pub open spec fn reference_envelope() -> XrGazeCorridorEnvelopeV1 {
    XrGazeCorridorEnvelopeV1 {
        max_spatial_error_cm: 200_000,
        per_event_energy_j: 50_000,
        per_session_energy_j: 5_000_000,
        daily_energy_j: 25_000_000,
        sbio_load_index_max: 300_000,
        local_thermal_delta_c_max: 800_000,
        global_thermal_delta_c_max: 400_000,
        max_duty_fraction_session: 350_000,
        min_inter_event_ms: 25,
        max_continuous_burst_ms: 500,
        min_cooldown_between_bursts_ms: 250,
        hrv_drop_allowed_ratio: 850_000,
        eeg_beta_gamma_ceiling: 800_000,
        roh_ceiling: 300_000,
        roh_target: 100_000,
    }
}

impl Default for XrGazeCorridorGuardV1 {
    /// The guard with the reference envelope and the registry bundle.
    fn default() -> (r: Self)
        ensures
            r.envelope == reference_envelope(),
            forall|i: int|
                0 <= i < 10 ==> (#[trigger] r.evidence.tags@[i])@ == tag_hex(required_tags()[i]),
    {
        XrGazeCorridorGuardV1 {
            envelope: XrGazeCorridorEnvelopeV1::default(),
            evidence: XrGazeEvidenceBundleV1::default(),
        }
    }
}

/// Records a breach of group `d` unless the state is inside it.
fn record_group(
    e: &XrGazeCorridorEnvelopeV1,
    s: &XrGazeCorridorStateV1,
    d: CorridorDimension,
    inside: bool,
    value: i64,
    reasons: &mut Vec<CorridorDimension>,
    signals: &mut Vec<BreachSignal>,
)
    requires
        inside == within(*e, *s, d),
        value == breach_value(*s, d),
        signals_match(*s, old(reasons)@, old(signals)@),
    ensures
        final(reasons)@ == old(reasons)@ + breach_if(*e, *s, d),
        signals_match(*s, final(reasons)@, final(signals)@),
{
    if !inside {
        reasons.push(d);
        signals.push(BreachSignal { dimension: d, value });
        assert(reasons@ =~= old(reasons)@ + breach_if(*e, *s, d));
    } else {
        assert(reasons@ =~= old(reasons)@ + breach_if(*e, *s, d));
    }
}

impl XrGazeCorridorGuardV1 {
    /// Whether the spatial error is within the envelope.
    pub fn within_spatial(&self, s: &XrGazeCorridorStateV1) -> (r: bool)
        ensures
            r == within(self.envelope, *s, CorridorDimension::Spatial),
    {
        s.spatial_error_cm <= self.envelope.max_spatial_error_cm
    }

    /// Whether event, session and daily energy are within the envelope.
    pub fn within_energy(&self, s: &XrGazeCorridorStateV1) -> (r: bool)
        ensures
            r == within(self.envelope, *s, CorridorDimension::Energy),
    {
        s.event_energy_j <= self.envelope.per_event_energy_j && s.session_energy_j
            <= self.envelope.per_session_energy_j && s.daily_energy_j
            <= self.envelope.daily_energy_j
    }

    /// Whether load index and thermal deltas are within the envelope.
    pub fn within_sbio_and_thermal(&self, s: &XrGazeCorridorStateV1) -> (r: bool)
        ensures
            r == within(self.envelope, *s, CorridorDimension::Thermal),
    {
        s.sbio_load_index <= self.envelope.sbio_load_index_max && s.local_thermal_delta_c
            <= self.envelope.local_thermal_delta_c_max && s.global_thermal_delta_c
            <= self.envelope.global_thermal_delta_c_max
    }

    /// Whether duty fraction and event timing are within the envelope.
    pub fn within_duty_and_timing(&self, s: &XrGazeCorridorStateV1) -> (r: bool)
        ensures
            r == within(self.envelope, *s, CorridorDimension::DutyTiming),
    {
        s.session_duty_fraction <= self.envelope.max_duty_fraction_session && s.inter_event_ms
            >= self.envelope.min_inter_event_ms && s.continuous_burst_ms
            <= self.envelope.max_continuous_burst_ms && s.cooldown_since_last_burst_ms
            >= self.envelope.min_cooldown_between_bursts_ms
    }

    /// Whether heart-rate variability, EEG load and the risk estimate are
    /// within the envelope.
    pub fn within_hrv_eeg_and_roh(&self, s: &XrGazeCorridorStateV1) -> (r: bool)
        ensures
            r == within(self.envelope, *s, CorridorDimension::HrvEegRoh),
    {
        s.hrv_ratio >= self.envelope.hrv_drop_allowed_ratio && s.eeg_beta_gamma_load
            <= self.envelope.eeg_beta_gamma_ceiling && s.roh_estimate_window
            <= self.envelope.roh_ceiling
    }

    /// Checks every dimension group and gathers the decision together with
    /// the observations owed to the metrics sink. No group is skipped after
    /// a breach. The decision allows only if no group is breached.
    pub fn evaluate(&self, state: &XrGazeCorridorStateV1) -> (report: CorridorReport)
        ensures
            is_report_of(report, self.envelope, *state),
    {
        let mut reasons: Vec<CorridorDimension> = Vec::new();
        let mut signals: Vec<BreachSignal> = Vec::new();
        record_group(
            &self.envelope,
            state,
            CorridorDimension::Spatial,
            self.within_spatial(state),
            state.spatial_error_cm,
            &mut reasons,
            &mut signals,
        );
        record_group(
            &self.envelope,
            state,
            CorridorDimension::Energy,
            self.within_energy(state),
            state.event_energy_j,
            &mut reasons,
            &mut signals,
        );
        record_group(
            &self.envelope,
            state,
            CorridorDimension::Thermal,
            self.within_sbio_and_thermal(state),
            state.local_thermal_delta_c,
            &mut reasons,
            &mut signals,
        );
        record_group(
            &self.envelope,
            state,
            CorridorDimension::DutyTiming,
            self.within_duty_and_timing(state),
            state.session_duty_fraction,
            &mut reasons,
            &mut signals,
        );
        record_group(
            &self.envelope,
            state,
            CorridorDimension::HrvEegRoh,
            self.within_hrv_eeg_and_roh(state),
            state.roh_estimate_window,
            &mut reasons,
            &mut signals,
        );
        assert(reasons@ =~= breaches(self.envelope, *state));
        let kind = if reasons.len() == 0 {
            EvolutionDecisionKind::Allow
        } else {
            EvolutionDecisionKind::Deny
        };
        CorridorReport {
            decision: EvolutionDecision {
                kind,
                corridor_id: XR_GAZE_CORRIDOR_ID.to_owned(),
                reasons,
            },
            breach_signals: signals,
            kernel_distance: state.spatial_error_cm,
            knowledge_factor: compute_knowledge_factor(state),
        }
    }
}

impl XrCorridorGuardKernel for XrGazeCorridorGuardV1 {
    fn corridor_id(&self) -> (r: &'static str)
        ensures
            r == XR_GAZE_CORRIDOR_ID,
    {
        XR_GAZE_CORRIDOR_ID
    }

    /// Decides on `state` and reports to `metrics`: one breach count per
    /// breached group, in checking order, then the kernel distance, then
    /// the knowledge factor. The two observations are made on every
    /// decision.
    fn check_and_decide<M: CorridorMetricsSink>(
        &self,
        state: &XrGazeCorridorStateV1,
        metrics: &M,
    ) -> (d: EvolutionDecision)
        ensures
            d.reasons@ == breaches(self.envelope, *state),
            d.kind == EvolutionDecisionKind::Allow <==> breaches(self.envelope, *state).len() == 0,
            d.kind == EvolutionDecisionKind::Deny <==> breaches(self.envelope, *state).len() > 0,
            d.corridor_id@ == XR_GAZE_CORRIDOR_ID@,
    {
        let report = self.evaluate(state);
        let mut i: usize = 0;
        while i < report.breach_signals.len()
            invariant
                i <= report.breach_signals.len(),
            decreases report.breach_signals.len() - i,
        {
            let signal = report.breach_signals[i];
            metrics.inc_corridor_breach(
                XR_GAZE_CORRIDOR_ID,
                signal.dimension.breach_type(),
                signal.value,
            );
            i += 1;
        }
        metrics.observe_corridor_kernel_distance(XR_GAZE_CORRIDOR_ID, report.kernel_distance);
        metrics.observe_corridor_knowledge_factor(XR_GAZE_CORRIDOR_ID, report.knowledge_factor);
        report.decision
    }
}

/// A group is among the breaches exactly when the state is outside it, and
/// no group is reported twice.
pub proof fn lemma_breaches_are_the_failed_groups(
    e: XrGazeCorridorEnvelopeV1,
    s: XrGazeCorridorStateV1,
    d: CorridorDimension,
)
    ensures
        breaches(e, s).contains(d) <==> !within(e, s, d),
        breaches(e, s).no_duplicates(),
        breaches(e, s).len() <= 5,
{
    let a = breach_if(e, s, CorridorDimension::Spatial);
    let b = breach_if(e, s, CorridorDimension::Energy);
    let c = breach_if(e, s, CorridorDimension::Thermal);
    let f = breach_if(e, s, CorridorDimension::DutyTiming);
    let g = breach_if(e, s, CorridorDimension::HrvEegRoh);
    let all = breaches(e, s);
    assert(all =~= a + b + c + f + g);
    if !within(e, s, d) {
        let k: int = if d == CorridorDimension::Spatial {
            0
        } else if d == CorridorDimension::Energy {
            a.len() as int
        } else if d == CorridorDimension::Thermal {
            (a.len() + b.len()) as int
        } else if d == CorridorDimension::DutyTiming {
            (a.len() + b.len() + c.len()) as int
        } else {
            (a.len() + b.len() + c.len() + f.len()) as int
        };
        assert(all[k] == d);
    }
    assert forall|i: int, j: int| 0 <= i < all.len() && 0 <= j < all.len() && i != j implies all[i]
        != all[j] by {
        lemma_breach_rank(e, s, i);
        lemma_breach_rank(e, s, j);
    }
    if all.contains(d) {
        let i = choose|i: int| 0 <= i < all.len() && all[i] == d;
        lemma_breach_rank(e, s, i);
    }
}

/// Position of a group in the checking order.
pub open spec fn rank(d: CorridorDimension) -> int {
    match d {
        CorridorDimension::Spatial => 0,
        CorridorDimension::Energy => 1,
        CorridorDimension::Thermal => 2,
        CorridorDimension::DutyTiming => 3,
        CorridorDimension::HrvEegRoh => 4,
    }
}

/// Every reported group is breached, and the groups are reported in
/// strictly rising checking order.
pub proof fn lemma_breach_rank(e: XrGazeCorridorEnvelopeV1, s: XrGazeCorridorStateV1, i: int)
    requires
        0 <= i < breaches(e, s).len(),
    ensures
        !within(e, s, breaches(e, s)[i]),
        i <= rank(breaches(e, s)[i]),
        forall|j: int|
            i < j < breaches(e, s).len() ==> rank(breaches(e, s)[i]) < rank(
                #[trigger] breaches(e, s)[j],
            ),
{
    let a = breach_if(e, s, CorridorDimension::Spatial);
    let b = breach_if(e, s, CorridorDimension::Energy);
    let c = breach_if(e, s, CorridorDimension::Thermal);
    let f = breach_if(e, s, CorridorDimension::DutyTiming);
    let g = breach_if(e, s, CorridorDimension::HrvEegRoh);
    assert(breaches(e, s) =~= a + b + c + f + g);
}

/// A state that breaches the spatial and the duty-and-timing groups and no
/// other is denied with exactly these two reasons, in this order.
pub proof fn lemma_spatial_and_duty_breach(e: XrGazeCorridorEnvelopeV1, s: XrGazeCorridorStateV1)
    requires
        !within(e, s, CorridorDimension::Spatial),
        within(e, s, CorridorDimension::Energy),
        within(e, s, CorridorDimension::Thermal),
        !within(e, s, CorridorDimension::DutyTiming),
        within(e, s, CorridorDimension::HrvEegRoh),
    ensures
        breaches(e, s) == seq![CorridorDimension::Spatial, CorridorDimension::DutyTiming],
{
    assert(breaches(e, s) =~= seq![CorridorDimension::Spatial, CorridorDimension::DutyTiming]);
}

} // verus!
