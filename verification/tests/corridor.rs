use std::cell::RefCell;

use bioscale_admission::gaze_v1::{
    compute_knowledge_factor, EvolutionDecisionKind, XrCorridorGuardKernel,
    XrGazeCorridorEnvelopeV1, XrGazeCorridorGuardV1, XrGazeCorridorStateV1,
    XrGazeEvidenceBundleV1, XR_GAZE_CORRIDOR_ID,
};
use bioscale_admission::metrics::{
    validate_metrics_schema, CorridorMetricsSink, MetricDescriptor, MetricRegistrySnapshot,
    MetricsSchemaVersion,
};
use bioscale_admission::reason::CorridorDimension;

fn mic(x: f64) -> i64 {
    (x * 1_000_000.0).round() as i64
}

fn inside() -> XrGazeCorridorStateV1 {
    XrGazeCorridorStateV1 {
        spatial_error_cm: mic(0.1),
        event_energy_j: mic(0.01),
        session_energy_j: mic(1.0),
        daily_energy_j: mic(5.0),
        sbio_load_index: mic(0.1),
        local_thermal_delta_c: mic(0.2),
        global_thermal_delta_c: mic(0.1),
        session_duty_fraction: mic(0.2),
        inter_event_ms: 40,
        continuous_burst_ms: 100,
        cooldown_since_last_burst_ms: 300,
        hrv_ratio: mic(0.9),
        eeg_beta_gamma_load: mic(0.5),
        roh_estimate_window: mic(0.15),
    }
}

#[derive(Default)]
struct Recorder {
    breaches: RefCell<Vec<(String, String, i64)>>,
    distances: RefCell<Vec<(String, i64)>>,
    factors: RefCell<Vec<(String, i64)>>,
}

impl CorridorMetricsSink for Recorder {
    fn inc_corridor_breach(&self, corridor_id: &str, breach_type: &str, value: i64) {
        self.breaches.borrow_mut().push((corridor_id.to_string(), breach_type.to_string(), value));
    }

    fn observe_corridor_kernel_distance(&self, corridor_id: &str, distance: i64) {
        self.distances.borrow_mut().push((corridor_id.to_string(), distance));
    }

    fn observe_corridor_knowledge_factor(&self, corridor_id: &str, kf: i64) {
        self.factors.borrow_mut().push((corridor_id.to_string(), kf));
    }
}

#[test]
fn reference_envelope_values() {
    let e = XrGazeCorridorEnvelopeV1::default();
    assert_eq!(e.max_spatial_error_cm, 200_000);
    assert_eq!(e.per_event_energy_j, 50_000);
    assert_eq!(e.per_session_energy_j, 5_000_000);
    assert_eq!(e.daily_energy_j, 25_000_000);
    assert_eq!(e.sbio_load_index_max, 300_000);
    assert_eq!(e.local_thermal_delta_c_max, 800_000);
    assert_eq!(e.global_thermal_delta_c_max, 400_000);
    assert_eq!(e.max_duty_fraction_session, 350_000);
    assert_eq!(e.min_inter_event_ms, 25);
    assert_eq!(e.max_continuous_burst_ms, 500);
    assert_eq!(e.min_cooldown_between_bursts_ms, 250);
    assert_eq!(e.hrv_drop_allowed_ratio, 850_000);
    assert_eq!(e.eeg_beta_gamma_ceiling, 800_000);
    assert_eq!(e.roh_ceiling, 300_000);
    assert_eq!(e.roh_target, 100_000);
}

#[test]
fn corridor_evidence_bundle_default_tags() {
    let b = XrGazeEvidenceBundleV1::default();
    let expected = [
        "a1f3c9b2", "4be79d01", "9cd4a7e8", "2f8c6b44", "7e1da2ff", "5b93e0c3", "d0174aac",
        "6ac2f9d9", "c4e61b20", "8f09d5ee",
    ];
    for i in 0..10 {
        assert_eq!(b.tags[i], expected[i]);
    }
    let g = XrGazeCorridorGuardV1::default();
    assert_eq!(g.evidence.tags[9], "8f09d5ee");
    assert_eq!(g.envelope.roh_ceiling, 300_000);
}

#[test]
fn corridor_allows_inside_state_and_always_observes() {
    let g = XrGazeCorridorGuardV1::default();
    let rec = Recorder::default();
    let d = g.check_and_decide(&inside(), &rec);
    assert_eq!(d.kind, EvolutionDecisionKind::Allow);
    assert!(d.reasons.is_empty());
    assert_eq!(d.corridor_id, "bio.corridor.xr.gaze.v1");
    assert_eq!(g.corridor_id(), XR_GAZE_CORRIDOR_ID);
    assert!(rec.breaches.borrow().is_empty());
    assert_eq!(*rec.distances.borrow(), vec![("bio.corridor.xr.gaze.v1".to_string(), 100_000)]);
    assert_eq!(*rec.factors.borrow(), vec![("bio.corridor.xr.gaze.v1".to_string(), 500_000)]);
}

#[test]
fn corridor_spatial_and_duty_breach_gives_two_reasons() {
    let g = XrGazeCorridorGuardV1::default();
    let rec = Recorder::default();
    let mut s = inside();
    s.spatial_error_cm = mic(0.25);
    s.session_duty_fraction = mic(0.4);
    let d = g.check_and_decide(&s, &rec);
    assert_eq!(d.kind, EvolutionDecisionKind::Deny);
    assert_eq!(d.reasons, vec![CorridorDimension::Spatial, CorridorDimension::DutyTiming]);
    assert_eq!(d.reasons[0].reason(), "spatial_error_exceeds_corridor");
    assert_eq!(d.reasons[1].reason(), "duty_or_timing_violation");
    assert_eq!(
        *rec.breaches.borrow(),
        vec![
            ("bio.corridor.xr.gaze.v1".to_string(), "spatial".to_string(), 250_000),
            ("bio.corridor.xr.gaze.v1".to_string(), "duty_timing".to_string(), 400_000),
        ]
    );
    assert_eq!(rec.distances.borrow().len(), 1);
    assert_eq!(rec.factors.borrow().len(), 1);
    assert_eq!(rec.distances.borrow()[0].1, 250_000);
    assert_eq!(rec.factors.borrow()[0].1, 200_000);
}

#[test]
fn corridor_collects_every_breach() {
    let g = XrGazeCorridorGuardV1::default();
    let mut s = inside();
    s.spatial_error_cm = mic(0.2) + 1;
    s.daily_energy_j = mic(25.0) + 1;
    s.global_thermal_delta_c = mic(0.4) + 1;
    s.cooldown_since_last_burst_ms = 249;
    s.hrv_ratio = mic(0.85) - 1;
    let report = g.evaluate(&s);
    assert_eq!(report.decision.kind, EvolutionDecisionKind::Deny);
    assert_eq!(
        report.decision.reasons,
        vec![
            CorridorDimension::Spatial,
            CorridorDimension::Energy,
            CorridorDimension::Thermal,
            CorridorDimension::DutyTiming,
            CorridorDimension::HrvEegRoh,
        ]
    );
    let values: Vec<i64> = report.breach_signals.iter().map(|b| b.value).collect();
    assert_eq!(values, vec![200_001, 10_000, 200_000, 200_000, 150_000]);
    let labels: Vec<&str> = report.breach_signals.iter().map(|b| b.dimension.breach_type()).collect();
    assert_eq!(labels, vec!["spatial", "energy", "thermal", "duty_timing", "hrv_eeg_roh"]);
    assert_eq!(report.kernel_distance, 200_001);
}

#[test]
fn corridor_bounds_are_inclusive() {
    let g = XrGazeCorridorGuardV1::default();
    let s = XrGazeCorridorStateV1 {
        spatial_error_cm: mic(0.2),
        event_energy_j: mic(0.05),
        session_energy_j: mic(5.0),
        daily_energy_j: mic(25.0),
        sbio_load_index: mic(0.3),
        local_thermal_delta_c: mic(0.8),
        global_thermal_delta_c: mic(0.4),
        session_duty_fraction: mic(0.35),
        inter_event_ms: 25,
        continuous_burst_ms: 500,
        cooldown_since_last_burst_ms: 250,
        hrv_ratio: mic(0.85),
        eeg_beta_gamma_load: mic(0.8),
        roh_estimate_window: mic(0.3),
    };
    assert!(g.within_spatial(&s));
    assert!(g.within_energy(&s));
    assert!(g.within_sbio_and_thermal(&s));
    assert!(g.within_duty_and_timing(&s));
    assert!(g.within_hrv_eeg_and_roh(&s));
    assert_eq!(g.evaluate(&s).decision.kind, EvolutionDecisionKind::Allow);
    let mut t = s;
    t.inter_event_ms = 24;
    assert!(!g.within_duty_and_timing(&t));
    let mut t = s;
    t.continuous_burst_ms = 501;
    assert!(!g.within_duty_and_timing(&t));
    let mut t = s;
    t.eeg_beta_gamma_load += 1;
    assert!(!g.within_hrv_eeg_and_roh(&t));
    let mut t = s;
    t.roh_estimate_window += 1;
    assert!(!g.within_hrv_eeg_and_roh(&t));
    let mut t = s;
    t.event_energy_j += 1;
    assert!(!g.within_energy(&t));
    let mut t = s;
    t.sbio_load_index += 1;
    assert!(!g.within_sbio_and_thermal(&t));
}

#[test]
fn knowledge_factor_values() {
    let mut s = inside();
    assert_eq!(compute_knowledge_factor(&s), 500_000);
    s.spatial_error_cm = 0;
    s.roh_estimate_window = 0;
    assert_eq!(compute_knowledge_factor(&s), 1_000_000);
    s.spatial_error_cm = mic(0.2);
    s.roh_estimate_window = mic(0.3);
    assert_eq!(compute_knowledge_factor(&s), 0);
    s.spatial_error_cm = mic(0.05);
    s.roh_estimate_window = mic(0.1);
    assert_eq!(compute_knowledge_factor(&s), 716_666);
    s.spatial_error_cm = mic(5.0);
    s.roh_estimate_window = mic(5.0);
    assert_eq!(compute_knowledge_factor(&s), 0);
    s.spatial_error_cm = mic(-1.0);
    s.roh_estimate_window = mic(0.3);
    assert_eq!(compute_knowledge_factor(&s), 1_000_000);
    s.spatial_error_cm = i64::MIN;
    s.roh_estimate_window = i64::MIN;
    assert_eq!(compute_knowledge_factor(&s), 1_000_000);
    s.spatial_error_cm = i64::MAX;
    s.roh_estimate_window = i64::MAX;
    assert_eq!(compute_knowledge_factor(&s), 0);
    s.spatial_error_cm = mic(0.2);
    s.roh_estimate_window = 0;
    assert_eq!(compute_knowledge_factor(&s), 400_000);
    s.spatial_error_cm = 0;
    s.roh_estimate_window = mic(0.3);
    assert_eq!(compute_knowledge_factor(&s), 600_000);
}

fn metric(name: &str, ids: &[&str]) -> MetricDescriptor {
    MetricDescriptor {
        name: name.to_string(),
        labels: vec!["corridor".to_string()],
        aln_clause_ids: ids.iter().map(|s| s.to_string()).collect(),
    }
}

#[test]
fn metrics_schema_alignment() {
    let version = MetricsSchemaVersion { major: 1, minor: 2, patch: 3 };
    let good = MetricRegistrySnapshot {
        schema_version: version,
        metrics: vec![
            metric("corridor_breach_total", &["whatever"]),
            metric("aln_non_compliant_events_total", &["ALN-1", "ALN-22"]),
            metric("aln_non_compliant_events_total_by_host", &[]),
        ],
    };
    assert!(validate_metrics_schema(&good).is_ok());
    let bad = MetricRegistrySnapshot {
        schema_version: version,
        metrics: vec![
            metric("ok", &[]),
            metric("aln_non_compliant_events_total", &["ALN-1", "aln-2"]),
            metric("aln_non_compliant_events_total", &["x"]),
        ],
    };
    let e = validate_metrics_schema(&bad).unwrap_err();
    assert_eq!(e.index, 1);
    assert_eq!(e.name, "aln_non_compliant_events_total");
    let empty = MetricRegistrySnapshot { schema_version: version, metrics: vec![] };
    assert!(validate_metrics_schema(&empty).is_ok());
}
