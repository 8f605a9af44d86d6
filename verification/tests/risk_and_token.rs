use bioscale_admission::bio_defense::EvolutionDomainId;
use bioscale_admission::reason::DenyReason;
use bioscale_admission::riskofharm::{RiskDecision, RiskOfHarm, RiskQuery};
use bioscale_admission::rohmodel::{RohBands, RohConfigError, RohModelCore, RohModelShard};
use bioscale_admission::sovereigntycore::{
    magnitude, project_roh, Decision, Denial, NeurorightsProfile, NormalizedBioState, Proposal,
    ProposalKind, SovereigntyCore, StakePolicy,
};
use bioscale_admission::tokenguard::{
    check_physioguard, enforce_research_band, token_has_scope, verify_token, CapabilityToken,
    NormalizedMetrics, PhysioGuard, RiskBand,
};

fn u(x: f64) -> i64 {
    (x * 1_000_000.0).round() as i64
}

fn shard(strict: f64, research: f64) -> RohModelShard {
    RohModelShard {
        model: RohModelCore {
            id: "roh-v1".to_string(),
            bands: RohBands { rohceiling_strict: u(strict), rohceiling_research: u(research) },
            notes: None,
        },
    }
}

fn risk() -> RiskOfHarm {
    RiskOfHarm::new(shard(0.3, 0.45)).unwrap()
}

fn token() -> CapabilityToken {
    CapabilityToken {
        subjectid: "host-1".to_string(),
        roh_band: RiskBand::Elevated,
        scope: vec!["telemetry".to_string(), "highrisk_research".to_string()],
        max_effectsize: u(0.2),
        valid_from: 1_000,
        valid_until: 2_000,
        physioguard: PhysioGuard {
            min_hrv_sdnn: u(0.4),
            max_emg_tension: u(0.6),
            max_fatigue_index: u(0.7),
            max_pain_vas: u(0.3),
        },
    }
}

fn calm() -> NormalizedMetrics {
    NormalizedMetrics { hrv_sdnn: u(0.5), emg_tension: u(0.5), fatigue_index: u(0.5) }
}

fn query(before: f64, after: f64) -> RiskQuery {
    RiskQuery {
        roh_before: u(before),
        roh_after: u(after),
        effect_l2: u(0.1),
        kind: ProposalKind::ParamNudge,
        now_unix: 1_500,
        metrics: calm(),
        pain_vas: u(0.1),
    }
}

#[test]
fn roh_config_invariants() {
    assert_eq!(shard(0.3, 0.45).validate_invariants(), Ok(()));
    assert_eq!(shard(0.3, 0.3).validate_invariants(), Ok(()));
    assert_eq!(shard(0.3, 0.299999).validate_invariants(), Err(RohConfigError::ResearchBelowStrict));
    assert_eq!(shard(0.3, 0.450001).validate_invariants(), Err(RohConfigError::ResearchAboveMax));
    assert_eq!(shard(0.6, 0.5).validate_invariants(), Err(RohConfigError::ResearchBelowStrict));
    assert_eq!(shard(0.3, 0.45).roh_ceiling_strict(), 300_000);
    assert_eq!(shard(0.3, 0.45).roh_ceiling_research(), 450_000);
    assert_eq!(RohConfigError::ResearchBelowStrict.message(), "research ceiling < strict ceiling");
    assert_eq!(RohConfigError::ResearchAboveMax.message(), "research ceiling > 0.45");
}

#[test]
fn risk_evaluator_refuses_bad_config() {
    assert_eq!(RiskOfHarm::new(shard(0.3, 0.2)).unwrap_err(), RohConfigError::ResearchBelowStrict);
    assert_eq!(RiskOfHarm::new(shard(0.3, 0.5)).unwrap_err(), RohConfigError::ResearchAboveMax);
    let r = risk();
    assert_eq!(r.ceiling_strict(), 300_000);
    assert_eq!(r.ceiling_research(), 450_000);
}

#[test]
fn strict_band_needs_no_rise_and_ceiling() {
    let r = risk();
    assert!(r.check_normal(u(0.2), u(0.2)));
    assert!(r.check_normal(u(0.3), u(0.3)));
    assert!(!r.check_normal(u(0.2), u(0.200001)));
    assert!(!r.check_normal(u(0.5), u(0.300001)));
    assert!(r.check_normal(u(0.5), u(0.3)));
    assert!(r.check_research(u(0.1), u(0.45)));
    assert!(!r.check_research(u(0.9), u(0.450001)));
}

#[test]
fn evaluate_strict_band() {
    let r = risk();
    assert_eq!(
        r.evaluate(&query(0.2, 0.1), RiskBand::Strict, None, "host-1"),
        Ok(RiskDecision { band: RiskBand::Strict, roh_after: 100_000 })
    );
    assert_eq!(
        r.evaluate(&query(0.2, 0.25), RiskBand::Strict, Some(&token()), "host-1"),
        Err(DenyReason::StrictCeilingViolation)
    );
    assert_eq!(
        r.evaluate(&query(0.4, 0.35), RiskBand::Strict, None, "host-1"),
        Err(DenyReason::StrictCeilingViolation)
    );
}

#[test]
fn elevated_band_accepts_rise_with_valid_token() {
    let r = risk();
    assert_eq!(
        r.evaluate(&query(0.2, 0.4), RiskBand::Elevated, Some(&token()), "host-1"),
        Ok(RiskDecision { band: RiskBand::Elevated, roh_after: 400_000 })
    );
    assert_eq!(
        r.evaluate(&query(0.2, 0.45), RiskBand::Elevated, Some(&token()), "host-1"),
        Ok(RiskDecision { band: RiskBand::Elevated, roh_after: 450_000 })
    );
}

#[test]
fn elevated_band_missing_token() {
    assert_eq!(
        risk().evaluate(&query(0.2, 0.4), RiskBand::Elevated, None, "host-1"),
        Err(DenyReason::TokenMissing)
    );
}

#[test]
fn elevated_band_subject_mismatch() {
    assert_eq!(
        risk().evaluate(&query(0.2, 0.4), RiskBand::Elevated, Some(&token()), "host-2"),
        Err(DenyReason::SubjectMismatch)
    );
}

#[test]
fn elevated_band_wrong_band() {
    let mut t = token();
    t.roh_band = RiskBand::Strict;
    assert_eq!(
        risk().evaluate(&query(0.2, 0.4), RiskBand::Elevated, Some(&t), "host-1"),
        Err(DenyReason::WrongBand)
    );
}

#[test]
fn elevated_band_scope_missing() {
    let mut t = token();
    t.scope = vec!["telemetry".to_string(), "highrisk_research ".to_string()];
    assert_eq!(
        risk().evaluate(&query(0.2, 0.4), RiskBand::Elevated, Some(&t), "host-1"),
        Err(DenyReason::ScopeMissing)
    );
    assert!(!token_has_scope(&t, "highrisk_research"));
    assert!(token_has_scope(&t, "telemetry"));
    assert!(token_has_scope(&token(), "highrisk_research"));
}

#[test]
fn elevated_band_token_window_is_inclusive() {
    let r = risk();
    let t = token();
    for (now, ok) in [(999, false), (1_000, true), (2_000, true), (2_001, false)] {
        let mut q = query(0.2, 0.4);
        q.now_unix = now;
        let got = r.evaluate(&q, RiskBand::Elevated, Some(&t), "host-1");
        if ok {
            assert!(got.is_ok());
        } else {
            assert_eq!(got, Err(DenyReason::TokenExpired));
        }
    }
}

#[test]
fn elevated_band_kind_not_permitted() {
    let r = risk();
    let t = token();
    for kind in [ProposalKind::ModeShift, ProposalKind::PolicyUpdate, ProposalKind::DomainUpgrade] {
        let mut q = query(0.2, 0.4);
        q.kind = kind;
        assert_eq!(
            r.evaluate(&q, RiskBand::Elevated, Some(&t), "host-1"),
            Err(DenyReason::KindNotPermitted)
        );
    }
    let mut q = query(0.2, 0.4);
    q.kind = ProposalKind::ThresholdShift;
    assert!(r.evaluate(&q, RiskBand::Elevated, Some(&t), "host-1").is_ok());
}

#[test]
fn elevated_band_effect_size_exceeded() {
    let mut q = query(0.2, 0.4);
    q.effect_l2 = u(0.2);
    assert!(risk().evaluate(&q, RiskBand::Elevated, Some(&token()), "host-1").is_ok());
    q.effect_l2 = u(0.2) + 1;
    assert_eq!(
        risk().evaluate(&q, RiskBand::Elevated, Some(&token()), "host-1"),
        Err(DenyReason::EffectSizeExceeded)
    );
}

#[test]
fn elevated_band_ceiling_violation() {
    assert_eq!(
        risk().evaluate(&query(0.2, 0.450001), RiskBand::Elevated, Some(&token()), "host-1"),
        Err(DenyReason::ElevatedCeilingViolation)
    );
}

#[test]
fn elevated_band_physio_guard_violation() {
    let r = risk();
    let t = token();
    let mut q = query(0.2, 0.4);
    q.metrics.hrv_sdnn = u(0.4) - 1;
    assert_eq!(r.evaluate(&q, RiskBand::Elevated, Some(&t), "host-1"), Err(DenyReason::PhysioGuardViolation));
    let mut q = query(0.2, 0.4);
    q.metrics.emg_tension = u(0.6) + 1;
    assert_eq!(r.evaluate(&q, RiskBand::Elevated, Some(&t), "host-1"), Err(DenyReason::PhysioGuardViolation));
    let mut q = query(0.2, 0.4);
    q.metrics.fatigue_index = u(0.7) + 1;
    assert_eq!(r.evaluate(&q, RiskBand::Elevated, Some(&t), "host-1"), Err(DenyReason::PhysioGuardViolation));
    let mut q = query(0.2, 0.4);
    q.pain_vas = u(0.3) + 1;
    assert_eq!(r.evaluate(&q, RiskBand::Elevated, Some(&t), "host-1"), Err(DenyReason::PhysioGuardViolation));
    let mut q = query(0.2, 0.4);
    q.metrics = NormalizedMetrics { hrv_sdnn: u(0.4), emg_tension: u(0.6), fatigue_index: u(0.7) };
    q.pain_vas = u(0.3);
    assert!(r.evaluate(&q, RiskBand::Elevated, Some(&t), "host-1").is_ok());
    assert_eq!(check_physioguard(&t.physioguard, &calm(), u(0.1)), Ok(()));
}

#[test]
fn token_checks_come_in_order() {
    let mut t = token();
    t.subjectid = "other".to_string();
    t.roh_band = RiskBand::Strict;
    t.scope.clear();
    assert_eq!(verify_token(Some(&t), "host-1", ProposalKind::ModeShift, 0), Err(DenyReason::SubjectMismatch));
    t.subjectid = "host-1".to_string();
    assert_eq!(verify_token(Some(&t), "host-1", ProposalKind::ModeShift, 0), Err(DenyReason::WrongBand));
    t.roh_band = RiskBand::Elevated;
    assert_eq!(verify_token(Some(&t), "host-1", ProposalKind::ModeShift, 0), Err(DenyReason::ScopeMissing));
    t.scope.push("highrisk_research".to_string());
    assert_eq!(verify_token(Some(&t), "host-1", ProposalKind::ModeShift, 0), Err(DenyReason::TokenExpired));
    assert_eq!(verify_token(Some(&t), "host-1", ProposalKind::ModeShift, 1_500), Err(DenyReason::KindNotPermitted));
    assert_eq!(verify_token(Some(&t), "host-1", ProposalKind::ParamNudge, 1_500), Ok(()));
    assert_eq!(verify_token(None, "host-1", ProposalKind::ParamNudge, 1_500), Err(DenyReason::TokenMissing));
}

#[test]
fn research_band_checks_come_in_order() {
    let mut t = token();
    t.roh_band = RiskBand::Strict;
    t.scope.clear();
    let tense = NormalizedMetrics { hrv_sdnn: 0, emg_tension: 0, fatigue_index: 0 };
    assert_eq!(enforce_research_band(&t, u(0.9), u(0.9), u(0.45), &tense, 0), Err(DenyReason::WrongBand));
    t.roh_band = RiskBand::Elevated;
    assert_eq!(enforce_research_band(&t, u(0.9), u(0.9), u(0.45), &tense, 0), Err(DenyReason::ScopeMissing));
    t.scope.push("highrisk_research".to_string());
    assert_eq!(enforce_research_band(&t, u(0.9), u(0.9), u(0.45), &tense, 0), Err(DenyReason::EffectSizeExceeded));
    assert_eq!(enforce_research_band(&t, u(0.1), u(0.9), u(0.45), &tense, 0), Err(DenyReason::ElevatedCeilingViolation));
    assert_eq!(enforce_research_band(&t, u(0.1), u(0.4), u(0.45), &tense, 0), Err(DenyReason::PhysioGuardViolation));
    assert_eq!(enforce_research_band(&t, u(0.1), u(0.4), u(0.45), &calm(), 0), Ok(()));
}

#[test]
fn band_selection_tries_strict_first() {
    let r = risk();
    assert_eq!(
        r.evaluate_selecting_band(&query(0.2, 0.1), None, "host-1"),
        Ok(RiskDecision { band: RiskBand::Strict, roh_after: 100_000 })
    );
    assert_eq!(
        r.evaluate_selecting_band(&query(0.2, 0.4), Some(&token()), "host-1"),
        Ok(RiskDecision { band: RiskBand::Elevated, roh_after: 400_000 })
    );
    assert_eq!(r.evaluate_selecting_band(&query(0.2, 0.4), None, "host-1"), Err(DenyReason::TokenMissing));
}

fn sovereign() -> SovereigntyCore {
    SovereigntyCore {
        neurorights: NeurorightsProfile { max_pain_vas: u(0.5), max_cognitive_load: u(0.8) },
        stake: StakePolicy { subjectid: "host-1".to_string() },
        risk: risk(),
    }
}

fn bio(roh: f64) -> NormalizedBioState {
    NormalizedBioState { metrics: calm(), roh: u(roh), pain_vas: u(0.1), cognitive_load: u(0.2) }
}

fn proposal(delta: f64, kind: ProposalKind) -> Proposal {
    Proposal {
        id: "up-1".to_string(),
        subjectid: "host-1".to_string(),
        domain_id: EvolutionDomainId("thermo".to_string()),
        kind,
        roh_delta: u(delta),
        critical: false,
        projected_metrics: calm(),
    }
}

fn denied(d: Decision) -> String {
    match d {
        Decision::Denied(s) => s,
        Decision::Allowed => panic!("allowed"),
    }
}

#[test]
fn core_allows_on_strict_band_without_token() {
    let c = sovereign();
    let d = c.evaluate(&bio(0.2), &proposal(-0.05, ProposalKind::ModeShift), true, None, 1_500);
    assert!(matches!(d, Decision::Allowed));
    assert_eq!(
        c.assess(&bio(0.2), &proposal(-0.05, ProposalKind::ModeShift), true, None, 1_500),
        Ok(RiskDecision { band: RiskBand::Strict, roh_after: 150_000 })
    );
}

#[test]
fn core_denies_in_order_with_texts() {
    let c = sovereign();
    let mut p = proposal(0.1, ProposalKind::ParamNudge);
    p.subjectid = "intruder".to_string();
    let mut s = bio(0.2);
    s.pain_vas = u(0.6);
    s.cognitive_load = u(0.9);
    assert_eq!(denied(c.evaluate(&s, &p, false, None, 1_500)), "Subject is not host");
    let p = proposal(0.1, ProposalKind::ParamNudge);
    assert_eq!(denied(c.evaluate(&s, &p, false, None, 1_500)), "Pain envelope exceeded");
    s.pain_vas = u(0.5);
    assert_eq!(denied(c.evaluate(&s, &p, false, None, 1_500)), "Cognitive load envelope exceeded");
    s.cognitive_load = u(0.8);
    assert_eq!(denied(c.evaluate(&s, &p, false, None, 1_500)), "Projected state leaves safety corridor");
    assert_eq!(denied(c.evaluate(&s, &p, true, None, 1_500)), "RoH override requires EVOLVE token");
    assert_eq!(c.assess(&s, &p, true, None, 1_500), Err(Denial::Risk(DenyReason::TokenMissing)));
    assert_eq!(c.check_neurorights(&s), Ok(()));
}

#[test]
fn core_elevated_path_reasons() {
    let c = sovereign();
    let p = proposal(0.1, ProposalKind::ParamNudge);
    let t = token();
    assert!(matches!(c.evaluate(&bio(0.2), &p, true, Some(&t), 1_500), Decision::Allowed));
    assert_eq!(
        c.assess(&bio(0.2), &p, true, Some(&t), 1_500),
        Ok(RiskDecision { band: RiskBand::Elevated, roh_after: 300_000 })
    );
    assert_eq!(denied(c.evaluate(&bio(0.2), &p, true, Some(&t), 2_500)), "Token expired or not yet valid");
    let big = proposal(0.21, ProposalKind::ParamNudge);
    assert_eq!(
        denied(c.evaluate(&bio(0.2), &big, true, Some(&t), 1_500)),
        "effect size exceeds token.maxeffectsize"
    );
    assert_eq!(
        denied(c.evaluate(&bio(0.4), &p, true, Some(&t), 1_500)),
        "roh_after exceeds research ceiling"
    );
    let mode = proposal(0.1, ProposalKind::ModeShift);
    assert_eq!(
        denied(c.evaluate(&bio(0.2), &mode, true, Some(&t), 1_500)),
        "High-risk research allows only ParamNudge or ThresholdShift"
    );
    let mut tired = proposal(0.1, ProposalKind::ParamNudge);
    tired.projected_metrics.fatigue_index = u(0.9);
    assert_eq!(denied(c.evaluate(&bio(0.2), &tired, true, Some(&t), 1_500)), "physioguard thresholds violated");
    let mut other = token();
    other.subjectid = "host-9".to_string();
    assert_eq!(denied(c.evaluate(&bio(0.2), &p, true, Some(&other), 1_500)), "Token subject mismatch");
    let mut strict = token();
    strict.roh_band = RiskBand::Strict;
    assert_eq!(denied(c.evaluate(&bio(0.2), &p, true, Some(&strict), 1_500)), "Token roh_band must be 'research'");
    let mut bare = token();
    bare.scope.clear();
    assert_eq!(denied(c.evaluate(&bio(0.2), &p, true, Some(&bare), 1_500)), "Token missing highrisk_research scope");
}

#[test]
fn projection_and_magnitude_saturate() {
    assert_eq!(project_roh(u(0.2), u(0.1)), 300_000);
    assert_eq!(project_roh(u(0.2), u(-0.3)), -100_000);
    assert_eq!(project_roh(i64::MAX, 1), i64::MAX);
    assert_eq!(project_roh(i64::MIN, -1), i64::MIN);
    assert_eq!(magnitude(-5), 5);
    assert_eq!(magnitude(5), 5);
    assert_eq!(magnitude(0), 0);
    assert_eq!(magnitude(i64::MIN), i64::MAX);
}

#[test]
fn deny_reason_texts() {
    assert_eq!(DenyReason::TokenMissing.describe(), "RoH override requires EVOLVE token");
    assert_eq!(
        DenyReason::CorridorBreach { dimension: bioscale_admission::reason::CorridorDimension::Energy }
            .describe(),
        "energy_envelope_exceeded"
    );
    assert_eq!(Denial::LeavesCorridor.describe(), "Projected state leaves safety corridor");
    assert_eq!(Denial::Risk(DenyReason::WrongBand).describe(), "Token roh_band must be 'research'");
}
