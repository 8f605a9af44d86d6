use bioscale_admission::bio_defense::{
    assert_epoch_usage_within_bounds, assert_lifeforce_allows_trait,
    assert_policy_respects_doctrine, decide_activation, enforce_decay_multiplier_bounds,
    try_activate_bio_defense_trait, validate_evolution_step_against_brain_capacity,
    BioDefenseDoctrineError, DefensiveEvolutionDomain, EvolutionDomainId, HostId,
    MetabolicConsentScope, SmartRuntimeView, TraitEpochUsage,
};
use bioscale_admission::fixed::{clamp_unit, scale_by, UNIT};
use bioscale_admission::lifeforce::{LifeforceBand, LifeforceBandSeries, LifeforceSample};

fn micro(x: f64) -> i64 {
    (x * 1_000_000.0).round() as i64
}

fn domain(floor: f64, eco: f64, scale: f64, temporary_only: bool) -> DefensiveEvolutionDomain {
    DefensiveEvolutionDomain {
        id: EvolutionDomainId("thermo".to_string()),
        name: "ThermoregulationControl".to_string(),
        lifeforce_floor: micro(floor),
        eco_ceiling_per_epoch: micro(eco),
        scale_limit_per_epoch: micro(scale),
        allow_temporary_denial_only: temporary_only,
    }
}

fn usage(scale: i64, eco: i64) -> TraitEpochUsage {
    TraitEpochUsage { epoch_id: "2026-01-28T08".to_string(), scale_used: scale, eco_cost_used: eco }
}

fn series(samples: &[(LifeforceBand, f64)]) -> LifeforceBandSeries {
    LifeforceBandSeries {
        samples: samples
            .iter()
            .enumerate()
            .map(|(i, (band, level))| LifeforceSample {
                at_ms_utc: i as i64,
                band: *band,
                lifeforcel: micro(*level),
            })
            .collect(),
    }
}

struct Consent(bool);

impl MetabolicConsentScope for Consent {
    fn is_domain_allowed(&self, _host: &HostId, _domain_id: &EvolutionDomainId) -> bool {
        self.0
    }
}

struct Runtime {
    safe: bool,
    asked: std::cell::Cell<u32>,
}

impl SmartRuntimeView for Runtime {
    fn is_environment_safe_for_automation(&self) -> bool {
        self.asked.set(self.asked.get() + 1);
        self.safe
    }
}

#[test]
fn policy_without_temporary_only_flag_is_structural_ban() {
    for floor in [0.0, 0.3, 1.0] {
        for declares in [false, true] {
            let d = domain(floor, 10.0, 0.5, false);
            assert_eq!(
                assert_policy_respects_doctrine(&d, declares),
                Err(BioDefenseDoctrineError::StructuralDomainBanAttempted)
            );
        }
    }
}

#[test]
fn policy_declaring_structural_ban_is_rejected() {
    let d = domain(0.2, 10.0, 0.5, true);
    assert_eq!(
        assert_policy_respects_doctrine(&d, true),
        Err(BioDefenseDoctrineError::StructuralDomainBanAttempted)
    );
    assert_eq!(assert_policy_respects_doctrine(&d, false), Ok(()));
}

#[test]
fn decay_above_one_is_amplification() {
    assert_eq!(
        enforce_decay_multiplier_bounds(UNIT + 1),
        Err(BioDefenseDoctrineError::KarmaAmplificationForbidden)
    );
    assert_eq!(
        enforce_decay_multiplier_bounds(micro(1.5)),
        Err(BioDefenseDoctrineError::KarmaAmplificationForbidden)
    );
    assert_eq!(
        enforce_decay_multiplier_bounds(i64::MAX),
        Err(BioDefenseDoctrineError::KarmaAmplificationForbidden)
    );
}

#[test]
fn decay_in_unit_interval_is_unchanged() {
    for raw in [0, 1, micro(0.25), micro(0.999999), UNIT] {
        assert_eq!(enforce_decay_multiplier_bounds(raw), Ok(raw));
    }
}

#[test]
fn negative_decay_is_clamped_to_zero() {
    for raw in [-1, micro(-0.5), i64::MIN] {
        assert_eq!(enforce_decay_multiplier_bounds(raw), Ok(0));
    }
}

#[test]
fn clamp_unit_limits_both_ends() {
    assert_eq!(clamp_unit(-5), 0);
    assert_eq!(clamp_unit(0), 0);
    assert_eq!(clamp_unit(123_456), 123_456);
    assert_eq!(clamp_unit(UNIT), UNIT);
    assert_eq!(clamp_unit(UNIT + 1), UNIT);
}

#[test]
fn scale_by_rounds_toward_zero_and_saturates() {
    assert_eq!(scale_by(micro(1.0), micro(0.3)), micro(0.3));
    assert_eq!(scale_by(micro(-1.0), micro(0.3)), micro(-0.3));
    assert_eq!(scale_by(1, micro(0.3)), 0);
    assert_eq!(scale_by(-1, micro(0.3)), 0);
    assert_eq!(scale_by(7, micro(0.5)), 3);
    assert_eq!(scale_by(-7, micro(0.5)), -3);
    assert_eq!(scale_by(i64::MAX, i64::MAX), i64::MAX);
    assert_eq!(scale_by(i64::MIN, i64::MAX), i64::MIN);
    assert_eq!(scale_by(i64::MIN, i64::MIN), i64::MAX);
    assert_eq!(scale_by(micro(2.0), micro(-1.5)), micro(-3.0));
}

#[test]
fn usage_equal_to_ceiling_is_allowed() {
    let d = domain(0.2, 10.0, 0.5, true);
    assert_eq!(assert_epoch_usage_within_bounds(&d, &usage(micro(0.5), micro(10.0))), Ok(()));
}

#[test]
fn usage_one_unit_above_ceiling_is_denied() {
    let d = domain(0.2, 10.0, 0.5, true);
    assert_eq!(
        assert_epoch_usage_within_bounds(&d, &usage(micro(0.5) + 1, micro(10.0))),
        Err(BioDefenseDoctrineError::CapacityExceeded)
    );
    assert_eq!(
        assert_epoch_usage_within_bounds(&d, &usage(micro(0.5), micro(10.0) + 1)),
        Err(BioDefenseDoctrineError::CapacityExceeded)
    );
}

#[test]
fn ceiling_round_trip() {
    let d = domain(0.2, 10.0, 0.5, true);
    assert_eq!(d.eco_ceiling_per_epoch, 10_000_000);
    assert_eq!(d.scale_limit_per_epoch, 500_000);
    let at = TraitEpochUsage {
        epoch_id: "e".to_string(),
        scale_used: micro(0.5),
        eco_cost_used: micro(10.0),
    };
    assert_eq!(assert_epoch_usage_within_bounds(&d, &at), Ok(()));
    let above = TraitEpochUsage {
        epoch_id: "e".to_string(),
        scale_used: micro(0.50001),
        eco_cost_used: micro(10.0),
    };
    assert_eq!(above.scale_used, 500_010);
    assert_eq!(
        assert_epoch_usage_within_bounds(&d, &above),
        Err(BioDefenseDoctrineError::CapacityExceeded)
    );
    assert_eq!(at.scale_used, 500_000);
    assert_eq!(at.eco_cost_used, 10_000_000);
}

#[test]
fn lifeforce_gate_reads_last_sample_only() {
    let d = domain(0.3, 10.0, 0.5, true);
    assert_eq!(
        assert_lifeforce_allows_trait(&series(&[]), &d),
        Err(BioDefenseDoctrineError::NoSamples)
    );
    assert_eq!(
        assert_lifeforce_allows_trait(
            &series(&[(LifeforceBand::Safe, 0.9), (LifeforceBand::HardStop, 0.9)]),
            &d
        ),
        Err(BioDefenseDoctrineError::LifeforceHardStop)
    );
    assert_eq!(
        assert_lifeforce_allows_trait(
            &series(&[(LifeforceBand::HardStop, 0.1), (LifeforceBand::SoftWarn, 0.3)]),
            &d
        ),
        Ok(())
    );
    assert_eq!(
        assert_lifeforce_allows_trait(&series(&[(LifeforceBand::Safe, 0.299999)]), &d),
        Err(BioDefenseDoctrineError::LifeforceBelowFloor)
    );
    assert_eq!(
        assert_lifeforce_allows_trait(&series(&[(LifeforceBand::HardStop, 0.0)]), &d),
        Err(BioDefenseDoctrineError::LifeforceHardStop)
    );
}

#[test]
fn series_hard_stop_is_about_last_sample() {
    assert!(!series(&[]).is_hard_stop());
    assert!(series(&[(LifeforceBand::HardStop, 0.5)]).is_hard_stop());
    assert!(!series(&[(LifeforceBand::HardStop, 0.5), (LifeforceBand::Safe, 0.5)]).is_hard_stop());
    assert!(series(&[]).last().is_none());
    assert_eq!(series(&[(LifeforceBand::Safe, 0.5)]).last().unwrap().lifeforcel, 500_000);
}

#[test]
fn brain_capacity_guard() {
    assert_eq!(
        validate_evolution_step_against_brain_capacity(micro(0.6), micro(0.5), 0, micro(0.2)),
        Err(BioDefenseDoctrineError::BRAINInsufficientCapacity)
    );
    assert_eq!(
        validate_evolution_step_against_brain_capacity(micro(0.5), micro(0.5), micro(0.3), micro(0.2)),
        Err(BioDefenseDoctrineError::LifeforceBelowFloor)
    );
    assert_eq!(
        validate_evolution_step_against_brain_capacity(micro(0.5), micro(0.5), micro(0.2), micro(0.2)),
        Ok(())
    );
}

#[test]
fn activation_succeeds_with_fresh_shard() {
    let d = domain(0.3, 10.0, 0.5, true);
    let rt = Runtime { safe: true, asked: std::cell::Cell::new(0) };
    let r = try_activate_bio_defense_trait(
        HostId("host-1".to_string()),
        d,
        &series(&[(LifeforceBand::Safe, 0.8)]),
        &usage(micro(0.1), micro(1.0)),
        &Consent(true),
        &rt,
        micro(0.7),
        1_700_000_000_000,
    )
    .unwrap();
    assert!(r.is_active);
    assert_eq!(r.last_activation_ms_utc, Some(1_700_000_000_000));
    assert_eq!(r.shard.host_id.0, "host-1");
    assert_eq!(r.shard.domain_id.0, "thermo");
    assert_eq!(r.shard.granted_at_ms_utc, 1_700_000_000_000);
    assert!(r.shard.is_revocable);
    assert!(r.shard.zk_proof.is_empty());
    assert_eq!(r.domain.name, "ThermoregulationControl");
    assert_eq!(rt.asked.get(), 1);
}

#[test]
fn activation_fails_in_fixed_order() {
    let hard = series(&[(LifeforceBand::HardStop, 0.8)]);
    let safe = series(&[(LifeforceBand::Safe, 0.8)]);
    let over = usage(micro(0.6), micro(1.0));
    let fine = usage(micro(0.1), micro(1.0));
    let rt = Runtime { safe: false, asked: std::cell::Cell::new(0) };
    let host = || HostId("h".to_string());
    let d = || domain(0.3, 10.0, 0.5, true);
    let e = try_activate_bio_defense_trait(host(), d(), &hard, &over, &Consent(false), &rt, micro(2.0), 5);
    assert_eq!(e.unwrap_err(), BioDefenseDoctrineError::NoValidConsent);
    let e = try_activate_bio_defense_trait(host(), d(), &hard, &over, &Consent(true), &rt, micro(2.0), 5);
    assert_eq!(e.unwrap_err(), BioDefenseDoctrineError::LifeforceHardStop);
    let e = try_activate_bio_defense_trait(host(), d(), &safe, &over, &Consent(true), &rt, micro(2.0), 5);
    assert_eq!(e.unwrap_err(), BioDefenseDoctrineError::CapacityExceeded);
    let e = try_activate_bio_defense_trait(host(), d(), &safe, &fine, &Consent(true), &rt, micro(2.0), 5);
    assert_eq!(e.unwrap_err(), BioDefenseDoctrineError::KarmaAmplificationForbidden);
    assert_eq!(rt.asked.get(), 0);
    let e = try_activate_bio_defense_trait(host(), d(), &safe, &fine, &Consent(true), &rt, micro(1.0), 5);
    assert_eq!(e.unwrap_err(), BioDefenseDoctrineError::EnvironmentUnsafe);
    assert_eq!(rt.asked.get(), 1);
}

#[test]
fn decide_activation_matches_provider_answers() {
    let safe = series(&[(LifeforceBand::Safe, 0.8)]);
    let fine = usage(micro(0.1), micro(1.0));
    let host = || HostId("h".to_string());
    let d = || domain(0.3, 10.0, 0.5, true);
    assert_eq!(
        decide_activation(false, true, host(), d(), &safe, &fine, 0, 1).unwrap_err(),
        BioDefenseDoctrineError::NoValidConsent
    );
    assert_eq!(
        decide_activation(true, false, host(), d(), &safe, &fine, 0, 1).unwrap_err(),
        BioDefenseDoctrineError::EnvironmentUnsafe
    );
    assert_eq!(
        decide_activation(true, true, host(), d(), &series(&[]), &fine, 0, 1).unwrap_err(),
        BioDefenseDoctrineError::NoSamples
    );
    let ok = decide_activation(true, true, host(), d(), &safe, &fine, 0, 9).unwrap();
    assert_eq!(ok.last_activation_ms_utc, Some(9));
    assert!(ok.is_active);
}
