use bioscale_admission::defensive_mutation::{apply_defensive_mutation, DefensiveMutationConfig};
use bioscale_admission::bio_defense::EvolutionDomainId;
use bioscale_admission::lifeforce::{
    LifeforceBand, LifeforceBandSeries as SampleSeries, LifeforceError, LifeforceSample,
};
use bioscale_admission::reflex_sense::{
    check_neuromorph_eligibility, NeuromorphContext, NeuromorphDomain, ReflexSenseEligibility,
};
use bioscale_admission::reflex_sense_mapper::{
    build_neuromorph_context, map_domain_str, map_event_kind_to_neuromorph, map_to_comfort_band,
    ComfortBand, LifeforceBandSeries, NeuralInterfaceSnapshot, RuntimeEventKind,
};
use bioscale_admission::types::{BioTokenState, HostEnvelope, SystemAdjustment};

fn m(x: f64) -> i64 {
    (x * 1_000_000.0).round() as i64
}

fn env() -> HostEnvelope {
    HostEnvelope { brainmin: m(0.1), bloodmin: m(0.1), oxygenmin: m(0.1), smartmax: m(0.5) }
}

fn state(smart: f64) -> BioTokenState {
    BioTokenState { brain: m(1.0), blood: m(0.5), oxygen: m(0.5), smart: m(smart) }
}

fn ctx(d: f64, o: f64, i: f64, s: f64) -> NeuromorphContext {
    NeuromorphContext {
        discomfort_index: m(d),
        overload_ratio: m(o),
        interface_instability: m(i),
        neuromorph_scale_usage: m(s),
    }
}

fn check(domain: NeuromorphDomain, s: &BioTokenState, c: &NeuromorphContext) -> ReflexSenseEligibility {
    check_neuromorph_eligibility(domain, s, &env(), c).unwrap()
}

#[test]
fn eligibility_full_weight_when_comfortable() {
    let c = ctx(0.0, 0.0, 0.0, 0.0);
    let r = check(NeuromorphDomain::ReflexSafety, &state(0.2), &c);
    assert!(r.allowed);
    assert!(r.auto_allowed);
    assert_eq!(r.decay_weight, 1_000_000);
    assert_eq!(r.reason, "allowed_reflex_safety_auto_micro");
    let r = check(NeuromorphDomain::SensoryClarity, &state(0.2), &c);
    assert_eq!(r.decay_weight, 900_000);
    assert_eq!(r.reason, "allowed_sensory_clarity_auto_micro");
    let r = check(NeuromorphDomain::AttentionRouting, &state(0.2), &c);
    assert_eq!(r.decay_weight, 700_000);
    assert_eq!(r.reason, "allowed_attention_routing_auto_micro");
}

#[test]
fn eligibility_weight_formula_and_floors() {
    let c = ctx(0.5, 0.5, 0.5, 0.5);
    assert_eq!(check(NeuromorphDomain::ReflexSafety, &state(0.2), &c).decay_weight, 250_000);
    assert_eq!(check(NeuromorphDomain::SensoryClarity, &state(0.2), &c).decay_weight, 300_000);
    assert_eq!(check(NeuromorphDomain::AttentionRouting, &state(0.2), &c).decay_weight, 200_000);
    let c = ctx(0.1, 0.2, 0.3, 0.4);
    assert_eq!(check(NeuromorphDomain::ReflexSafety, &state(0.2), &c).decay_weight, 650_000);
    assert_eq!(check(NeuromorphDomain::SensoryClarity, &state(0.2), &c).decay_weight, 750_000);
    assert_eq!(check(NeuromorphDomain::AttentionRouting, &state(0.2), &c).decay_weight, 650_000);
    let c = NeuromorphContext {
        discomfort_index: 1,
        overload_ratio: 0,
        interface_instability: 0,
        neuromorph_scale_usage: 0,
    };
    assert_eq!(check(NeuromorphDomain::ReflexSafety, &state(0.2), &c).decay_weight, 999_999);
}

#[test]
fn eligibility_context_is_clamped() {
    let c = ctx(-3.0, -1.0, 7.0, 9.0);
    assert_eq!(check(NeuromorphDomain::ReflexSafety, &state(0.2), &c).decay_weight, 400_000);
    let c = ctx(0.0, 5.0, 0.0, 0.0);
    let r = check(NeuromorphDomain::ReflexSafety, &state(0.2), &c);
    assert!(!r.allowed);
    assert_eq!(r.reason, "overload_hard_stop");
}

#[test]
fn eligibility_hard_stop_thresholds_are_strict() {
    let at = ctx(0.85, 0.75, 0.0, 0.0);
    assert!(check(NeuromorphDomain::ReflexSafety, &state(0.2), &at).allowed);
    let mut over = at;
    over.discomfort_index += 1;
    let r = check(NeuromorphDomain::ReflexSafety, &state(0.2), &over);
    assert!(!r.allowed);
    assert_eq!(r.reason, "discomfort_hard_stop");
    assert_eq!(r.decay_weight, 0);
    assert!(!r.auto_allowed);
    let mut over = at;
    over.overload_ratio += 1;
    let r = check(NeuromorphDomain::ReflexSafety, &state(0.2), &over);
    assert_eq!(r.reason, "overload_hard_stop");
}

#[test]
fn eligibility_smart_share_thresholds() {
    let c = ctx(0.0, 0.0, 0.0, 0.0);
    let r = check(NeuromorphDomain::SensoryClarity, &state(0.019999), &c);
    assert!(!r.allowed);
    assert_eq!(r.reason, "smart_too_low_for_neuromorph");
    let r = check(NeuromorphDomain::SensoryClarity, &state(0.02), &c);
    assert!(r.allowed);
    assert!(!r.auto_allowed);
    assert_eq!(r.reason, "allowed_sensory_clarity_manual_only");
    let r = check(NeuromorphDomain::AttentionRouting, &state(0.099999), &c);
    assert_eq!(r.reason, "allowed_attention_routing_manual_only");
    let r = check(NeuromorphDomain::ReflexSafety, &state(0.1), &c);
    assert!(r.auto_allowed);
    let r = check(NeuromorphDomain::ReflexSafety, &state(-0.3), &c);
    assert_eq!(r.reason, "smart_too_low_for_neuromorph");
    let r = check(NeuromorphDomain::ReflexSafety, &state(0.05), &c);
    assert_eq!(r.reason, "allowed_reflex_safety_manual_only");
}

#[test]
fn eligibility_lifeforce_errors_and_brain_floor() {
    let c = ctx(0.0, 0.0, 0.0, 0.0);
    let mut s = state(0.2);
    s.brain = m(0.05);
    s.blood = 0;
    let r = check_neuromorph_eligibility(NeuromorphDomain::ReflexSafety, &s, &env(), &c).unwrap();
    assert!(!r.allowed);
    assert_eq!(r.reason, "brain_below_min");
    let mut s = state(0.2);
    s.blood = m(0.1);
    assert_eq!(
        check_neuromorph_eligibility(NeuromorphDomain::ReflexSafety, &s, &env(), &c).unwrap_err(),
        LifeforceError::BloodDepletion
    );
    let mut s = state(0.2);
    s.oxygen = m(0.1);
    assert_eq!(
        check_neuromorph_eligibility(NeuromorphDomain::ReflexSafety, &s, &env(), &c).unwrap_err(),
        LifeforceError::OxygenDepletion
    );
    assert_eq!(
        check_neuromorph_eligibility(NeuromorphDomain::ReflexSafety, &state(0.500001), &env(), &c)
            .unwrap_err(),
        LifeforceError::SmartOverMax
    );
    let mut s = state(0.4);
    s.brain = m(0.3);
    assert_eq!(
        check_neuromorph_eligibility(NeuromorphDomain::ReflexSafety, &s, &env(), &c).unwrap_err(),
        LifeforceError::SmartOverMax
    );
    assert!(check(NeuromorphDomain::ReflexSafety, &state(0.5), &c).allowed);
}

#[test]
fn eligibility_constructors() {
    let d = ReflexSenseEligibility::denied("why");
    assert!(!d.allowed);
    assert_eq!(d.decay_weight, 0);
    assert!(!d.auto_allowed);
    assert_eq!(d.reason, "why");
    let a = ReflexSenseEligibility::allowed(123, true, "ok");
    assert!(a.allowed);
    assert_eq!(a.decay_weight, 123);
    assert!(a.auto_allowed);
    assert_eq!(a.reason, "ok");
}

#[test]
fn domain_labels_map_explicitly() {
    for l in ["neuromorph-reflex-micro", "evo.reflex.safety", "evolution.neuromorph.reflex"] {
        assert_eq!(map_domain_str(l), Some(NeuromorphDomain::ReflexSafety));
    }
    for l in ["neuromorph-sense-micro", "evo.sense.clarity", "evolution.neuromorph.sense"] {
        assert_eq!(map_domain_str(l), Some(NeuromorphDomain::SensoryClarity));
    }
    for l in ["neuromorph-attention-micro", "evo.attention.routing", "evolution.neuromorph.attention"] {
        assert_eq!(map_domain_str(l), Some(NeuromorphDomain::AttentionRouting));
    }
    for l in ["", "neuromorph", "Neuromorph-reflex-micro", "evo.reflex.safety ", "teeth"] {
        assert_eq!(map_domain_str(l), None);
    }
}

#[test]
fn event_kinds_map_by_hint_then_prefix() {
    let up = |id: &str| RuntimeEventKind::EvolutionUpgrade { evolutionid: id.to_string() };
    assert_eq!(
        map_event_kind_to_neuromorph(&up("neuromorph-reflex-7"), Some("evo.sense.clarity")),
        Some(NeuromorphDomain::SensoryClarity)
    );
    assert_eq!(
        map_event_kind_to_neuromorph(&up("neuromorph-reflex-7"), Some("unknown")),
        Some(NeuromorphDomain::ReflexSafety)
    );
    assert_eq!(map_event_kind_to_neuromorph(&up("neuromorph-sense-x"), None), Some(NeuromorphDomain::SensoryClarity));
    assert_eq!(map_event_kind_to_neuromorph(&up("neuromorph-attn-1"), None), Some(NeuromorphDomain::AttentionRouting));
    assert_eq!(
        map_event_kind_to_neuromorph(&up("neuromorph-attention-1"), None),
        Some(NeuromorphDomain::AttentionRouting)
    );
    assert_eq!(map_event_kind_to_neuromorph(&up("neuromorph-reflex"), None), None);
    assert_eq!(map_event_kind_to_neuromorph(&up("x-neuromorph-reflex-1"), None), None);
    let wave = RuntimeEventKind::WaveLoad { taskid: "neuromorph-reflex-1".to_string(), requestedwave: 1 };
    assert_eq!(map_event_kind_to_neuromorph(&wave, Some("evo.reflex.safety")), None);
    let smart = RuntimeEventKind::SmartAutonomy { agentid: "a".to_string(), requestedsmart: 1 };
    assert_eq!(map_event_kind_to_neuromorph(&smart, None), None);
}

#[test]
fn neuromorph_context_formulas() {
    let bands = LifeforceBandSeries { current: LifeforceBand::Safe, overload_ratio: m(0.25) };
    let iface = NeuralInterfaceSnapshot {
        clarity_index: m(0.8),
        dropout_ratio: m(0.1),
        pain_corridor_index: m(0.5),
        neuromorph_scale_usage: m(0.3),
    };
    let c = build_neuromorph_context(&bands, &iface);
    assert_eq!(c.discomfort_index, 400_000);
    assert_eq!(c.overload_ratio, 250_000);
    assert_eq!(c.interface_instability, 200_000);
    assert_eq!(c.neuromorph_scale_usage, 300_000);
    let bands = LifeforceBandSeries { current: LifeforceBand::HardStop, overload_ratio: m(3.0) };
    let iface = NeuralInterfaceSnapshot {
        clarity_index: m(-1.0),
        dropout_ratio: m(2.0),
        pain_corridor_index: m(2.0),
        neuromorph_scale_usage: m(-0.5),
    };
    let c = build_neuromorph_context(&bands, &iface);
    assert_eq!(c.discomfort_index, 1_000_000);
    assert_eq!(c.overload_ratio, 1_000_000);
    assert_eq!(c.interface_instability, 1_000_000);
    assert_eq!(c.neuromorph_scale_usage, 0);
    let bands = LifeforceBandSeries { current: LifeforceBand::SoftWarn, overload_ratio: 0 };
    let iface = NeuralInterfaceSnapshot {
        clarity_index: 999_999,
        dropout_ratio: 1,
        pain_corridor_index: 1,
        neuromorph_scale_usage: 0,
    };
    let c = build_neuromorph_context(&bands, &iface);
    assert_eq!(c.discomfort_index, 500_000);
    assert_eq!(c.interface_instability, 1);
}

#[test]
fn comfort_band_follows_current_band() {
    let b = |band| LifeforceBandSeries { current: band, overload_ratio: 0 };
    assert_eq!(map_to_comfort_band(&b(LifeforceBand::Safe)), ComfortBand::ComfortSafe);
    assert_eq!(map_to_comfort_band(&b(LifeforceBand::SoftWarn)), ComfortBand::DiscomfortSoftWarn);
    assert_eq!(map_to_comfort_band(&b(LifeforceBand::HardStop)), ComfortBand::DiscomfortHardStop);
}

#[test]
fn defensive_mutation_gate_and_scaling() {
    let cfg = |consent, prov| DefensiveMutationConfig {
        domain_id: EvolutionDomainId("teeth-claws".to_string()),
        has_consent: consent,
        provenance_verified: prov,
        max_daily_fraction: m(0.3),
    };
    let bands = |band| SampleSeries {
        samples: vec![LifeforceSample { at_ms_utc: 0, band, lifeforcel: m(0.9) }],
    };
    let adj = SystemAdjustment { deltabrain: m(2.0), deltablood: 5, deltaoxygen: -6, deltasmart: 7 };
    assert_eq!(
        apply_defensive_mutation(adj, &cfg(false, false), &bands(LifeforceBand::HardStop), false, false)
            .unwrap_err(),
        LifeforceError::HardStopBand
    );
    assert_eq!(
        apply_defensive_mutation(adj, &cfg(true, false), &bands(LifeforceBand::Safe), false, false)
            .unwrap_err(),
        LifeforceError::MissingConsentOrProvenance
    );
    assert_eq!(
        apply_defensive_mutation(adj, &cfg(false, true), &bands(LifeforceBand::Safe), true, true)
            .unwrap_err(),
        LifeforceError::MissingConsentOrProvenance
    );
    assert_eq!(
        apply_defensive_mutation(adj, &cfg(true, true), &bands(LifeforceBand::Safe), false, false)
            .unwrap_err(),
        LifeforceError::DoctrinalViolation
    );
    assert_eq!(
        apply_defensive_mutation(adj, &cfg(true, true), &bands(LifeforceBand::SoftWarn), true, false)
            .unwrap_err(),
        LifeforceError::InsufficientKarmaForDefense
    );
    let ok = apply_defensive_mutation(adj, &cfg(true, true), &bands(LifeforceBand::Safe), true, true)
        .unwrap();
    assert_eq!(ok.deltabrain, m(0.6));
    assert_eq!(ok.deltablood, 5);
    assert_eq!(ok.deltaoxygen, -6);
    assert_eq!(ok.deltasmart, 7);
}
