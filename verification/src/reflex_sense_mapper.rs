//! Mapping layer for neuromorphic reflex and sense evolution.
//!
//! Domain labels and runtime events are mapped into neuromorphic domains,
//! and the comfort context is built from lifeforce bands and interface
//! metrics. An unknown label maps to no domain, never to a default.

use vstd::prelude::*;
use crate::fixed::{clamp_unit, clamp_unit_spec, UNIT};
use crate::lifeforce::LifeforceBand;
use crate::reflex_sense::{NeuromorphContext, NeuromorphDomain};
use crate::text::{is_prefix_of, str_eq, str_starts_with};

verus! {

/// Comfort band derived from the lifeforce band.
#[derive(Clone, Copy, Debug, PartialEq, Eq, Structural)]
pub enum ComfortBand {
    ComfortSafe,
    DiscomfortSoftWarn,
    DiscomfortHardStop,
}

/// Summary of the recent lifeforce bands.
#[derive(Clone, Copy, Debug)]
pub struct LifeforceBandSeries {
    /// The band in force.
    pub current: LifeforceBand,
    /// Fraction of recent epochs outside the safe band, in millionths.
    pub overload_ratio: i64,
}

/// Snapshot of the neural interface, each index in millionths.
#[derive(Clone, Copy, Debug)]
pub struct NeuralInterfaceSnapshot {
    /// One is a very clear, low-noise interface.
    pub clarity_index: i64,
    /// Fraction of frames with unstable decoding.
    pub dropout_ratio: i64,
    /// Summary of pain and aversion markers.
    pub pain_corridor_index: i64,
    /// Fraction of the scale budget used by neuromorphic domains.
    pub neuromorph_scale_usage: i64,
}

/// Kind of a runtime event. Requested amounts are in millionths.
#[derive(Clone, Debug)]
pub enum RuntimeEventKind {
    EvolutionUpgrade { evolutionid: String },
    WaveLoad { taskid: String, requestedwave: i64 },
    SmartAutonomy { agentid: String, requestedsmart: i64 },
}

/// The domain a label names, if it names one. Each domain has three
/// labels.
pub open spec fn domain_of_label(label: Seq<char>) -> Option<NeuromorphDomain> {
    if label == "neuromorph-reflex-micro"@ || label == "evo.reflex.safety"@ || label
        == "evolution.neuromorph.reflex"@ {
        Some(NeuromorphDomain::ReflexSafety)
    } else if label == "neuromorph-sense-micro"@ || label == "evo.sense.clarity"@ || label
        == "evolution.neuromorph.sense"@ {
        Some(NeuromorphDomain::SensoryClarity)
    } else if label == "neuromorph-attention-micro"@ || label == "evo.attention.routing"@ || label
        == "evolution.neuromorph.attention"@ {
        Some(NeuromorphDomain::AttentionRouting)
    } else {
        None
    }
}

/// The domain that the prefix of an evolution identifier names, if any.
pub open spec fn domain_of_prefix(evolutionid: Seq<char>) -> Option<NeuromorphDomain> {
    if is_prefix_of("neuromorph-reflex-"@, evolutionid) {
        Some(NeuromorphDomain::ReflexSafety)
    } else if is_prefix_of("neuromorph-sense-"@, evolutionid) {
        Some(NeuromorphDomain::SensoryClarity)
    } else if is_prefix_of("neuromorph-attn-"@, evolutionid) || is_prefix_of(
        "neuromorph-attention-"@,
        evolutionid,
    ) {
        Some(NeuromorphDomain::AttentionRouting)
    } else {
        None
    }
}

/// The domain of a runtime event. Only an evolution upgrade can be
/// neuromorphic: a hint that names a domain decides, otherwise the prefix
/// of the evolution identifier.
pub open spec fn domain_of_event(kind: RuntimeEventKind, hint: Option<Seq<char>>) -> Option<
    NeuromorphDomain,
> {
    match kind {
        RuntimeEventKind::EvolutionUpgrade { evolutionid } => {
            if hint is Some && domain_of_label(hint.unwrap()) is Some {
                domain_of_label(hint.unwrap())
            } else {
                domain_of_prefix(evolutionid@)
            }
        },
        _ => None,
    }
}

/// The characters behind an optional string slice.
pub open spec fn hint_text(hint: Option<&str>) -> Option<Seq<char>> {
    match hint {
        Some(h) => Some(h@),
        None => None,
    }
}

/// Maps a domain label into a neuromorphic domain.
pub fn map_domain_str(domain: &str) -> (r: Option<NeuromorphDomain>)
    ensures
        r == domain_of_label(domain@),
{
    if str_eq(domain, "neuromorph-reflex-micro") || str_eq(domain, "evo.reflex.safety") || str_eq(
        domain,
        "evolution.neuromorph.reflex",
    ) {
        Some(NeuromorphDomain::ReflexSafety)
    } else if str_eq(domain, "neuromorph-sense-micro") || str_eq(domain, "evo.sense.clarity")
        || str_eq(domain, "evolution.neuromorph.sense") {
        Some(NeuromorphDomain::SensoryClarity)
    } else if str_eq(domain, "neuromorph-attention-micro") || str_eq(
        domain,
        "evo.attention.routing",
    ) || str_eq(domain, "evolution.neuromorph.attention") {
        Some(NeuromorphDomain::AttentionRouting)
    } else {
        None
    }
}

/// Maps a runtime event into a neuromorphic domain where it clearly is
/// one.
pub fn map_event_kind_to_neuromorph(kind: &RuntimeEventKind, domain_hint: Option<&str>) -> (r:
    Option<NeuromorphDomain>)
    ensures
        r == domain_of_event(*kind, hint_text(domain_hint)),
{
    match kind {
        RuntimeEventKind::EvolutionUpgrade { evolutionid } => {
            match domain_hint {
                Some(hint) => {
                    match map_domain_str(hint) {
                        Some(d) => {
                            return Some(d);
                        },
                        None => {},
                    }
                },
                None => {},
            }
            let id = evolutionid.as_str();
            if str_starts_with(id, "neuromorph-reflex-") {
                Some(NeuromorphDomain::ReflexSafety)
            } else if str_starts_with(id, "neuromorph-sense-") {
                Some(NeuromorphDomain::SensoryClarity)
            } else if str_starts_with(id, "neuromorph-attn-") || str_starts_with(
                id,
                "neuromorph-attention-",
            ) {
                Some(NeuromorphDomain::AttentionRouting)
            } else {
                None
            }
        },
        _ => None,
    }
}

/// The comfort band of a lifeforce band.
pub open spec fn comfort_of(band: LifeforceBand) -> ComfortBand {
    match band {
        LifeforceBand::Safe => ComfortBand::ComfortSafe,
        LifeforceBand::SoftWarn => ComfortBand::DiscomfortSoftWarn,
        LifeforceBand::HardStop => ComfortBand::DiscomfortHardStop,
    }
}

/// The discomfort a comfort band stands for before pain is added: 0.1,
/// 0.5 or 0.9.
pub open spec fn base_discomfort(band: ComfortBand) -> int {
    match band {
        ComfortBand::ComfortSafe => 100_000,
        ComfortBand::DiscomfortSoftWarn => 500_000,
        ComfortBand::DiscomfortHardStop => 900_000,
    }
}

/// The comfort context of a band summary and an interface snapshot.
///
/// Every input index is clamped into the unit interval first. Discomfort
/// is the base discomfort of the band plus 0.6 of the pain index.
/// Instability is 0.7 of the lack of clarity plus 0.6 of the dropout
/// ratio. Both are rounded down to the millionth and clamped into the
/// unit interval.
pub open spec fn context_spec(bands: LifeforceBandSeries, iface: NeuralInterfaceSnapshot)
    -> NeuromorphContext {
    NeuromorphContext {
        discomfort_index: clamp_unit_spec(
            (10 * base_discomfort(comfort_of(bands.current)) + 6 * clamp_unit_spec(
                iface.pain_corridor_index as int,
            )) / 10,
        ) as i64,
        overload_ratio: clamp_unit_spec(bands.overload_ratio as int) as i64,
        interface_instability: clamp_unit_spec(
            (7 * (UNIT - clamp_unit_spec(iface.clarity_index as int)) + 6 * clamp_unit_spec(
                iface.dropout_ratio as int,
            )) / 10,
        ) as i64,
        neuromorph_scale_usage: clamp_unit_spec(iface.neuromorph_scale_usage as int) as i64,
    }
}

/// Collapses the band in force into a comfort band.
pub fn map_to_comfort_band(bands: &LifeforceBandSeries) -> (r: ComfortBand)
    ensures
        r == comfort_of(bands.current),
{
    match bands.current {
        LifeforceBand::Safe => ComfortBand::ComfortSafe,
        LifeforceBand::SoftWarn => ComfortBand::DiscomfortSoftWarn,
        LifeforceBand::HardStop => ComfortBand::DiscomfortHardStop,
    }
}

/// Builds the comfort context from lifeforce bands and interface metrics.
pub fn build_neuromorph_context(bands: &LifeforceBandSeries, iface: &NeuralInterfaceSnapshot) -> (r:
    NeuromorphContext)
    ensures
        r == context_spec(*bands, *iface),
        0 <= r.discomfort_index <= UNIT,
        0 <= r.overload_ratio <= UNIT,
        0 <= r.interface_instability <= UNIT,
        0 <= r.neuromorph_scale_usage <= UNIT,
{
    let base: i64 = match map_to_comfort_band(bands) {
        ComfortBand::ComfortSafe => 100_000,
        ComfortBand::DiscomfortSoftWarn => 500_000,
        ComfortBand::DiscomfortHardStop => 900_000,
    };
    let pain_corridor = clamp_unit(iface.pain_corridor_index);
    let discomfort_index = clamp_unit((10 * base + 6 * pain_corridor) / 10);
    let overload_ratio = clamp_unit(bands.overload_ratio);
    let clarity = clamp_unit(iface.clarity_index);
    let dropout = clamp_unit(iface.dropout_ratio);
    let interface_instability = clamp_unit((7 * (UNIT - clarity) + 6 * dropout) / 10);
    let neuromorph_scale_usage = clamp_unit(iface.neuromorph_scale_usage);
    NeuromorphContext {
        discomfort_index,
        overload_ratio,
        interface_instability,
        neuromorph_scale_usage,
    }
}

} // verus!
