//! Biophysical proof artifacts: the machine-readable attestation of one
//! accepted runtime event.
//!
//! An artifact is derived only from digests, bands, eco hints and consent
//! digests. It carries no balances and no raw signals. It is built after
//! the transition has been committed; emitting it is the caller's part.

use vstd::prelude::*;
use vstd::string::StringExecFns;
use crate::lifeforce::LifeforceBand;
use crate::text::{hex_encode, hex_text, str_eq};

verus! {

/// Identity of the host that owned and executed an event.
#[derive(Clone, Debug)]
pub struct HostIdentity {
    /// Canonical DID or address.
    pub did: String,
    /// Shard or locality label.
    pub shard: String,
}

/// Lorentz-consistent timestamp of the runtime.
#[derive(Clone, Copy, Debug, PartialEq, Eq, Structural)]
pub struct LorentzTimestamp {
    pub proper_time_ns: i128,
    pub frame_offset_ps: i64,
}

/// Eco band at the time of an event.
#[derive(Clone, Copy, Debug, PartialEq, Eq, Structural)]
pub enum EcoBand {
    Low,
    Medium,
    High,
}

/// Pain corridor classification at the time of an event.
#[derive(Clone, Copy, Debug, PartialEq, Eq, Structural)]
pub enum PainBand {
    NoPain,
    Mild,
    Strong,
    HardStopEquivalent,
}

/// Domain of an event at the runtime boundary.
#[derive(Clone, Debug)]
pub enum EventDomain {
    WaveLoad,
    SmartAutonomy,
    EvolutionUpgrade,
    /// Micro defensive evolution.
    DefensiveMicro,
    /// A domain this library does not know, under its own label.
    Other(String),
}

/// Metabolic consent mode when an event was applied.
#[derive(Clone, Copy, Debug, PartialEq, Eq, Structural)]
pub enum MetabolicConsentMode {
    ManualOnly,
    AutoMicro,
    AutoMicroPlusWave,
    Unknown,
}

/// Summary of the event that was accepted.
#[derive(Clone, Debug)]
pub struct EventSummary {
    pub event_id: String,
    pub domain: EventDomain,
    pub reason: Option<String>,
}

/// One proof artifact.
#[derive(Clone, Debug)]
pub struct BiophysicalProofArtifact {
    pub host: HostIdentity,
    pub lorentz_ts: LorentzTimestamp,
    /// Wall-clock milliseconds since the Unix epoch.
    pub utc_ms: i64,
    /// Plane the artifact originates from.
    pub origin_plane: String,
    pub event: EventSummary,
    /// Digest of the state before the event, as hex.
    pub pre_state_hash_hex: String,
    /// Digest of the state after the event, as hex.
    pub post_state_hash_hex: String,
    /// Sequence number of the consensus frame.
    pub consensus_seqno: u64,
    pub lifeforce_band: LifeforceBand,
    /// Whether the lifeforce guards accepted the event.
    pub lifeforce_ok: bool,
    pub eco_band: EcoBand,
    /// Approximate eco cost, in millionths.
    pub eco_cost_hint: i64,
    pub pain_band: Option<PainBand>,
    pub metabolic_mode: MetabolicConsentMode,
    /// Digest of the consent proof that authorized the event.
    pub consent_proof_hash_hex: Option<String>,
    /// Digest of a mutation-provenance shard.
    pub provenance_hash_hex: Option<String>,
    /// Host-local audit correlation identifier.
    pub civic_audit_id: Option<String>,
}

/// What is known of a committed transition when its artifact is built.
#[derive(Clone, Debug)]
pub struct TransitionRecord {
    pub host: HostIdentity,
    pub lorentz_ts: LorentzTimestamp,
    pub utc_ms: i64,
    /// Label of the event kind, as the request carried it.
    pub event_kind: String,
    pub reason: Option<String>,
    /// Digest of the consensus frame.
    pub frame_hash: Vec<u8>,
    /// Digest of the state before the event.
    pub pre_state_hash: Vec<u8>,
    /// Digest of the state after the event.
    pub post_state_hash: Vec<u8>,
    pub consensus_seqno: u64,
    pub lifeforce_band: LifeforceBand,
    pub eco_band: EcoBand,
    pub eco_cost_hint: i64,
    pub pain_band: Option<PainBand>,
    pub metabolic_mode: MetabolicConsentMode,
    pub consent_proof_hash_hex: Option<String>,
    pub provenance_hash_hex: Option<String>,
    pub civic_audit_id: Option<String>,
}

/// The plane every artifact of this library originates from.
pub const ORIGIN_PLANE: &'static str = "organic_cpu";

/// Whether `d` is the domain that the label `kind` names. A label that
/// names none of the four known domains is kept as it is.
pub open spec fn is_domain_of(d: EventDomain, kind: Seq<char>) -> bool {
    if kind == "evolution_upgrade"@ {
        d is EvolutionUpgrade
    } else if kind == "wave_load"@ {
        d is WaveLoad
    } else if kind == "smart_autonomy"@ {
        d is SmartAutonomy
    } else if kind == "defensive_micro"@ {
        d is DefensiveMicro
    } else {
        d is Other && d->0@ == kind
    }
}

/// Whether `a` is the artifact of the transition `t`.
pub open spec fn is_artifact_of(a: BiophysicalProofArtifact, t: TransitionRecord) -> bool {
    &&& a.host == t.host
    &&& a.lorentz_ts == t.lorentz_ts
    &&& a.utc_ms == t.utc_ms
    &&& a.origin_plane@ == ORIGIN_PLANE@
    &&& a.event.event_id@ == hex_text(t.frame_hash@)
    &&& is_domain_of(a.event.domain, t.event_kind@)
    &&& a.event.reason == t.reason
    &&& a.pre_state_hash_hex@ == hex_text(t.pre_state_hash@)
    &&& a.post_state_hash_hex@ == hex_text(t.post_state_hash@)
    &&& a.consensus_seqno == t.consensus_seqno
    &&& a.lifeforce_band == t.lifeforce_band
    &&& a.lifeforce_ok == (t.lifeforce_band != LifeforceBand::HardStop)
    &&& a.eco_band == t.eco_band
    &&& a.eco_cost_hint == t.eco_cost_hint
    &&& a.pain_band == t.pain_band
    &&& a.metabolic_mode == t.metabolic_mode
    &&& a.consent_proof_hash_hex == t.consent_proof_hash_hex
    &&& a.provenance_hash_hex == t.provenance_hash_hex
    &&& a.civic_audit_id == t.civic_audit_id
}

/// Maps the label of an event kind to its domain.
pub fn event_domain_of(kind: &str) -> (d: EventDomain)
    ensures
        is_domain_of(d, kind@),
{
    if str_eq(kind, "evolution_upgrade") {
        EventDomain::EvolutionUpgrade
    } else if str_eq(kind, "wave_load") {
        EventDomain::WaveLoad
    } else if str_eq(kind, "smart_autonomy") {
        EventDomain::SmartAutonomy
    } else if str_eq(kind, "defensive_micro") {
        EventDomain::DefensiveMicro
    } else {
        EventDomain::Other(kind.to_owned())
    }
}

/// Builds the proof artifact of a committed transition. The event is
/// identified by the frame digest; the lifeforce guards count as having
/// accepted the event unless the band is a hard stop.
pub fn build_proof_artifact(t: TransitionRecord) -> (a: BiophysicalProofArtifact)
    ensures
        is_artifact_of(a, t),
{
    let event = EventSummary {
        event_id: hex_encode(t.frame_hash.as_slice()),
        domain: event_domain_of(t.event_kind.as_str()),
        reason: t.reason,
    };
    let pre_state_hash_hex = hex_encode(t.pre_state_hash.as_slice());
    let post_state_hash_hex = hex_encode(t.post_state_hash.as_slice());
    let lifeforce_ok = t.lifeforce_band != LifeforceBand::HardStop;
    BiophysicalProofArtifact {
        host: t.host,
        lorentz_ts: t.lorentz_ts,
        utc_ms: t.utc_ms,
        origin_plane: ORIGIN_PLANE.to_owned(),
        event,
        pre_state_hash_hex,
        post_state_hash_hex,
        consensus_seqno: t.consensus_seqno,
        lifeforce_band: t.lifeforce_band,
        lifeforce_ok,
        eco_band: t.eco_band,
        eco_cost_hint: t.eco_cost_hint,
        pain_band: t.pain_band,
        metabolic_mode: t.metabolic_mode,
        consent_proof_hash_hex: t.consent_proof_hash_hex,
        provenance_hash_hex: t.provenance_hash_hex,
        civic_audit_id: t.civic_audit_id,
    }
}

/// Answer to a submitted event.
#[derive(Clone, Debug)]
pub enum RpcResponse {
    /// The event was applied; the state digest is given as hex.
    OkEventApplied { seqno: u64, statehash: String },
    /// The event was refused.
    Error { error: String },
}

/// The answer to an event that was applied in the frame `seqno` with the
/// state digest `statehash`.
pub fn applied_response(seqno: u64, statehash: &[u8]) -> (r: RpcResponse)
    ensures
        r is OkEventApplied,
        r->seqno == seqno,
        r->statehash@ == hex_text(statehash@),
{
    RpcResponse::OkEventApplied { seqno, statehash: hex_encode(statehash) }
}

/// The answer to an event that the runtime refused; `detail` says why.
pub fn refused_response(detail: &str) -> (r: RpcResponse)
    ensures
        r is Error,
        r->error@ == "runtime error: "@ + detail@,
{
    let mut error = "runtime error: ".to_owned();
    error.append(detail);
    RpcResponse::Error { error }
}

} // verus!
