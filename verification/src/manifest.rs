//! The daily evolution manifest and the checks that gate it.

use vstd::prelude::*;
use crate::evidence_bundle::{tag_hex, EvidenceBundle};
use crate::metrics::MetricsSchemaVersion;

verus! {

/// Version of one crate of the workspace.
#[derive(Debug, Clone)]
pub struct CrateVersion {
    pub name: String,
    pub version: String,
}

/// How an upgrade may be reversed.
#[derive(Debug, Clone, Copy, PartialEq, Eq, Structural)]
pub struct ReversalSummary {
    pub allow_neuromorph_reversal: bool,
    pub explicit_reversal_order: bool,
    pub no_safer_alternative: bool,
}

/// One upgrade as the manifest lists it. Energy and protein are in
/// millionths of their unit.
#[derive(Debug, Clone)]
pub struct UpgradeEntry {
    pub upgrade_id: String,
    pub energy_joules: i64,
    pub protein_aa: i64,
    pub thermo_envelope: String,
    pub ml_schedule: String,
    pub reversal: ReversalSummary,
    /// The tags of the evidence bundle as hex text.
    pub evidence_hex_tags: Vec<String>,
}

/// Ranges of the interface measures over the window, in millionths.
#[derive(Debug, Clone, Copy, PartialEq, Eq, Structural)]
pub struct BciAggregateSnapshot {
    pub eeg_load_min: i64,
    pub eeg_load_max: i64,
    pub hrv_min: i64,
    pub hrv_max: i64,
    pub temp_c_min: i64,
    pub temp_c_max: i64,
    pub duty_cycle_min: i64,
    pub duty_cycle_max: i64,
}

/// One compliance particle as the manifest lists it.
#[derive(Debug, Clone)]
pub struct AlnParticleEntry {
    pub hash: String,
    pub is_compliant: bool,
}

/// The neurorights a particle declares.
#[derive(Debug, Clone, Copy, PartialEq, Eq, Structural)]
pub struct NeurorightsFlags {
    pub cognitive_liberty: bool,
    pub mental_privacy: bool,
    pub reversibility: bool,
    pub fair_access: bool,
}

/// The compliance particle of an upgrade.
#[derive(Debug, Clone)]
pub struct AlnComplianceParticle {
    pub upgrade_id: String,
    pub hash_hex: String,
    pub is_compliant: bool,
    pub neurorights_flags: NeurorightsFlags,
}

/// An upgrade registered for the window.
#[derive(Debug, Clone)]
pub struct UpgradeDescriptor {
    pub id: String,
    pub energy_joules: i64,
    pub protein_aa: i64,
    pub thermo_envelope_id: String,
    pub ml_schedule_id: String,
    pub reversal: ReversalSummary,
    pub evidence_bundle: EvidenceBundle,
    pub aln_particle: AlnComplianceParticle,
    /// Whether the upgrade is flagged critical.
    pub critical: bool,
}

/// The manifest of one day.
#[derive(Debug, Clone)]
pub struct DailyManifest {
    pub date: String,
    pub host_did: String,
    pub bostrom_address: String,
    pub git_commit: String,
    pub crate_versions: Vec<CrateVersion>,
    pub upgrades: Vec<UpgradeEntry>,
    pub bci_snapshots: BciAggregateSnapshot,
    pub aln_particles: Vec<AlnParticleEntry>,
    pub metrics_schema_version: MetricsSchemaVersion,
}

/// Where the manifest comes from, as read from the workspace.
#[derive(Debug, Clone)]
pub struct ManifestOrigin {
    pub host_did: String,
    pub bostrom_address: String,
    pub git_commit: String,
    pub crate_versions: Vec<CrateVersion>,
}

/// Why a compliance particle is refused.
#[derive(Debug, Clone, Copy, PartialEq, Eq, Structural)]
pub enum ParticleError {
    /// A required neurorights flag is not declared.
    MissingNeurorightsFlags,
    /// The hash of the particle is not valid.
    InvalidHash,
}

impl UpgradeDescriptor {
    /// Whether the upgrade is flagged critical.
    pub fn is_critical(&self) -> (r: bool)
        ensures
            r == self.critical,
    {
        self.critical
    }
}

impl Default for BciAggregateSnapshot {
    /// The snapshot with every measure at zero.
    fn default() -> (r: Self)
        ensures
            r == (BciAggregateSnapshot {
                eeg_load_min: 0,
                eeg_load_max: 0,
                hrv_min: 0,
                hrv_max: 0,
                temp_c_min: 0,
                temp_c_max: 0,
                duty_cycle_min: 0,
                duty_cycle_max: 0,
            }),
    {
        BciAggregateSnapshot {
            eeg_load_min: 0,
            eeg_load_max: 0,
            hrv_min: 0,
            hrv_max: 0,
            temp_c_min: 0,
            temp_c_max: 0,
            duty_cycle_min: 0,
            duty_cycle_max: 0,
        }
    }
}

/// Whether all four required neurorights are declared.
pub open spec fn all_rights_declared(f: NeurorightsFlags) -> bool {
    f.cognitive_liberty && f.mental_privacy && f.reversibility && f.fair_access
}

/// Checks the compliance particle of an upgrade: all four neurorights
/// declared, and a valid hash. `hash_valid` says whether the hash of the
/// particle was found valid. Missing flags are reported first.
pub fn enforce_neurorights_particle(p: &AlnComplianceParticle, hash_valid: bool) -> (r: Result<
    (),
    ParticleError,
>)
    ensures
        r == (if !all_rights_declared(p.neurorights_flags) {
            Err::<(), _>(ParticleError::MissingNeurorightsFlags)
        } else if !hash_valid {
            Err::<(), _>(ParticleError::InvalidHash)
        } else {
            Ok::<(), ParticleError>(())
        }),
{
    if !p.neurorights_flags.cognitive_liberty || !p.neurorights_flags.mental_privacy
        || !p.neurorights_flags.reversibility || !p.neurorights_flags.fair_access {
        return Err(ParticleError::MissingNeurorightsFlags);
    }
    if !hash_valid {
        return Err(ParticleError::InvalidHash);
    }
    Ok(())
}

/// Whether `e` lists the particle of `u`.
pub open spec fn lists_particle(e: AlnParticleEntry, u: UpgradeDescriptor) -> bool {
    e.hash@ == u.aln_particle.hash_hex@ && e.is_compliant == u.aln_particle.is_compliant
}

/// Collects the compliance particles of the upgrades, one entry each, in
/// order.
pub fn collect_aln_particles(upgrades: &Vec<UpgradeDescriptor>) -> (r: Vec<AlnParticleEntry>)
    ensures
        r@.len() == upgrades@.len(),
        forall|i: int| 0 <= i < r@.len() ==> lists_particle(#[trigger] r@[i], upgrades@[i]),
{
    let mut out: Vec<AlnParticleEntry> = Vec::new();
    let mut i: usize = 0;
    while i < upgrades.len()
        invariant
            i <= upgrades.len(),
            out@.len() == i,
            forall|k: int| 0 <= k < i ==> lists_particle(#[trigger] out@[k], upgrades@[k]),
        decreases upgrades.len() - i,
    {
        let u = &upgrades[i];
        out.push(
            AlnParticleEntry {
                hash: u.aln_particle.hash_hex.clone(),
                is_compliant: u.aln_particle.is_compliant,
            },
        );
        i += 1;
    }
    out
}

/// Whether `e` is the manifest entry of `u`.
pub open spec fn is_entry_of(e: UpgradeEntry, u: UpgradeDescriptor) -> bool {
    &&& e.upgrade_id@ == u.id@
    &&& e.energy_joules == u.energy_joules
    &&& e.protein_aa == u.protein_aa
    &&& e.thermo_envelope@ == u.thermo_envelope_id@
    &&& e.ml_schedule@ == u.ml_schedule_id@
    &&& e.reversal == u.reversal
    &&& e.evidence_hex_tags@.len() == u.evidence_bundle.tags@.len()
    &&& forall|j: int|
        0 <= j < e.evidence_hex_tags@.len() ==> (#[trigger] e.evidence_hex_tags@[j])@ == tag_hex(
            u.evidence_bundle.tags@[j],
        )
}

/// The manifest entry of an upgrade.
pub fn upgrade_entry(u: &UpgradeDescriptor) -> (e: UpgradeEntry)
    ensures
        is_entry_of(e, *u),
{
    UpgradeEntry {
        upgrade_id: u.id.clone(),
        energy_joules: u.energy_joules,
        protein_aa: u.protein_aa,
        thermo_envelope: u.thermo_envelope_id.clone(),
        ml_schedule: u.ml_schedule_id.clone(),
        reversal: u.reversal,
        evidence_hex_tags: u.evidence_bundle.hex_tags(),
    }
}

/// Builds the manifest of a day from what was read and checked: one entry
/// per upgrade, in order, and everything else as given.
pub fn build_manifest(
    date: &str,
    origin: ManifestOrigin,
    upgrades: Vec<UpgradeDescriptor>,
    bci: BciAggregateSnapshot,
    aln_particles: Vec<AlnParticleEntry>,
    metrics_schema_version: MetricsSchemaVersion,
) -> (m: DailyManifest)
    ensures
        m.date@ == date@,
        m.host_did == origin.host_did,
        m.bostrom_address == origin.bostrom_address,
        m.git_commit == origin.git_commit,
        m.crate_versions == origin.crate_versions,
        m.upgrades@.len() == upgrades@.len(),
        forall|i: int| 0 <= i < m.upgrades@.len() ==> is_entry_of(#[trigger] m.upgrades@[i], upgrades@[i]),
        m.bci_snapshots == bci,
        m.aln_particles == aln_particles,
        m.metrics_schema_version == metrics_schema_version,
{
    let mut entries: Vec<UpgradeEntry> = Vec::new();
    let mut i: usize = 0;
    while i < upgrades.len()
        invariant
            i <= upgrades.len(),
            entries@.len() == i,
            forall|k: int| 0 <= k < i ==> is_entry_of(#[trigger] entries@[k], upgrades@[k]),
        decreases upgrades.len() - i,
    {
        entries.push(upgrade_entry(&upgrades[i]));
        i += 1;
    }
    DailyManifest {
        date: date.to_owned(),
        host_did: origin.host_did,
        bostrom_address: origin.bostrom_address,
        git_commit: origin.git_commit,
        crate_versions: origin.crate_versions,
        upgrades: entries,
        bci_snapshots: bci,
        aln_particles,
        metrics_schema_version,
    }
}

} // verus!
