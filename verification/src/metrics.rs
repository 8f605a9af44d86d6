//! Metric registry schema and the sink that corridor guards report to.

use vstd::prelude::*;
use crate::text::{is_prefix_of, str_starts_with};

verus! {

/// Version of the metrics schema.
#[derive(Clone, Copy, Debug)]
pub struct MetricsSchemaVersion {
    pub major: u32,
    pub minor: u32,
    pub patch: u32,
}

/// One registered metric.
#[derive(Clone, Debug)]
pub struct MetricDescriptor {
    pub name: String,
    pub labels: Vec<String>,
    pub aln_clause_ids: Vec<String>,
}

/// Snapshot of the metric registry.
#[derive(Clone, Debug)]
pub struct MetricRegistrySnapshot {
    pub schema_version: MetricsSchemaVersion,
    pub metrics: Vec<MetricDescriptor>,
}

/// A metric whose clause identifiers break the schema.
#[derive(Clone, Debug)]
pub struct MetricsSchemaError {
    /// Position of the offending metric in the snapshot.
    pub index: usize,
    /// Name of the offending metric.
    pub name: String,
}

/// Sink for corridor observations. Values are in millionths. Calls are
/// fire-and-forget: they return nothing and cannot fail a decision.
pub trait CorridorMetricsSink {
    /// Counts a corridor envelope breach, labeled by corridor and breach
    /// type; `value` is the offending magnitude.
    fn inc_corridor_breach(&self, corridor_id: &str, breach_type: &str, value: i64);

    /// Observes the kernel distance of a decision.
    fn observe_corridor_kernel_distance(&self, corridor_id: &str, distance: i64);

    /// Observes the knowledge factor, within zero and one.
    fn observe_corridor_knowledge_factor(&self, corridor_id: &str, kf: i64);
}

/// Whether every clause identifier starts with `ALN-`.
pub open spec fn clause_ids_aligned(ids: Seq<String>) -> bool {
    forall|j: int| 0 <= j < ids.len() ==> is_prefix_of("ALN-"@, #[trigger] ids[j]@)
}

/// Whether a metric honours the schema: a metric that counts non-compliant
/// events must cite aligned clause identifiers only.
pub open spec fn metric_valid(m: MetricDescriptor) -> bool {
    is_prefix_of("aln_non_compliant_events_total"@, m.name@) ==> clause_ids_aligned(
        m.aln_clause_ids@,
    )
}

/// Whether all clause identifiers start with `ALN-`.
fn all_clause_ids_aligned(ids: &Vec<String>) -> (r: bool)
    ensures
        r == clause_ids_aligned(ids@),
{
    let mut j: usize = 0;
    while j < ids.len()
        invariant
            j <= ids.len(),
            forall|k: int| 0 <= k < j ==> is_prefix_of("ALN-"@, #[trigger] ids@[k]@),
        decreases ids.len() - j,
    {
        if !str_starts_with(ids[j].as_str(), "ALN-") {
            return false;
        }
        j += 1;
    }
    true
}

/// Validates the registry snapshot. The first metric that breaks the schema
/// is reported with its position and name.
pub fn validate_metrics_schema(snapshot: &MetricRegistrySnapshot) -> (r: Result<
    (),
    MetricsSchemaError,
>)
    ensures
        r is Ok <==> forall|i: int|
            0 <= i < snapshot.metrics@.len() ==> metric_valid(#[trigger] snapshot.metrics@[i]),
        r is Err ==> {
            let e = r.unwrap_err();
            &&& e.index < snapshot.metrics@.len()
            &&& !metric_valid(snapshot.metrics@[e.index as int])
            &&& e.name@ == snapshot.metrics@[e.index as int].name@
            &&& forall|i: int| 0 <= i < e.index ==> metric_valid(#[trigger] snapshot.metrics@[i])
        },
{
    let mut i: usize = 0;
    while i < snapshot.metrics.len()
        invariant
            i <= snapshot.metrics.len(),
            forall|k: int| 0 <= k < i ==> metric_valid(#[trigger] snapshot.metrics@[k]),
        decreases snapshot.metrics.len() - i,
    {
        let m = &snapshot.metrics[i];
        if str_starts_with(m.name.as_str(), "aln_non_compliant_events_total")
            && !all_clause_ids_aligned(&m.aln_clause_ids) {
            return Err(MetricsSchemaError { index: i, name: m.name.clone() });
        }
        i += 1;
    }
    Ok(())
}

} // verus!
