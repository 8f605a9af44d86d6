//! Defensive mutations: what a defensive adjustment must pass before it
//! reaches the ledger, and the scaling of what passes.

use vstd::prelude::*;
use crate::bio_defense::EvolutionDomainId;
use crate::fixed::{saturated, scale_by, scaled_spec};
use crate::lifeforce::{LifeforceBandSeries, LifeforceError};
use crate::types::SystemAdjustment;

verus! {

/// Configuration of a defensive mutation.
#[derive(Clone, Debug)]
pub struct DefensiveMutationConfig {
    pub domain_id: EvolutionDomainId,
    pub has_consent: bool,
    pub provenance_verified: bool,
    /// Share of the proposed BRAIN delta that may be applied per day, in
    /// millionths.
    pub max_daily_fraction: i64,
}

/// The adjustment with its BRAIN delta scaled by `fraction`, the other
/// deltas kept.
pub open spec fn scaled_adjustment(adj: SystemAdjustment, fraction: i64) -> SystemAdjustment {
    SystemAdjustment {
        deltabrain: saturated(scaled_spec(adj.deltabrain as int, fraction as int)),
        deltablood: adj.deltablood,
        deltaoxygen: adj.deltaoxygen,
        deltasmart: adj.deltasmart,
    }
}

/// Verdict on a defensive mutation: the first failure in the order hard
/// stop, consent and provenance, doctrine, karma; otherwise the scaled
/// adjustment.
pub open spec fn defensive_mutation_verdict(
    adj: SystemAdjustment,
    config: DefensiveMutationConfig,
    lifeforce_bands: LifeforceBandSeries,
    doctrine_path_valid: bool,
    karma_benevolent: bool,
) -> Result<SystemAdjustment, LifeforceError> {
    if lifeforce_bands.hard_stopped() {
        Err(LifeforceError::HardStopBand)
    } else if !config.has_consent || !config.provenance_verified {
        Err(LifeforceError::MissingConsentOrProvenance)
    } else if !doctrine_path_valid {
        Err(LifeforceError::DoctrinalViolation)
    } else if !karma_benevolent {
        Err(LifeforceError::InsufficientKarmaForDefense)
    } else {
        Ok(scaled_adjustment(adj, config.max_daily_fraction))
    }
}

/// Gates a defensive mutation and sizes it.
///
/// `doctrine_path_valid` says whether the automated evolution path of the
/// domain is valid under the doctrine, `karma_benevolent` whether the
/// host's aura is classed benevolent. On success the adjustment to hand to
/// the ledger is returned: the BRAIN delta scaled by the daily fraction.
/// Nothing is applied here.
pub fn apply_defensive_mutation(
    adj: SystemAdjustment,
    config: &DefensiveMutationConfig,
    lifeforce_bands: &LifeforceBandSeries,
    doctrine_path_valid: bool,
    karma_benevolent: bool,
) -> (r: Result<SystemAdjustment, LifeforceError>)
    ensures
        r == defensive_mutation_verdict(
            adj,
            *config,
            *lifeforce_bands,
            doctrine_path_valid,
            karma_benevolent,
        ),
        lifeforce_bands.hard_stopped() ==> r == Err::<SystemAdjustment, _>(
            LifeforceError::HardStopBand,
        ),
{
    if lifeforce_bands.is_hard_stop() {
        return Err(LifeforceError::HardStopBand);
    }
    if !config.has_consent || !config.provenance_verified {
        return Err(LifeforceError::MissingConsentOrProvenance);
    }
    if !doctrine_path_valid {
        return Err(LifeforceError::DoctrinalViolation);
    }
    if !karma_benevolent {
        return Err(LifeforceError::InsufficientKarmaForDefense);
    }
    Ok(
        SystemAdjustment {
            deltabrain: scale_by(adj.deltabrain, config.max_daily_fraction),
            deltablood: adj.deltablood,
            deltaoxygen: adj.deltaoxygen,
            deltasmart: adj.deltasmart,
        },
    )
}

} // verus!
