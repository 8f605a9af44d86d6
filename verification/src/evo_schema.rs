//! Evolution consent: the hard gate an upgrade must pass to be admissible.

use vstd::prelude::*;
use crate::evidence_bundle::{enforce_evidence_bundle, evidence_verdict, EvidenceBundle};

verus! {

/// Mode of evolution the host consented to.
#[derive(Clone, Debug)]
pub enum EvoMode {
    Conservative,
    Copilot,
    Custom(String),
}

/// The neurorights a compliance particle asserts.
#[derive(Clone, Copy, Debug)]
pub struct ALNComplianceParticle {
    pub neurorights_rollback_anytime: bool,
    pub neurorights_no_nonconsensual_modulation: bool,
    pub neurorights_no_raw_eeg_export: bool,
}

/// Whether an upgrade fits the consented envelopes, one answer per
/// envelope.
#[derive(Clone, Copy, Debug)]
pub struct EnvelopeFit {
    /// The upgrade fits the host budget.
    pub host_budget: bool,
    /// The upgrade fits the thermal and cognitive envelopes.
    pub thermo_and_cognitive: bool,
    /// The upgrade fits the bounds on neural ropes.
    pub neural_ropes: bool,
}

/// The consent of a host to evolution under a policy.
#[derive(Clone, Debug)]
pub struct EvoConsent {
    pub host_did: String,
    pub policy_id: String,
    pub version: String,
    pub mode: EvoMode,
    pub aln_particles: Vec<ALNComplianceParticle>,
    /// The fixed ten-tag bundle.
    pub evidence_bundle: EvidenceBundle,
}

/// Why an upgrade is not admissible.
#[derive(Clone, Copy, Debug, PartialEq, Eq, Structural)]
pub enum PolicyError {
    MissingRollbackAnytime,
    MissingMentalPrivacyFlag,
    BudgetViolation,
    EnvelopeViolation,
    EvidenceMissing,
}

/// Whether some particle grants rollback at any time.
pub open spec fn some_rollback(ps: Seq<ALNComplianceParticle>) -> bool {
    exists|i: int| 0 <= i < ps.len() && (#[trigger] ps[i]).neurorights_rollback_anytime
}

/// Whether every particle forbids modulation without consent.
pub open spec fn all_consensual(ps: Seq<ALNComplianceParticle>) -> bool {
    forall|i: int| 0 <= i < ps.len() ==> (#[trigger] ps[i]).neurorights_no_nonconsensual_modulation
}

/// Whether every particle forbids the export of raw EEG.
pub open spec fn all_private(ps: Seq<ALNComplianceParticle>) -> bool {
    forall|i: int| 0 <= i < ps.len() ==> (#[trigger] ps[i]).neurorights_no_raw_eeg_export
}

/// Verdict on an upgrade: the first failure in the order rollback, mental
/// privacy, budget, thermal and cognitive envelope, neural ropes,
/// evidence.
pub open spec fn consent_verdict(consent: EvoConsent, fit: EnvelopeFit) -> Result<
    (),
    PolicyError,
> {
    if !some_rollback(consent.aln_particles@) {
        Err(PolicyError::MissingRollbackAnytime)
    } else if !all_consensual(consent.aln_particles@) || !all_private(consent.aln_particles@) {
        Err(PolicyError::MissingMentalPrivacyFlag)
    } else if !fit.host_budget {
        Err(PolicyError::BudgetViolation)
    } else if !fit.thermo_and_cognitive || !fit.neural_ropes {
        Err(PolicyError::EnvelopeViolation)
    } else if evidence_verdict(consent.evidence_bundle.tags@) is Err {
        Err(PolicyError::EvidenceMissing)
    } else {
        Ok(())
    }
}

impl EvoConsent {
    /// Whether some particle grants rollback at any time.
    fn grants_rollback(&self) -> (r: bool)
        ensures
            r == some_rollback(self.aln_particles@),
    {
        let mut i: usize = 0;
        while i < self.aln_particles.len()
            invariant
                i <= self.aln_particles.len(),
                forall|k: int| 0 <= k < i ==> !(#[trigger] self.aln_particles@[k]).neurorights_rollback_anytime,
            decreases self.aln_particles.len() - i,
        {
            if self.aln_particles[i].neurorights_rollback_anytime {
                return true;
            }
            i += 1;
        }
        false
    }

    /// Whether every particle forbids modulation without consent.
    fn forbids_nonconsensual_modulation(&self) -> (r: bool)
        ensures
            r == all_consensual(self.aln_particles@),
    {
        let mut i: usize = 0;
        while i < self.aln_particles.len()
            invariant
                i <= self.aln_particles.len(),
                forall|k: int| 0 <= k < i ==> (#[trigger] self.aln_particles@[k]).neurorights_no_nonconsensual_modulation,
            decreases self.aln_particles.len() - i,
        {
            if !self.aln_particles[i].neurorights_no_nonconsensual_modulation {
                return false;
            }
            i += 1;
        }
        true
    }

    /// Whether every particle forbids the export of raw EEG.
    fn forbids_raw_eeg_export(&self) -> (r: bool)
        ensures
            r == all_private(self.aln_particles@),
    {
        let mut i: usize = 0;
        while i < self.aln_particles.len()
            invariant
                i <= self.aln_particles.len(),
                forall|k: int| 0 <= k < i ==> (#[trigger] self.aln_particles@[k]).neurorights_no_raw_eeg_export,
            decreases self.aln_particles.len() - i,
        {
            if !self.aln_particles[i].neurorights_no_raw_eeg_export {
                return false;
            }
            i += 1;
        }
        true
    }

    /// The hard gate: an error means the upgrade is not admissible. `fit`
    /// says whether the upgrade fits the consented envelopes.
    pub fn enforce_on(&self, fit: &EnvelopeFit) -> (r: Result<(), PolicyError>)
        ensures
            r == consent_verdict(*self, *fit),
    {
        if !self.grants_rollback() {
            return Err(PolicyError::MissingRollbackAnytime);
        }
        if !self.forbids_nonconsensual_modulation() {
            return Err(PolicyError::MissingMentalPrivacyFlag);
        }
        if !self.forbids_raw_eeg_export() {
            return Err(PolicyError::MissingMentalPrivacyFlag);
        }
        if !fit.host_budget {
            return Err(PolicyError::BudgetViolation);
        }
        if !fit.thermo_and_cognitive {
            return Err(PolicyError::EnvelopeViolation);
        }
        if !fit.neural_ropes {
            return Err(PolicyError::EnvelopeViolation);
        }
        match enforce_evidence_bundle(&self.evidence_bundle) {
            Err(_) => Err(PolicyError::EvidenceMissing),
            Ok(_) => Ok(()),
        }
    }
}

} // verus!
