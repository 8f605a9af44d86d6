//! Lifeforce bands: the coarse safety classification that gates every
//! mutation.

use vstd::prelude::*;

verus! {

/// Safety band of one lifeforce sample.
#[derive(Clone, Copy, Debug, PartialEq, Eq, Structural)]
pub enum LifeforceBand {
    Safe,
    SoftWarn,
    HardStop,
}

/// One timestamped lifeforce classification.
#[derive(Clone, Copy, Debug)]
pub struct LifeforceSample {
    /// Unix milliseconds at which the sample was taken.
    pub at_ms_utc: i64,
    /// Band the sample was classified into.
    pub band: LifeforceBand,
    /// Normalized lifeforce level, in millionths.
    pub lifeforcel: i64,
}

/// Ordered lifeforce samples, oldest first. The last sample is the
/// operational state.
#[derive(Clone, Debug)]
pub struct LifeforceBandSeries {
    pub samples: Vec<LifeforceSample>,
}

/// Failures raised by lifeforce-guarded operations.
#[derive(Clone, Copy, Debug, PartialEq, Eq, Structural)]
pub enum LifeforceError {
    HardStopBand,
    MissingConsentOrProvenance,
    DoctrinalViolation,
    InsufficientKarmaForDefense,
    BloodDepletion,
    OxygenDepletion,
    SmartOverMax,
}

impl LifeforceBandSeries {
    /// The authoritative sample of the series, if it has one.
    pub open spec fn last_sample(&self) -> Option<LifeforceSample> {
        if self.samples@.len() == 0 {
            None
        } else {
            Some(self.samples@[self.samples@.len() - 1])
        }
    }

    /// Whether the authoritative sample is a hard stop.
    pub open spec fn hard_stopped(&self) -> bool {
        self.last_sample() is Some && self.last_sample().unwrap().band == LifeforceBand::HardStop
    }

    /// The most recent sample, or `None` for an empty series.
    pub fn last(&self) -> (r: Option<LifeforceSample>)
        ensures
            r == self.last_sample(),
    {
        let n = self.samples.len();
        if n == 0 {
            None
        } else {
            Some(self.samples[n - 1])
        }
    }

    /// Whether the most recent sample is in the hard-stop band. An empty
    /// series is not a hard stop.
    pub fn is_hard_stop(&self) -> (r: bool)
        ensures
            r == self.hard_stopped(),
    {
        match self.last() {
            Some(s) => s.band == LifeforceBand::HardStop,
            None => false,
        }
    }
}

} // verus!
