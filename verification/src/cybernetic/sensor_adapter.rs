//! Sensors as the supervisor sees them.

use vstd::prelude::*;
use crate::cybernetic::clock::now_nanos;

verus! {

/// One sample of a sensor. Readings are carried as raw 64-bit patterns,
/// one per label.
#[derive(Debug, Clone)]
pub struct SensorSnapshot {
    pub sensor_id: String,
    /// Instant of the sample, nanoseconds since the Unix epoch.
    pub at: u128,
    pub values: Vec<u64>,
    pub labels: Vec<String>,
}

/// A source of samples.
pub trait SensorAdapter {
    /// Identifier of the sensor.
    fn id(&self) -> &str;

    /// Takes a sample, if the sensor has one.
    fn sample(&self) -> Option<SensorSnapshot>;
}

/// A sensor that reads zero on every channel.
pub struct DummyBiophysicalSensor {
    id: String,
    labels: Vec<String>,
}

/// `n` readings of zero.
pub open spec fn zeros(n: nat) -> Seq<u64> {
    Seq::new(n, |i: int| 0u64)
}

/// The characters of each of a list of strings.
pub open spec fn texts(list: Seq<String>) -> Seq<Seq<char>> {
    Seq::new(list.len(), |i: int| list[i]@)
}

/// Copies a list of strings.
fn copy_labels(labels: &Vec<String>) -> (r: Vec<String>)
    ensures
        texts(r@) == texts(labels@),
{
    let mut out: Vec<String> = Vec::new();
    let mut i: usize = 0;
    while i < labels.len()
        invariant
            i <= labels.len(),
            out@.len() == i,
            forall|k: int| 0 <= k < i ==> (#[trigger] out@[k])@ == labels@[k]@,
        decreases labels.len() - i,
    {
        out.push(labels[i].clone());
        i += 1;
    }
    assert(texts(out@) =~= texts(labels@));
    out
}

impl DummyBiophysicalSensor {
    /// The identifier of the sensor.
    pub closed spec fn name(&self) -> Seq<char> {
        self.id@
    }

    /// The channel labels of the sensor.
    pub closed spec fn channels(&self) -> Seq<String> {
        self.labels@
    }

    /// A sensor with the given identifier and channel labels.
    pub fn new(id: String, labels: Vec<String>) -> (r: Self)
        ensures
            r.name() == id@,
            r.channels() == labels@,
    {
        DummyBiophysicalSensor { id, labels }
    }
}

impl SensorAdapter for DummyBiophysicalSensor {
    fn id(&self) -> (r: &str)
        ensures
            r@ == self.name(),
    {
        self.id.as_str()
    }

    /// A sample of zeros, one per channel, stamped with the clock. Where
    /// the clock reads earlier than the epoch the stamp is zero.
    fn sample(&self) -> (r: Option<SensorSnapshot>)
        ensures
            r is Some,
            r.unwrap().sensor_id@ == self.name(),
            r.unwrap().values@ == zeros(self.channels().len()),
            texts(r.unwrap().labels@) == texts(self.channels()),
    {
        let at: u128 = match now_nanos() {
            Some(t) => t,
            None => 0,
        };
        let mut values: Vec<u64> = Vec::new();
        let mut i: usize = 0;
        while i < self.labels.len()
            invariant
                i <= self.labels.len(),
                values@ == zeros(i as nat),
            decreases self.labels.len() - i,
        {
            values.push(0);
            assert(values@ =~= zeros((i + 1) as nat));
            i += 1;
        }
        Some(
            SensorSnapshot {
                sensor_id: self.id.clone(),
                at,
                values,
                labels: copy_labels(&self.labels),
            },
        )
    }
}

} // verus!
