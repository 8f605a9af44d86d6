//! The supervisor: polls sensors onto the bus and drives effectors from
//! it.

use vstd::prelude::*;
use crate::cybernetic::clock::now_nanos;
use crate::cybernetic::effector_adapter::{EffectorAdapter, EffectorCommand};
use crate::cybernetic::feedback_bus::{pushed, CommandEnvelope, FeedbackBus, SensorEnvelope};
use crate::cybernetic::payload::{decode_payload, decoded, encode_payload, encoded};
use crate::cybernetic::sensor_adapter::{SensorAdapter, SensorSnapshot};
use crate::text::str_eq;

verus! {

/// Configuration of a supervisor.
#[derive(Clone, Copy, Debug)]
pub struct SupervisorConfig {
    /// Bound of each queue of the bus.
    pub queue_len: usize,
}

/// A supervisor over sensors of type `S` and effectors of type `E`.
pub struct Supervisor<S: SensorAdapter, E: EffectorAdapter> {
    bus: FeedbackBus,
    sensors: Vec<S>,
    effectors: Vec<E>,
}

/// A queue after each of `entries` was pushed in turn under `bound`.
pub open spec fn pushed_all<T>(queue: Seq<T>, bound: usize, entries: Seq<T>) -> Seq<T>
    decreases entries.len(),
{
    if entries.len() == 0 {
        queue
    } else {
        pushed(pushed_all(queue, bound, entries.drop_last()), bound, entries.last())
    }
}

/// The envelope that carries a snapshot: same sensor, same instant, the
/// readings encoded.
pub fn sensor_envelope(snapshot: &SensorSnapshot) -> (env: SensorEnvelope)
    ensures
        env.id@ == snapshot.sensor_id@,
        env.at == snapshot.at,
        env.payload@ == encoded(snapshot.values@),
{
    SensorEnvelope {
        id: snapshot.sensor_id.clone(),
        at: snapshot.at,
        payload: encode_payload(&snapshot.values),
    }
}

/// The envelope that carries a command for an effector.
pub fn command_envelope(effector_id: String, payload_values: &Vec<u64>, at: u128) -> (env:
    CommandEnvelope)
    ensures
        env.id == effector_id,
        env.at == at,
        env.payload@ == encoded(payload_values@),
{
    CommandEnvelope { id: effector_id, at, payload: encode_payload(payload_values) }
}

/// The command that an envelope carries: same effector, same instant, the
/// payload decoded, no labels.
pub fn effector_command(env: &CommandEnvelope) -> (cmd: EffectorCommand)
    ensures
        cmd.effector_id@ == env.id@,
        cmd.at == env.at,
        cmd.payload@ == decoded(env.payload@),
        cmd.labels@.len() == 0,
{
    EffectorCommand {
        effector_id: env.id.clone(),
        at: env.at,
        payload: decode_payload(&env.payload),
        labels: Vec::new(),
    }
}

impl<S: SensorAdapter, E: EffectorAdapter> Supervisor<S, E> {
    /// The bus of the supervisor.
    pub closed spec fn bus_view(&self) -> FeedbackBus {
        self.bus
    }

    /// Number of registered sensors.
    pub closed spec fn sensor_count(&self) -> nat {
        self.sensors@.len()
    }

    /// Number of registered effectors.
    pub closed spec fn effector_count(&self) -> nat {
        self.effectors@.len()
    }

    /// A supervisor with an empty bus and nothing registered.
    pub fn new(config: SupervisorConfig) -> (r: Self)
        ensures
            r.bus_view().sensors().len() == 0,
            r.bus_view().commands().len() == 0,
            r.bus_view().bound() == config.queue_len,
            r.sensor_count() == 0,
            r.effector_count() == 0,
    {
        Supervisor {
            bus: FeedbackBus::new(config.queue_len),
            sensors: Vec::new(),
            effectors: Vec::new(),
        }
    }

    /// The bus, to look at.
    pub fn bus(&self) -> (r: &FeedbackBus)
        ensures
            *r == self.bus_view(),
    {
        &self.bus
    }

    /// Queues a command envelope as it stands.
    pub fn push_command(&mut self, env: CommandEnvelope)
        ensures
            final(self).bus_view().commands() == pushed(
                old(self).bus_view().commands(),
                old(self).bus_view().bound(),
                env,
            ),
            final(self).bus_view().sensors() == old(self).bus_view().sensors(),
            final(self).bus_view().bound() == old(self).bus_view().bound(),
            final(self).sensor_count() == old(self).sensor_count(),
            final(self).effector_count() == old(self).effector_count(),
    {
        self.bus.push_command(env);
    }

    /// Takes the oldest sensor envelope from the bus.
    pub fn pull_sensor(&mut self) -> (r: Option<SensorEnvelope>)
        ensures
            old(self).bus_view().sensors().len() == 0 ==> r is None,
            old(self).bus_view().sensors().len() > 0 ==> r == Some(
                old(self).bus_view().sensors()[0],
            ) && final(self).bus_view().sensors() == old(self).bus_view().sensors().drop_first(),
            final(self).bus_view().commands() == old(self).bus_view().commands(),
            final(self).bus_view().bound() == old(self).bus_view().bound(),
            final(self).sensor_count() == old(self).sensor_count(),
            final(self).effector_count() == old(self).effector_count(),
    {
        self.bus.pull_sensor()
    }

    /// Registers a sensor.
    pub fn register_sensor(&mut self, sensor: S)
        ensures
            final(self).sensor_count() == old(self).sensor_count() + 1,
            final(self).effector_count() == old(self).effector_count(),
            final(self).bus_view() == old(self).bus_view(),
    {
        self.sensors.push(sensor);
    }

    /// Registers an effector.
    pub fn register_effector(&mut self, effector: E)
        ensures
            final(self).effector_count() == old(self).effector_count() + 1,
            final(self).sensor_count() == old(self).sensor_count(),
            final(self).bus_view() == old(self).bus_view(),
    {
        self.effectors.push(effector);
    }

    /// Asks every sensor for a sample, in order of registration, and
    /// queues the envelope of each sample given. Whatever the sensors
    /// give, at most one envelope per sensor is pushed, and commands are
    /// left alone.
    pub fn poll_sensors(&mut self)
        ensures
            exists|envs: Seq<SensorEnvelope>|
                {
                    &&& envs.len() <= old(self).sensor_count()
                    &&& final(self).bus_view().sensors() == #[trigger] pushed_all(
                        old(self).bus_view().sensors(),
                        old(self).bus_view().bound(),
                        envs,
                    )
                },
            final(self).bus_view().commands() == old(self).bus_view().commands(),
            final(self).bus_view().bound() == old(self).bus_view().bound(),
            final(self).sensor_count() == old(self).sensor_count(),
            final(self).effector_count() == old(self).effector_count(),
            old(self).bus_view().within_bound() ==> final(self).bus_view().within_bound(),
    {
        let ghost mut envs: Seq<SensorEnvelope> = Seq::empty();
        let mut i: usize = 0;
        while i < self.sensors.len()
            invariant
                i <= self.sensors.len(),
                envs.len() <= i,
                self.sensors == old(self).sensors,
                self.effectors == old(self).effectors,
                self.bus.sensors() == pushed_all(
                    old(self).bus.sensors(),
                    old(self).bus.bound(),
                    envs,
                ),
                self.bus.commands() == old(self).bus.commands(),
                self.bus.bound() == old(self).bus.bound(),
                old(self).bus.within_bound() ==> self.bus.within_bound(),
            decreases self.sensors.len() - i,
        {
            match self.sensors[i].sample() {
                Some(snapshot) => {
                    let env = sensor_envelope(&snapshot);
                    proof {
                        let next = envs.push(env);
                        assert(next.drop_last() =~= envs);
                        envs = next;
                    }
                    self.bus.push_sensor(env);
                },
                None => {},
            }
            i += 1;
        }
        assert(self.bus_view().sensors() == pushed_all(
            old(self).bus_view().sensors(),
            old(self).bus_view().bound(),
            envs,
        ));
    }

    /// Hands a command to every effector whose identifier is that of the
    /// envelope, and says how many took it.
    fn dispatch(&self, env: &CommandEnvelope) -> (n: usize)
        ensures
            n <= self.effectors@.len(),
    {
        let mut n: usize = 0;
        let mut i: usize = 0;
        while i < self.effectors.len()
            invariant
                i <= self.effectors.len(),
                n <= i,
            decreases self.effectors.len() - i,
        {
            if str_eq(self.effectors[i].id(), env.id.as_str()) {
                let cmd = effector_command(env);
                let _ = self.effectors[i].apply(cmd);
                n += 1;
            }
            i += 1;
        }
        n
    }

    /// Drains the command queue, oldest first. Each command goes to every
    /// effector whose identifier it carries; a command for no registered
    /// effector is dropped. Sensor envelopes are left alone.
    pub fn drive_effectors(&mut self)
        ensures
            final(self).bus_view().commands().len() == 0,
            final(self).bus_view().sensors() == old(self).bus_view().sensors(),
            final(self).bus_view().bound() == old(self).bus_view().bound(),
            final(self).sensor_count() == old(self).sensor_count(),
            final(self).effector_count() == old(self).effector_count(),
            old(self).bus_view().within_bound() ==> final(self).bus_view().within_bound(),
    {
        while self.bus.command_len() > 0
            invariant
                self.sensors == old(self).sensors,
                self.effectors == old(self).effectors,
                self.bus.sensors() == old(self).bus.sensors(),
                self.bus.bound() == old(self).bus.bound(),
                old(self).bus.within_bound() ==> self.bus.within_bound(),
            decreases self.bus.commands().len(),
        {
            match self.bus.pull_command() {
                Some(env) => {
                    let _ = self.dispatch(&env);
                },
                None => {},
            }
        }
    }

    /// Queues a command for an effector, stamped at `at`.
    pub fn enqueue_effector_command_at(
        &mut self,
        effector_id: String,
        payload_values: Vec<u64>,
        at: u128,
    )
        ensures
            exists|env: CommandEnvelope|
                {
                    &&& env.id == effector_id
                    &&& env.at == at
                    &&& env.payload@ == encoded(payload_values@)
                    &&& final(self).bus_view().commands() == #[trigger] pushed(
                        old(self).bus_view().commands(),
                        old(self).bus_view().bound(),
                        env,
                    )
                },
            final(self).bus_view().sensors() == old(self).bus_view().sensors(),
            final(self).bus_view().bound() == old(self).bus_view().bound(),
            final(self).sensor_count() == old(self).sensor_count(),
            final(self).effector_count() == old(self).effector_count(),
            old(self).bus_view().within_bound() ==> final(self).bus_view().within_bound(),
    {
        let env = command_envelope(effector_id, &payload_values, at);
        self.bus.push_command(env);
        assert(self.bus_view().commands() == pushed(
            old(self).bus_view().commands(),
            old(self).bus_view().bound(),
            env,
        ));
    }

    /// Queues a command for an effector, stamped with the clock. Where the
    /// clock reads earlier than the epoch the stamp is zero.
    pub fn enqueue_effector_command(&mut self, effector_id: String, payload_values: Vec<u64>)
        ensures
            exists|env: CommandEnvelope|
                {
                    &&& env.id == effector_id
                    &&& env.payload@ == encoded(payload_values@)
                    &&& final(self).bus_view().commands() == #[trigger] pushed(
                        old(self).bus_view().commands(),
                        old(self).bus_view().bound(),
                        env,
                    )
                },
            final(self).bus_view().sensors() == old(self).bus_view().sensors(),
            final(self).bus_view().bound() == old(self).bus_view().bound(),
            final(self).sensor_count() == old(self).sensor_count(),
            final(self).effector_count() == old(self).effector_count(),
            old(self).bus_view().within_bound() ==> final(self).bus_view().within_bound(),
    {
        let at: u128 = match now_nanos() {
            Some(t) => t,
            None => 0,
        };
        self.enqueue_effector_command_at(effector_id, payload_values, at);
    }
}

} // verus!
