//! The feedback bus: two bounded queues, one of sensor envelopes and one
//! of command envelopes.

use vstd::prelude::*;
use std::collections::VecDeque;
use crate::cybernetic::clock::now_nanos;

verus! {

/// A sensor reading on the bus.
#[derive(Debug, Clone)]
pub struct SensorEnvelope {
    pub id: String,
    /// Instant of the reading, nanoseconds since the Unix epoch.
    pub at: u128,
    pub payload: Vec<u8>,
}

/// A command on the bus.
#[derive(Debug, Clone)]
pub struct CommandEnvelope {
    pub id: String,
    /// Instant of the command, nanoseconds since the Unix epoch.
    pub at: u128,
    pub payload: Vec<u8>,
}

/// An event on the bus.
#[derive(Debug, Clone)]
pub enum FeedbackEvent {
    Sensor(SensorEnvelope),
    Command(CommandEnvelope),
}

/// The bus. Each queue keeps its entries in order of arrival.
#[derive(Debug)]
pub struct FeedbackBus {
    sensor_queue: VecDeque<SensorEnvelope>,
    command_queue: VecDeque<CommandEnvelope>,
    max_len: usize,
}

/// A queue after an entry was pushed under `bound`: where the queue had
/// reached the bound its oldest entry left first.
pub open spec fn pushed<T>(queue: Seq<T>, bound: usize, entry: T) -> Seq<T> {
    if queue.len() >= bound && queue.len() > 0 {
        queue.drop_first().push(entry)
    } else {
        queue.push(entry)
    }
}

/// How many sensor envelopes at the front of a queue are older than
/// `cutoff`, counted up to the first that is not.
pub open spec fn stale_sensors(queue: Seq<SensorEnvelope>, cutoff: u128) -> nat
    decreases queue.len(),
{
    if queue.len() > 0 && queue[0].at < cutoff {
        1 + stale_sensors(queue.drop_first(), cutoff)
    } else {
        0
    }
}

/// How many command envelopes at the front of a queue are older than
/// `cutoff`, counted up to the first that is not.
pub open spec fn stale_commands(queue: Seq<CommandEnvelope>, cutoff: u128) -> nat
    decreases queue.len(),
{
    if queue.len() > 0 && queue[0].at < cutoff {
        1 + stale_commands(queue.drop_first(), cutoff)
    } else {
        0
    }
}

/// The sensor queue after a purge of everything older than `cutoff`.
pub open spec fn sensors_after_purge(queue: Seq<SensorEnvelope>, cutoff: u128) -> Seq<
    SensorEnvelope,
> {
    queue.skip(stale_sensors(queue, cutoff) as int)
}

/// The command queue after a purge of everything older than `cutoff`.
pub open spec fn commands_after_purge(queue: Seq<CommandEnvelope>, cutoff: u128) -> Seq<
    CommandEnvelope,
> {
    queue.skip(stale_commands(queue, cutoff) as int)
}

/// The cutoff of a purge by age: `age` before `now`, and the epoch itself
/// where `age` reaches further back.
pub open spec fn cutoff_of(now: u128, age: u128) -> u128 {
    if now >= age {
        (now - age) as u128
    } else {
        0
    }
}

/// A purge removes envelopes from the front only: everything removed was
/// older than the cutoff, and what remains starts with an envelope that
/// is not.
pub proof fn lemma_sensors_after_purge(queue: Seq<SensorEnvelope>, cutoff: u128)
    ensures
        stale_sensors(queue, cutoff) <= queue.len(),
        forall|i: int| 0 <= i < stale_sensors(queue, cutoff) ==> (#[trigger] queue[i]).at < cutoff,
        sensors_after_purge(queue, cutoff).len() > 0 ==> sensors_after_purge(queue, cutoff)[0].at
            >= cutoff,
    decreases queue.len(),
{
    if queue.len() > 0 && queue[0].at < cutoff {
        let rest = queue.drop_first();
        lemma_sensors_after_purge(rest, cutoff);
        assert(sensors_after_purge(queue, cutoff) =~= sensors_after_purge(rest, cutoff));
        assert forall|i: int| 0 <= i < stale_sensors(queue, cutoff) implies (
        #[trigger] queue[i]).at < cutoff by {
            if i > 0 {
                assert(queue[i] == rest[i - 1]);
            }
        }
    }
}

/// A purge removes envelopes from the front only: everything removed was
/// older than the cutoff, and what remains starts with an envelope that
/// is not.
pub proof fn lemma_commands_after_purge(queue: Seq<CommandEnvelope>, cutoff: u128)
    ensures
        stale_commands(queue, cutoff) <= queue.len(),
        forall|i: int| 0 <= i < stale_commands(queue, cutoff) ==> (#[trigger] queue[i]).at < cutoff,
        commands_after_purge(queue, cutoff).len() > 0 ==> commands_after_purge(queue, cutoff)[0].at
            >= cutoff,
    decreases queue.len(),
{
    if queue.len() > 0 && queue[0].at < cutoff {
        let rest = queue.drop_first();
        lemma_commands_after_purge(rest, cutoff);
        assert(commands_after_purge(queue, cutoff) =~= commands_after_purge(rest, cutoff));
        assert forall|i: int| 0 <= i < stale_commands(queue, cutoff) implies (
        #[trigger] queue[i]).at < cutoff by {
            if i > 0 {
                assert(queue[i] == rest[i - 1]);
            }
        }
    }
}

impl FeedbackBus {
    /// The sensor queue, oldest first.
    pub closed spec fn sensors(&self) -> Seq<SensorEnvelope> {
        self.sensor_queue@
    }

    /// The command queue, oldest first.
    pub closed spec fn commands(&self) -> Seq<CommandEnvelope> {
        self.command_queue@
    }

    /// The bound of each queue.
    pub closed spec fn bound(&self) -> usize {
        self.max_len
    }

    /// Whether both queues are within the bound. A bound of zero still
    /// lets a queue hold its newest entry.
    pub open spec fn within_bound(&self) -> bool {
        let limit = if self.bound() == 0 {
            1
        } else {
            self.bound() as int
        };
        self.sensors().len() <= limit && self.commands().len() <= limit
    }

    /// An empty bus whose queues are bounded by `max_len`.
    pub fn new(max_len: usize) -> (bus: Self)
        ensures
            bus.sensors() == Seq::<SensorEnvelope>::empty(),
            bus.commands() == Seq::<CommandEnvelope>::empty(),
            bus.bound() == max_len,
            bus.within_bound(),
    {
        FeedbackBus { sensor_queue: VecDeque::new(), command_queue: VecDeque::new(), max_len }
    }

    /// Number of queued sensor envelopes.
    pub fn sensor_len(&self) -> (n: usize)
        ensures
            n == self.sensors().len(),
    {
        self.sensor_queue.len()
    }

    /// Number of queued command envelopes.
    pub fn command_len(&self) -> (n: usize)
        ensures
            n == self.commands().len(),
    {
        self.command_queue.len()
    }

    /// Queues a sensor envelope. Where the queue has reached its bound the
    /// oldest envelope is evicted first; the producer is never blocked.
    pub fn push_sensor(&mut self, env: SensorEnvelope)
        ensures
            final(self).sensors() == pushed(old(self).sensors(), old(self).bound(), env),
            final(self).commands() == old(self).commands(),
            final(self).bound() == old(self).bound(),
            old(self).within_bound() ==> final(self).within_bound(),
    {
        if self.sensor_queue.len() >= self.max_len {
            let _ = self.sensor_queue.pop_front();
        }
        self.sensor_queue.push_back(env);
        assert(self.sensor_queue@ =~= pushed(old(self).sensors(), old(self).bound(), env));
    }

    /// Queues a command envelope. Where the queue has reached its bound
    /// the oldest envelope is evicted first.
    pub fn push_command(&mut self, env: CommandEnvelope)
        ensures
            final(self).commands() == pushed(old(self).commands(), old(self).bound(), env),
            final(self).sensors() == old(self).sensors(),
            final(self).bound() == old(self).bound(),
            old(self).within_bound() ==> final(self).within_bound(),
    {
        if self.command_queue.len() >= self.max_len {
            let _ = self.command_queue.pop_front();
        }
        self.command_queue.push_back(env);
        assert(self.command_queue@ =~= pushed(old(self).commands(), old(self).bound(), env));
    }

    /// Takes the oldest sensor envelope, if there is one.
    pub fn pull_sensor(&mut self) -> (r: Option<SensorEnvelope>)
        ensures
            old(self).sensors().len() == 0 ==> r is None && final(self).sensors() == old(self).sensors(),
            old(self).sensors().len() > 0 ==> r == Some(old(self).sensors()[0]) && final(self).sensors() == old(self).sensors().drop_first(),
            final(self).commands() == old(self).commands(),
            final(self).bound() == old(self).bound(),
            old(self).within_bound() ==> final(self).within_bound(),
    {
        let r = self.sensor_queue.pop_front();
        assert(old(self).sensors().len() > 0 ==> self.sensor_queue@ =~= old(self).sensors().drop_first());
        r
    }

    /// Takes the oldest command envelope, if there is one.
    pub fn pull_command(&mut self) -> (r: Option<CommandEnvelope>)
        ensures
            old(self).commands().len() == 0 ==> r is None && final(self).commands() == old(self).commands(),
            old(self).commands().len() > 0 ==> r == Some(old(self).commands()[0]) && final(self).commands() == old(self).commands().drop_first(),
            final(self).sensors() == old(self).sensors(),
            final(self).bound() == old(self).bound(),
            old(self).within_bound() ==> final(self).within_bound(),
    {
        let r = self.command_queue.pop_front();
        assert(old(self).commands().len() > 0 ==> self.command_queue@ =~= old(self).commands().drop_first());
        r
    }

    /// Purges from the front of each queue the envelopes older than
    /// `cutoff`, up to the first that is not older.
    pub fn purge_older_than(&mut self, cutoff: u128)
        ensures
            final(self).sensors() == sensors_after_purge(old(self).sensors(), cutoff),
            final(self).commands() == commands_after_purge(old(self).commands(), cutoff),
            final(self).bound() == old(self).bound(),
            old(self).within_bound() ==> final(self).within_bound(),
    {
        let ghost mut k: int = 0;
        proof {
            assert(old(self).sensors().skip(0) =~= old(self).sensors());
        }
        while self.sensor_queue.len() > 0 && self.sensor_queue[0].at < cutoff
            invariant
                0 <= k <= old(self).sensors().len(),
                self.sensor_queue@ == old(self).sensors().skip(k),
                stale_sensors(old(self).sensors(), cutoff) == k + stale_sensors(
                    self.sensor_queue@,
                    cutoff,
                ),
                self.command_queue@ == old(self).commands(),
                self.max_len == old(self).bound(),
            decreases self.sensor_queue.len(),
        {
            let ghost before = self.sensor_queue@;
            let _ = self.sensor_queue.pop_front();
            proof {
                assert(self.sensor_queue@ =~= before.drop_first());
                assert(before.drop_first() =~= old(self).sensors().skip(k + 1));
                k = k + 1;
            }
        }
        let ghost mut j: int = 0;
        proof {
            assert(old(self).commands().skip(0) =~= old(self).commands());
        }
        while self.command_queue.len() > 0 && self.command_queue[0].at < cutoff
            invariant
                0 <= j <= old(self).commands().len(),
                self.command_queue@ == old(self).commands().skip(j),
                stale_commands(old(self).commands(), cutoff) == j + stale_commands(
                    self.command_queue@,
                    cutoff,
                ),
                self.sensor_queue@ == sensors_after_purge(old(self).sensors(), cutoff),
                self.max_len == old(self).bound(),
            decreases self.command_queue.len(),
        {
            let ghost before = self.command_queue@;
            let _ = self.command_queue.pop_front();
            proof {
                assert(self.command_queue@ =~= before.drop_first());
                assert(before.drop_first() =~= old(self).commands().skip(j + 1));
                j = j + 1;
            }
        }
    }

    /// Purges by age against a given reading of the clock: envelopes older
    /// than `age` nanoseconds before `now` leave. Without a reading
    /// nothing is purged.
    pub fn purge_older_than_at(&mut self, now: Option<u128>, age: u128)
        ensures
            now is None ==> final(self).sensors() == old(self).sensors() && final(self).commands() == old(self).commands(),
            now is Some ==> final(self).sensors() == sensors_after_purge(
                old(self).sensors(),
                cutoff_of(now.unwrap(), age),
            ) && final(self).commands() == commands_after_purge(
                old(self).commands(),
                cutoff_of(now.unwrap(), age),
            ),
            final(self).bound() == old(self).bound(),
            old(self).within_bound() ==> final(self).within_bound(),
    {
        match now {
            Some(now) => {
                let cutoff: u128 = if now >= age {
                    now - age
                } else {
                    0
                };
                self.purge_older_than(cutoff);
            },
            None => {},
        }
    }

    /// Purges the envelopes older than `age` nanoseconds, by the system
    /// clock. Whatever the clock reads, only stale envelopes at the front
    /// of a queue leave, and the bound stays.
    pub fn purge_older_than_duration(&mut self, age: u128)
        ensures
            exists|cutoff: u128|
                {
                    &&& final(self).sensors() == #[trigger] sensors_after_purge(
                        old(self).sensors(),
                        cutoff,
                    )
                    &&& final(self).commands() == commands_after_purge(
                        old(self).commands(),
                        cutoff,
                    )
                },
            final(self).bound() == old(self).bound(),
            old(self).within_bound() ==> final(self).within_bound(),
    {
        let now = now_nanos();
        self.purge_older_than_at(now, age);
        proof {
            if now is None {
                assert(old(self).sensors().skip(0) =~= old(self).sensors());
                assert(old(self).commands().skip(0) =~= old(self).commands());
                assert(self.sensors() == sensors_after_purge(old(self).sensors(), 0u128));
                assert(self.commands() == commands_after_purge(old(self).commands(), 0u128));
            }
        }
    }
}

impl Default for FeedbackBus {
    /// An empty bus with a bound of zero.
    fn default() -> (bus: Self)
        ensures
            bus.sensors() == Seq::<SensorEnvelope>::empty(),
            bus.commands() == Seq::<CommandEnvelope>::empty(),
            bus.bound() == 0,
    {
        FeedbackBus::new(0)
    }
}

} // verus!
