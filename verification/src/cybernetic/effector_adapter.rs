//! Effectors as the supervisor sees them.

use vstd::prelude::*;

verus! {

/// A command for one effector. The payload holds raw 64-bit patterns.
#[derive(Debug, Clone)]
pub struct EffectorCommand {
    pub effector_id: String,
    /// Instant of the command, nanoseconds since the Unix epoch.
    pub at: u128,
    pub payload: Vec<u64>,
    pub labels: Vec<String>,
}

/// A sink of commands.
pub trait EffectorAdapter {
    /// Identifier of the effector.
    fn id(&self) -> &str;

    /// Applies a command and says whether it was accepted.
    fn apply(&self, cmd: EffectorCommand) -> bool;
}

/// An effector that accepts every command and does nothing.
pub struct DummyEffector {
    id: String,
}

impl DummyEffector {
    /// The identifier of the effector.
    pub closed spec fn name(&self) -> Seq<char> {
        self.id@
    }

    /// An effector with the given identifier.
    pub fn new(id: String) -> (r: Self)
        ensures
            r.name() == id@,
    {
        DummyEffector { id }
    }
}

impl EffectorAdapter for DummyEffector {
    fn id(&self) -> (r: &str)
        ensures
            r@ == self.name(),
    {
        self.id.as_str()
    }

    fn apply(&self, _cmd: EffectorCommand) -> (r: bool)
        ensures
            r,
    {
        true
    }
}

} // verus!
