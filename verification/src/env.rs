//! What a transition is told about its call: the logical time of the
//! transaction and the identity of the caller.

use vstd::prelude::*;

verus! {

/// The number of nanoseconds in a second.
pub const NANOS_PER_SECOND: u64 = 1_000_000_000u64;

/// A point in logical time, in nanoseconds since the epoch.
#[derive(Clone, Copy, Debug, PartialEq, Eq, Structural)]
pub struct Timestamp {
    pub nanos: u64,
}

impl Timestamp {
    /// The whole seconds since the epoch; a fraction of a second is dropped.
    pub open spec fn spec_seconds(self) -> int {
        self.nanos as int / NANOS_PER_SECOND as int
    }

    /// The time that lies `nanos` nanoseconds after the epoch.
    pub fn from_nanos(nanos: u64) -> (r: Timestamp)
        ensures
            r.nanos == nanos,
    {
        Timestamp { nanos }
    }

    /// The time that lies `seconds` whole seconds after the epoch, or nothing
    /// where that is later than the latest time that can be held.
    pub fn from_seconds(seconds: u64) -> (r: Option<Timestamp>)
        ensures
            r == if seconds * NANOS_PER_SECOND <= u64::MAX {
                Some(Timestamp { nanos: (seconds * NANOS_PER_SECOND) as u64 })
            } else {
                None
            },
    {
        match seconds.checked_mul(NANOS_PER_SECOND) {
            Some(nanos) => Some(Timestamp { nanos }),
            None => None,
        }
    }

    /// The nanoseconds since the epoch.
    pub fn nanos(&self) -> (r: u64)
        ensures
            r == self.nanos,
    {
        self.nanos
    }

    /// The whole seconds since the epoch; a fraction of a second is dropped.
    pub fn seconds(&self) -> (r: u64)
        ensures
            r == self.spec_seconds(),
    {
        self.nanos / NANOS_PER_SECOND
    }
}

/// The block in which a transaction runs.
#[derive(Clone, Copy, Debug, PartialEq, Eq, Structural)]
pub struct BlockInfo {
    pub height: u64,
    /// The logical time of every transition in the block.
    pub time: Timestamp,
}

/// The surroundings of a call.
#[derive(Clone, Copy, Debug, PartialEq, Eq, Structural)]
pub struct Env {
    pub block: BlockInfo,
}

impl Env {
    /// The surroundings of a call made at `time` in the block of the given height.
    pub fn new(height: u64, time: Timestamp) -> (r: Env)
        ensures
            r.block.height == height,
            r.block.time == time,
    {
        Env { block: BlockInfo { height, time } }
    }
}

/// Who makes a call. Addresses are compared as they are written.
#[derive(Debug, PartialEq, Eq)]
pub struct MessageInfo {
    pub sender: String,
}

impl MessageInfo {
    /// A call made by `sender`.
    pub fn new(sender: String) -> (r: MessageInfo)
        ensures
            r.sender == sender,
    {
        MessageInfo { sender }
    }
}

impl Clone for MessageInfo {
    fn clone(&self) -> (r: Self)
        ensures
            r == *self,
    {
        MessageInfo { sender: self.sender.clone() }
    }
}

} // verus!
