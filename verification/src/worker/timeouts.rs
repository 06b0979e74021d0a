//! How long the player may take.

use vstd::prelude::*;

verus! {

/// One of the timeouts that the program is configured with.
#[derive(Clone, Copy, Debug, PartialEq, Eq, Structural)]
pub enum Timeout {
    /// For reading while the player idles.
    IdleRead,
    /// For reading the answer to a request.
    Read,
    /// For writing a request.
    Write,
}

/// The timeouts that the program is configured with. Idling can go on without end.
pub struct Timeouts<T> {
    pub idle_read: Option<T>,
    pub read: T,
    pub write: T,
}

impl<T: Copy> Timeouts<T> {
    /// What to set for this timeout.
    pub open spec fn value(self, timeout: Timeout) -> Option<T> {
        match timeout {
            Timeout::IdleRead => self.idle_read,
            Timeout::Read => Some(self.read),
            Timeout::Write => Some(self.write),
        }
    }

    /// What to set for this timeout.
    pub fn get(&self, timeout: Timeout) -> (r: Option<T>)
        ensures
            r == self.value(timeout),
    {
        match timeout {
            Timeout::IdleRead => self.idle_read,
            Timeout::Read => Some(self.read),
            Timeout::Write => Some(self.write),
        }
    }
}

} // verus!
