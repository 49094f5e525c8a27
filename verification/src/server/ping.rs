//! When a connection pings.

use vstd::prelude::*;

verus! {

/// How a connection sets its pinging going. Whoever drives the connection reads from it how often
/// an [`Event::Ping`](crate::server::connection::Event::Ping) is due.
#[derive(Debug)]
pub struct Handle {
    /// The milliseconds from one ping to the next, if pinging was started and nobody has acted on
    /// it yet.
    pub interval: Option<u32>,
}

impl Handle {
    /// A handle on pinging that has not started.
    pub fn new() -> (r: Self)
        ensures
            r.interval == None::<u32>,
    {
        Self { interval: None }
    }

    /// Starts pinging every `ping_interval` milliseconds.
    pub fn start(&mut self, ping_interval: u32)
        ensures
            final(self).interval == Some(ping_interval),
    {
        self.interval = Some(ping_interval);
    }

    /// The milliseconds from one ping to the next, if pinging was started since this was last
    /// asked.
    pub fn take(&mut self) -> (r: Option<u32>)
        ensures
            r == old(self).interval,
            final(self).interval == None::<u32>,
    {
        self.interval.take()
    }
}

} // verus!
