//! Transport configuration and heartbeat timing.

use crate::{BROADCAST, HEARTBEAT_INTERVAL, PORT};
use vstd::prelude::*;

verus! {

/// Settings of a transport, fixed when it is made.
#[derive(Debug, Clone, Copy, PartialEq, Eq, Structural)]
pub struct Config {
    /// Port to bind, listen on and send to.
    pub port: u16,
    /// Address that UDP packets go to, as a big-endian IPv4 address.
    pub broadcast: u32,
    /// Time between heartbeats, in microseconds.
    pub heartbeat_interval: u64,
}

impl Default for Config {
    /// The protocol's own port, multicast group and heartbeat interval.
    fn default() -> (r: Config)
        ensures
            r == (Config { port: PORT, broadcast: BROADCAST, heartbeat_interval: HEARTBEAT_INTERVAL }),
    {
        Config { port: PORT, broadcast: BROADCAST, heartbeat_interval: HEARTBEAT_INTERVAL }
    }
}

/// A heartbeat is due when more than `interval` microseconds have passed
/// since the last one.
pub open spec fn heartbeat_due(last_heartbeat: i64, now: i64, interval: u64) -> bool {
    now - last_heartbeat > interval
}

/// Whether a heartbeat is due at `now`.
pub fn is_heartbeat_due(last_heartbeat: i64, now: i64, interval: u64) -> (r: bool)
    ensures
        r == heartbeat_due(last_heartbeat, now, interval),
{
    (now as i128) - (last_heartbeat as i128) > interval as i128
}

} // verus!
