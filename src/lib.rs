//! Wire protocol of a CAN-bus-to-Ethernet bridge: bit-packed datagrams,
//! conversion between CAN frames and their wire form, the heartbeat, and
//! the decision logic of the UDP and TCP transports.

use vstd::prelude::*;

pub mod bits;
pub mod bus;
pub mod can;
pub mod config;
pub mod datagram;
pub mod error;
pub mod flags;
pub mod heartbeat;
pub mod tcp;
pub mod udp;

pub use bus::BusNumber;
pub use error::Error;
pub use flags::Flags;

verus! {

/// Port of the protocol, for UDP and TCP alike.
pub const PORT: u16 = 4876;

/// Multicast group the UDP transport sends to, 239.255.60.60, as a
/// big-endian integer.
pub const BROADCAST: u32 = 0xefff_3c3c;

/// Time between heartbeats, in microseconds.
pub const HEARTBEAT_INTERVAL: u64 = 1_000_000;

/// Protocol version carried by every header.
pub const PROTOCOL_VERSION: u64 = 0x5472697469756;

} // verus!
