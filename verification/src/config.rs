//! Configuration of the MTU subsystem.
//!
//! The search ceiling is an explicit, documented configuration field rather
//! than a hidden networking constant, so the state machine is fully
//! parameterized. The blackhole loss policy is likewise tunable: the exact
//! loss pattern separating a blackhole from congestion is a heuristic, not
//! a protocol constant.

use vstd::prelude::*;
use crate::guard::MINIMUM_MTU;

verus! {

/// Bytes of UDP header per datagram.
pub const UDP_HEADER_LEN: u16 = 8;

/// Bytes of IPv4 header per datagram.
pub const IPV4_HEADER_LEN: u16 = 20;

/// The common Ethernet MTU, basis of the first probe size.
pub const ETHERNET_MTU: u16 = 1500;

/// Smallest admissible `max_mtu`: the protocol floor plus UDP and IPv4
/// headers, so the derived payload ceiling never falls below the floor.
pub const MINIMUM_MAX_MTU: u16 = 1228;

/// Largest UDP payload a datagram of `max_mtu` bytes can carry.
pub open spec fn max_udp_payload(max_mtu: u16) -> int {
    max_mtu - UDP_HEADER_LEN - IPV4_HEADER_LEN
}

/// Tunables of the MTU subsystem for one endpoint.
#[derive(Clone, Copy, Debug, PartialEq, Eq, Structural)]
pub struct Config {
    /// Ceiling on the total datagram size (IP and UDP headers included)
    /// ever attempted on a path, from local configuration and any
    /// peer-advertised limit. Defaults to standard Ethernet framing.
    pub max_mtu: u16,
    /// Convergence granularity of the binary search, in bytes: the search
    /// completes when the next candidate would gain fewer bytes than this.
    pub probe_threshold: u16,
    /// How many losses at the validated size, with no intervening success
    /// at that size, must pair with success at a smaller size before a
    /// blackhole is declared.
    pub blackhole_loss_threshold: u32,
}

impl Config {
    /// A configuration the controller can run on.
    pub open spec fn wf(self) -> bool {
        &&& self.max_mtu >= MINIMUM_MAX_MTU
        &&& self.probe_threshold >= 1
        &&& self.blackhole_loss_threshold >= 1
    }

    /// Configuration with the given datagram-size ceiling and the default
    /// search and blackhole policies.
    pub fn with_max_mtu(max_mtu: u16) -> (r: Config)
        requires
            max_mtu >= MINIMUM_MAX_MTU,
        ensures
            r.wf(),
            r.max_mtu == max_mtu,
            r.probe_threshold == 20,
            r.blackhole_loss_threshold == 3,
    {
        Config { max_mtu, probe_threshold: 20, blackhole_loss_threshold: 3 }
    }

    /// The largest UDP payload this configuration allows in one datagram.
    pub fn payload_ceiling(&self) -> (r: u16)
        requires
            self.wf(),
        ensures
            r == max_udp_payload(self.max_mtu),
            r >= MINIMUM_MTU,
    {
        self.max_mtu - UDP_HEADER_LEN - IPV4_HEADER_LEN
    }
}

impl Default for Config {
    /// Ethernet-sized ceiling, 20-byte search granularity, three large
    /// losses beside one small success to declare a blackhole.
    fn default() -> (r: Config)
        ensures
            r.wf(),
            r.max_mtu == ETHERNET_MTU,
            r.probe_threshold == 20,
            r.blackhole_loss_threshold == 3,
    {
        Config { max_mtu: ETHERNET_MTU, probe_threshold: 20, blackhole_loss_threshold: 3 }
    }
}

} // verus!
