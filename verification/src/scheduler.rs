//! Probe scheduling: the size of the next MTU probe and the padded
//! datagram that carries it.
//!
//! The controller narrows a binary-search interval whose lower end is the
//! validated MTU and whose upper end is the largest size still worth
//! attempting. Candidates round down when the interval cannot be split
//! evenly, so the search never overshoots the true path limit. Probes
//! themselves ride the normal transmit path as maximally padded datagrams
//! and reuse the connection's ordinary loss-detection timers.

use vstd::prelude::*;
use crate::config::{ETHERNET_MTU, IPV4_HEADER_LEN, UDP_HEADER_LEN};
use crate::guard::MINIMUM_MTU;

verus! {

/// UDP payload of an Ethernet-sized datagram: the most likely true MTU,
/// probed first on every fresh search.
pub const ETHERNET_PAYLOAD: u16 = 1472;

/// The first candidate of a search from the floor up to `max_probe_size`:
/// the Ethernet payload size, clamped to the interval's upper end.
pub open spec fn spec_first_candidate(max_probe_size: u16) -> u16 {
    if max_probe_size < ETHERNET_PAYLOAD {
        max_probe_size
    } else {
        ETHERNET_PAYLOAD
    }
}

/// The midpoint candidate of the interval `[validated, max_probe_size]`,
/// rounding down.
pub open spec fn spec_midpoint(validated: u16, max_probe_size: u16) -> int {
    validated + (max_probe_size - validated) / 2
}

/// First probe size of a fresh search up to `max_probe_size`.
pub fn first_candidate(max_probe_size: u16) -> (r: u16)
    ensures
        r == spec_first_candidate(max_probe_size),
        r <= max_probe_size,
{
    proof {
        assert(ETHERNET_MTU - UDP_HEADER_LEN - IPV4_HEADER_LEN == ETHERNET_PAYLOAD);
    }
    if max_probe_size < ETHERNET_PAYLOAD {
        max_probe_size
    } else {
        ETHERNET_PAYLOAD
    }
}

/// Next probe size once `validated` has been reached: the midpoint of the
/// remaining interval, rounded down.
pub fn midpoint_candidate(validated: u16, max_probe_size: u16) -> (r: u16)
    requires
        validated <= max_probe_size,
    ensures
        r == spec_midpoint(validated, max_probe_size),
        validated <= r <= max_probe_size,
{
    validated + (max_probe_size - validated) / 2
}

/// Whether a search that has validated `validated` and would next try
/// `candidate` is done: the candidate gains fewer than `threshold` bytes.
pub fn search_done(validated: u16, candidate: u16, threshold: u16) -> (r: bool)
    requires
        validated <= candidate,
    ensures
        r == (candidate - validated < threshold),
{
    candidate - validated < threshold
}

/// The maximally padded probe datagram for candidate size `size`: `size`
/// bytes of padding, filled through the normal transmit path.
pub fn build_probe_datagram(size: u16) -> (r: Vec<u8>)
    ensures
        r@.len() == size,
        forall|i: int| 0 <= i < r@.len() ==> r@[i] == 0u8,
{
    let mut padding: Vec<u8> = Vec::new();
    let mut i: usize = 0;
    while i < size as usize
        invariant
            i <= size,
            padding@.len() == i,
            forall|j: int| 0 <= j < padding@.len() ==> padding@[j] == 0u8,
        decreases size - i,
    {
        padding.push(0u8);
        i = i + 1;
    }
    padding
}

} // verus!
