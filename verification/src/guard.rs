//! Initial-packet size guard.
//!
//! Before any initial-space (handshake) datagram from an unvalidated peer
//! address is processed, its padded size is checked against the protocol
//! floor. Undersized datagrams are dropped outright, before any
//! cryptographic or stream processing, as an anti-amplification defense:
//! a small trigger packet must never elicit a disproportionately large
//! unauthenticated response. The guard is independent of the MTU
//! controller and never tears the connection down — a legitimate peer may
//! retransmit a correctly sized packet later.

use vstd::prelude::*;
use crate::events::{PacketDropReason, PacketDropped};

verus! {

/// Protocol floor, in bytes: the smallest datagram size every conforming
/// path must carry, and the minimum padded size of an initial datagram.
pub const MINIMUM_MTU: u16 = 1200;

/// Admission rule for one incoming initial-space datagram of `len` bytes.
///
/// Returns `Some(drop event)` exactly when the datagram is below the
/// 1200-byte protocol floor; `None` admits it to further processing.
/// Each undersized datagram — a retransmission included — yields one event.
pub fn check_initial_datagram(len: usize) -> (r: Option<PacketDropped>)
    ensures
        r is Some <==> len < MINIMUM_MTU,
        r is Some ==> r->Some_0 == (PacketDropped { reason: PacketDropReason::UndersizedInitialPacket }),
{
    if len < MINIMUM_MTU as usize {
        Some(PacketDropped { reason: PacketDropReason::UndersizedInitialPacket })
    } else {
        None
    }
}

} // verus!
