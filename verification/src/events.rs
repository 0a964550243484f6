//! Events emitted by the MTU subsystem.
//!
//! An [`MtuUpdated`] event is produced once per controller transition that
//! changes the validated MTU (or establishes its initial value); a
//! [`PacketDropped`] event is produced by the initial-packet size guard,
//! never by the controller.

use vstd::prelude::*;

verus! {

/// Why the validated MTU changed.
#[derive(Clone, Copy, Debug, PartialEq, Eq, Structural)]
pub enum MtuCause {
    /// A new path was established; the MTU starts at the protocol floor.
    NewPath,
    /// A probe of this size was acknowledged.
    Probe,
    /// The path stopped carrying packets of the previously validated size,
    /// or the configured ceiling fell below it.
    BlackholeDetected,
}

/// Record of one change of the validated MTU, in transition order.
#[derive(Clone, Copy, Debug, PartialEq, Eq, Structural)]
pub struct MtuUpdated {
    /// The newly validated maximum UDP payload size, in bytes.
    pub mtu: u16,
    /// The transition that produced this value.
    pub cause: MtuCause,
}

/// Why an incoming datagram was discarded before processing.
#[derive(Clone, Copy, Debug, PartialEq, Eq, Structural)]
pub enum PacketDropReason {
    /// An initial-space datagram smaller than the protocol floor.
    UndersizedInitialPacket,
}

/// Record of one discarded incoming datagram.
#[derive(Clone, Copy, Debug, PartialEq, Eq, Structural)]
pub struct PacketDropped {
    /// The admission rule that discarded the datagram.
    pub reason: PacketDropReason,
}

} // verus!
