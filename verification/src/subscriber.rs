//! Event subscribers: the observer capability endpoints accept at
//! construction.
//!
//! Delivery is synchronous, at the point of the state transition, in
//! strict transition order — no reordering or batching — since observers
//! assert on event sequence and exact values. Subscribers compose as
//! ordered pairs invoked in registration order.

use vstd::prelude::*;
use crate::events::{MtuUpdated, PacketDropped};

verus! {

/// One observer of the MTU subsystem's events.
pub trait EventSubscriber {
    /// The validated MTU of a path changed (or was first established).
    fn on_mtu_updated(&mut self, event: &MtuUpdated);

    /// An incoming datagram was discarded by an admission rule.
    fn on_packet_dropped(&mut self, event: &PacketDropped);
}

/// The production default: observes nothing.
pub struct NullSubscriber;

impl EventSubscriber for NullSubscriber {
    fn on_mtu_updated(&mut self, event: &MtuUpdated) {
    }

    fn on_packet_dropped(&mut self, event: &PacketDropped) {
    }
}

/// A subscriber that keeps every event it sees, in delivery order.
pub struct RecordingSubscriber {
    /// Every MTU update delivered, oldest first.
    pub mtu_updates: Vec<MtuUpdated>,
    /// Every drop event delivered, oldest first.
    pub packets_dropped: Vec<PacketDropped>,
}

impl RecordingSubscriber {
    /// An empty recorder.
    pub fn new() -> (r: RecordingSubscriber)
        ensures
            r.mtu_updates@.len() == 0,
            r.packets_dropped@.len() == 0,
    {
        RecordingSubscriber { mtu_updates: Vec::new(), packets_dropped: Vec::new() }
    }
}

impl EventSubscriber for RecordingSubscriber {
    fn on_mtu_updated(&mut self, event: &MtuUpdated) {
        self.mtu_updates.push(*event);
    }

    fn on_packet_dropped(&mut self, event: &PacketDropped) {
        self.packets_dropped.push(*event);
    }
}

/// Two subscribers in registration order: every event goes to `first`,
/// then to `second`. Pairs nest, so any ordered list of subscribers
/// composes.
pub struct SubscriberPair<A: EventSubscriber, B: EventSubscriber> {
    /// Receives every event first.
    pub first: A,
    /// Receives every event second.
    pub second: B,
}

impl<A: EventSubscriber, B: EventSubscriber> EventSubscriber for SubscriberPair<A, B> {
    fn on_mtu_updated(&mut self, event: &MtuUpdated) {
        self.first.on_mtu_updated(event);
        self.second.on_mtu_updated(event);
    }

    fn on_packet_dropped(&mut self, event: &PacketDropped) {
        self.first.on_packet_dropped(event);
        self.second.on_packet_dropped(event);
    }
}

} // verus!
