//! A server endpoint around one path: the MTU controller, the
//! initial-packet guard, and the subscriber the endpoint was built with.
//!
//! The endpoint forwards every transport signal to the controller and
//! delivers each resulting event to its subscriber synchronously, in
//! transition order. Incoming initial-space datagrams pass the size guard
//! before anything else; an undersized one is dropped, its event
//! delivered, and the connection left alone.

use vstd::prelude::*;
use crate::config::{max_udp_payload, Config, MINIMUM_MAX_MTU};
use crate::controller::{PathMtuController, PathState, ProbeOutcome};
use crate::events::{MtuCause, MtuUpdated};
use crate::guard::{check_initial_datagram, MINIMUM_MTU};
use crate::subscriber::EventSubscriber;

verus! {

/// A server endpoint driving MTU discovery on one path and publishing
/// every event to the subscriber given at construction.
pub struct Server<S: EventSubscriber> {
    /// The per-path state machine.
    path: PathMtuController,
    /// Where every event goes, in transition order.
    subscriber: S,
}

impl<S: EventSubscriber> Server<S> {
    /// The endpoint's path state machine.
    pub closed spec fn path(self) -> PathMtuController {
        self.path
    }

    /// A new endpoint under `config`, observing events with `subscriber`.
    /// Its path starts disabled, with nothing emitted.
    pub fn new(config: &Config, subscriber: S) -> (r: Server<S>)
        requires
            config.wf(),
        ensures
            r.path().wf(),
            r.path().state() == PathState::Disabled,
            r.path().validated() == MINIMUM_MTU,
            r.path().ceiling() == max_udp_payload(config.max_mtu),
            r.path().events().len() == 0,
    {
        Server { path: PathMtuController::new(config), subscriber }
    }

    /// The handshake confirmed the path: the floor event — always the
    /// path's very first — is emitted and delivered.
    pub fn on_path_established(&mut self)
        requires
            old(self).path().wf(),
            old(self).path().state() == PathState::Disabled,
        ensures
            final(self).path().wf(),
            final(self).path().validated() == MINIMUM_MTU,
            final(self).path().events() == old(self).path().events().push(
                MtuUpdated { mtu: MINIMUM_MTU, cause: MtuCause::NewPath },
            ),
            final(self).path().events().len() == 1,
    {
        let e = self.path.on_path_established();
        self.subscriber.on_mtu_updated(&e);
    }

    /// Admission check on one incoming initial-space datagram of `len`
    /// bytes, before any cryptographic or stream processing. An
    /// undersized datagram is rejected and one drop event delivered —
    /// once per datagram, retransmissions included.
    pub fn on_initial_datagram(&mut self, len: usize) -> (admitted: bool)
        ensures
            admitted <==> len >= MINIMUM_MTU,
            final(self).path() == old(self).path(),
    {
        match check_initial_datagram(len) {
            Some(dropped) => {
                self.subscriber.on_packet_dropped(&dropped);
                false
            },
            None => true,
        }
    }

    /// Ask for the next probe, tagging it with the packet identifier the
    /// transmit path assigned. Returns the padded size to send, or
    /// nothing while the search is idle or a probe is already in flight.
    pub fn poll_probe(&mut self, packet_id: u64) -> (r: Option<u16>)
        requires
            old(self).path().wf(),
        ensures
            final(self).path().wf(),
            (r is Some <==> old(self).path().state() == PathState::Searching && old(self).path().pending() is None),
            r is Some ==> old(self).path().validated() < r->Some_0 <= old(self).path().ceiling(),
            final(self).path().validated() == old(self).path().validated(),
            final(self).path().events() == old(self).path().events(),
    {
        self.path.poll_probe(packet_id)
    }

    /// The transport resolved the fate of packet `packet_id`. An
    /// acknowledged probe raises the validated MTU — never lowers it —
    /// and its event is delivered; a failed probe narrows the search
    /// silently.
    pub fn on_probe_resolved(&mut self, packet_id: u64, outcome: ProbeOutcome)
        requires
            old(self).path().wf(),
        ensures
            final(self).path().wf(),
            final(self).path().validated() >= old(self).path().validated(),
            final(self).path().ceiling() == old(self).path().ceiling(),
            (old(self).path().pending() is Some && old(self).path().pending()->Some_0.packet_id == packet_id && outcome
                == ProbeOutcome::Acknowledged) ==> {
                let p = old(self).path().pending()->Some_0;
                &&& final(self).path().validated() == p.size
                &&& final(self).path().events() == old(self).path().events().push(
                    MtuUpdated { mtu: p.size, cause: MtuCause::Probe },
                )
            },
            !(old(self).path().pending() is Some && old(self).path().pending()->Some_0.packet_id == packet_id && outcome
                == ProbeOutcome::Acknowledged) ==> final(self).path().events() == old(self).path().events(),
    {
        let e = self.path.on_probe_resolved(packet_id, outcome);
        match e {
            Some(ev) => self.subscriber.on_mtu_updated(&ev),
            None => {},
        }
    }

    /// An ordinary packet of `size` bytes was acknowledged. On a watched
    /// path this feeds the blackhole detector; if the loss pattern now
    /// amounts to a regression, the floor event is delivered at once.
    pub fn on_packet_ack(&mut self, size: u16)
        requires
            old(self).path().wf(),
        ensures
            final(self).path().wf(),
            !old(self).path().watching() ==> final(self).path() == old(self).path(),
            old(self).path().watching() ==> {
                &&& (old(self).path().watch_after(size, false).spec_detected() ==> final(self).path().state() == PathState::BlackholeRecovery && final(self).path().validated()
                    == MINIMUM_MTU)
                &&& (!old(self).path().watch_after(size, false).spec_detected() ==> final(self).path().validated() == old(self).path().validated() && final(self).path().events()
                    == old(self).path().events())
            },
    {
        let e = self.path.on_packet_ack(size);
        match e {
            Some(ev) => self.subscriber.on_mtu_updated(&ev),
            None => {},
        }
    }

    /// An ordinary packet of `size` bytes was lost. On a watched path
    /// this records regression evidence; the moment the pattern amounts
    /// to a blackhole, the floor event is delivered.
    pub fn on_packet_loss(&mut self, size: u16)
        requires
            old(self).path().wf(),
        ensures
            final(self).path().wf(),
            !old(self).path().watching() ==> final(self).path() == old(self).path(),
            old(self).path().watching() ==> {
                &&& (old(self).path().watch_after(size, true).spec_detected() ==> final(self).path().state() == PathState::BlackholeRecovery && final(self).path().validated()
                    == MINIMUM_MTU)
                &&& (!old(self).path().watch_after(size, true).spec_detected() ==> final(self).path().validated() == old(self).path().validated() && final(self).path().events()
                    == old(self).path().events())
            },
    {
        let e = self.path.on_packet_loss(size);
        match e {
            Some(ev) => self.subscriber.on_mtu_updated(&ev),
            None => {},
        }
    }

    /// The configured ceiling changed. A ceiling below the validated MTU
    /// is an immediate, unconditional blackhole: the floor event is
    /// delivered at once, as the path's latest event.
    pub fn on_config_update(&mut self, new_max_mtu: u16)
        requires
            old(self).path().wf(),
            new_max_mtu >= MINIMUM_MAX_MTU,
        ensures
            final(self).path().wf(),
            final(self).path().ceiling() == max_udp_payload(new_max_mtu),
            max_udp_payload(new_max_mtu) < old(self).path().validated() ==> {
                &&& final(self).path().state() == PathState::BlackholeRecovery
                &&& final(self).path().validated() == MINIMUM_MTU
                &&& final(self).path().events() == old(self).path().events().push(
                    MtuUpdated { mtu: MINIMUM_MTU, cause: MtuCause::BlackholeDetected },
                )
            },
            max_udp_payload(new_max_mtu) >= old(self).path().validated() ==> {
                &&& final(self).path().validated() == old(self).path().validated()
                &&& final(self).path().events() == old(self).path().events()
            },
    {
        let e = self.path.on_config_update(new_max_mtu);
        match e {
            Some(ev) => self.subscriber.on_mtu_updated(&ev),
            None => {},
        }
    }

    /// The cool-down after a blackhole passed quietly: restart the search
    /// from the floor. Nothing is emitted.
    pub fn on_cooldown_elapsed(&mut self)
        requires
            old(self).path().wf(),
        ensures
            final(self).path().wf(),
            final(self).path().events() == old(self).path().events(),
            final(self).path().validated() == old(self).path().validated(),
    {
        self.path.on_cooldown_elapsed();
    }

    /// The currently validated MTU of the endpoint's path.
    pub fn validated_mtu(&self) -> (r: u16)
        ensures
            r == self.path().validated(),
    {
        self.path.validated_mtu()
    }

    /// Where the path's state machine stands.
    pub fn current_state(&self) -> (r: PathState)
        ensures
            r == self.path().state(),
    {
        self.path.current_state()
    }

    /// Give the subscriber back, consuming the endpoint — how a test
    /// harness collects what was recorded.
    pub fn into_subscriber(self) -> S {
        self.subscriber
    }
}

} // verus!
