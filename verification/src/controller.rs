//! The per-path MTU controller: a state machine that binary-searches the
//! largest UDP payload a network path carries, watches for regressions,
//! and records every change of the validated MTU as an event.
//!
//! All sizes below are UDP payload sizes in bytes. The machine starts
//! `Disabled`; once the handshake confirms the path it moves to
//! `Searching` with the validated MTU pinned to the 1200-byte protocol
//! floor and the floor event emitted — before any probe event, even when
//! the handshake itself ran at exactly that size. Searching narrows the
//! interval between the validated MTU and the largest size still worth
//! attempting: an acknowledged probe raises the validated MTU and emits an
//! event, a lost or timed-out probe lowers the interval's top to just
//! below the failed candidate (the same failed size is never retried).
//! When the next candidate would gain fewer bytes than the configured
//! granularity the search is `Stable`, with no further event beyond the
//! last successful probe. A regression signalled by the blackhole
//! detector, or a reconfigured ceiling below the validated MTU, forces the
//! MTU back to the floor at once, emits a blackhole event, and enters
//! `BlackholeRecovery`; after the external cool-down the search restarts
//! from the floor exactly as on a new path, emitting nothing until a probe
//! succeeds.

use vstd::prelude::*;
use crate::blackhole::BlackholeDetector;
use crate::config::{max_udp_payload, Config};
use crate::events::{MtuCause, MtuUpdated};
use crate::guard::MINIMUM_MTU;
use crate::scheduler::{
    first_candidate, midpoint_candidate, search_done, spec_first_candidate, spec_midpoint,
};

verus! {

/// Search state of one path.
#[derive(Clone, Copy, Debug, PartialEq, Eq, Structural)]
pub enum PathState {
    /// The path is not yet confirmed usable; nothing has been emitted.
    Disabled,
    /// Binary search for the path's MTU is under way.
    Searching,
    /// The search has converged; ordinary traffic is being watched for a
    /// regression.
    Stable,
    /// A regression was declared; waiting out the cool-down before the
    /// search restarts from the floor.
    BlackholeRecovery,
}

/// The one probe a path may have in flight: a padded datagram of
/// `size` bytes, correlated back to the search by the transport's
/// packet identifier. Its send time and loss deadline live with the
/// transport's ordinary loss detection, which reports the outcome.
#[derive(Clone, Copy, Debug, PartialEq, Eq, Structural)]
pub struct Probe {
    /// Candidate payload size under test.
    pub size: u16,
    /// Identifier of the packet that carries the probe.
    pub packet_id: u64,
}

/// Fate of a probe packet, reported by the transport's ordinary
/// loss-detection machinery: probes carry no bespoke timer.
#[derive(Clone, Copy, Debug, PartialEq, Eq, Structural)]
pub enum ProbeOutcome {
    /// The probe datagram was acknowledged: the candidate size traverses
    /// the path.
    Acknowledged,
    /// The transport declared the probe packet lost.
    Lost,
    /// The probe's loss-detection deadline fired without an acknowledgment.
    TimedOut,
}

/// The shape every event history of one path keeps, relative to the
/// path's current validated MTU: the floor event `{1200, NewPath}` comes
/// first and only first, the last event carries the current validated
/// MTU, probe events never lower the value, every mtu is at or above the
/// floor, and a blackhole event always carries the floor.
pub open spec fn events_wf(ev: Seq<MtuUpdated>, validated: u16) -> bool {
    &&& (ev.len() > 0 ==> ev[0] == (MtuUpdated { mtu: MINIMUM_MTU, cause: MtuCause::NewPath }))
    &&& (ev.len() > 0 ==> ev[ev.len() - 1].mtu == validated)
    &&& (forall|i: int| 0 <= i < ev.len() ==> MINIMUM_MTU <= (#[trigger] ev[i]).mtu)
    &&& (forall|i: int| 0 <= i < ev.len() && (#[trigger] ev[i]).cause == MtuCause::NewPath ==> i == 0)
    &&& (forall|i: int| 0 <= i < ev.len() && (#[trigger] ev[i]).cause == MtuCause::Probe ==> 0 < i)
    &&& (forall|i: int, j: int| #![trigger ev[i], ev[j]]
            0 <= i && j == i + 1 && j < ev.len() && ev[j].cause == MtuCause::Probe
            ==> ev[i].mtu <= ev[j].mtu)
    &&& (forall|i: int| 0 <= i < ev.len() && (#[trigger] ev[i]).cause == MtuCause::BlackholeDetected
            ==> ev[i].mtu == MINIMUM_MTU)
}

/// Appending one event that respects the history's shape keeps the shape.
pub proof fn lemma_events_wf_push(ev: Seq<MtuUpdated>, validated0: u16, e: MtuUpdated, validated1: u16)
    requires
        events_wf(ev, validated0),
        e.mtu == validated1,
        MINIMUM_MTU <= e.mtu,
        e.cause == MtuCause::NewPath ==> ev.len() == 0 && e.mtu == MINIMUM_MTU,
        ev.len() == 0 ==> e.cause == MtuCause::NewPath,
        e.cause == MtuCause::Probe ==> ev.len() > 0 && validated0 <= e.mtu,
        e.cause == MtuCause::BlackholeDetected ==> e.mtu == MINIMUM_MTU,
    ensures
        events_wf(ev.push(e), validated1),
{
    let ev2 = ev.push(e);
    let n = ev.len() as int;
    assert(ev2[n] == e);
    assert forall|i: int| 0 <= i < n implies ev2[i] == ev[i] by {
    }
    assert forall|i: int, j: int| #![trigger ev2[i], ev2[j]]
        0 <= i && j == i + 1 && j < ev2.len() && ev2[j].cause == MtuCause::Probe
        implies ev2[i].mtu <= ev2[j].mtu by {
        if j < n {
            assert(ev2[i] == ev[i]);
            assert(ev2[j] == ev[j]);
        } else {
            assert(ev2[j] == e);
            assert(ev2[i] == ev[i]);
            assert(ev[n - 1].mtu == validated0);
        }
    }
}

/// The top-level state machine of one network path.
pub struct PathMtuController {
    /// Where the machine stands.
    state: PathState,
    /// Smallest payload size known to traverse the path; never below the
    /// protocol floor.
    validated_mtu: u16,
    /// Largest payload the configuration ever allows on this path.
    search_ceiling: u16,
    /// Top of the current search interval: the largest size still worth
    /// probing, lowered each time a candidate fails.
    max_probe_size: u16,
    /// Next candidate size, meaningful while `Searching`.
    next_probe_size: u16,
    /// Convergence granularity of the search, in bytes.
    probe_threshold: u16,
    /// The at-most-one probe currently in flight.
    pending_probe: Option<Probe>,
    /// Loss-pattern evidence for regression detection.
    detector: BlackholeDetector,
    /// Every emitted event, in transition order.
    history: Ghost<Seq<MtuUpdated>>,
}

impl PathMtuController {
    /// Where the machine stands.
    pub closed spec fn state(self) -> PathState {
        self.state
    }

    /// Smallest payload size known to traverse the path.
    pub closed spec fn validated(self) -> u16 {
        self.validated_mtu
    }

    /// Largest payload the configuration allows on this path.
    pub closed spec fn ceiling(self) -> u16 {
        self.search_ceiling
    }

    /// Top of the current search interval.
    pub closed spec fn max_probe(self) -> u16 {
        self.max_probe_size
    }

    /// Next candidate size while `Searching`.
    pub closed spec fn candidate(self) -> u16 {
        self.next_probe_size
    }

    /// Convergence granularity of the search.
    pub closed spec fn threshold(self) -> u16 {
        self.probe_threshold
    }

    /// The at-most-one probe currently in flight.
    pub closed spec fn pending(self) -> Option<Probe> {
        self.pending_probe
    }

    /// The regression detector's current evidence.
    pub closed spec fn watch(self) -> BlackholeDetector {
        self.detector
    }

    /// Every event emitted so far, in transition order.
    pub closed spec fn events(self) -> Seq<MtuUpdated> {
        self.history@
    }

    /// Bounds that hold of the numeric fields in every state.
    pub open spec fn wf_core(self) -> bool {
        &&& MINIMUM_MTU <= self.validated()
        &&& self.validated() <= self.max_probe()
        &&& self.max_probe() <= self.ceiling()
        &&& self.threshold() >= 1
        &&& self.watch().wf()
    }

    /// What each state says of the search fields and the detector.
    pub open spec fn state_wf(self) -> bool {
        &&& (self.state() == PathState::Searching ==> {
            &&& self.validated() < self.candidate()
            &&& self.candidate() <= self.max_probe()
            &&& self.candidate() - self.validated() >= self.threshold()
        })
        &&& (self.state() != PathState::Searching ==> self.pending() is None)
        &&& (self.pending() is Some ==> self.pending()->Some_0.size == self.candidate())
        &&& (self.state() != PathState::BlackholeRecovery ==> !self.watch().spec_detected())
        &&& (self.state() == PathState::Disabled ==> self.validated() == MINIMUM_MTU)
        &&& (self.state() == PathState::BlackholeRecovery ==> self.validated() == MINIMUM_MTU)
    }

    /// The event history's shape, and its link to the state: exactly the
    /// `Disabled` machine has emitted nothing.
    pub open spec fn history_wf(self) -> bool {
        &&& events_wf(self.events(), self.validated())
        &&& (self.state() == PathState::Disabled <==> self.events().len() == 0)
    }

    /// The controller's full invariant: established by the constructor,
    /// preserved by every transition.
    pub open spec fn wf(self) -> bool {
        &&& self.wf_core()
        &&& self.state_wf()
        &&& self.history_wf()
    }

    /// A fresh, still-disabled controller for one path under `config`.
    pub fn new(config: &Config) -> (r: PathMtuController)
        requires
            config.wf(),
        ensures
            r.wf(),
            r.state() == PathState::Disabled,
            r.validated() == MINIMUM_MTU,
            r.ceiling() == max_udp_payload(config.max_mtu),
            r.max_probe() == r.ceiling(),
            r.threshold() == config.probe_threshold,
            r.pending() is None,
            r.events() === Seq::<MtuUpdated>::empty(),
    {
        let ceiling = config.payload_ceiling();
        PathMtuController {
            state: PathState::Disabled,
            validated_mtu: MINIMUM_MTU,
            search_ceiling: ceiling,
            max_probe_size: ceiling,
            next_probe_size: ceiling,
            probe_threshold: config.probe_threshold,
            pending_probe: None,
            detector: BlackholeDetector::new(config.blackhole_loss_threshold),
            history: Ghost(Seq::empty()),
        }
    }

    /// Begin (or continue) searching toward `candidate`, or conclude the
    /// search when the candidate gains fewer bytes than the granularity.
    fn enter_search(&mut self, candidate: u16)
        requires
            old(self).wf_core(),
            events_wf(old(self).events(), old(self).validated()),
            old(self).events().len() > 0,
            old(self).validated() <= candidate <= old(self).max_probe(),
            !old(self).watch().spec_detected(),
        ensures
            final(self).wf(),
            final(self).validated() == old(self).validated(),
            final(self).ceiling() == old(self).ceiling(),
            final(self).max_probe() == old(self).max_probe(),
            final(self).threshold() == old(self).threshold(),
            final(self).watch() == old(self).watch(),
            final(self).events() == old(self).events(),
            final(self).pending() is None,
            final(self).state() == PathState::Stable
                || final(self).state() == PathState::Searching,
            (final(self).state() == PathState::Stable
                <==> candidate - old(self).validated() < old(self).threshold()),
            final(self).state() == PathState::Searching ==> final(self).candidate() == candidate,
    {
        self.pending_probe = None;
        if search_done(self.validated_mtu, candidate, self.probe_threshold) {
            self.state = PathState::Stable;
        } else {
            self.state = PathState::Searching;
            self.next_probe_size = candidate;
        }
    }

    /// The handshake confirmed the path: pin the validated MTU to the
    /// protocol floor, emit the floor event — always the very first event
    /// of the path — and start the search toward the Ethernet-sized first
    /// candidate (clamped to the ceiling).
    pub fn on_path_established(&mut self) -> (e: MtuUpdated)
        requires
            old(self).wf(),
            old(self).state() == PathState::Disabled,
        ensures
            final(self).wf(),
            e == (MtuUpdated { mtu: MINIMUM_MTU, cause: MtuCause::NewPath }),
            final(self).events() == old(self).events().push(e),
            final(self).events().len() == 1,
            final(self).events()[0] == e,
            final(self).validated() == MINIMUM_MTU,
            final(self).ceiling() == old(self).ceiling(),
            final(self).max_probe() == old(self).max_probe(),
            final(self).threshold() == old(self).threshold(),
            final(self).state() == PathState::Stable
                || final(self).state() == PathState::Searching,
            (final(self).state() == PathState::Stable
                <==> spec_first_candidate(old(self).max_probe()) - MINIMUM_MTU
                    < old(self).threshold()),
            final(self).state() == PathState::Searching ==> final(self).candidate()
                == spec_first_candidate(old(self).max_probe()),
            final(self).pending() is None,
    {
        let e = MtuUpdated { mtu: MINIMUM_MTU, cause: MtuCause::NewPath };
        proof {
            lemma_events_wf_push(self.events(), self.validated(), e, self.validated());
        }
        self.history = Ghost(self.history@.push(e));
        self.detector.reset();
        let candidate = first_candidate(self.max_probe_size);
        self.enter_search(candidate);
        e
    }

    /// Hand out the next probe, tagged with the packet identifier the
    /// transmit path assigned to it. A size is returned only while
    /// `Searching` with no probe already in flight — at most one probe is
    /// ever pending per path — and it never exceeds the configured
    /// ceiling. The caller pads a datagram to the returned size and sends
    /// it through the normal transmit path.
    pub fn poll_probe(&mut self, packet_id: u64) -> (r: Option<u16>)
        requires
            old(self).wf(),
        ensures
            final(self).wf(),
            (r is Some <==> old(self).state() == PathState::Searching
                && old(self).pending() is None),
            r is None ==> *final(self) == *old(self),
            r is Some ==> {
                &&& r->Some_0 == old(self).candidate()
                &&& old(self).validated() < r->Some_0 <= old(self).ceiling()
                &&& final(self).pending() == Some(Probe { size: r->Some_0, packet_id })
                &&& final(self).state() == old(self).state()
                &&& final(self).validated() == old(self).validated()
                &&& final(self).ceiling() == old(self).ceiling()
                &&& final(self).max_probe() == old(self).max_probe()
                &&& final(self).candidate() == old(self).candidate()
                &&& final(self).threshold() == old(self).threshold()
                &&& final(self).watch() == old(self).watch()
                &&& final(self).events() == old(self).events()
            },
    {
        if self.state == PathState::Searching && self.pending_probe.is_none() {
            let size = self.next_probe_size;
            self.pending_probe = Some(Probe { size, packet_id });
            Some(size)
        } else {
            None
        }
    }

    /// The transport resolved the fate of packet `packet_id`. If it is the
    /// probe in flight: an acknowledgment raises the validated MTU to the
    /// probed size and emits a probe event — the validated MTU never
    /// decreases while searching — while loss or timeout lowers the top of
    /// the search interval to just below the failed candidate, without an
    /// event. Either way the next candidate is the midpoint of the
    /// remaining interval, rounded down, and the search concludes when it
    /// would gain fewer bytes than the granularity. Every resolution
    /// strictly narrows the remaining interval, so the search always
    /// terminates. A resolution for any other packet — a probe already
    /// discarded included — changes nothing.
    pub fn on_probe_resolved(&mut self, packet_id: u64, outcome: ProbeOutcome) -> (e: Option<
        MtuUpdated,
    >)
        requires
            old(self).wf(),
        ensures
            final(self).wf(),
            final(self).validated() >= old(self).validated(),
            final(self).ceiling() == old(self).ceiling(),
            final(self).threshold() == old(self).threshold(),
            !(old(self).pending() is Some && old(self).pending()->Some_0.packet_id == packet_id)
                ==> *final(self) == *old(self) && e is None,
            (old(self).pending() is Some && old(self).pending()->Some_0.packet_id == packet_id)
                ==> final(self).max_probe() - final(self).validated() < old(self).max_probe()
                    - old(self).validated(),
            (old(self).pending() is Some && old(self).pending()->Some_0.packet_id == packet_id
                && outcome == ProbeOutcome::Acknowledged) ==> {
                let p = old(self).pending()->Some_0;
                &&& final(self).validated() == p.size
                &&& e == Some(MtuUpdated { mtu: p.size, cause: MtuCause::Probe })
                &&& final(self).events() == old(self).events().push(
                    MtuUpdated { mtu: p.size, cause: MtuCause::Probe },
                )
                &&& final(self).max_probe() == old(self).max_probe()
                &&& final(self).pending() is None
                &&& final(self).state() == PathState::Stable
                    || final(self).state() == PathState::Searching
                &&& (final(self).state() == PathState::Stable
                    <==> spec_midpoint(p.size, old(self).max_probe()) - p.size
                        < old(self).threshold())
                &&& final(self).state() == PathState::Searching ==> final(self).candidate()
                    == spec_midpoint(p.size, old(self).max_probe())
            },
            (old(self).pending() is Some && old(self).pending()->Some_0.packet_id == packet_id
                && outcome != ProbeOutcome::Acknowledged) ==> {
                let p = old(self).pending()->Some_0;
                &&& final(self).validated() == old(self).validated()
                &&& e is None
                &&& final(self).events() == old(self).events()
                &&& final(self).max_probe() == p.size - 1
                &&& final(self).pending() is None
                &&& final(self).state() == PathState::Stable
                    || final(self).state() == PathState::Searching
                &&& (final(self).state() == PathState::Stable
                    <==> spec_midpoint(old(self).validated(), (p.size - 1) as u16)
                        - old(self).validated() < old(self).threshold())
                &&& final(self).state() == PathState::Searching ==> final(self).candidate()
                    == spec_midpoint(old(self).validated(), (p.size - 1) as u16)
            },
    {
        let p = match self.pending_probe {
            Some(p) => p,
            None => {
                return None;
            },
        };
        if p.packet_id != packet_id {
            return None;
        }
        if matches!(outcome, ProbeOutcome::Acknowledged) {
            let e = MtuUpdated { mtu: p.size, cause: MtuCause::Probe };
            proof {
                lemma_events_wf_push(self.events(), self.validated(), e, p.size);
            }
            self.validated_mtu = p.size;
            self.history = Ghost(self.history@.push(e));
            let candidate = midpoint_candidate(self.validated_mtu, self.max_probe_size);
            self.enter_search(candidate);
            Some(e)
        } else {
            self.max_probe_size = p.size - 1;
            let candidate = midpoint_candidate(self.validated_mtu, self.max_probe_size);
            self.enter_search(candidate);
            None
        }
    }

    /// What the detector's evidence becomes after the fate of an ordinary
    /// packet of `size` bytes, observed while stable above the floor.
    pub open spec fn watch_after(self, size: u16, loss: bool) -> BlackholeDetector {
        if loss {
            self.watch().spec_after_loss(size, self.validated())
        } else {
            self.watch().spec_after_ack(size, self.validated())
        }
    }

    /// Whether the fate of an ordinary packet of `size` bytes is watched
    /// at all: only a stable path that has validated an MTU above the
    /// floor can regress in a way worth reacting to.
    pub open spec fn watching(self) -> bool {
        self.state() == PathState::Stable && self.validated() > MINIMUM_MTU
    }

    /// Force the validated MTU back to the protocol floor after a
    /// regression and emit the blackhole event.
    fn enter_blackhole_recovery(&mut self) -> (e: MtuUpdated)
        requires
            old(self).wf_core(),
            events_wf(old(self).events(), old(self).validated()),
            old(self).events().len() > 0,
        ensures
            final(self).wf(),
            e == (MtuUpdated { mtu: MINIMUM_MTU, cause: MtuCause::BlackholeDetected }),
            final(self).state() == PathState::BlackholeRecovery,
            final(self).validated() == MINIMUM_MTU,
            final(self).ceiling() == old(self).ceiling(),
            final(self).max_probe() == old(self).max_probe(),
            final(self).threshold() == old(self).threshold(),
            final(self).watch() == old(self).watch(),
            final(self).events() == old(self).events().push(e),
            final(self).pending() is None,
    {
        let e = MtuUpdated { mtu: MINIMUM_MTU, cause: MtuCause::BlackholeDetected };
        proof {
            lemma_events_wf_push(self.events(), self.validated(), e, MINIMUM_MTU);
        }
        self.validated_mtu = MINIMUM_MTU;
        self.state = PathState::BlackholeRecovery;
        self.pending_probe = None;
        self.history = Ghost(self.history@.push(e));
        e
    }

    /// An ordinary (non-probe) packet of `size` bytes was acknowledged.
    /// While the path is watched, the success feeds the detector: success
    /// at the validated size clears the regression evidence, success at a
    /// smaller size beside outstanding large losses may complete it — in
    /// which case the blackhole event is emitted at once.
    pub fn on_packet_ack(&mut self, size: u16) -> (e: Option<MtuUpdated>)
        requires
            old(self).wf(),
        ensures
            final(self).wf(),
            !old(self).watching() ==> *final(self) == *old(self) && e is None,
            old(self).watching() ==> {
                &&& (e is Some <==> old(self).watch_after(size, false).spec_detected())
                &&& final(self).ceiling() == old(self).ceiling()
                &&& final(self).max_probe() == old(self).max_probe()
                &&& final(self).threshold() == old(self).threshold()
            },
            old(self).watching() && e is None ==> {
                &&& final(self).state() == PathState::Stable
                &&& final(self).validated() == old(self).validated()
                &&& final(self).events() == old(self).events()
                &&& final(self).watch() == old(self).watch_after(size, false)
            },
            old(self).watching() && e is Some ==> {
                &&& e->Some_0 == (MtuUpdated { mtu: MINIMUM_MTU, cause: MtuCause::BlackholeDetected })
                &&& final(self).state() == PathState::BlackholeRecovery
                &&& final(self).validated() == MINIMUM_MTU
                &&& final(self).events() == old(self).events().push(e->Some_0)
            },
    {
        if self.state == PathState::Stable && self.validated_mtu > MINIMUM_MTU {
            self.detector.on_packet_ack(size, self.validated_mtu);
            if self.detector.detected() {
                Some(self.enter_blackhole_recovery())
            } else {
                None
            }
        } else {
            None
        }
    }

    /// An ordinary (non-probe) packet of `size` bytes was lost or
    /// unacknowledged past its loss-detection deadline. Probe loss while
    /// searching is an ordinary search signal, not an error, and goes
    /// through [`Self::on_probe_resolved`]; this records regression
    /// evidence on a watched path and emits the blackhole event the
    /// moment the loss pattern amounts to one.
    pub fn on_packet_loss(&mut self, size: u16) -> (e: Option<MtuUpdated>)
        requires
            old(self).wf(),
        ensures
            final(self).wf(),
            !old(self).watching() ==> *final(self) == *old(self) && e is None,
            old(self).watching() ==> {
                &&& (e is Some <==> old(self).watch_after(size, true).spec_detected())
                &&& final(self).ceiling() == old(self).ceiling()
                &&& final(self).max_probe() == old(self).max_probe()
                &&& final(self).threshold() == old(self).threshold()
            },
            old(self).watching() && e is None ==> {
                &&& final(self).state() == PathState::Stable
                &&& final(self).validated() == old(self).validated()
                &&& final(self).events() == old(self).events()
                &&& final(self).watch() == old(self).watch_after(size, true)
            },
            old(self).watching() && e is Some ==> {
                &&& e->Some_0 == (MtuUpdated { mtu: MINIMUM_MTU, cause: MtuCause::BlackholeDetected })
                &&& final(self).state() == PathState::BlackholeRecovery
                &&& final(self).validated() == MINIMUM_MTU
                &&& final(self).events() == old(self).events().push(e->Some_0)
            },
    {
        if self.state == PathState::Stable && self.validated_mtu > MINIMUM_MTU {
            self.detector.on_packet_loss(size, self.validated_mtu);
            if self.detector.detected() {
                Some(self.enter_blackhole_recovery())
            } else {
                None
            }
        } else {
            None
        }
    }

    /// The configured ceiling changed. A ceiling below the currently
    /// validated MTU is an immediate, unconditional blackhole regardless
    /// of loss pattern: the floor event is emitted at once, as the final
    /// event so far. Otherwise the search interval is clamped to the new
    /// ceiling and, while searching, the candidate is recomputed — which
    /// may conclude the search.
    pub fn on_config_update(&mut self, new_max_mtu: u16) -> (e: Option<MtuUpdated>)
        requires
            old(self).wf(),
            new_max_mtu >= crate::config::MINIMUM_MAX_MTU,
        ensures
            final(self).wf(),
            final(self).ceiling() == max_udp_payload(new_max_mtu),
            final(self).threshold() == old(self).threshold(),
            (e is Some <==> max_udp_payload(new_max_mtu) < old(self).validated()),
            e is Some ==> {
                &&& e->Some_0 == (MtuUpdated { mtu: MINIMUM_MTU, cause: MtuCause::BlackholeDetected })
                &&& final(self).events() == old(self).events().push(e->Some_0)
                &&& final(self).state() == PathState::BlackholeRecovery
                &&& final(self).validated() == MINIMUM_MTU
            },
            e is None ==> {
                &&& final(self).validated() == old(self).validated()
                &&& final(self).events() == old(self).events()
                &&& final(self).state() == old(self).state()
                    || final(self).state() == PathState::Stable
            },
    {
        let new_ceiling = new_max_mtu - crate::config::UDP_HEADER_LEN
            - crate::config::IPV4_HEADER_LEN;
        if new_ceiling < self.validated_mtu {
            let e = self.enter_blackhole_recovery();
            self.search_ceiling = new_ceiling;
            self.max_probe_size = new_ceiling;
            Some(e)
        } else {
            self.search_ceiling = new_ceiling;
            if self.max_probe_size > new_ceiling {
                self.max_probe_size = new_ceiling;
            }
            if self.state == PathState::Searching && self.next_probe_size > self.max_probe_size {
                let candidate = midpoint_candidate(self.validated_mtu, self.max_probe_size);
                self.enter_search(candidate);
            } else if self.pending_probe.is_some() {
                let keep = match self.pending_probe {
                    Some(p) => p.size <= self.max_probe_size,
                    None => true,
                };
                if !keep {
                    self.pending_probe = None;
                }
            }
            None
        }
    }

    /// The cool-down after a blackhole passed with no further regression
    /// signal: discard the detector's evidence and restart the binary
    /// search from the floor up to the (possibly updated) ceiling, exactly
    /// as on a fresh path. No event is emitted — the validated MTU is
    /// already at the floor.
    pub fn on_cooldown_elapsed(&mut self)
        requires
            old(self).wf(),
        ensures
            final(self).wf(),
            old(self).state() != PathState::BlackholeRecovery ==> *final(self) == *old(self),
            old(self).state() == PathState::BlackholeRecovery ==> {
                &&& final(self).validated() == old(self).validated()
                &&& final(self).ceiling() == old(self).ceiling()
                &&& final(self).max_probe() == old(self).ceiling()
                &&& final(self).threshold() == old(self).threshold()
                &&& final(self).events() == old(self).events()
                &&& final(self).state() == PathState::Stable
                    || final(self).state() == PathState::Searching
                &&& (final(self).state() == PathState::Stable
                    <==> spec_first_candidate(old(self).ceiling()) - old(self).validated()
                        < old(self).threshold())
                &&& final(self).state() == PathState::Searching ==> final(self).candidate()
                    == spec_first_candidate(old(self).ceiling())
                &&& final(self).pending() is None
            },
    {
        if self.state == PathState::BlackholeRecovery {
            self.detector.reset();
            self.max_probe_size = self.search_ceiling;
            let candidate = first_candidate(self.max_probe_size);
            self.enter_search(candidate);
        }
    }

    /// The path was torn down (or the probe's packet superseded) while a
    /// probe was pending: discard the probe without emitting anything.
    pub fn discard_pending_probe(&mut self)
        requires
            old(self).wf(),
        ensures
            final(self).wf(),
            final(self).pending() is None,
            final(self).state() == old(self).state(),
            final(self).validated() == old(self).validated(),
            final(self).ceiling() == old(self).ceiling(),
            final(self).max_probe() == old(self).max_probe(),
            final(self).candidate() == old(self).candidate(),
            final(self).threshold() == old(self).threshold(),
            final(self).watch() == old(self).watch(),
            final(self).events() == old(self).events(),
    {
        self.pending_probe = None;
    }

    /// The currently validated MTU: the payload size every datagram on
    /// this path may safely use.
    pub fn validated_mtu(&self) -> (r: u16)
        ensures
            r == self.validated(),
    {
        self.validated_mtu
    }

    /// Where the machine stands.
    pub fn current_state(&self) -> (r: PathState)
        ensures
            r == self.state(),
    {
        self.state
    }

    /// The configured payload ceiling of this path.
    pub fn payload_ceiling(&self) -> (r: u16)
        ensures
            r == self.ceiling(),
    {
        self.search_ceiling
    }

    /// Law: the validated MTU of a well-formed path never leaves
    /// `[1200, ceiling]` — the floor is the value in use before any
    /// successful probe, and no probe result can exceed the ceiling.
    pub proof fn lemma_validated_within_bounds(self)
        requires
            self.wf(),
        ensures
            MINIMUM_MTU <= self.validated() <= self.ceiling(),
    {
    }

    /// Law: whatever signals drove a well-formed path, its very first
    /// emitted event was the floor event `{1200, NewPath}`.
    pub proof fn lemma_first_event_is_floor(self)
        requires
            self.wf(),
            self.events().len() > 0,
        ensures
            self.events()[0] == (MtuUpdated { mtu: MINIMUM_MTU, cause: MtuCause::NewPath }),
    {
    }

    /// Law: a probe in flight never exceeds the configured ceiling, and
    /// always aims above the validated MTU.
    pub proof fn lemma_pending_probe_bounded(self)
        requires
            self.wf(),
            self.pending() is Some,
        ensures
            self.validated() < self.pending()->Some_0.size <= self.ceiling(),
    {
    }

    /// Law: every emitted value sits at or above the protocol floor, and
    /// a blackhole event always carries exactly the floor.
    pub proof fn lemma_event_values_floored(self, i: int)
        requires
            self.wf(),
            0 <= i < self.events().len(),
        ensures
            self.events()[i].mtu >= MINIMUM_MTU,
            self.events()[i].cause == MtuCause::BlackholeDetected ==> self.events()[i].mtu
                == MINIMUM_MTU,
    {
    }

    /// Law: the floor event of a new path is emitted exactly once — no
    /// later event can carry the `NewPath` cause.
    pub proof fn lemma_new_path_event_unique(self, i: int)
        requires
            self.wf(),
            0 <= i < self.events().len(),
            self.events()[i].cause == MtuCause::NewPath,
        ensures
            i == 0,
    {
    }

    /// Law: transient total loss cannot fake a blackhole. While no
    /// smaller-size success stands beside the losses — total loss affects
    /// every size alike, so none does — one more loss at any size still
    /// does not tip the detector, and by [`Self::on_packet_loss`]'s
    /// contract the validated MTU then stays where it was.
    pub proof fn lemma_total_loss_is_quiet(self, size: u16)
        requires
            self.wf(),
            self.watch().small_acks == 0,
        ensures
            !self.watch_after(size, true).spec_detected(),
    {
    }

    /// Law: while the search runs — along any stretch of the history in
    /// which every later event is a probe event — the emitted MTU is
    /// monotonically non-decreasing. Only a blackhole event can lower it.
    pub proof fn lemma_search_monotone(self, i: int, j: int)
        requires
            self.wf(),
            0 <= i <= j < self.events().len(),
            forall|k: int| i < k <= j ==> (#[trigger] self.events()[k]).cause == MtuCause::Probe,
        ensures
            self.events()[i].mtu <= self.events()[j].mtu,
        decreases j - i,
    {
        if i < j {
            self.lemma_search_monotone(i, j - 1);
            assert(self.events()[j - 1].mtu <= self.events()[j].mtu);
        }
    }
}

} // verus!
