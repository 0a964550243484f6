//! Unit tests of the subsystem's pieces: the guard, the scheduler, the
//! blackhole detector, the interceptor transforms, reconfiguration, and
//! the controller's event sequence under ceilings and loss patterns.

use path_mtu::blackhole::BlackholeDetector;
use path_mtu::config::Config;
use path_mtu::controller::{PathMtuController, PathState, ProbeOutcome};
use path_mtu::events::{MtuCause, MtuUpdated, PacketDropReason};
use path_mtu::endpoint::Server;
use path_mtu::guard::check_initial_datagram;
use path_mtu::interceptor::{
    truncate_trailing_padding, zero_and_stamp, Interceptor, InterceptorPair, NoOpInterceptor,
    PacketMeta,
};
use path_mtu::subscriber::RecordingSubscriber;
use path_mtu::scheduler::{build_probe_datagram, first_candidate, midpoint_candidate, search_done};

/// Drive a controller's search to its end against a network that carries
/// payloads up to `network_max`, collecting the emitted events.
fn converge(max_mtu: u16, network_max: u16) -> (PathMtuController, Vec<MtuUpdated>) {
    let config = Config::with_max_mtu(max_mtu);
    let mut ctl = PathMtuController::new(&config);
    let mut events = vec![ctl.on_path_established()];
    let mut pn: u64 = 1;
    while ctl.current_state() == PathState::Searching {
        if let Some(size) = ctl.poll_probe(pn) {
            let outcome = if size <= network_max {
                ProbeOutcome::Acknowledged
            } else {
                ProbeOutcome::Lost
            };
            if let Some(e) = ctl.on_probe_resolved(pn, outcome) {
                events.push(e);
            }
        }
        pn += 1;
    }
    (ctl, events)
}

// the very first event is the floor event, whatever the ceiling
#[test]
fn first_event_is_floor_for_every_ceiling() {
    for max_mtu in [1228u16, 1300, 1500, 9001, u16::MAX] {
        let (_, events) = converge(max_mtu, u16::MAX);
        assert_eq!(
            events[0],
            MtuUpdated { mtu: 1200, cause: MtuCause::NewPath }
        );
    }
}

// the emitted MTU never decreases during the search and no probe exceeds
// the configured ceiling, even when the network rejects most candidates
#[test]
fn search_monotone_and_bounded_under_loss() {
    let max_mtu = 5000;
    let payload_ceiling = 5000 - 28;
    let config = Config::with_max_mtu(max_mtu);
    let mut ctl = PathMtuController::new(&config);
    let mut events = vec![ctl.on_path_established()];
    let mut pn: u64 = 1;
    while ctl.current_state() == PathState::Searching {
        if let Some(size) = ctl.poll_probe(pn) {
            // every candidate the controller hands out respects the ceiling
            assert!(size <= payload_ceiling);
            let outcome = if size <= 2500 {
                ProbeOutcome::Acknowledged
            } else {
                ProbeOutcome::Lost
            };
            if let Some(e) = ctl.on_probe_resolved(pn, outcome) {
                events.push(e);
            }
        }
        pn += 1;
    }
    for w in events.windows(2) {
        assert!(w[0].mtu <= w[1].mtu);
    }
    // the search converges within two granularities of the network's limit
    assert_eq!(ctl.validated_mtu(), 2480);
    assert_eq!(events.last().unwrap().mtu, 2480);
    assert!(2500 - ctl.validated_mtu() < 2 * 20);
}

// on a fully supportive path under a jumbo ceiling, the emitted sequence
// is exactly the floor followed by the binary search's midpoints
#[test]
fn jumbo_event_sequence_exact() {
    let (_, events) = converge(9001, u16::MAX);
    let mtus: Vec<u16> = events.iter().map(|e| e.mtu).collect();
    assert_eq!(
        mtus.as_slice(),
        &[1200, 1472, 5222, 7097, 8035, 8504, 8738, 8855, 8914, 8943]
    );
    assert!(matches!(events[0].cause, MtuCause::NewPath));
    assert!(events[1..].iter().all(|e| matches!(e.cause, MtuCause::Probe)));
}

// a ceiling low enough to leave no room above the floor converges at once
#[test]
fn minimal_ceiling_stays_at_floor() {
    let (ctl, events) = converge(1228, u16::MAX);
    assert_eq!(ctl.validated_mtu(), 1200);
    assert_eq!(events.len(), 1);
    assert_eq!(ctl.current_state(), PathState::Stable);
}

// lowering the configured ceiling below the validated MTU is an immediate,
// unconditional blackhole, and its event is the path's final event
#[test]
fn ceiling_lowered_below_validated_is_blackhole() {
    let (mut ctl, mut events) = converge(9001, u16::MAX);
    assert_eq!(ctl.validated_mtu(), 8943);

    if let Some(e) = ctl.on_config_update(1228) {
        events.push(e);
    }
    assert_eq!(ctl.current_state(), PathState::BlackholeRecovery);
    assert_eq!(ctl.validated_mtu(), 1200);
    assert_eq!(
        *events.last().unwrap(),
        MtuUpdated { mtu: 1200, cause: MtuCause::BlackholeDetected }
    );
}

// raising the ceiling of a stable path neither emits nor restarts anything
#[test]
fn ceiling_raised_is_quiet() {
    let (mut ctl, _) = converge(1500, u16::MAX);
    assert_eq!(ctl.validated_mtu(), 1472);
    assert!(ctl.on_config_update(9001).is_none());
    assert_eq!(ctl.current_state(), PathState::Stable);
    assert_eq!(ctl.validated_mtu(), 1472);
}

// after the cool-down the search restarts from the floor and reconverges
// under the new ceiling, emitting only probe events
#[test]
fn cooldown_restarts_search() {
    let (mut ctl, _) = converge(9001, u16::MAX);
    let e = ctl.on_config_update(1500).unwrap();
    assert_eq!(e.cause, MtuCause::BlackholeDetected);

    ctl.on_cooldown_elapsed();
    assert_eq!(ctl.current_state(), PathState::Searching);

    let mut pn: u64 = 1000;
    let mut last = None;
    while ctl.current_state() == PathState::Searching {
        if let Some(size) = ctl.poll_probe(pn) {
            if let Some(e) = ctl.on_probe_resolved(pn, ProbeOutcome::Acknowledged) {
                assert_eq!(e.cause, MtuCause::Probe);
                last = Some(e);
            }
            assert!(size <= 1472);
        }
        pn += 1;
    }
    assert_eq!(last.unwrap().mtu, 1472);
    assert_eq!(ctl.validated_mtu(), 1472);
}

// a timed-out probe narrows the search exactly like a lost one: the failed
// size is never retried
#[test]
fn timeout_never_retries_failed_size() {
    let config = Config::with_max_mtu(9001);
    let mut ctl = PathMtuController::new(&config);
    ctl.on_path_established();

    let first = ctl.poll_probe(1).unwrap();
    assert_eq!(first, 1472);
    ctl.on_probe_resolved(1, ProbeOutcome::TimedOut);
    let second = ctl.poll_probe(2).unwrap();
    assert!(second < 1472);
    assert_eq!(ctl.validated_mtu(), 1200);
}

// at most one probe is in flight: a second poll hands out nothing, and a
// resolution for an unrelated packet changes nothing
#[test]
fn single_probe_in_flight() {
    let config = Config::with_max_mtu(9001);
    let mut ctl = PathMtuController::new(&config);
    ctl.on_path_established();

    assert!(ctl.poll_probe(7).is_some());
    assert!(ctl.poll_probe(8).is_none());
    assert!(ctl.on_probe_resolved(99, ProbeOutcome::Acknowledged).is_none());
    assert!(ctl.on_probe_resolved(7, ProbeOutcome::Acknowledged).is_some());
}

// tearing a probe down emits nothing and frees the slot
#[test]
fn discarded_probe_is_silent() {
    let config = Config::with_max_mtu(9001);
    let mut ctl = PathMtuController::new(&config);
    ctl.on_path_established();

    let probed = ctl.poll_probe(3);
    assert_eq!(probed, Some(1472));
    ctl.discard_pending_probe();
    assert!(ctl.on_probe_resolved(3, ProbeOutcome::Acknowledged).is_none());
    assert!(ctl.poll_probe(4).is_some());
}

// the guard drops exactly the undersized datagrams, one event per datagram
#[test]
fn guard_boundary() {
    assert!(check_initial_datagram(1200).is_none());
    assert!(check_initial_datagram(9000).is_none());
    let dropped = check_initial_datagram(1199).unwrap();
    assert_eq!(dropped.reason, PacketDropReason::UndersizedInitialPacket);
    assert!(check_initial_datagram(0).is_some());
    // a retransmission is checked afresh and dropped again
    assert!(check_initial_datagram(1199).is_some());
}

// candidate arithmetic: the Ethernet-based first probe and the rounded-down
// midpoint
#[test]
fn scheduler_candidates() {
    assert_eq!(first_candidate(8973), 1472);
    assert_eq!(first_candidate(1300), 1300);
    assert_eq!(midpoint_candidate(1472, 8973), 5222);
    assert_eq!(midpoint_candidate(8943, 8973), 8958);
    assert_eq!(midpoint_candidate(1200, 1201), 1200);
    assert!(search_done(8943, 8958, 20));
    assert!(!search_done(8914, 8943, 20));
}

// a probe datagram is padded to exactly the candidate size
#[test]
fn probe_datagram_padded() {
    let d = build_probe_datagram(1472);
    assert_eq!(d.len(), 1472);
    assert!(d.iter().all(|b| *b == 0));
    assert_eq!(build_probe_datagram(0).len(), 0);
}

// total loss alone never declares a blackhole; a concurrent small success
// beside enough large losses does
#[test]
fn detector_needs_small_success() {
    let mut d = BlackholeDetector::new(3);
    d.on_packet_loss(8943, 8943);
    d.on_packet_loss(8943, 8943);
    d.on_packet_loss(8943, 8943);
    assert!(!d.detected());
    d.on_packet_ack(100, 8943);
    assert!(d.detected());
}

// a success at the validated size clears all regression evidence
#[test]
fn detector_cleared_by_large_success() {
    let mut d = BlackholeDetector::new(3);
    d.on_packet_loss(9000, 8943);
    d.on_packet_loss(8943, 8943);
    d.on_packet_ack(200, 8943);
    d.on_packet_loss(8943, 8943);
    d.on_packet_ack(8943, 8943);
    assert!(!d.detected());
    d.on_packet_ack(200, 8943);
    assert!(!d.detected());
}

// the default configuration is Ethernet-sized with the documented policies
#[test]
fn default_config() {
    let c = Config::default();
    assert_eq!(c.max_mtu, 1500);
    assert_eq!(c.probe_threshold, 20);
    assert_eq!(c.blackhole_loss_threshold, 3);
    assert_eq!(c.payload_ceiling(), 1472);
}

// the endpoint's guard rejects undersized initial datagrams and records
// one drop event each, admitting everything at or above the floor
#[test]
fn endpoint_guard_admission() {
    let config = Config::default();
    let mut server = Server::new(&config, RecordingSubscriber::new());
    assert!(!server.on_initial_datagram(1199));
    assert!(server.on_initial_datagram(1200));
    assert!(!server.on_initial_datagram(20));
    let dropped = server.into_subscriber().packets_dropped;
    assert_eq!(dropped.len(), 2);
    assert!(dropped.iter().all(|e| e.reason == PacketDropReason::UndersizedInitialPacket));
}

/// Zeroes and stamps every payload it sees.
struct Stamp;

impl Interceptor for Stamp {
    fn intercept_tx_payload(&mut self, _meta: &PacketMeta, payload: &mut Vec<u8>) {
        zero_and_stamp(payload);
    }
}

/// Strips trailing padding from every payload it sees.
struct Strip;

impl Interceptor for Strip {
    fn intercept_tx_payload(&mut self, _meta: &PacketMeta, payload: &mut Vec<u8>) {
        truncate_trailing_padding(payload);
    }
}

// interceptors run in registration order: stamping before truncation cuts
// everything behind the stamp's header region, not the other way round
#[test]
fn interceptor_pair_order() {
    let meta = PacketMeta { packet_number: 0, is_initial: true };
    let mut payload = vec![7u8; 20];
    payload.resize(30, 0);

    let mut pair = InterceptorPair { first: Stamp, second: Strip };
    pair.intercept_tx_payload(&meta, &mut payload);
    // stamped first, so only the protected 17-byte header region survives
    assert_eq!(payload.len(), 17);
    assert_eq!(payload[0], 1);
    assert!(payload[1..].iter().all(|b| *b == 0));

    // the production default changes nothing
    let mut untouched = vec![3u8, 0, 9];
    NoOpInterceptor.intercept_tx_payload(&meta, &mut untouched);
    assert_eq!(untouched, vec![3u8, 0, 9]);
}

// zeroing and stamping keeps the size and destroys the content
#[test]
fn zero_and_stamp_exact() {
    let mut v = vec![5u8, 6, 7, 8];
    zero_and_stamp(&mut v);
    assert_eq!(v, vec![1u8, 0, 0, 0]);

    let mut empty: Vec<u8> = Vec::new();
    zero_and_stamp(&mut empty);
    assert!(empty.is_empty());
}

// truncation strips trailing zeros but never cuts into the header region
#[test]
fn truncate_padding_exact() {
    let mut v = vec![0xabu8; 100];
    v.resize(1200, 0);
    truncate_trailing_padding(&mut v);
    assert_eq!(v.len(), 100);
    assert!(v.iter().all(|b| *b == 0xab));

    let mut zeros = vec![0u8; 1200];
    truncate_trailing_padding(&mut zeros);
    assert_eq!(zeros.len(), 17);

    let mut short = vec![0u8; 10];
    truncate_trailing_padding(&mut short);
    assert_eq!(short.len(), 10);

    let mut tail = vec![9u8; 1200];
    truncate_trailing_padding(&mut tail);
    assert_eq!(tail.len(), 1200);
}
