//! Blackhole detection: separating a path-capacity regression from
//! ordinary congestion loss.
//!
//! Once a path has validated an MTU above the floor, the detector watches
//! the ack/loss fate of ordinary (non-probe) packets. Loss at the
//! validated size alone is ambiguous — congestion drops every size — so a
//! blackhole is declared only when packets at the validated size keep
//! failing while packets of smaller sizes on the same path are succeeding
//! around the same time. How many large losses, beside how much small
//! success, tip the scale is a tunable policy: the default asks for
//! `blackhole_loss_threshold` large losses in a row beside at least one
//! small success. An externally lowered ceiling bypasses the detector
//! entirely; the controller treats it as an immediate blackhole.

use vstd::prelude::*;

verus! {

/// Loss-pattern tracker for one path that has validated an MTU above the
/// protocol floor. Reset whenever the controller re-enters its searching
/// state.
#[derive(Clone, Copy, Debug, PartialEq, Eq, Structural)]
pub struct BlackholeDetector {
    /// Losses of packets at (or above) the validated size since the last
    /// success at that size.
    pub large_losses: u32,
    /// Successes at smaller sizes seen while large losses were outstanding.
    pub small_acks: u32,
    /// How many large losses must accumulate before a blackhole can be
    /// declared.
    pub loss_threshold: u32,
}

impl BlackholeDetector {
    /// A usable detector: the policy asks for at least one large loss.
    pub open spec fn wf(self) -> bool {
        self.loss_threshold >= 1
    }

    /// The decision rule: enough failures at the validated size, beside
    /// at least one concurrent success at a smaller size.
    pub open spec fn spec_detected(self) -> bool {
        self.large_losses >= self.loss_threshold && self.small_acks >= 1
    }

    /// What the evidence becomes when a packet of `size` bytes is
    /// acknowledged on a path whose validated MTU is `validated_mtu`:
    /// success at the validated size clears the evidence, success at a
    /// smaller size counts only while large losses are outstanding.
    pub open spec fn spec_after_ack(self, size: u16, validated_mtu: u16) -> BlackholeDetector {
        if size >= validated_mtu {
            BlackholeDetector { large_losses: 0, small_acks: 0, ..self }
        } else if self.large_losses > 0 && self.small_acks < u32::MAX {
            BlackholeDetector { small_acks: (self.small_acks + 1) as u32, ..self }
        } else {
            self
        }
    }

    /// What the evidence becomes when a packet of `size` bytes is lost on
    /// a path whose validated MTU is `validated_mtu`: only losses at the
    /// validated size are evidence of a blackhole.
    pub open spec fn spec_after_loss(self, size: u16, validated_mtu: u16) -> BlackholeDetector {
        if size >= validated_mtu && self.large_losses < u32::MAX {
            BlackholeDetector { large_losses: (self.large_losses + 1) as u32, ..self }
        } else {
            self
        }
    }

    /// A detector with no evidence yet and the given large-loss threshold.
    pub fn new(loss_threshold: u32) -> (r: BlackholeDetector)
        requires
            loss_threshold >= 1,
        ensures
            r == (BlackholeDetector { large_losses: 0, small_acks: 0, loss_threshold }),
            r.wf(),
            !r.spec_detected(),
    {
        BlackholeDetector { large_losses: 0, small_acks: 0, loss_threshold }
    }

    /// Discard all accumulated evidence, keeping the policy.
    pub fn reset(&mut self)
        ensures
            *final(self) == (BlackholeDetector {
                large_losses: 0,
                small_acks: 0,
                loss_threshold: old(self).loss_threshold,
            }),
            !final(self).spec_detected(),
    {
        self.large_losses = 0;
        self.small_acks = 0;
    }

    /// An ordinary packet of `size` bytes was acknowledged on a path whose
    /// validated MTU is `validated_mtu`.
    pub fn on_packet_ack(&mut self, size: u16, validated_mtu: u16)
        ensures
            *final(self) == old(self).spec_after_ack(size, validated_mtu),
    {
        if size >= validated_mtu {
            self.large_losses = 0;
            self.small_acks = 0;
        } else if self.large_losses > 0 && self.small_acks < u32::MAX {
            self.small_acks = self.small_acks + 1;
        }
    }

    /// An ordinary packet of `size` bytes was lost (or unacknowledged past
    /// its loss-detection deadline) on a path whose validated MTU is
    /// `validated_mtu`.
    pub fn on_packet_loss(&mut self, size: u16, validated_mtu: u16)
        ensures
            *final(self) == old(self).spec_after_loss(size, validated_mtu),
    {
        if size >= validated_mtu && self.large_losses < u32::MAX {
            self.large_losses = self.large_losses + 1;
        }
    }

    /// Whether the accumulated loss pattern amounts to a blackhole.
    pub fn detected(&self) -> (r: bool)
        ensures
            r == self.spec_detected(),
    {
        self.large_losses >= self.loss_threshold && self.small_acks >= 1
    }

    /// Law: loss alone never declares a blackhole. However many packets at
    /// the validated size fail, while no concurrent smaller-size success
    /// has been seen — total transient loss affects every size alike — the
    /// detector stays quiet, so a round-trip of complete loss after
    /// convergence cannot disturb the validated MTU.
    pub proof fn lemma_no_blackhole_without_small_success(self)
        requires
            self.small_acks == 0,
        ensures
            !self.spec_detected(),
    {
    }

    /// Law: a success at the validated size wipes the evidence — once
    /// large packets demonstrably traverse the path again, no earlier loss
    /// pattern can still declare a blackhole.
    pub proof fn lemma_large_success_clears_evidence(self, size: u16, validated_mtu: u16)
        requires
            size >= validated_mtu,
        ensures
            !self.spec_after_ack(size, validated_mtu).spec_detected(),
            self.spec_after_ack(size, validated_mtu).large_losses == 0,
    {
    }
}

} // verus!
