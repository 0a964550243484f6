//! The packet-interception hook: a pluggable capability invoked on every
//! outbound datagram just before it leaves the stack.
//!
//! Production endpoints install the no-op default. Test and simulation
//! harnesses install interceptors that corrupt, zero and re-stamp, or
//! truncate payloads, to emulate path anomalies — a middlebox stripping
//! padding, say — without touching the state machine itself. Interceptors
//! compose as ordered pairs and run in registration order; mutation is in
//! place and may change payload length and content, never packet identity.

use vstd::prelude::*;

verus! {

/// Identity of the packet whose payload is being intercepted; the hook
/// may read it but never changes it.
#[derive(Clone, Copy, Debug, PartialEq, Eq, Structural)]
pub struct PacketMeta {
    /// The packet number the transport assigned.
    pub packet_number: u64,
    /// Whether the packet belongs to the initial (handshake) space.
    pub is_initial: bool,
}

/// One transformation of outbound payloads. Implementations may mutate
/// the buffer arbitrarily; the transmit path applies them in order.
pub trait Interceptor {
    /// Inspect or mutate, in place, the payload of the packet described
    /// by `meta`, just before serialization hands it to the wire.
    fn intercept_tx_payload(&mut self, meta: &PacketMeta, payload: &mut Vec<u8>);
}

/// The production default: leaves every payload untouched.
pub struct NoOpInterceptor;

impl Interceptor for NoOpInterceptor {
    fn intercept_tx_payload(&mut self, meta: &PacketMeta, payload: &mut Vec<u8>) {
    }
}

/// Two interceptors in registration order: `first` transforms the buffer,
/// then `second` sees the result. Pairs nest, so any ordered list of
/// interceptors composes.
pub struct InterceptorPair<A: Interceptor, B: Interceptor> {
    /// Applied first.
    pub first: A,
    /// Applied to what `first` left behind.
    pub second: B,
}

impl<A: Interceptor, B: Interceptor> Interceptor for InterceptorPair<A, B> {
    fn intercept_tx_payload(&mut self, meta: &PacketMeta, payload: &mut Vec<u8>) {
        self.first.intercept_tx_payload(meta, payload);
        self.second.intercept_tx_payload(meta, payload);
    }
}

/// Overwrite a payload in place with zeros and stamp its first byte:
/// the content is destroyed, the size is kept. Emulates a fault that
/// erases a handshake message while leaving the datagram intact.
pub fn zero_and_stamp(payload: &mut Vec<u8>)
    ensures
        final(payload)@.len() == old(payload)@.len(),
        old(payload)@.len() > 0 ==> final(payload)@[0] == 1u8,
        forall|i: int| 1 <= i < final(payload)@.len() ==> final(payload)@[i] == 0u8,
{
    let n = payload.len();
    let mut i: usize = 0;
    while i < n
        invariant
            i <= n,
            payload@.len() == n,
            forall|j: int| 0 <= j < i ==> payload@[j] == 0u8,
        decreases n - i,
    {
        payload.set(i, 0u8);
        i = i + 1;
    }
    if n > 0 {
        payload.set(0, 1u8);
    }
}

/// Where trailing zero padding ends: the length of `s` with every
/// trailing zero byte removed, except that the first 17 bytes — the
/// packet's header region — are never cut.
pub open spec fn padded_cut(s: Seq<u8>) -> int
    decreases s.len(),
{
    if s.len() == 0 {
        0
    } else if s[s.len() - 1] != 0 || s.len() - 1 <= 16 {
        s.len() as int
    } else {
        padded_cut(s.drop_last())
    }
}

/// The cut point lies within the sequence.
pub proof fn lemma_padded_cut_bounds(s: Seq<u8>)
    ensures
        0 <= padded_cut(s) <= s.len(),
    decreases s.len(),
{
    if s.len() > 0 && s[s.len() - 1] == 0 && s.len() - 1 > 16 {
        lemma_padded_cut_bounds(s.drop_last());
    }
}

/// Strip a payload's trailing zero padding in place, never cutting into
/// the first 17 bytes. Emulates a middlebox that drops the padding a
/// probe or handshake datagram relies on for its size.
pub fn truncate_trailing_padding(payload: &mut Vec<u8>)
    ensures
        final(payload)@ == old(payload)@.subrange(0, padded_cut(old(payload)@)),
        final(payload)@.len() == padded_cut(old(payload)@),
{
    proof {
        lemma_padded_cut_bounds(payload@);
        assert(payload@.subrange(0, payload@.len() as int) =~= payload@);
    }
    let mut n: usize = payload.len();
    while n > 17 && payload[n - 1] == 0u8
        invariant
            n <= payload@.len(),
            padded_cut(payload@) == padded_cut(payload@.subrange(0, n as int)),
        decreases n,
    {
        proof {
            let s = payload@;
            assert(s.subrange(0, n as int).drop_last() =~= s.subrange(0, n - 1));
        }
        n = n - 1;
    }
    proof {
        assert(payload@.subrange(0, n as int).len() == n);
        assert(padded_cut(payload@) == n);
    }
    payload.truncate(n);
}

} // verus!
