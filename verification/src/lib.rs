//! Path MTU discovery and blackhole recovery for a QUIC-style transport.
//!
//! The library is organised around a per-path state machine
//! ([`controller::PathMtuController`]) that binary-searches the largest
//! datagram size a network path can carry, watches for path regressions
//! (blackholes), and emits an event for every change of the validated MTU.
//! Around it stand the probe scheduler, the blackhole detector, the
//! initial-packet size guard, the packet interceptor hook, and the event
//! subscriber fan-out.

pub mod blackhole;
pub mod config;
pub mod controller;
pub mod endpoint;
pub mod events;
pub mod guard;
pub mod interceptor;
pub mod scheduler;
pub mod subscriber;

pub use config::Config;
pub use controller::{PathMtuController, PathState, Probe, ProbeOutcome};
pub use endpoint::Server;
pub use events::{MtuCause, MtuUpdated, PacketDropReason, PacketDropped};
