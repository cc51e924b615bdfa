//! Core of a client SDK for a hosted real-time pub/sub messaging service.
//!
//! The crate models the two event engines that drive the long-lived
//! background activities of such a client — the subscribe engine (two-phase
//! long-poll protocol with reconnection and dynamic membership) and the
//! presence engine (periodic heartbeats with a final leave) — together with
//! the machinery around them: a request retry policy, effect descriptors
//! with their dispatcher bookkeeping, the decoding of received envelopes,
//! and a subscription manager that routes updates to listeners.

pub mod access;
pub mod client;
pub mod dispatcher;
pub mod effects;
pub mod engine;
pub mod error;
pub mod input;
pub mod manager;
pub mod presence;
pub mod retry;
pub mod strings;
pub mod subscribe_effect;
pub mod subscribe_event;
pub mod subscribe_state;
pub mod subscribe_types;
pub mod transport;
pub mod update;
