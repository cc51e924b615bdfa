//! Bodies of the subscribe engine's long-running effects: what each
//! effect decides, and how it turns the outcome of the pluggable
//! subscribe call into events for the engine.

pub mod handshake_reconnection;
pub mod receive;
pub mod receive_reconnection;
