//! Client-side correlation and liveness core of the multiplayer session protocol.
//!
//! The library keeps the session snapshot, the single-use completion slots of
//! the request/response calls, the heartbeat health and the inbound telemetry
//! queues, and decides how each inbound event changes them. Driving the
//! connection (sending, waiting, timers) is left to the caller.
pub mod room;
pub mod queue;
pub mod heartbeat;
pub mod slot;
pub mod protocol;
pub mod calls;
pub mod state;
