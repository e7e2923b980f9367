//! Ties a Sentry client to the lifecycle of a Rocket server.
//!
//! [`RocketSentry`] keeps the client's initialization guard alive for as long
//! as the server that owns it, and on every inbound request continues the
//! caller's trace: the `sentry-trace` header, when present, becomes the parent
//! of a transaction that is started and installed as the current span.
//!
//! The functions here are verified with Verus. What Rocket and Sentry do is
//! taken on trust, one small declaration per call, each with a note that says
//! what is assumed of it.

pub mod holder;
pub mod trace;

pub use holder::{FairingInfo, RocketSentry};
pub use trace::TraceContinuation;
