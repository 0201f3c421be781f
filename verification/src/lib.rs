//! Verified core of a desktop portal backend for remote-desktop input
//! emulation and screen-cast delegation.
//!
//! The dispatcher in [`event_handler`] routes protocol requests, keyed by a
//! session path, to exactly one per-session handler: either a local-emulation
//! handler that injects input events into a kernel virtual device, or a
//! delegation handler that plans forwarding calls to another portal backend.
//! The transport layer (message bus, event loop, async execution) lives
//! outside this crate and talks to it through plain values.

pub mod event_handler;
pub mod float_bits;
pub mod values;
