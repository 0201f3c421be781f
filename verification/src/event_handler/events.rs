//! Typed protocol requests, one module per request family.

pub mod remote_desktop;
pub mod screen_cast;
