//! Delegating ("proxy") handlers: they turn each request into the plan of a
//! remote call against the configured destination, and relay the remote
//! outcome back into a reply.

pub mod remote_desktop;
pub mod screen_cast;
