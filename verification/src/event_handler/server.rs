//! Local-emulation ("server") handlers and the virtual input device they
//! drive.

pub mod device;
pub mod remote_desktop;
