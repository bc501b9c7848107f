//! Identification of a USB device handed over as an open file descriptor:
//! device-number decoding, sysfs serial-path resolution, the session
//! initialisation protocol and the descriptor relay between processes.
use vstd::prelude::*;

pub mod decimal;
pub mod devnum;
pub mod orchestrator;
pub mod relay;
pub mod session;
pub mod sysfs;

verus! {

} // verus!
