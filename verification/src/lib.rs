//! Control logic for a consumer router's WAN link: the registry of reconnect
//! jobs and their one-shot results, the job's step-by-step state machine, the
//! lookup of the current WAN address, and the requests that the device
//! understands.

pub mod client;
pub mod job;
pub mod reconnect;
pub mod registry;
pub mod status;
