//! Platform layer of a dual-core networked firmware: transport errors and
//! socket rules, the key/value flag store, the log filter, heap tracing
//! toggles, and the decision machines of the boot sequence.

pub mod boot;
pub mod log_filter;
pub mod memory;
pub mod net_error;
pub mod resolve;
pub mod socket;
pub mod storage;
