//! Lifecycle control for an embedded anonymity-network proxy service.
//!
//! The library holds the service's state as an explicit value: the status that
//! pollers read, the counter that tells one run from the next, the sender half of
//! the current shutdown signal, and the shared client handle. Every operation of
//! the lifecycle is a verified transition of that value.
pub mod laws;
pub mod lifecycle;
pub mod path;
pub mod signal;
pub mod status;

pub use lifecycle::{
    arti_go_dormant, arti_start, arti_stop, arti_wake, supervisor_event, ArtiState, Launch,
    StartError, SupervisorEvent,
};
pub use path::parse_data_dir;
pub use status::{
    arti_bootstrap_progress, arti_bootstrap_summary, arti_is_running, update_summary,
    ServiceStatus, PROGRESS_DONE,
};
