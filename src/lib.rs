//! Verified core of a sensor-telemetry relay: frame parsing, the live-session
//! registry with its lossy fan-out, the per-viewer push-session state machine
//! and the liveness decisions that turn silence into an offline status.

pub mod frame;
pub mod hub;
pub mod ingest;
pub mod liveness;
pub mod models;
pub mod query;
pub mod records;
pub mod session;
