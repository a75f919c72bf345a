//! Monitoring connector core: maps clustered-service status documents and
//! admin diagnostics trees onto flat, tagged line records for a metrics
//! collector, with an ordinal severity scale and per-check failure isolation.

pub mod auth;
pub mod clock;
pub mod cluster;
pub mod diagnostics;
pub mod emit;
pub mod model;
pub mod numfmt;
pub mod poll;
pub mod status;
pub mod urls;

pub use clock::get_epoch_nanos;
pub use status::get_status_as_value;
