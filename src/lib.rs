//! Client library for a solar installation: a cloud session that shares one
//! rotating bearer credential with every per-system handle, and decoders for
//! the tagged payloads of the local gateway.

pub mod calendar;
pub mod cloud;
pub mod envoy;
pub mod text;
mod model;

pub use model::earliest;
pub use model::latest_report;
pub use model::total_watts;
pub use model::wrapped_total_watts;
pub use model::AggregateProduction;
