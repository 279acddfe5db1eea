//! Telemetry extraction for SoftEther VPN hubs.
//!
//! The library decodes the localized tabular reports of the SoftEther
//! administration CLI into typed hub status and session records, aggregates
//! per-user transfer across sessions, and plans the gauge updates of one
//! scrape cycle, isolating each hub's failures from the rest.

pub mod aggregate;
pub mod config;
pub mod error;
pub mod exporter;
pub mod fields;
pub mod invoke;
pub mod numeric;
pub mod session;
pub mod softether_reader;
pub mod status;
pub mod strutil;
pub mod table;
