//! The API of the cloud: what it is asked, what it answers, and what is done about it.

pub mod attempt;
pub mod attempt_laws;
pub mod auth;
pub mod calls;
pub mod checks;
pub mod cleanup;
pub mod cleanup_laws;
pub mod client;
pub mod compatibility;
pub mod instances;
pub mod ips;
pub mod models;
pub mod operations;
pub mod paths;
pub mod polling;
pub mod provision;
pub mod provision_laws;
pub mod reconcile;
pub mod reply_laws;
pub mod request_laws;
pub mod snapshots;
pub mod status;
pub mod volumes;

pub use client::ScalewayClient;
