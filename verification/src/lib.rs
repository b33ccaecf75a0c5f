//! Provisioning of a GPU instance from a snapshot, and a chat with the model that runs on it.

pub mod cli;
pub mod config;
pub mod config_laws;
pub mod error;
pub mod error_laws;
pub mod hal;
pub mod hal_laws;
pub mod json;
pub mod nemotron;
pub mod outside;
pub mod report;
pub mod report_laws;
pub mod scaleway;
pub mod state;
pub mod state_laws;
pub mod text;
pub mod text_laws;
pub mod value_laws;
