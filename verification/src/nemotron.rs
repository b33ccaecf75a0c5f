//! The inference server: how it is waited for, asked and listened to.

pub mod answer;
pub mod answer_laws;
pub mod chat;
pub mod chat_laws;
pub mod client;
pub mod client_laws;
pub mod models;
pub mod stream;

pub use client::NemotronClient;
