//! Sends a notification to a push service: either a literal message made of
//! the command-line words, or a report on how a command that was run ended.
//!
//! This crate holds the decisions of that flow with their contracts: how the
//! message is built, where the configuration comes from and what it must hold,
//! which form fields are posted, and how the service's reply is read.
pub mod config;
pub mod error;
pub mod message;
pub mod notify;
pub mod response;
pub mod text;
