//! Inbound-webhook gateway: eligibility-gated routing of webhook entries
//! from a messaging platform onto an internal message bus.
//!
//! The crate holds the decisions of the gateway. Everything that talks to
//! the tenant registry, to the bus or to the network is left to the caller,
//! which hands plain values in and receives plain values back.

pub mod dispatch;
pub mod domain;
pub mod eligibility;
pub mod errors;
pub mod handlers;
pub mod models;
pub mod utils;
