//! What the gateway speaks of, apart from how it is served.

pub mod error;
