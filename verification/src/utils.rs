//! What serves the gateway without being part of its routing.

pub mod emit_seq;
