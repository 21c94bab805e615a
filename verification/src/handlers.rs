//! What the endpoints of the gateway answer.

pub mod api;
pub mod messenger;
