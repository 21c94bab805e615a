//! Records of the tenant registry and of the webhook payload.

pub mod application;
pub mod health_check;
pub mod merchant_channel;
pub mod merchant_config;
pub mod messenger_webhook;
