//! Remote command agent: decodes key/value command frames received over a
//! TCP or MQTT session and routes each key to a registered handler.

pub mod text;
pub mod decoder;
pub mod error;
pub mod handler;
pub mod config;
pub mod config_mqtt;
pub mod config_tcp;
pub mod session;
