//! The YoLink side: packets, devices and the MQTT event stream.

pub mod mqtt;
pub mod stream;
pub mod types;
