//! Bridges YoLink smart-home devices into HomeCore.

pub mod actions;
pub mod bridge;
pub mod config;
pub mod devices;
pub mod inventory;
pub mod json;
pub mod laws;
pub mod measure;
pub mod record;
pub mod run;
pub mod schedule;
pub mod schema;
pub mod startup;
pub mod text;
pub mod yolink;
