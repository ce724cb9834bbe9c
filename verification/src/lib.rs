//! Verified core of a DIY weather station: sensor payloads and their unit
//! conversions, the error model of the sensor drivers, the decision logic of
//! the light-sensor gain search, the firmware-update pipeline, and the
//! scheduling rules of the collecting server.

pub mod config;
pub mod dfu;
pub mod dfu_task;
pub mod errors;
pub mod flash_task;
pub mod formats;
pub mod light;
pub mod payloads;
pub mod readings;
pub mod schedule;
pub mod station;
pub mod text;
pub mod upload;
