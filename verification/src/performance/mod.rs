//! Firmware performance measurement: record buffers, the records handed
//! over by HOBs, the performance timer and the FPDT headers.

pub mod component;
pub mod config_provider;
pub mod error;
pub mod firmware_performance;
pub mod hob_records;
pub mod record;
