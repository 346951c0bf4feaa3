//! The EFI System Resource Table component: its configuration, errors,
//! repository and entry types.

pub mod component;
pub mod config;
pub mod error;
pub mod repository;
pub mod types;
