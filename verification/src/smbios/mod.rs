//! SMBIOS (System Management BIOS) tables: record layout, string pools,
//! handle management and the structure definitions of the specification.

pub mod config;
pub mod error;
pub mod smbios_derive;
pub mod manager_laws;
pub mod service;
pub mod component;
pub mod smbios_record;

pub mod smbios;
pub mod smbios_types;
pub mod protocol;
