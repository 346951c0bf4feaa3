//! ACPI table layouts, XSDT access and AML node sizing.

pub mod acpi;
pub mod acpi_table;
pub mod aml;
pub mod error;
pub mod opcode;
pub mod signature;
