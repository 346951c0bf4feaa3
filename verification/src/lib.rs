//! Verified building blocks of UEFI firmware components: SMBIOS record
//! management and serialization, ACPI table decoding and AML sizing,
//! firmware performance record handling, status code routing, the boot
//! sequence, and the small configuration types that those components
//! share.

pub mod acpi;
pub mod adv_logger;
pub mod boot;
pub mod default_font;
pub mod efi_status;
pub mod esrt;
pub mod graphics_console;
pub mod hid;
pub mod le_bytes;
pub mod performance;
pub mod smbios;
pub mod status_code;
pub mod variable;
