//! ACPI table signatures and fixed layout sizes.

use vstd::prelude::*;

verus! {

/// "RSD PTR " read as a little-endian 64-bit value.
pub const ACPI_RSDP_TABLE: u64 = 0x2052_5450_2044_5352;

/// "XSDT" read as a little-endian 32-bit value.
pub const XSDT: u32 = 0x5444_5358;

/// "FACP" (the FADT) read as a little-endian 32-bit value.
pub const FACP: u32 = 0x5043_4146;

/// Length of the standard ACPI description header.
pub const ACPI_HEADER_LEN: usize = 36;

/// Offset of the checksum byte in the standard ACPI header.
pub const ACPI_CHECKSUM_OFFSET: usize = 9;

/// Frequency of the ACPI power management timer, in Hz.
pub const DEFAULT_ACPI_TIMER_FREQUENCY: u64 = 3_579_545;

} // verus!
