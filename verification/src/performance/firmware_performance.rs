//! Headers of the Firmware Performance Data Table (FPDT) and of its boot
//! performance table.

use vstd::prelude::*;

verus! {

/// The signature with which the performance tables are built: the bytes
/// "FBPT" read as a little-endian 32-bit value (the boot performance table's
/// signature), used for the boot performance table header.
pub const FPDT_SIGNATURE: u32 = 0x5450_4246;

/// Size of the boot performance table: its 8-byte header and the 48-byte
/// basic boot performance record.
pub const BOOT_PERFORMANCE_TABLE_SIZE: u32 = 56;

/// Record type of a boot performance table pointer record.
pub const FPDT_BOOT_PERFORMANCE_TABLE_POINTER: u16 = 0x0000;

/// Size of a boot performance table pointer record: its 4-byte header, 4
/// reserved bytes and the 64-bit table address.
pub const BOOT_PERFORMANCE_TABLE_POINTER_RECORD_SIZE: u8 = 16;

/// The HOB that carries the time at which the platform left reset.
#[derive(Debug, Clone, Copy, PartialEq, Eq, Structural)]
pub struct FirmwarePerformanceHob {
    /// Timer value at the end of reset.
    pub reset_end: u64,
}

/// Header of the boot performance table.
#[derive(Debug, Clone, Copy, PartialEq, Eq, Structural)]
pub struct AcpiFpdtPerformanceTableHeader {
    /// Table signature.
    pub signature: u32,
    /// Table length, header included.
    pub length: u32,
}

impl AcpiFpdtPerformanceTableHeader {
    /// The header of an empty boot performance table.
    pub fn new_boot_performance_table() -> (r: Self)
        ensures
            r == (AcpiFpdtPerformanceTableHeader {
                signature: FPDT_SIGNATURE,
                length: BOOT_PERFORMANCE_TABLE_SIZE,
            }),
    {
        Self { signature: FPDT_SIGNATURE, length: BOOT_PERFORMANCE_TABLE_SIZE }
    }
}

/// Header of an FPDT performance record.
#[derive(Debug, Clone, Copy, PartialEq, Eq, Structural)]
pub struct AcpiFpdtPerformanceRecordHeader {
    /// Record type.
    pub record_type: u16,
    /// Record length, header included.
    pub length: u8,
    /// Record revision.
    pub revision: u8,
}

impl AcpiFpdtPerformanceRecordHeader {
    /// The header of the record that points to the boot performance table.
    pub fn new_boot_performance_table() -> (r: Self)
        ensures
            r == (AcpiFpdtPerformanceRecordHeader {
                record_type: FPDT_BOOT_PERFORMANCE_TABLE_POINTER,
                length: BOOT_PERFORMANCE_TABLE_POINTER_RECORD_SIZE,
                revision: 1,
            }),
    {
        Self {
            record_type: FPDT_BOOT_PERFORMANCE_TABLE_POINTER,
            length: BOOT_PERFORMANCE_TABLE_POINTER_RECORD_SIZE,
            revision: 1,
        }
    }
}

} // verus!
