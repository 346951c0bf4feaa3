//! SMBIOS standard definitions: handle and string limits, structure type
//! numbers, the entry point structures, the layouts of the structure types
//! and the enumerations and bit fields that their fields use.
//!
//! Bit fields are newtypes over their integer with a getter per field (bit
//! 0 is the least significant). Enumerations give their number in the
//! SMBIOS specification through `value`.

use vstd::prelude::*;

verus! {

/// Bitfield for baseboard feature flags
#[derive(Debug, Clone, Copy)]
pub struct BaseBoardFeatureFlags(pub u8);

impl BaseBoardFeatureFlags {
    /// Indicates if the board is a motherboard
    pub fn motherboard(&self) -> (r: bool)
        ensures
            r == ((self.0 >> 0u32) & 1 == 1),
    {
        (self.0 >> 0u32) & 1 == 1
    }

    /// Indicates if the board requires a daughter card
    pub fn requires_daughter_card(&self) -> (r: bool)
        ensures
            r == ((self.0 >> 1u32) & 1 == 1),
    {
        (self.0 >> 1u32) & 1 == 1
    }

    /// Indicates if the board is removable
    pub fn removable(&self) -> (r: bool)
        ensures
            r == ((self.0 >> 2u32) & 1 == 1),
    {
        (self.0 >> 2u32) & 1 == 1
    }

    /// Indicates if the board is replaceable
    pub fn replaceable(&self) -> (r: bool)
        ensures
            r == ((self.0 >> 3u32) & 1 == 1),
    {
        (self.0 >> 3u32) & 1 == 1
    }

    /// Indicates if the board is hot swappable
    pub fn hot_swappable(&self) -> (r: bool)
        ensures
            r == ((self.0 >> 4u32) & 1 == 1),
    {
        (self.0 >> 4u32) & 1 == 1
    }

    /// Reserved bits
    pub fn reserved(&self) -> (r: u8)
        ensures
            r == ((self.0 >> 5u32) & 0x7),
    {
        ((self.0 >> 5u32) & 0x7)
    }
}

/// SMBIOS Standard Constants
///
///
/// Reference SMBIOS 2.6, chapter 3.1.2.
/// For v2.1 and later, handle values in the range 0xFF00h to 0xFFFFh are reserved for
/// use by this specification.
pub const SMBIOS_HANDLE_RESERVED_BEGIN: u16 = 0xFF00;

/// Reference SMBIOS 2.7, chapter 6.1.2.
/// The UEFI Platform Initialization Specification reserves handle number FFFEh for its
/// EFI_SMBIOS_PROTOCOL.Add() function to mean "assign an unused handle number automatically."
/// This number is not used for any other purpose by the SMBIOS specification.
pub const SMBIOS_HANDLE_PI_RESERVED: u16 = 0xFFFE;

/// Reference SMBIOS 2.6, chapter 3.1.3.
/// Each text string is limited to 64 significant characters due to system MIF limitations.
/// Reference SMBIOS 2.7, chapter 6.1.3.
/// It will have no limit on the length of each individual text string.
pub const SMBIOS_STRING_MAX_LENGTH: usize = 64;

/// The length of the entire structure table (including all strings) must be reported
/// in the Structure Table Length field of the SMBIOS Structure Table Entry Point,
/// which is a WORD field limited to 65,535 bytes.
pub const SMBIOS_TABLE_MAX_LENGTH: u16 = 0xFFFF;

/// For SMBIOS 3.0, Structure table maximum size in Entry Point structure is DWORD field
/// limited to 0xFFFFFFFF bytes.
pub const SMBIOS_3_0_TABLE_MAX_LENGTH: u32 = 0xFFFFFFFF;

/// Length of SMBIOS anchor string
pub const SMBIOS_ANCHOR_STRING_LENGTH: usize = 4;

/// Length of SMBIOS 3.0 anchor string
pub const SMBIOS_3_0_ANCHOR_STRING_LENGTH: usize = 5;

/// SMBIOS type constants according to SMBIOS 3.3.0 specification.
/// BIOS Information (Type 0)
pub const SMBIOS_TYPE_BIOS_INFORMATION: u8 = 0;

/// System Information (Type 1)
pub const SMBIOS_TYPE_SYSTEM_INFORMATION: u8 = 1;

/// Baseboard Information (Type 2)
pub const SMBIOS_TYPE_BASEBOARD_INFORMATION: u8 = 2;

/// System Enclosure (Type 3)
pub const SMBIOS_TYPE_SYSTEM_ENCLOSURE: u8 = 3;

/// Processor Information (Type 4)
pub const SMBIOS_TYPE_PROCESSOR_INFORMATION: u8 = 4;

/// Memory Controller Information (Type 5)
pub const SMBIOS_TYPE_MEMORY_CONTROLLER_INFORMATION: u8 = 5;

/// Memory Module Information (Type 6)
pub const SMBIOS_TYPE_MEMORY_MODULE_INFORMATON: u8 = 6;

/// Cache Information (Type 7)
pub const SMBIOS_TYPE_CACHE_INFORMATION: u8 = 7;

/// Port Connector Information (Type 8)
pub const SMBIOS_TYPE_PORT_CONNECTOR_INFORMATION: u8 = 8;

/// System Slots (Type 9)
pub const SMBIOS_TYPE_SYSTEM_SLOTS: u8 = 9;

/// Onboard Device Information (Type 10)
pub const SMBIOS_TYPE_ONBOARD_DEVICE_INFORMATION: u8 = 10;

/// OEM Strings (Type 11)
pub const SMBIOS_TYPE_OEM_STRINGS: u8 = 11;

/// System Configuration Options (Type 12)
pub const SMBIOS_TYPE_SYSTEM_CONFIGURATION_OPTIONS: u8 = 12;

/// BIOS Language Information (Type 13)
pub const SMBIOS_TYPE_BIOS_LANGUAGE_INFORMATION: u8 = 13;

/// Group Associations (Type 14)
pub const SMBIOS_TYPE_GROUP_ASSOCIATIONS: u8 = 14;

/// System Event Log (Type 15)
pub const SMBIOS_TYPE_SYSTEM_EVENT_LOG: u8 = 15;

/// Physical Memory Array (Type 16)
pub const SMBIOS_TYPE_PHYSICAL_MEMORY_ARRAY: u8 = 16;

/// Memory Device (Type 17)
pub const SMBIOS_TYPE_MEMORY_DEVICE: u8 = 17;

/// 32-bit Memory Error Information (Type 18)
pub const SMBIOS_TYPE_32BIT_MEMORY_ERROR_INFORMATION: u8 = 18;

/// Memory Array Mapped Address (Type 19)
pub const SMBIOS_TYPE_MEMORY_ARRAY_MAPPED_ADDRESS: u8 = 19;

/// Memory Device Mapped Address (Type 20)
pub const SMBIOS_TYPE_MEMORY_DEVICE_MAPPED_ADDRESS: u8 = 20;

/// Built-in Pointing Device (Type 21)
pub const SMBIOS_TYPE_BUILT_IN_POINTING_DEVICE: u8 = 21;

/// Portable Battery (Type 22)
pub const SMBIOS_TYPE_PORTABLE_BATTERY: u8 = 22;

/// System Reset (Type 23)
pub const SMBIOS_TYPE_SYSTEM_RESET: u8 = 23;

/// Hardware Security (Type 24)
pub const SMBIOS_TYPE_HARDWARE_SECURITY: u8 = 24;

/// System Power Controls (Type 25)
pub const SMBIOS_TYPE_SYSTEM_POWER_CONTROLS: u8 = 25;

/// Voltage Probe (Type 26)
pub const SMBIOS_TYPE_VOLTAGE_PROBE: u8 = 26;

/// Cooling Device (Type 27)
pub const SMBIOS_TYPE_COOLING_DEVICE: u8 = 27;

/// Temperature Probe (Type 28)
pub const SMBIOS_TYPE_TEMPERATURE_PROBE: u8 = 28;

/// Electrical Current Probe (Type 29)
pub const SMBIOS_TYPE_ELECTRICAL_CURRENT_PROBE: u8 = 29;

/// Out-of-Band Remote Access (Type 30)
pub const SMBIOS_TYPE_OUT_OF_BAND_REMOTE_ACCESS: u8 = 30;

/// Boot Integrity Service (Type 31)
pub const SMBIOS_TYPE_BOOT_INTEGRITY_SERVICE: u8 = 31;

/// System Boot Information (Type 32)
pub const SMBIOS_TYPE_SYSTEM_BOOT_INFORMATION: u8 = 32;

/// 64-bit Memory Error Information (Type 33)
pub const SMBIOS_TYPE_64BIT_MEMORY_ERROR_INFORMATION: u8 = 33;

/// Management Device (Type 34)
pub const SMBIOS_TYPE_MANAGEMENT_DEVICE: u8 = 34;

/// Management Device Component (Type 35)
pub const SMBIOS_TYPE_MANAGEMENT_DEVICE_COMPONENT: u8 = 35;

/// Management Device Threshold Data (Type 36)
pub const SMBIOS_TYPE_MANAGEMENT_DEVICE_THRESHOLD_DATA: u8 = 36;

/// Memory Channel (Type 37)
pub const SMBIOS_TYPE_MEMORY_CHANNEL: u8 = 37;

/// IPMI Device Information (Type 38)
pub const SMBIOS_TYPE_IPMI_DEVICE_INFORMATION: u8 = 38;

/// System Power Supply (Type 39)
pub const SMBIOS_TYPE_SYSTEM_POWER_SUPPLY: u8 = 39;

/// Additional Information (Type 40)
pub const SMBIOS_TYPE_ADDITIONAL_INFORMATION: u8 = 40;

/// Onboard Devices Extended Information (Type 41)
pub const SMBIOS_TYPE_ONBOARD_DEVICES_EXTENDED_INFORMATION: u8 = 41;

/// Management Controller Host Interface (Type 42)
pub const SMBIOS_TYPE_MANAGEMENT_CONTROLLER_HOST_INTERFACE: u8 = 42;

/// TPM Device (Type 43)
pub const SMBIOS_TYPE_TPM_DEVICE: u8 = 43;

/// Processor Additional Information (Type 44)
pub const SMBIOS_TYPE_PROCESSOR_ADDITIONAL_INFORMATION: u8 = 44;

/// Firmware Inventory Information (Type 45)
pub const SMBIOS_TYPE_FIRMWARE_INVENTORY_INFORMATION: u8 = 45;

/// String Property Information (Type 46)
pub const SMBIOS_TYPE_STRING_PROPERTY_INFORMATION: u8 = 46;

/// Inactive type is added from SMBIOS 2.2. Reference SMBIOS 2.6, chapter 3.3.43.
/// Upper-level software that interprets the SMBIOS structure-table should bypass an
/// Inactive structure just like a structure type that the software does not recognize.
pub const SMBIOS_TYPE_INACTIVE: u16 = 0x007E;

/// End-of-table type is added from SMBIOS 2.2. Reference SMBIOS 2.6, chapter 3.3.44.
/// The end-of-table indicator is used in the last physical structure in a table
pub const SMBIOS_TYPE_END_OF_TABLE: u8 = 0x7F;

/// OEM-specific SMBIOS types range (128-255)
pub const SMBIOS_OEM_BEGIN: u8 = 128;

/// End of OEM-specific SMBIOS types
pub const SMBIOS_OEM_END: u8 = 255;

/// Types 0 through 127 (7Fh) are reserved for and defined by this
/// specification. Types 128 through 256 (80h to FFh) are available for system- and OEM-specific information.
pub type SmbiosType = u8;

/// Specifies the structure's handle, a unique 16-bit number in the range 0 to 0FFFEh (for version
/// 2.0) or 0 to 0FEFFh (for version 2.1 and later). The handle can be used with the Get SMBIOS
/// Structure function to retrieve a specific structure; the handle numbers are not required to be
/// contiguous. For v2.1 and later, handle values in the range 0FF00h to 0FFFFh are reserved for
/// use by this specification.
/// If the system configuration changes, a previously assigned handle might no longer exist.
/// However once a handle has been assigned by the BIOS, the BIOS cannot re-assign that handle
/// number to another structure.
pub type SmbiosHandle = u16;

/// EFI SMBIOS Table Header type alias
pub type EfiSmbiosTableHeader = SmbiosStructure;

/// SMBIOS 2.x Entry Point structure
#[derive(Copy, Clone, Debug, PartialEq, Eq)]
pub struct SmbiosTableEntryPoint {
    /// Anchor string
    pub anchor_string: [u8; SMBIOS_ANCHOR_STRING_LENGTH],
    /// Entry point structure checksum
    pub entry_point_structure_checksum: u8,
    /// Length of the entry point structure
    pub entry_point_length: u8,
    /// Major version of SMBIOS
    pub major_version: u8,
    /// Minor version of SMBIOS
    pub minor_version: u8,
    /// Maximum structure size
    pub max_structure_size: u16,
    /// Entry point revision
    pub entry_point_revision: u8,
    /// Formatted area
    pub formatted_area: [u8; 5],
    /// Intermediate anchor string
    pub intermediate_anchor_string: [u8; 5],
    /// Intermediate checksum
    pub intermediate_checksum: u8,
    /// Table length
    pub table_length: u16,
    /// Table address
    pub table_address: u32,
    /// Number of SMBIOS structures
    pub number_of_smbios_structures: u16,
    /// SMBIOS BCD revision
    pub smbios_bcd_revision: u8,
}

/// SMBIOS 3.0 Entry Point structure
#[derive(Copy, Clone, Debug, PartialEq, Eq)]
pub struct SmbiosTable30EntryPoint {
    /// Anchor string
    pub anchor_string: [u8; SMBIOS_3_0_ANCHOR_STRING_LENGTH],
    /// Entry point structure checksum
    pub entry_point_structure_checksum: u8,
    /// Length of the entry point structure
    pub entry_point_length: u8,
    /// Major version of SMBIOS
    pub major_version: u8,
    /// Minor version of SMBIOS
    pub minor_version: u8,
    /// Document revision
    pub doc_rev: u8,
    /// Entry point revision
    pub entry_point_revision: u8,
    /// Reserved byte
    pub reserved: u8,
    /// Maximum table size
    pub table_maximum_size: u32,
    /// Table address
    pub table_address: u64,
}

/// SMBIOS structure header
#[derive(Copy, Clone, Debug, PartialEq, Eq)]
pub struct SmbiosStructure {
    /// Structure type
    pub record_type: SmbiosType,
    /// Structure length
    pub length: u8,
    /// Structure handle
    pub handle: SmbiosHandle,
}

/// Text strings associated with a given SMBIOS structure are returned in the dmiStructBuffer, appended directly after
/// the formatted portion of the structure. This method of returning string information eliminates the need for
/// application software to deal with pointers embedded in the SMBIOS structure. Each string is terminated with a null
/// (00h) BYTE and the set of strings is terminated with an additional null (00h) BYTE. When the formatted portion of
/// a SMBIOS structure references a string, it does so by specifying a non-zero string number within the structure's
/// string-set. For example, if a string field contains 02h, it references the second string following the formatted portion
/// of the SMBIOS structure. If a string field references no string, a null (0) is placed in that string field. If the
/// formatted portion of the structure contains string-reference fields and all the string fields are set to 0 (no string
/// references), the formatted section of the structure is followed by two null (00h) BYTES.
pub type SmbiosTableString = u8;

/// BIOS Characteristics
/// Defines which functions the BIOS supports. PCI, PCMCIA, Flash, etc.
///
/// Bitfield for BIOS characteristics
/// BIOS characteristics bitfield
#[derive(Debug, Clone, Copy)]
pub struct MiscBiosCharacteristics(pub u64);

impl MiscBiosCharacteristics {
    /// Gets the reserved bit
    pub fn reserved(&self) -> (r: u64)
        ensures
            r == ((self.0 >> 0u32) & 0x3),
    {
        ((self.0 >> 0u32) & 0x3)
    }

    /// Gets the unknown bit
    pub fn unknown(&self) -> (r: bool)
        ensures
            r == ((self.0 >> 2u32) & 1 == 1),
    {
        (self.0 >> 2u32) & 1 == 1
    }

    /// Gets the BIOS characteristics not supported bit
    pub fn bios_characteristics_not_supported(&self) -> (r: bool)
        ensures
            r == ((self.0 >> 3u32) & 1 == 1),
    {
        (self.0 >> 3u32) & 1 == 1
    }

    /// Gets the ISA is supported bit
    pub fn isa_is_supported(&self) -> (r: bool)
        ensures
            r == ((self.0 >> 4u32) & 1 == 1),
    {
        (self.0 >> 4u32) & 1 == 1
    }

    /// Gets the MCA is supported bit
    pub fn mca_is_supported(&self) -> (r: bool)
        ensures
            r == ((self.0 >> 5u32) & 1 == 1),
    {
        (self.0 >> 5u32) & 1 == 1
    }

    /// Gets the EISA is supported bit
    pub fn eisa_is_supported(&self) -> (r: bool)
        ensures
            r == ((self.0 >> 6u32) & 1 == 1),
    {
        (self.0 >> 6u32) & 1 == 1
    }

    /// Gets the PCI is supported bit
    pub fn pci_is_supported(&self) -> (r: bool)
        ensures
            r == ((self.0 >> 7u32) & 1 == 1),
    {
        (self.0 >> 7u32) & 1 == 1
    }

    /// Gets the PCMCIA is supported bit
    pub fn pcmcia_is_supported(&self) -> (r: bool)
        ensures
            r == ((self.0 >> 8u32) & 1 == 1),
    {
        (self.0 >> 8u32) & 1 == 1
    }

    /// Gets the Plug and Play is supported bit
    pub fn plug_and_play_is_supported(&self) -> (r: bool)
        ensures
            r == ((self.0 >> 9u32) & 1 == 1),
    {
        (self.0 >> 9u32) & 1 == 1
    }

    /// Gets the APM is supported bit
    pub fn apm_is_supported(&self) -> (r: bool)
        ensures
            r == ((self.0 >> 10u32) & 1 == 1),
    {
        (self.0 >> 10u32) & 1 == 1
    }

    /// Gets the BIOS is upgradable bit
    pub fn bios_is_upgradable(&self) -> (r: bool)
        ensures
            r == ((self.0 >> 11u32) & 1 == 1),
    {
        (self.0 >> 11u32) & 1 == 1
    }

    /// Gets the BIOS shadowing allowed bit
    pub fn bios_shadowing_allowed(&self) -> (r: bool)
        ensures
            r == ((self.0 >> 12u32) & 1 == 1),
    {
        (self.0 >> 12u32) & 1 == 1
    }

    /// Gets the VL VESA is supported bit
    pub fn vl_vesa_is_supported(&self) -> (r: bool)
        ensures
            r == ((self.0 >> 13u32) & 1 == 1),
    {
        (self.0 >> 13u32) & 1 == 1
    }

    /// Gets the ESCD support is available bit
    pub fn escd_support_is_available(&self) -> (r: bool)
        ensures
            r == ((self.0 >> 14u32) & 1 == 1),
    {
        (self.0 >> 14u32) & 1 == 1
    }

    /// Gets the boot from CD is supported bit
    pub fn boot_from_cd_is_supported(&self) -> (r: bool)
        ensures
            r == ((self.0 >> 15u32) & 1 == 1),
    {
        (self.0 >> 15u32) & 1 == 1
    }

    /// Gets the selectable boot is supported bit
    pub fn selectable_boot_is_supported(&self) -> (r: bool)
        ensures
            r == ((self.0 >> 16u32) & 1 == 1),
    {
        (self.0 >> 16u32) & 1 == 1
    }

    /// Gets the ROM BIOS is socketed bit
    pub fn rom_bios_is_socketed(&self) -> (r: bool)
        ensures
            r == ((self.0 >> 17u32) & 1 == 1),
    {
        (self.0 >> 17u32) & 1 == 1
    }

    /// Gets the boot from PCMCIA is supported bit
    pub fn boot_from_pcmcia_is_supported(&self) -> (r: bool)
        ensures
            r == ((self.0 >> 18u32) & 1 == 1),
    {
        (self.0 >> 18u32) & 1 == 1
    }

    /// Gets the EDD specification is supported bit
    pub fn edd_specification_is_supported(&self) -> (r: bool)
        ensures
            r == ((self.0 >> 19u32) & 1 == 1),
    {
        (self.0 >> 19u32) & 1 == 1
    }

    /// Gets the Japanese NEC floppy is supported bit
    pub fn japanese_nec_floppy_is_supported(&self) -> (r: bool)
        ensures
            r == ((self.0 >> 20u32) & 1 == 1),
    {
        (self.0 >> 20u32) & 1 == 1
    }

    /// Gets the Japanese Toshiba floppy is supported bit
    pub fn japanese_toshiba_floppy_is_supported(&self) -> (r: bool)
        ensures
            r == ((self.0 >> 21u32) & 1 == 1),
    {
        (self.0 >> 21u32) & 1 == 1
    }

    /// Gets the 5.25" 360KB floppy is supported bit
    pub fn floppy_525_360_is_supported(&self) -> (r: bool)
        ensures
            r == ((self.0 >> 22u32) & 1 == 1),
    {
        (self.0 >> 22u32) & 1 == 1
    }

    /// Gets the 5.25" 1.2MB floppy is supported bit
    pub fn floppy_525_12_is_supported(&self) -> (r: bool)
        ensures
            r == ((self.0 >> 23u32) & 1 == 1),
    {
        (self.0 >> 23u32) & 1 == 1
    }

    /// Gets the 3.5" 720KB floppy is supported bit
    pub fn floppy_35_720_is_supported(&self) -> (r: bool)
        ensures
            r == ((self.0 >> 24u32) & 1 == 1),
    {
        (self.0 >> 24u32) & 1 == 1
    }

    /// Gets the 3.5" 2.88MB floppy is supported bit
    pub fn floppy_35_288_is_supported(&self) -> (r: bool)
        ensures
            r == ((self.0 >> 25u32) & 1 == 1),
    {
        (self.0 >> 25u32) & 1 == 1
    }

    /// Gets the print screen is supported bit
    pub fn print_screen_is_supported(&self) -> (r: bool)
        ensures
            r == ((self.0 >> 26u32) & 1 == 1),
    {
        (self.0 >> 26u32) & 1 == 1
    }

    /// Gets the keyboard 8042 is supported bit
    pub fn keyboard_8042_is_supported(&self) -> (r: bool)
        ensures
            r == ((self.0 >> 27u32) & 1 == 1),
    {
        (self.0 >> 27u32) & 1 == 1
    }

    /// Gets the serial is supported bit
    pub fn serial_is_supported(&self) -> (r: bool)
        ensures
            r == ((self.0 >> 28u32) & 1 == 1),
    {
        (self.0 >> 28u32) & 1 == 1
    }

    /// Gets the printer is supported bit
    pub fn printer_is_supported(&self) -> (r: bool)
        ensures
            r == ((self.0 >> 29u32) & 1 == 1),
    {
        (self.0 >> 29u32) & 1 == 1
    }

    /// Gets the CGA mono is supported bit
    pub fn cga_mono_is_supported(&self) -> (r: bool)
        ensures
            r == ((self.0 >> 30u32) & 1 == 1),
    {
        (self.0 >> 30u32) & 1 == 1
    }

    /// Gets the NEC PC-98 bit
    pub fn nec_pc98(&self) -> (r: bool)
        ensures
            r == ((self.0 >> 31u32) & 1 == 1),
    {
        (self.0 >> 31u32) & 1 == 1
    }

    /// Gets the reserved for vendor bits
    pub fn reserved_for_vendor(&self) -> (r: u64)
        ensures
            r == ((self.0 >> 32u32) & 0xffffffff),
    {
        ((self.0 >> 32u32) & 0xffffffff)
    }
}

/// BIOS Characteristics Extension Byte 1.
/// This information, available for SMBIOS version 2.1 and later, appears at offset 12h
/// within the BIOS Information structure.
///
/// Bitfield for BIOS Characteristics Extension Byte 1
/// BIOS Characteristics Extension Byte 1 bitfield
#[derive(Debug, Clone, Copy)]
pub struct MbceBiosReserved(pub u8);

impl MbceBiosReserved {
    /// Gets the ACPI is supported bit
    pub fn acpi_is_supported(&self) -> (r: bool)
        ensures
            r == ((self.0 >> 0u32) & 1 == 1),
    {
        (self.0 >> 0u32) & 1 == 1
    }

    /// Gets the USB legacy is supported bit
    pub fn usb_legacy_is_supported(&self) -> (r: bool)
        ensures
            r == ((self.0 >> 1u32) & 1 == 1),
    {
        (self.0 >> 1u32) & 1 == 1
    }

    /// Gets the AGP is supported bit
    pub fn agp_is_supported(&self) -> (r: bool)
        ensures
            r == ((self.0 >> 2u32) & 1 == 1),
    {
        (self.0 >> 2u32) & 1 == 1
    }

    /// Gets the I2O boot is supported bit
    pub fn i2o_boot_is_supported(&self) -> (r: bool)
        ensures
            r == ((self.0 >> 3u32) & 1 == 1),
    {
        (self.0 >> 3u32) & 1 == 1
    }

    /// Gets the LS-120 boot is supported bit
    pub fn ls120_boot_is_supported(&self) -> (r: bool)
        ensures
            r == ((self.0 >> 4u32) & 1 == 1),
    {
        (self.0 >> 4u32) & 1 == 1
    }

    /// Gets the ATAPI ZIP drive boot is supported bit
    pub fn atapi_zip_drive_boot_is_supported(&self) -> (r: bool)
        ensures
            r == ((self.0 >> 5u32) & 1 == 1),
    {
        (self.0 >> 5u32) & 1 == 1
    }

    /// Gets the boot 1394 is supported bit
    pub fn boot_1394_is_supported(&self) -> (r: bool)
        ensures
            r == ((self.0 >> 6u32) & 1 == 1),
    {
        (self.0 >> 6u32) & 1 == 1
    }

    /// Gets the smart battery is supported bit
    pub fn smart_battery_is_supported(&self) -> (r: bool)
        ensures
            r == ((self.0 >> 7u32) & 1 == 1),
    {
        (self.0 >> 7u32) & 1 == 1
    }
}

/// BIOS Characteristics Extension Byte 2.
/// This information, available for SMBIOS version 2.3 and later, appears at offset 13h
/// within the BIOS Information structure.
///
/// Bitfield for BIOS Characteristics Extension Byte 2
/// BIOS Characteristics Extension Byte 2 bitfield
#[derive(Debug, Clone, Copy)]
pub struct MbceSystemReserved(pub u8);

impl MbceSystemReserved {
    /// Gets the ACPI is supported bit
    pub fn acpi_is_supported(&self) -> (r: bool)
        ensures
            r == ((self.0 >> 0u32) & 1 == 1),
    {
        (self.0 >> 0u32) & 1 == 1
    }

    /// Gets the USB legacy is supported bit
    pub fn usb_legacy_is_supported(&self) -> (r: bool)
        ensures
            r == ((self.0 >> 1u32) & 1 == 1),
    {
        (self.0 >> 1u32) & 1 == 1
    }

    /// Gets the AGP is supported bit
    pub fn agp_is_supported(&self) -> (r: bool)
        ensures
            r == ((self.0 >> 2u32) & 1 == 1),
    {
        (self.0 >> 2u32) & 1 == 1
    }

    /// Gets the I2O boot is supported bit
    pub fn i2o_boot_is_supported(&self) -> (r: bool)
        ensures
            r == ((self.0 >> 3u32) & 1 == 1),
    {
        (self.0 >> 3u32) & 1 == 1
    }

    /// Gets the LS-120 boot is supported bit
    pub fn ls120_boot_is_supported(&self) -> (r: bool)
        ensures
            r == ((self.0 >> 4u32) & 1 == 1),
    {
        (self.0 >> 4u32) & 1 == 1
    }

    /// Gets the ATAPI ZIP drive boot is supported bit
    pub fn atapi_zip_drive_boot_is_supported(&self) -> (r: bool)
        ensures
            r == ((self.0 >> 5u32) & 1 == 1),
    {
        (self.0 >> 5u32) & 1 == 1
    }

    /// Gets the boot 1394 is supported bit
    pub fn boot_1394_is_supported(&self) -> (r: bool)
        ensures
            r == ((self.0 >> 6u32) & 1 == 1),
    {
        (self.0 >> 6u32) & 1 == 1
    }

    /// Gets the smart battery is supported bit
    pub fn smart_battery_is_supported(&self) -> (r: bool)
        ensures
            r == ((self.0 >> 7u32) & 1 == 1),
    {
        (self.0 >> 7u32) & 1 == 1
    }
}

/// Extended BIOS characteristics flags
pub struct MiscBiosCharacteristicsExt {
    /// BIOS reserved flags
    pub bios_reserved: MbceBiosReserved,
    /// System reserved flags
    pub system_reserved: MbceSystemReserved,
}

/// Extended BIOS ROM size (SMBIOS 3.1.0+). Layout: bits 0..=13 size, bits 14..=15 unit.
#[derive(Copy, Clone, Debug, PartialEq, Eq)]
pub struct ExtendedBiosRomSize {
    /// Raw extended BIOS ROM size
    pub raw: u16,
}

impl ExtendedBiosRomSize {
    /// The size portion: bits 0 to 13.
    pub fn size(&self) -> (r: u16)
        ensures
            r == self.raw & 0x3FFF,
    {
        self.raw & 0x3FFF
    }

    /// The unit portion: bits 14 and 15.
    pub fn unit(&self) -> (r: u8)
        ensures
            r == ((self.raw >> 14u32) & 0x3) as u8,
    {
        ((self.raw >> 14u32) & 0x3) as u8
    }
}

/// A 32-bit signature made of four bytes, the first in the least
/// significant byte.
pub fn signature_32(a: u8, b: u8, c: u8, d: u8) -> (r: u32)
    ensures
        r == a + b * 0x100 + c * 0x1_0000 + d * 0x100_0000,
{
    let r = (a as u32) + (b as u32) * 0x100 + (c as u32) * 0x1_0000 + (d as u32) * 0x100_0000;
    r
}

/// BIOS Information (Type 0)
pub struct SmbiosTableType0 {
    /// Structure header
    pub hdr: SmbiosStructure,
    /// Vendor string
    pub vendor: SmbiosTableString,
    /// BIOS version string
    pub bios_version: SmbiosTableString,
    /// BIOS segment
    pub bios_segment: u16,
    /// BIOS release date string
    pub bios_release_date: SmbiosTableString,
    /// BIOS size
    pub bios_size: u8,
    /// BIOS characteristics
    pub bios_characteristics: MiscBiosCharacteristics,
    /// BIOS characteristics extension bytes
    pub bios_characteristics_ext_bytes: [u8; 2],
    /// System BIOS major release
    pub system_bios_major_release: u8,
    /// System BIOS minor release
    pub system_bios_minor_release: u8,
    /// Embedded controller firmware major release
    pub embedded_controller_firmware_major_release: u8,
    /// Embedded controller firmware minor release
    pub embedded_controller_firmware_minor_release: u8,
    /// Extended BIOS size (SMBIOS 3.1.0+)
    pub extended_bios_size: ExtendedBiosRomSize,
}

/// System Wake-up Type
pub enum MiscSystemWakeupType {
    /// Reserved
    SystemWakeupTypeReserved,
    /// Other
    SystemWakeupTypeOther,
    /// Unknown
    SystemWakeupTypeUnknown,
    /// Wakeup by APM timer
    SystemWakeupTypeApmTimer,
    /// Wakeup by modem ring
    SystemWakeupTypeModemRing,
    /// Wakeup by LAN remote
    SystemWakeupTypeLanRemote,
    /// Wakeup by power switch
    SystemWakeupTypePowerSwitch,
    /// Wakeup by PCI PME
    SystemWakeupTypePciPme,
    /// Wakeup by AC power restored
    SystemWakeupTypeAcPowerRestored,
}

impl MiscSystemWakeupType {
    /// The number of the variant in the SMBIOS specification.
    pub open spec fn spec_value(&self) -> u8 {
        match self {
            MiscSystemWakeupType::SystemWakeupTypeReserved => 0,
            MiscSystemWakeupType::SystemWakeupTypeOther => 1,
            MiscSystemWakeupType::SystemWakeupTypeUnknown => 2,
            MiscSystemWakeupType::SystemWakeupTypeApmTimer => 3,
            MiscSystemWakeupType::SystemWakeupTypeModemRing => 4,
            MiscSystemWakeupType::SystemWakeupTypeLanRemote => 5,
            MiscSystemWakeupType::SystemWakeupTypePowerSwitch => 6,
            MiscSystemWakeupType::SystemWakeupTypePciPme => 7,
            MiscSystemWakeupType::SystemWakeupTypeAcPowerRestored => 8,
        }
    }

    /// The number of the variant in the SMBIOS specification.
    pub fn value(&self) -> (r: u8)
        ensures
            r == self.spec_value(),
    {
        match self {
            MiscSystemWakeupType::SystemWakeupTypeReserved => 0,
            MiscSystemWakeupType::SystemWakeupTypeOther => 1,
            MiscSystemWakeupType::SystemWakeupTypeUnknown => 2,
            MiscSystemWakeupType::SystemWakeupTypeApmTimer => 3,
            MiscSystemWakeupType::SystemWakeupTypeModemRing => 4,
            MiscSystemWakeupType::SystemWakeupTypeLanRemote => 5,
            MiscSystemWakeupType::SystemWakeupTypePowerSwitch => 6,
            MiscSystemWakeupType::SystemWakeupTypePciPme => 7,
            MiscSystemWakeupType::SystemWakeupTypeAcPowerRestored => 8,
        }
    }
}

/// System Information (Type 1).
///
/// The information in this structure defines attributes of the overall system and is
/// intended to be associated with the Component ID group of the system's MIF.
/// An SMBIOS implementation is associated with a single system instance and contains
/// one and only one System Information (Type 1) structure.
pub struct SmbiosTableType1 {}

///  Base Board - Board Type.
/// Base Board - Board Type.
pub enum BaseBoardType {
    /// Unknown baseboard type
    Unknown,
    /// Other baseboard type
    Other,
    /// Server blade baseboard type
    ServerBlade,
    /// Connectivity switch baseboard type
    ConnectivitySwitch,
    /// System management module baseboard type
    SystemManagementModule,
    /// Processor module baseboard type
    ProcessorModule,
    /// IO module baseboard type
    IOModule,
    /// Memory module baseboard type
    MemoryModule,
    /// Daughter board baseboard type
    DaughterBoard,
    /// Motherboard baseboard type
    MotherBoard,
    /// Processor memory module baseboard type
    ProcessorMemoryModule,
    /// Processor IO module baseboard type
    ProcessorIOModule,
    /// Interconnect board baseboard type
    InterconnectBoard,
}

impl BaseBoardType {
    /// The number of the variant in the SMBIOS specification.
    pub open spec fn spec_value(&self) -> u8 {
        match self {
            BaseBoardType::Unknown => 1,
            BaseBoardType::Other => 2,
            BaseBoardType::ServerBlade => 3,
            BaseBoardType::ConnectivitySwitch => 4,
            BaseBoardType::SystemManagementModule => 5,
            BaseBoardType::ProcessorModule => 6,
            BaseBoardType::IOModule => 7,
            BaseBoardType::MemoryModule => 8,
            BaseBoardType::DaughterBoard => 9,
            BaseBoardType::MotherBoard => 0xa,
            BaseBoardType::ProcessorMemoryModule => 0xb,
            BaseBoardType::ProcessorIOModule => 0xc,
            BaseBoardType::InterconnectBoard => 0xd,
        }
    }

    /// The number of the variant in the SMBIOS specification.
    pub fn value(&self) -> (r: u8)
        ensures
            r == self.spec_value(),
    {
        match self {
            BaseBoardType::Unknown => 1,
            BaseBoardType::Other => 2,
            BaseBoardType::ServerBlade => 3,
            BaseBoardType::ConnectivitySwitch => 4,
            BaseBoardType::SystemManagementModule => 5,
            BaseBoardType::ProcessorModule => 6,
            BaseBoardType::IOModule => 7,
            BaseBoardType::MemoryModule => 8,
            BaseBoardType::DaughterBoard => 9,
            BaseBoardType::MotherBoard => 0xa,
            BaseBoardType::ProcessorMemoryModule => 0xb,
            BaseBoardType::ProcessorIOModule => 0xc,
            BaseBoardType::InterconnectBoard => 0xd,
        }
    }
}

/// Base Board (or Module) Information (Type 2).
///
/// The information in this structure defines attributes of a system baseboard -
/// for example a motherboard, planar, or server blade or other standard system module.
pub struct SmbiosTableType2 {
    /// Structure header
    pub hdr: SmbiosStructure,
    /// Manufacturer string
    pub manufacturer: SmbiosTableString,
    /// Product name string
    pub product_name: SmbiosTableString,
    /// Version string
    pub version: SmbiosTableString,
    /// Serial number string
    pub serial_number: SmbiosTableString,
    /// Asset tag string
    pub asset_tag: SmbiosTableString,
    /// Feature flags
    pub feature_flag: BaseBoardFeatureFlags,
    /// Location in chassis string
    pub location_in_chassis: SmbiosTableString,
    /// Chassis handle
    pub chassis_handle: u16,
    /// Board type
    pub board_type: u8,
    /// Number of contained object handles
    pub number_of_contained_object_handles: u8,
    /// Array of contained object handles
    pub contained_object_handles: [u16; 1],
}

/// System Enclosure or Chassis Types
pub enum MiscChassisType {
    /// Other chassis type
    MiscChassisTypeOther,
    /// Unknown chassis type
    MiscChassisTypeUnknown,
    /// Desktop chassis type
    MiscChassisTypeDeskTop,
    /// Low profile desktop chassis type
    MiscChassisTypeLowProfileDesktop,
    /// Pizza box chassis type
    MiscChassisTypePizzaBox,
    /// Mini tower chassis type
    MiscChassisTypeMiniTower,
    /// Tower chassis type
    MiscChassisTypeTower,
    /// Portable chassis type
    MiscChassisTypePortable,
    /// Laptop chassis type
    MiscChassisTypeLapTop,
    /// Notebook chassis type
    MiscChassisTypeNotebook,
    /// Handheld chassis type
    MiscChassisTypeHandHeld,
    /// Docking station chassis type
    MiscChassisTypeDockingStation,
    /// All-in-one chassis type
    MiscChassisTypeAllInOne,
    /// Sub-notebook chassis type
    MiscChassisTypeSubNotebook,
    /// Space-saving chassis type
    MiscChassisTypeSpaceSaving,
    /// Lunch box chassis type
    MiscChassisTypeLunchBox,
    /// Main server chassis type
    MiscChassisTypeMainServerChassis,
    /// Expansion chassis type
    MiscChassisTypeExpansionChassis,
    /// Sub chassis type
    MiscChassisTypeSubChassis,
    /// Bus expansion chassis type
    MiscChassisTypeBusExpansionChassis,
    /// Peripheral chassis type
    MiscChassisTypePeripheralChassis,
    /// RAID chassis type
    MiscChassisTypeRaidChassis,
    /// Rack mount chassis type
    MiscChassisTypeRackMountChassis,
    /// Sealed case PC chassis type
    MiscChassisTypeSealedCasePc,
    /// Multi-system chassis type
    MiscChassisMultiSystemChassis,
    /// CompactPCI chassis type
    MiscChassisCompactPCI,
    /// AdvancedTCA chassis type
    MiscChassisAdvancedTCA,
    /// Blade chassis type
    MiscChassisBlade,
    /// Blade enclosure chassis type
    MiscChassisBladeEnclosure,
    /// Tablet chassis type
    MiscChassisTablet,
    /// Convertible chassis type
    MiscChassisConvertible,
    /// Detachable chassis type
    MiscChassisDetachable,
    /// IoT gateway chassis type
    MiscChassisIoTGateway,
    /// Embedded PC chassis type
    MiscChassisEmbeddedPc,
    /// Mini PC chassis type
    MiscChassisMiniPc,
    /// Stick PC chassis type
    MiscChassisStickPc,
}

impl MiscChassisType {
    /// The number of the variant in the SMBIOS specification.
    pub open spec fn spec_value(&self) -> u8 {
        match self {
            MiscChassisType::MiscChassisTypeOther => 1,
            MiscChassisType::MiscChassisTypeUnknown => 2,
            MiscChassisType::MiscChassisTypeDeskTop => 3,
            MiscChassisType::MiscChassisTypeLowProfileDesktop => 4,
            MiscChassisType::MiscChassisTypePizzaBox => 5,
            MiscChassisType::MiscChassisTypeMiniTower => 6,
            MiscChassisType::MiscChassisTypeTower => 7,
            MiscChassisType::MiscChassisTypePortable => 8,
            MiscChassisType::MiscChassisTypeLapTop => 9,
            MiscChassisType::MiscChassisTypeNotebook => 0xa,
            MiscChassisType::MiscChassisTypeHandHeld => 0xb,
            MiscChassisType::MiscChassisTypeDockingStation => 0xc,
            MiscChassisType::MiscChassisTypeAllInOne => 0xd,
            MiscChassisType::MiscChassisTypeSubNotebook => 0xe,
            MiscChassisType::MiscChassisTypeSpaceSaving => 0xf,
            MiscChassisType::MiscChassisTypeLunchBox => 0x10,
            MiscChassisType::MiscChassisTypeMainServerChassis => 0x11,
            MiscChassisType::MiscChassisTypeExpansionChassis => 0x12,
            MiscChassisType::MiscChassisTypeSubChassis => 0x13,
            MiscChassisType::MiscChassisTypeBusExpansionChassis => 0x14,
            MiscChassisType::MiscChassisTypePeripheralChassis => 0x15,
            MiscChassisType::MiscChassisTypeRaidChassis => 0x16,
            MiscChassisType::MiscChassisTypeRackMountChassis => 0x17,
            MiscChassisType::MiscChassisTypeSealedCasePc => 0x18,
            MiscChassisType::MiscChassisMultiSystemChassis => 0x19,
            MiscChassisType::MiscChassisCompactPCI => 0x1a,
            MiscChassisType::MiscChassisAdvancedTCA => 0x1b,
            MiscChassisType::MiscChassisBlade => 0x1c,
            MiscChassisType::MiscChassisBladeEnclosure => 0x1d,
            MiscChassisType::MiscChassisTablet => 0x1e,
            MiscChassisType::MiscChassisConvertible => 0x1f,
            MiscChassisType::MiscChassisDetachable => 0x20,
            MiscChassisType::MiscChassisIoTGateway => 0x21,
            MiscChassisType::MiscChassisEmbeddedPc => 0x22,
            MiscChassisType::MiscChassisMiniPc => 0x23,
            MiscChassisType::MiscChassisStickPc => 0x24,
        }
    }

    /// The number of the variant in the SMBIOS specification.
    pub fn value(&self) -> (r: u8)
        ensures
            r == self.spec_value(),
    {
        match self {
            MiscChassisType::MiscChassisTypeOther => 1,
            MiscChassisType::MiscChassisTypeUnknown => 2,
            MiscChassisType::MiscChassisTypeDeskTop => 3,
            MiscChassisType::MiscChassisTypeLowProfileDesktop => 4,
            MiscChassisType::MiscChassisTypePizzaBox => 5,
            MiscChassisType::MiscChassisTypeMiniTower => 6,
            MiscChassisType::MiscChassisTypeTower => 7,
            MiscChassisType::MiscChassisTypePortable => 8,
            MiscChassisType::MiscChassisTypeLapTop => 9,
            MiscChassisType::MiscChassisTypeNotebook => 0xa,
            MiscChassisType::MiscChassisTypeHandHeld => 0xb,
            MiscChassisType::MiscChassisTypeDockingStation => 0xc,
            MiscChassisType::MiscChassisTypeAllInOne => 0xd,
            MiscChassisType::MiscChassisTypeSubNotebook => 0xe,
            MiscChassisType::MiscChassisTypeSpaceSaving => 0xf,
            MiscChassisType::MiscChassisTypeLunchBox => 0x10,
            MiscChassisType::MiscChassisTypeMainServerChassis => 0x11,
            MiscChassisType::MiscChassisTypeExpansionChassis => 0x12,
            MiscChassisType::MiscChassisTypeSubChassis => 0x13,
            MiscChassisType::MiscChassisTypeBusExpansionChassis => 0x14,
            MiscChassisType::MiscChassisTypePeripheralChassis => 0x15,
            MiscChassisType::MiscChassisTypeRaidChassis => 0x16,
            MiscChassisType::MiscChassisTypeRackMountChassis => 0x17,
            MiscChassisType::MiscChassisTypeSealedCasePc => 0x18,
            MiscChassisType::MiscChassisMultiSystemChassis => 0x19,
            MiscChassisType::MiscChassisCompactPCI => 0x1a,
            MiscChassisType::MiscChassisAdvancedTCA => 0x1b,
            MiscChassisType::MiscChassisBlade => 0x1c,
            MiscChassisType::MiscChassisBladeEnclosure => 0x1d,
            MiscChassisType::MiscChassisTablet => 0x1e,
            MiscChassisType::MiscChassisConvertible => 0x1f,
            MiscChassisType::MiscChassisDetachable => 0x20,
            MiscChassisType::MiscChassisIoTGateway => 0x21,
            MiscChassisType::MiscChassisEmbeddedPc => 0x22,
            MiscChassisType::MiscChassisMiniPc => 0x23,
            MiscChassisType::MiscChassisStickPc => 0x24,
        }
    }
}

/// System Enclosure or Chassis States .
pub enum MiscChassisState {
    /// Other chassis state
    ChassisStateOther,
    /// Unknown chassis state
    ChassisStateUnknown,
    /// Safe chassis state
    ChassisStateSafe,
    /// Chassis state warning
    ChassisStateWarning,
    /// Chassis state critical
    ChassisStateCritical,
    /// Chassis state non-recoverable
    ChassisStateNonRecoverable,
}

impl MiscChassisState {
    /// The number of the variant in the SMBIOS specification.
    pub open spec fn spec_value(&self) -> u8 {
        match self {
            MiscChassisState::ChassisStateOther => 1,
            MiscChassisState::ChassisStateUnknown => 2,
            MiscChassisState::ChassisStateSafe => 3,
            MiscChassisState::ChassisStateWarning => 4,
            MiscChassisState::ChassisStateCritical => 5,
            MiscChassisState::ChassisStateNonRecoverable => 6,
        }
    }

    /// The number of the variant in the SMBIOS specification.
    pub fn value(&self) -> (r: u8)
        ensures
            r == self.spec_value(),
    {
        match self {
            MiscChassisState::ChassisStateOther => 1,
            MiscChassisState::ChassisStateUnknown => 2,
            MiscChassisState::ChassisStateSafe => 3,
            MiscChassisState::ChassisStateWarning => 4,
            MiscChassisState::ChassisStateCritical => 5,
            MiscChassisState::ChassisStateNonRecoverable => 6,
        }
    }
}

/// System Enclosure or Chassis Security Status.
pub enum MiscChassisSecurityState {
    /// Chassis security status other
    ChassisSecurityStatusOther,
    /// Chassis security status unknown
    ChassisSecurityStatusUnknown,
    /// Chassis security status none
    ChassisSecurityStatusNone,
    /// Chassis security status external interface locked out
    ChassisSecurityStatusExternalInterfaceLockedOut,
    /// Chassis security status external interface locked enabled
    ChassisSecurityStatusExternalInterfaceLockedEnabled,
}

impl MiscChassisSecurityState {
    /// The number of the variant in the SMBIOS specification.
    pub open spec fn spec_value(&self) -> u8 {
        match self {
            MiscChassisSecurityState::ChassisSecurityStatusOther => 1,
            MiscChassisSecurityState::ChassisSecurityStatusUnknown => 2,
            MiscChassisSecurityState::ChassisSecurityStatusNone => 3,
            MiscChassisSecurityState::ChassisSecurityStatusExternalInterfaceLockedOut => 4,
            MiscChassisSecurityState::ChassisSecurityStatusExternalInterfaceLockedEnabled => 5,
        }
    }

    /// The number of the variant in the SMBIOS specification.
    pub fn value(&self) -> (r: u8)
        ensures
            r == self.spec_value(),
    {
        match self {
            MiscChassisSecurityState::ChassisSecurityStatusOther => 1,
            MiscChassisSecurityState::ChassisSecurityStatusUnknown => 2,
            MiscChassisSecurityState::ChassisSecurityStatusNone => 3,
            MiscChassisSecurityState::ChassisSecurityStatusExternalInterfaceLockedOut => 4,
            MiscChassisSecurityState::ChassisSecurityStatusExternalInterfaceLockedEnabled => 5,
        }
    }
}

/// Contained Element record
pub struct ContainedElement {
    /// Type of contained element
    pub contained_element_type: u8,
    /// Minimum number of contained elements
    pub contained_element_minimum: u8,
    /// Maximum number of contained elements
    pub contained_element_maximum: u8,
}

/// System Enclosure or Chassis (Type 3).
///
/// The information in this structure defines attributes of the system's mechanical enclosure(s).
/// For example, if a system included a separate enclosure for its peripheral devices,
/// two structures would be returned: one for the main, system enclosure and the second for
/// the peripheral device enclosure.  The additions to this structure in v2.1 of this specification
/// support the population of the CIM_Chassis class.
pub struct SmbiosTableType3 {
    /// Structure header
    pub hdr: SmbiosStructure,
    /// Manufacturer string
    pub manufacturer: SmbiosTableString,
    /// Chassis type
    pub chassis_type: u8,
    /// Version string
    pub version: SmbiosTableString,
    /// Serial number string
    pub serial_number: SmbiosTableString,
    /// Asset tag string
    pub asset_tag: SmbiosTableString,
    /// Bootup state
    pub bootup_state: u8,
    /// Power supply state
    pub power_supply_state: u8,
    /// Thermal state
    pub thermal_state: u8,
    /// Security status
    pub security_status: u8,
    /// OEM defined data
    pub oem_defined: [u8; 4],
    /// Chassis height
    pub height: u8,
    /// Number of power cords
    pub numberof_power_cords: u8,
    /// Number of contained elements
    pub contained_element_count: u8,
    /// Length of contained element record
    pub contained_element_record_length: u8,
}

/// Processor Information - Processor Type.
pub enum ProcessorTypeData {
    /// Other processor type
    ProcessorOther,
    /// Unknown processor type
    ProcessorUnknown,
    /// Central processor
    CentralProcessor,
    /// Math processor
    MathProcessor,
    /// DSP processor
    DspProcessor,
    /// Video processor
    VideoProcessor,
}

impl ProcessorTypeData {
    /// The number of the variant in the SMBIOS specification.
    pub open spec fn spec_value(&self) -> u8 {
        match self {
            ProcessorTypeData::ProcessorOther => 1,
            ProcessorTypeData::ProcessorUnknown => 2,
            ProcessorTypeData::CentralProcessor => 3,
            ProcessorTypeData::MathProcessor => 4,
            ProcessorTypeData::DspProcessor => 5,
            ProcessorTypeData::VideoProcessor => 6,
        }
    }

    /// The number of the variant in the SMBIOS specification.
    pub fn value(&self) -> (r: u8)
        ensures
            r == self.spec_value(),
    {
        match self {
            ProcessorTypeData::ProcessorOther => 1,
            ProcessorTypeData::ProcessorUnknown => 2,
            ProcessorTypeData::CentralProcessor => 3,
            ProcessorTypeData::MathProcessor => 4,
            ProcessorTypeData::DspProcessor => 5,
            ProcessorTypeData::VideoProcessor => 6,
        }
    }
}

/// Processor Information - Processor Family.
pub enum ProcessorFamilyData {
    /// Other processor family
    ProcessorFamilyOther,
    /// Unknown processor family
    ProcessorFamilyUnknown,
    /// Intel 8086 processor family
    ProcessorFamily8086,
    /// Intel 80286 processor family
    ProcessorFamily80286,
    /// Intel 386 processor family
    ProcessorFamilyIntel386,
    /// Intel 486 processor family
    ProcessorFamilyIntel486,
    /// Intel 8087 processor family
    ProcessorFamily8087,
    /// Intel 80287 processor family
    ProcessorFamily80287,
    /// Intel 80387 processor family
    ProcessorFamily80387,
    /// Intel 80487 processor family
    ProcessorFamily80487,
    /// Intel Pentium processor family
    ProcessorFamilyPentium,
    /// Intel Pentium Pro processor family
    ProcessorFamilyPentiumPro,
    /// Intel Pentium II processor family
    ProcessorFamilyPentiumII,
    /// Intel Pentium MMX processor family
    ProcessorFamilyPentiumMMX,
    /// Intel Celeron processor family
    ProcessorFamilyCeleron,
    /// Intel Pentium II Xeon processor family
    ProcessorFamilyPentiumIIXeon,
    /// Intel Pentium III processor family
    ProcessorFamilyPentiumIII,
    /// M1 processor family
    ProcessorFamilyM1,
    /// M2 processor family
    ProcessorFamilyM2,
    /// Intel Celeron M processor family
    ProcessorFamilyIntelCeleronM,
    /// Intel Pentium 4 HT processor family
    ProcessorFamilyIntelPentium4Ht,
    /// AMD Duron processor family
    ProcessorFamilyAmdDuron,
    /// AMD K5 processor family
    ProcessorFamilyK5,
    /// AMD K6 processor family
    ProcessorFamilyK6,
    /// AMD K6-2 processor family
    ProcessorFamilyK6_2,
    /// AMD K6-3 processor family
    ProcessorFamilyK6_3,
    /// AMD Athlon processor family
    ProcessorFamilyAmdAthlon,
    /// AMD 29000 processor family
    ProcessorFamilyAmd29000,
    /// AMD K6-2 Plus processor family
    ProcessorFamilyK6_2Plus,
    /// PowerPC processor family
    ProcessorFamilyPowerPC,
    /// PowerPC 601 family
    ProcessorFamilyPowerPC601,
    /// PowerPC 603 family
    ProcessorFamilyPowerPC603,
    /// PowerPC 603 Plus family
    ProcessorFamilyPowerPC603Plus,
    /// PowerPC 604 family
    ProcessorFamilyPowerPC604,
    /// PowerPC 620 family
    ProcessorFamilyPowerPC620,
    /// PowerPC x704 family
    ProcessorFamilyPowerPCx704,
    /// PowerPC 750 family
    ProcessorFamilyPowerPC750,
    /// Intel Core Duo family
    ProcessorFamilyIntelCoreDuo,
    /// Intel Core Duo Mobile family
    ProcessorFamilyIntelCoreDuoMobile,
    /// Intel Core Solo Mobile family
    ProcessorFamilyIntelCoreSoloMobile,
    /// Intel Atom family
    ProcessorFamilyIntelAtom,
    /// Intel Core M family
    ProcessorFamilyIntelCoreM,
    /// Intel Core m3 family
    ProcessorFamilyIntelCorem3,
    /// Intel Core m5 family
    ProcessorFamilyIntelCorem5,
    /// Intel Core m7 family
    ProcessorFamilyIntelCorem7,
    /// Alpha family
    ProcessorFamilyAlpha,
    /// Alpha 21064 family
    ProcessorFamilyAlpha21064,
    /// Alpha 21066 family
    ProcessorFamilyAlpha21066,
    /// Alpha 21164 family
    ProcessorFamilyAlpha21164,
    /// Alpha 21164PC family
    ProcessorFamilyAlpha21164PC,
    /// Alpha 21164a family
    ProcessorFamilyAlpha21164a,
    /// Alpha 21264 family
    ProcessorFamilyAlpha21264,
    /// Alpha 21364 family
    ProcessorFamilyAlpha21364,
    /// AMD Turion II Ultra Dual Core Mobile M family
    ProcessorFamilyAmdTurionIIUltraDualCoreMobileM,
    /// AMD Turion II Dual Core Mobile M family
    ProcessorFamilyAmdTurionIIDualCoreMobileM,
    /// AMD Athlon II Dual Core M family
    ProcessorFamilyAmdAthlonIIDualCoreM,
    /// AMD Opteron 6100 Series family
    ProcessorFamilyAmdOpteron6100Series,
    /// AMD Opteron 4100 Series family
    ProcessorFamilyAmdOpteron4100Series,
    /// AMD Opteron 6200 Series family
    ProcessorFamilyAmdOpteron6200Series,
    /// AMD Opteron 4200 Series family
    ProcessorFamilyAmdOpteron4200Series,
    /// AMD FX Series family
    ProcessorFamilyAmdFxSeries,
    /// MIPS family
    ProcessorFamilyMips,
    /// MIPS R4000 family
    ProcessorFamilyMIPSR4000,
    /// MIPS R4200 family
    ProcessorFamilyMIPSR4200,
    /// MIPS R4400 family
    ProcessorFamilyMIPSR4400,
    /// MIPS R4600 family
    ProcessorFamilyMIPSR4600,
    /// MIPS R10000 family
    ProcessorFamilyMIPSR10000,
    /// AMD C Series family
    ProcessorFamilyAmdCSeries,
    /// AMD E Series family
    ProcessorFamilyAmdESeries,
    /// AMD A Series family (SMBIOS spec 2.8.0 updated the name)
    ProcessorFamilyAmdASeries,
    /// AMD G Series family
    ProcessorFamilyAmdGSeries,
    /// AMD Z Series family
    ProcessorFamilyAmdZSeries,
    /// AMD R Series family
    ProcessorFamilyAmdRSeries,
    /// AMD Opteron 4300 family
    ProcessorFamilyAmdOpteron4300,
    /// AMD Opteron 6300 family
    ProcessorFamilyAmdOpteron6300,
    /// AMD Opteron 3300 family
    ProcessorFamilyAmdOpteron3300,
    /// AMD FirePro Series family
    ProcessorFamilyAmdFireProSeries,
    /// SPARC family
    ProcessorFamilySparc,
    /// SuperSPARC family
    ProcessorFamilySuperSparc,
    /// microSPARC II family
    ProcessorFamilymicroSparcII,
    /// microSPARC IIep family
    ProcessorFamilymicroSparcIIep,
    /// UltraSPARC family
    ProcessorFamilyUltraSparc,
    /// UltraSPARC II family
    ProcessorFamilyUltraSparcII,
    /// UltraSPARC III family
    ProcessorFamilyUltraSparcIii,
    /// UltraSPARC III family
    ProcessorFamilyUltraSparcIII,
    /// UltraSPARC IIIi family
    ProcessorFamilyUltraSparcIIIi,
    /// Motorola 68040 family
    ProcessorFamily68040,
    /// Motorola 68xxx family
    ProcessorFamily68xxx,
    /// Motorola 68000 family
    ProcessorFamily68000,
    /// Motorola 68010 family
    ProcessorFamily68010,
    /// Motorola 68020 family
    ProcessorFamily68020,
    /// Motorola 68030 family
    ProcessorFamily68030,
    /// AMD Athlon X4 Quad Core family
    ProcessorFamilyAmdAthlonX4QuadCore,
    /// AMD Opteron X1000 Series family
    ProcessorFamilyAmdOpteronX1000Series,
    /// AMD Opteron X2000 Series family
    ProcessorFamilyAmdOpteronX2000Series,
    /// AMD Opteron A Series family
    ProcessorFamilyAmdOpteronASeries,
    /// AMD Opteron X3000 Series family
    ProcessorFamilyAmdOpteronX3000Series,
    /// AMD Zen family
    ProcessorFamilyAmdZen,
    /// Hobbit family
    ProcessorFamilyHobbit,
    /// Crusoe TM5000 family
    ProcessorFamilyCrusoeTM5000,
    /// Crusoe TM3000 family
    ProcessorFamilyCrusoeTM3000,
    /// Efficeon TM8000 family
    ProcessorFamilyEfficeonTM8000,
    /// Weitek family
    ProcessorFamilyWeitek,
    /// Itanium family
    ProcessorFamilyItanium,
    /// AMD Athlon 64 family
    ProcessorFamilyAmdAthlon64,
    /// AMD Opteron family
    ProcessorFamilyAmdOpteron,
    /// AMD Sempron family
    ProcessorFamilyAmdSempron,
    /// AMD Turion 64 Mobile family
    ProcessorFamilyAmdTurion64Mobile,
    /// Dual Core AMD Opteron family
    ProcessorFamilyDualCoreAmdOpteron,
    /// AMD Athlon 64 X2 Dual Core family
    ProcessorFamilyAmdAthlon64X2DualCore,
    /// AMD Turion 64 X2 Mobile family
    ProcessorFamilyAmdTurion64X2Mobile,
    /// Quad Core AMD Opteron family
    ProcessorFamilyQuadCoreAmdOpteron,
    /// Third Generation AMD Opteron family
    ProcessorFamilyThirdGenerationAmdOpteron,
    /// AMD Phenom FX Quad Core family
    ProcessorFamilyAmdPhenomFxQuadCore,
    /// AMD Phenom X4 Quad Core family
    ProcessorFamilyAmdPhenomX4QuadCore,
    /// AMD Phenom X2 Dual Core family
    ProcessorFamilyAmdPhenomX2DualCore,
    /// AMD Athlon X2 Dual Core family
    ProcessorFamilyAmdAthlonX2DualCore,
    /// PA-RISC family
    ProcessorFamilyPARISC,
    /// PA-RISC 8500 family
    ProcessorFamilyPaRisc8500,
    /// PA-RISC 8000 family
    ProcessorFamilyPaRisc8000,
    /// PA-RISC 7300LC family
    ProcessorFamilyPaRisc7300LC,
    /// PA-RISC 7200 family
    ProcessorFamilyPaRisc7200,
    /// PA-RISC 7100LC family
    ProcessorFamilyPaRisc7100LC,
    /// PA-RISC 7100 family
    ProcessorFamilyPaRisc7100,
    /// V30 family
    ProcessorFamilyV30,
    /// Quad Core Intel Xeon 3200 Series family
    ProcessorFamilyQuadCoreIntelXeon3200Series,
    /// Dual Core Intel Xeon 3000 Series family
    ProcessorFamilyDualCoreIntelXeon3000Series,
    /// Quad Core Intel Xeon 5300 Series family
    ProcessorFamilyQuadCoreIntelXeon5300Series,
    /// Dual-core Intel Xeon 5100 Series processor family
    ProcessorFamilyDualCoreIntelXeon5100Series,
    /// Dual-core Intel Xeon 5000 Series processor family
    ProcessorFamilyDualCoreIntelXeon5000Series,
    /// Dual-core Intel Xeon LV processor family
    ProcessorFamilyDualCoreIntelXeonLV,
    /// Dual-core Intel Xeon ULV processor family
    ProcessorFamilyDualCoreIntelXeonULV,
    /// Dual-core Intel Xeon 7100 Series processor family
    ProcessorFamilyDualCoreIntelXeon7100Series,
    /// Quad-core Intel Xeon 5400 Series processor family
    ProcessorFamilyQuadCoreIntelXeon5400Series,
    /// Quad-core Intel Xeon processor family
    ProcessorFamilyQuadCoreIntelXeon,
    /// Dual-core Intel Xeon 5200 Series processor family
    ProcessorFamilyDualCoreIntelXeon5200Series,
    /// Dual-core Intel Xeon 7200 Series processor family
    ProcessorFamilyDualCoreIntelXeon7200Series,
    /// Quad-core Intel Xeon 7300 Series processor family
    ProcessorFamilyQuadCoreIntelXeon7300Series,
    /// Quad-core Intel Xeon 7400 Series processor family
    ProcessorFamilyQuadCoreIntelXeon7400Series,
    /// Multi-core Intel Xeon 7400 Series processor family
    ProcessorFamilyMultiCoreIntelXeon7400Series,
    /// Pentium III Xeon processor family
    ProcessorFamilyPentiumIIIXeon,
    /// Pentium III SpeedStep processor family
    ProcessorFamilyPentiumIIISpeedStep,
    /// Pentium 4 processor family
    ProcessorFamilyPentium4,
    /// Intel Xeon processor family
    ProcessorFamilyIntelXeon,
    /// AS400 processor family
    ProcessorFamilyAS400,
    /// Intel Xeon MP processor family
    ProcessorFamilyIntelXeonMP,
    /// AMD Athlon XP processor family
    ProcessorFamilyAMDAthlonXP,
    /// AMD Athlon MP processor family
    ProcessorFamilyAMDAthlonMP,
    /// Intel Itanium 2 processor family
    ProcessorFamilyIntelItanium2,
    /// Intel Pentium M processor family
    ProcessorFamilyIntelPentiumM,
    /// Intel Celeron D processor family
    ProcessorFamilyIntelCeleronD,
    /// Intel Pentium D processor family
    ProcessorFamilyIntelPentiumD,
    /// Intel Pentium Ex processor family
    ProcessorFamilyIntelPentiumEx,
    /// Intel Core Solo processor family (SMBIOS spec 2.6 updated this value)
    ProcessorFamilyIntelCoreSolo,
    /// Reserved processor family
    ProcessorFamilyReserved,
    /// Intel Core 2 processor family
    ProcessorFamilyIntelCore2,
    /// Intel Core 2 Solo processor family
    ProcessorFamilyIntelCore2Solo,
    /// Intel Core 2 Extreme processor family
    ProcessorFamilyIntelCore2Extreme,
    /// Intel Core 2 Quad processor family
    ProcessorFamilyIntelCore2Quad,
    /// Intel Core 2 Extreme Mobile processor family
    ProcessorFamilyIntelCore2ExtremeMobile,
    /// Intel Core 2 Duo Mobile processor family
    ProcessorFamilyIntelCore2DuoMobile,
    /// Intel Core 2 Solo Mobile processor family
    ProcessorFamilyIntelCore2SoloMobile,
    /// Intel Core i7 processor family
    ProcessorFamilyIntelCoreI7,
    /// Dual-core Intel Celeron processor family
    ProcessorFamilyDualCoreIntelCeleron,
    /// IBM 390 processor family
    ProcessorFamilyIBM390,
    /// Intel i860 processor family
    ProcessorFamilyi860,
    /// Intel i960 processor family
    ProcessorFamilyi960,
    /// Indicator for Processor Family 2
    ProcessorFamilyIndicatorFamily2,
    /// Reserved processor family
    ProcessorFamilyReserved1,
}

impl ProcessorFamilyData {
    /// The number of the variant in the SMBIOS specification.
    pub open spec fn spec_value(&self) -> u8 {
        match self {
            ProcessorFamilyData::ProcessorFamilyOther => 1,
            ProcessorFamilyData::ProcessorFamilyUnknown => 2,
            ProcessorFamilyData::ProcessorFamily8086 => 3,
            ProcessorFamilyData::ProcessorFamily80286 => 4,
            ProcessorFamilyData::ProcessorFamilyIntel386 => 5,
            ProcessorFamilyData::ProcessorFamilyIntel486 => 6,
            ProcessorFamilyData::ProcessorFamily8087 => 7,
            ProcessorFamilyData::ProcessorFamily80287 => 8,
            ProcessorFamilyData::ProcessorFamily80387 => 9,
            ProcessorFamilyData::ProcessorFamily80487 => 0xa,
            ProcessorFamilyData::ProcessorFamilyPentium => 0xb,
            ProcessorFamilyData::ProcessorFamilyPentiumPro => 0xc,
            ProcessorFamilyData::ProcessorFamilyPentiumII => 0xd,
            ProcessorFamilyData::ProcessorFamilyPentiumMMX => 0xe,
            ProcessorFamilyData::ProcessorFamilyCeleron => 0xf,
            ProcessorFamilyData::ProcessorFamilyPentiumIIXeon => 0x10,
            ProcessorFamilyData::ProcessorFamilyPentiumIII => 0x11,
            ProcessorFamilyData::ProcessorFamilyM1 => 0x12,
            ProcessorFamilyData::ProcessorFamilyM2 => 0x13,
            ProcessorFamilyData::ProcessorFamilyIntelCeleronM => 0x14,
            ProcessorFamilyData::ProcessorFamilyIntelPentium4Ht => 0x15,
            ProcessorFamilyData::ProcessorFamilyAmdDuron => 0x18,
            ProcessorFamilyData::ProcessorFamilyK5 => 0x19,
            ProcessorFamilyData::ProcessorFamilyK6 => 0x1a,
            ProcessorFamilyData::ProcessorFamilyK6_2 => 0x1b,
            ProcessorFamilyData::ProcessorFamilyK6_3 => 0x1c,
            ProcessorFamilyData::ProcessorFamilyAmdAthlon => 0x1d,
            ProcessorFamilyData::ProcessorFamilyAmd29000 => 0x1e,
            ProcessorFamilyData::ProcessorFamilyK6_2Plus => 0x1f,
            ProcessorFamilyData::ProcessorFamilyPowerPC => 0x20,
            ProcessorFamilyData::ProcessorFamilyPowerPC601 => 0x21,
            ProcessorFamilyData::ProcessorFamilyPowerPC603 => 0x22,
            ProcessorFamilyData::ProcessorFamilyPowerPC603Plus => 0x23,
            ProcessorFamilyData::ProcessorFamilyPowerPC604 => 0x24,
            ProcessorFamilyData::ProcessorFamilyPowerPC620 => 0x25,
            ProcessorFamilyData::ProcessorFamilyPowerPCx704 => 0x26,
            ProcessorFamilyData::ProcessorFamilyPowerPC750 => 0x27,
            ProcessorFamilyData::ProcessorFamilyIntelCoreDuo => 0x28,
            ProcessorFamilyData::ProcessorFamilyIntelCoreDuoMobile => 0x29,
            ProcessorFamilyData::ProcessorFamilyIntelCoreSoloMobile => 0x2a,
            ProcessorFamilyData::ProcessorFamilyIntelAtom => 0x2b,
            ProcessorFamilyData::ProcessorFamilyIntelCoreM => 0x2c,
            ProcessorFamilyData::ProcessorFamilyIntelCorem3 => 0x2d,
            ProcessorFamilyData::ProcessorFamilyIntelCorem5 => 0x2e,
            ProcessorFamilyData::ProcessorFamilyIntelCorem7 => 0x2f,
            ProcessorFamilyData::ProcessorFamilyAlpha => 0x30,
            ProcessorFamilyData::ProcessorFamilyAlpha21064 => 0x31,
            ProcessorFamilyData::ProcessorFamilyAlpha21066 => 0x32,
            ProcessorFamilyData::ProcessorFamilyAlpha21164 => 0x33,
            ProcessorFamilyData::ProcessorFamilyAlpha21164PC => 0x34,
            ProcessorFamilyData::ProcessorFamilyAlpha21164a => 0x35,
            ProcessorFamilyData::ProcessorFamilyAlpha21264 => 0x36,
            ProcessorFamilyData::ProcessorFamilyAlpha21364 => 0x37,
            ProcessorFamilyData::ProcessorFamilyAmdTurionIIUltraDualCoreMobileM => 0x38,
            ProcessorFamilyData::ProcessorFamilyAmdTurionIIDualCoreMobileM => 0x39,
            ProcessorFamilyData::ProcessorFamilyAmdAthlonIIDualCoreM => 0x3a,
            ProcessorFamilyData::ProcessorFamilyAmdOpteron6100Series => 0x3b,
            ProcessorFamilyData::ProcessorFamilyAmdOpteron4100Series => 0x3c,
            ProcessorFamilyData::ProcessorFamilyAmdOpteron6200Series => 0x3d,
            ProcessorFamilyData::ProcessorFamilyAmdOpteron4200Series => 0x3e,
            ProcessorFamilyData::ProcessorFamilyAmdFxSeries => 0x3f,
            ProcessorFamilyData::ProcessorFamilyMips => 0x40,
            ProcessorFamilyData::ProcessorFamilyMIPSR4000 => 0x41,
            ProcessorFamilyData::ProcessorFamilyMIPSR4200 => 0x42,
            ProcessorFamilyData::ProcessorFamilyMIPSR4400 => 0x43,
            ProcessorFamilyData::ProcessorFamilyMIPSR4600 => 0x44,
            ProcessorFamilyData::ProcessorFamilyMIPSR10000 => 0x45,
            ProcessorFamilyData::ProcessorFamilyAmdCSeries => 0x46,
            ProcessorFamilyData::ProcessorFamilyAmdESeries => 0x47,
            ProcessorFamilyData::ProcessorFamilyAmdASeries => 0x48,
            ProcessorFamilyData::ProcessorFamilyAmdGSeries => 0x49,
            ProcessorFamilyData::ProcessorFamilyAmdZSeries => 0x4a,
            ProcessorFamilyData::ProcessorFamilyAmdRSeries => 0x4b,
            ProcessorFamilyData::ProcessorFamilyAmdOpteron4300 => 0x4c,
            ProcessorFamilyData::ProcessorFamilyAmdOpteron6300 => 0x4d,
            ProcessorFamilyData::ProcessorFamilyAmdOpteron3300 => 0x4e,
            ProcessorFamilyData::ProcessorFamilyAmdFireProSeries => 0x4f,
            ProcessorFamilyData::ProcessorFamilySparc => 0x50,
            ProcessorFamilyData::ProcessorFamilySuperSparc => 0x51,
            ProcessorFamilyData::ProcessorFamilymicroSparcII => 0x52,
            ProcessorFamilyData::ProcessorFamilymicroSparcIIep => 0x53,
            ProcessorFamilyData::ProcessorFamilyUltraSparc => 0x54,
            ProcessorFamilyData::ProcessorFamilyUltraSparcII => 0x55,
            ProcessorFamilyData::ProcessorFamilyUltraSparcIii => 0x56,
            ProcessorFamilyData::ProcessorFamilyUltraSparcIII => 0x57,
            ProcessorFamilyData::ProcessorFamilyUltraSparcIIIi => 0x58,
            ProcessorFamilyData::ProcessorFamily68040 => 0x60,
            ProcessorFamilyData::ProcessorFamily68xxx => 0x61,
            ProcessorFamilyData::ProcessorFamily68000 => 0x62,
            ProcessorFamilyData::ProcessorFamily68010 => 0x63,
            ProcessorFamilyData::ProcessorFamily68020 => 0x64,
            ProcessorFamilyData::ProcessorFamily68030 => 0x65,
            ProcessorFamilyData::ProcessorFamilyAmdAthlonX4QuadCore => 0x66,
            ProcessorFamilyData::ProcessorFamilyAmdOpteronX1000Series => 0x67,
            ProcessorFamilyData::ProcessorFamilyAmdOpteronX2000Series => 0x68,
            ProcessorFamilyData::ProcessorFamilyAmdOpteronASeries => 0x69,
            ProcessorFamilyData::ProcessorFamilyAmdOpteronX3000Series => 0x6a,
            ProcessorFamilyData::ProcessorFamilyAmdZen => 0x6b,
            ProcessorFamilyData::ProcessorFamilyHobbit => 0x70,
            ProcessorFamilyData::ProcessorFamilyCrusoeTM5000 => 0x78,
            ProcessorFamilyData::ProcessorFamilyCrusoeTM3000 => 0x79,
            ProcessorFamilyData::ProcessorFamilyEfficeonTM8000 => 0x7a,
            ProcessorFamilyData::ProcessorFamilyWeitek => 0x80,
            ProcessorFamilyData::ProcessorFamilyItanium => 0x82,
            ProcessorFamilyData::ProcessorFamilyAmdAthlon64 => 0x83,
            ProcessorFamilyData::ProcessorFamilyAmdOpteron => 0x84,
            ProcessorFamilyData::ProcessorFamilyAmdSempron => 0x85,
            ProcessorFamilyData::ProcessorFamilyAmdTurion64Mobile => 0x86,
            ProcessorFamilyData::ProcessorFamilyDualCoreAmdOpteron => 0x87,
            ProcessorFamilyData::ProcessorFamilyAmdAthlon64X2DualCore => 0x88,
            ProcessorFamilyData::ProcessorFamilyAmdTurion64X2Mobile => 0x89,
            ProcessorFamilyData::ProcessorFamilyQuadCoreAmdOpteron => 0x8a,
            ProcessorFamilyData::ProcessorFamilyThirdGenerationAmdOpteron => 0x8b,
            ProcessorFamilyData::ProcessorFamilyAmdPhenomFxQuadCore => 0x8c,
            ProcessorFamilyData::ProcessorFamilyAmdPhenomX4QuadCore => 0x8d,
            ProcessorFamilyData::ProcessorFamilyAmdPhenomX2DualCore => 0x8e,
            ProcessorFamilyData::ProcessorFamilyAmdAthlonX2DualCore => 0x8f,
            ProcessorFamilyData::ProcessorFamilyPARISC => 0x90,
            ProcessorFamilyData::ProcessorFamilyPaRisc8500 => 0x91,
            ProcessorFamilyData::ProcessorFamilyPaRisc8000 => 0x92,
            ProcessorFamilyData::ProcessorFamilyPaRisc7300LC => 0x93,
            ProcessorFamilyData::ProcessorFamilyPaRisc7200 => 0x94,
            ProcessorFamilyData::ProcessorFamilyPaRisc7100LC => 0x95,
            ProcessorFamilyData::ProcessorFamilyPaRisc7100 => 0x96,
            ProcessorFamilyData::ProcessorFamilyV30 => 0xa0,
            ProcessorFamilyData::ProcessorFamilyQuadCoreIntelXeon3200Series => 0xa1,
            ProcessorFamilyData::ProcessorFamilyDualCoreIntelXeon3000Series => 0xa2,
            ProcessorFamilyData::ProcessorFamilyQuadCoreIntelXeon5300Series => 0xa3,
            ProcessorFamilyData::ProcessorFamilyDualCoreIntelXeon5100Series => 0xa4,
            ProcessorFamilyData::ProcessorFamilyDualCoreIntelXeon5000Series => 0xa5,
            ProcessorFamilyData::ProcessorFamilyDualCoreIntelXeonLV => 0xa6,
            ProcessorFamilyData::ProcessorFamilyDualCoreIntelXeonULV => 0xa7,
            ProcessorFamilyData::ProcessorFamilyDualCoreIntelXeon7100Series => 0xa8,
            ProcessorFamilyData::ProcessorFamilyQuadCoreIntelXeon5400Series => 0xa9,
            ProcessorFamilyData::ProcessorFamilyQuadCoreIntelXeon => 0xaa,
            ProcessorFamilyData::ProcessorFamilyDualCoreIntelXeon5200Series => 0xab,
            ProcessorFamilyData::ProcessorFamilyDualCoreIntelXeon7200Series => 0xac,
            ProcessorFamilyData::ProcessorFamilyQuadCoreIntelXeon7300Series => 0xad,
            ProcessorFamilyData::ProcessorFamilyQuadCoreIntelXeon7400Series => 0xae,
            ProcessorFamilyData::ProcessorFamilyMultiCoreIntelXeon7400Series => 0xaf,
            ProcessorFamilyData::ProcessorFamilyPentiumIIIXeon => 0xb0,
            ProcessorFamilyData::ProcessorFamilyPentiumIIISpeedStep => 0xb1,
            ProcessorFamilyData::ProcessorFamilyPentium4 => 0xb2,
            ProcessorFamilyData::ProcessorFamilyIntelXeon => 0xb3,
            ProcessorFamilyData::ProcessorFamilyAS400 => 0xb4,
            ProcessorFamilyData::ProcessorFamilyIntelXeonMP => 0xb5,
            ProcessorFamilyData::ProcessorFamilyAMDAthlonXP => 0xb6,
            ProcessorFamilyData::ProcessorFamilyAMDAthlonMP => 0xb7,
            ProcessorFamilyData::ProcessorFamilyIntelItanium2 => 0xb8,
            ProcessorFamilyData::ProcessorFamilyIntelPentiumM => 0xb9,
            ProcessorFamilyData::ProcessorFamilyIntelCeleronD => 0xba,
            ProcessorFamilyData::ProcessorFamilyIntelPentiumD => 0xbb,
            ProcessorFamilyData::ProcessorFamilyIntelPentiumEx => 0xbc,
            ProcessorFamilyData::ProcessorFamilyIntelCoreSolo => 0xbd,
            ProcessorFamilyData::ProcessorFamilyReserved => 0xbe,
            ProcessorFamilyData::ProcessorFamilyIntelCore2 => 0xbf,
            ProcessorFamilyData::ProcessorFamilyIntelCore2Solo => 0xc0,
            ProcessorFamilyData::ProcessorFamilyIntelCore2Extreme => 0xc1,
            ProcessorFamilyData::ProcessorFamilyIntelCore2Quad => 0xc2,
            ProcessorFamilyData::ProcessorFamilyIntelCore2ExtremeMobile => 0xc3,
            ProcessorFamilyData::ProcessorFamilyIntelCore2DuoMobile => 0xc4,
            ProcessorFamilyData::ProcessorFamilyIntelCore2SoloMobile => 0xc5,
            ProcessorFamilyData::ProcessorFamilyIntelCoreI7 => 0xc6,
            ProcessorFamilyData::ProcessorFamilyDualCoreIntelCeleron => 0xc7,
            ProcessorFamilyData::ProcessorFamilyIBM390 => 0xc8,
            ProcessorFamilyData::ProcessorFamilyi860 => 0xfa,
            ProcessorFamilyData::ProcessorFamilyi960 => 0xfb,
            ProcessorFamilyData::ProcessorFamilyIndicatorFamily2 => 0xfe,
            ProcessorFamilyData::ProcessorFamilyReserved1 => 0xff,
        }
    }

    /// The number of the variant in the SMBIOS specification.
    pub fn value(&self) -> (r: u8)
        ensures
            r == self.spec_value(),
    {
        match self {
            ProcessorFamilyData::ProcessorFamilyOther => 1,
            ProcessorFamilyData::ProcessorFamilyUnknown => 2,
            ProcessorFamilyData::ProcessorFamily8086 => 3,
            ProcessorFamilyData::ProcessorFamily80286 => 4,
            ProcessorFamilyData::ProcessorFamilyIntel386 => 5,
            ProcessorFamilyData::ProcessorFamilyIntel486 => 6,
            ProcessorFamilyData::ProcessorFamily8087 => 7,
            ProcessorFamilyData::ProcessorFamily80287 => 8,
            ProcessorFamilyData::ProcessorFamily80387 => 9,
            ProcessorFamilyData::ProcessorFamily80487 => 0xa,
            ProcessorFamilyData::ProcessorFamilyPentium => 0xb,
            ProcessorFamilyData::ProcessorFamilyPentiumPro => 0xc,
            ProcessorFamilyData::ProcessorFamilyPentiumII => 0xd,
            ProcessorFamilyData::ProcessorFamilyPentiumMMX => 0xe,
            ProcessorFamilyData::ProcessorFamilyCeleron => 0xf,
            ProcessorFamilyData::ProcessorFamilyPentiumIIXeon => 0x10,
            ProcessorFamilyData::ProcessorFamilyPentiumIII => 0x11,
            ProcessorFamilyData::ProcessorFamilyM1 => 0x12,
            ProcessorFamilyData::ProcessorFamilyM2 => 0x13,
            ProcessorFamilyData::ProcessorFamilyIntelCeleronM => 0x14,
            ProcessorFamilyData::ProcessorFamilyIntelPentium4Ht => 0x15,
            ProcessorFamilyData::ProcessorFamilyAmdDuron => 0x18,
            ProcessorFamilyData::ProcessorFamilyK5 => 0x19,
            ProcessorFamilyData::ProcessorFamilyK6 => 0x1a,
            ProcessorFamilyData::ProcessorFamilyK6_2 => 0x1b,
            ProcessorFamilyData::ProcessorFamilyK6_3 => 0x1c,
            ProcessorFamilyData::ProcessorFamilyAmdAthlon => 0x1d,
            ProcessorFamilyData::ProcessorFamilyAmd29000 => 0x1e,
            ProcessorFamilyData::ProcessorFamilyK6_2Plus => 0x1f,
            ProcessorFamilyData::ProcessorFamilyPowerPC => 0x20,
            ProcessorFamilyData::ProcessorFamilyPowerPC601 => 0x21,
            ProcessorFamilyData::ProcessorFamilyPowerPC603 => 0x22,
            ProcessorFamilyData::ProcessorFamilyPowerPC603Plus => 0x23,
            ProcessorFamilyData::ProcessorFamilyPowerPC604 => 0x24,
            ProcessorFamilyData::ProcessorFamilyPowerPC620 => 0x25,
            ProcessorFamilyData::ProcessorFamilyPowerPCx704 => 0x26,
            ProcessorFamilyData::ProcessorFamilyPowerPC750 => 0x27,
            ProcessorFamilyData::ProcessorFamilyIntelCoreDuo => 0x28,
            ProcessorFamilyData::ProcessorFamilyIntelCoreDuoMobile => 0x29,
            ProcessorFamilyData::ProcessorFamilyIntelCoreSoloMobile => 0x2a,
            ProcessorFamilyData::ProcessorFamilyIntelAtom => 0x2b,
            ProcessorFamilyData::ProcessorFamilyIntelCoreM => 0x2c,
            ProcessorFamilyData::ProcessorFamilyIntelCorem3 => 0x2d,
            ProcessorFamilyData::ProcessorFamilyIntelCorem5 => 0x2e,
            ProcessorFamilyData::ProcessorFamilyIntelCorem7 => 0x2f,
            ProcessorFamilyData::ProcessorFamilyAlpha => 0x30,
            ProcessorFamilyData::ProcessorFamilyAlpha21064 => 0x31,
            ProcessorFamilyData::ProcessorFamilyAlpha21066 => 0x32,
            ProcessorFamilyData::ProcessorFamilyAlpha21164 => 0x33,
            ProcessorFamilyData::ProcessorFamilyAlpha21164PC => 0x34,
            ProcessorFamilyData::ProcessorFamilyAlpha21164a => 0x35,
            ProcessorFamilyData::ProcessorFamilyAlpha21264 => 0x36,
            ProcessorFamilyData::ProcessorFamilyAlpha21364 => 0x37,
            ProcessorFamilyData::ProcessorFamilyAmdTurionIIUltraDualCoreMobileM => 0x38,
            ProcessorFamilyData::ProcessorFamilyAmdTurionIIDualCoreMobileM => 0x39,
            ProcessorFamilyData::ProcessorFamilyAmdAthlonIIDualCoreM => 0x3a,
            ProcessorFamilyData::ProcessorFamilyAmdOpteron6100Series => 0x3b,
            ProcessorFamilyData::ProcessorFamilyAmdOpteron4100Series => 0x3c,
            ProcessorFamilyData::ProcessorFamilyAmdOpteron6200Series => 0x3d,
            ProcessorFamilyData::ProcessorFamilyAmdOpteron4200Series => 0x3e,
            ProcessorFamilyData::ProcessorFamilyAmdFxSeries => 0x3f,
            ProcessorFamilyData::ProcessorFamilyMips => 0x40,
            ProcessorFamilyData::ProcessorFamilyMIPSR4000 => 0x41,
            ProcessorFamilyData::ProcessorFamilyMIPSR4200 => 0x42,
            ProcessorFamilyData::ProcessorFamilyMIPSR4400 => 0x43,
            ProcessorFamilyData::ProcessorFamilyMIPSR4600 => 0x44,
            ProcessorFamilyData::ProcessorFamilyMIPSR10000 => 0x45,
            ProcessorFamilyData::ProcessorFamilyAmdCSeries => 0x46,
            ProcessorFamilyData::ProcessorFamilyAmdESeries => 0x47,
            ProcessorFamilyData::ProcessorFamilyAmdASeries => 0x48,
            ProcessorFamilyData::ProcessorFamilyAmdGSeries => 0x49,
            ProcessorFamilyData::ProcessorFamilyAmdZSeries => 0x4a,
            ProcessorFamilyData::ProcessorFamilyAmdRSeries => 0x4b,
            ProcessorFamilyData::ProcessorFamilyAmdOpteron4300 => 0x4c,
            ProcessorFamilyData::ProcessorFamilyAmdOpteron6300 => 0x4d,
            ProcessorFamilyData::ProcessorFamilyAmdOpteron3300 => 0x4e,
            ProcessorFamilyData::ProcessorFamilyAmdFireProSeries => 0x4f,
            ProcessorFamilyData::ProcessorFamilySparc => 0x50,
            ProcessorFamilyData::ProcessorFamilySuperSparc => 0x51,
            ProcessorFamilyData::ProcessorFamilymicroSparcII => 0x52,
            ProcessorFamilyData::ProcessorFamilymicroSparcIIep => 0x53,
            ProcessorFamilyData::ProcessorFamilyUltraSparc => 0x54,
            ProcessorFamilyData::ProcessorFamilyUltraSparcII => 0x55,
            ProcessorFamilyData::ProcessorFamilyUltraSparcIii => 0x56,
            ProcessorFamilyData::ProcessorFamilyUltraSparcIII => 0x57,
            ProcessorFamilyData::ProcessorFamilyUltraSparcIIIi => 0x58,
            ProcessorFamilyData::ProcessorFamily68040 => 0x60,
            ProcessorFamilyData::ProcessorFamily68xxx => 0x61,
            ProcessorFamilyData::ProcessorFamily68000 => 0x62,
            ProcessorFamilyData::ProcessorFamily68010 => 0x63,
            ProcessorFamilyData::ProcessorFamily68020 => 0x64,
            ProcessorFamilyData::ProcessorFamily68030 => 0x65,
            ProcessorFamilyData::ProcessorFamilyAmdAthlonX4QuadCore => 0x66,
            ProcessorFamilyData::ProcessorFamilyAmdOpteronX1000Series => 0x67,
            ProcessorFamilyData::ProcessorFamilyAmdOpteronX2000Series => 0x68,
            ProcessorFamilyData::ProcessorFamilyAmdOpteronASeries => 0x69,
            ProcessorFamilyData::ProcessorFamilyAmdOpteronX3000Series => 0x6a,
            ProcessorFamilyData::ProcessorFamilyAmdZen => 0x6b,
            ProcessorFamilyData::ProcessorFamilyHobbit => 0x70,
            ProcessorFamilyData::ProcessorFamilyCrusoeTM5000 => 0x78,
            ProcessorFamilyData::ProcessorFamilyCrusoeTM3000 => 0x79,
            ProcessorFamilyData::ProcessorFamilyEfficeonTM8000 => 0x7a,
            ProcessorFamilyData::ProcessorFamilyWeitek => 0x80,
            ProcessorFamilyData::ProcessorFamilyItanium => 0x82,
            ProcessorFamilyData::ProcessorFamilyAmdAthlon64 => 0x83,
            ProcessorFamilyData::ProcessorFamilyAmdOpteron => 0x84,
            ProcessorFamilyData::ProcessorFamilyAmdSempron => 0x85,
            ProcessorFamilyData::ProcessorFamilyAmdTurion64Mobile => 0x86,
            ProcessorFamilyData::ProcessorFamilyDualCoreAmdOpteron => 0x87,
            ProcessorFamilyData::ProcessorFamilyAmdAthlon64X2DualCore => 0x88,
            ProcessorFamilyData::ProcessorFamilyAmdTurion64X2Mobile => 0x89,
            ProcessorFamilyData::ProcessorFamilyQuadCoreAmdOpteron => 0x8a,
            ProcessorFamilyData::ProcessorFamilyThirdGenerationAmdOpteron => 0x8b,
            ProcessorFamilyData::ProcessorFamilyAmdPhenomFxQuadCore => 0x8c,
            ProcessorFamilyData::ProcessorFamilyAmdPhenomX4QuadCore => 0x8d,
            ProcessorFamilyData::ProcessorFamilyAmdPhenomX2DualCore => 0x8e,
            ProcessorFamilyData::ProcessorFamilyAmdAthlonX2DualCore => 0x8f,
            ProcessorFamilyData::ProcessorFamilyPARISC => 0x90,
            ProcessorFamilyData::ProcessorFamilyPaRisc8500 => 0x91,
            ProcessorFamilyData::ProcessorFamilyPaRisc8000 => 0x92,
            ProcessorFamilyData::ProcessorFamilyPaRisc7300LC => 0x93,
            ProcessorFamilyData::ProcessorFamilyPaRisc7200 => 0x94,
            ProcessorFamilyData::ProcessorFamilyPaRisc7100LC => 0x95,
            ProcessorFamilyData::ProcessorFamilyPaRisc7100 => 0x96,
            ProcessorFamilyData::ProcessorFamilyV30 => 0xa0,
            ProcessorFamilyData::ProcessorFamilyQuadCoreIntelXeon3200Series => 0xa1,
            ProcessorFamilyData::ProcessorFamilyDualCoreIntelXeon3000Series => 0xa2,
            ProcessorFamilyData::ProcessorFamilyQuadCoreIntelXeon5300Series => 0xa3,
            ProcessorFamilyData::ProcessorFamilyDualCoreIntelXeon5100Series => 0xa4,
            ProcessorFamilyData::ProcessorFamilyDualCoreIntelXeon5000Series => 0xa5,
            ProcessorFamilyData::ProcessorFamilyDualCoreIntelXeonLV => 0xa6,
            ProcessorFamilyData::ProcessorFamilyDualCoreIntelXeonULV => 0xa7,
            ProcessorFamilyData::ProcessorFamilyDualCoreIntelXeon7100Series => 0xa8,
            ProcessorFamilyData::ProcessorFamilyQuadCoreIntelXeon5400Series => 0xa9,
            ProcessorFamilyData::ProcessorFamilyQuadCoreIntelXeon => 0xaa,
            ProcessorFamilyData::ProcessorFamilyDualCoreIntelXeon5200Series => 0xab,
            ProcessorFamilyData::ProcessorFamilyDualCoreIntelXeon7200Series => 0xac,
            ProcessorFamilyData::ProcessorFamilyQuadCoreIntelXeon7300Series => 0xad,
            ProcessorFamilyData::ProcessorFamilyQuadCoreIntelXeon7400Series => 0xae,
            ProcessorFamilyData::ProcessorFamilyMultiCoreIntelXeon7400Series => 0xaf,
            ProcessorFamilyData::ProcessorFamilyPentiumIIIXeon => 0xb0,
            ProcessorFamilyData::ProcessorFamilyPentiumIIISpeedStep => 0xb1,
            ProcessorFamilyData::ProcessorFamilyPentium4 => 0xb2,
            ProcessorFamilyData::ProcessorFamilyIntelXeon => 0xb3,
            ProcessorFamilyData::ProcessorFamilyAS400 => 0xb4,
            ProcessorFamilyData::ProcessorFamilyIntelXeonMP => 0xb5,
            ProcessorFamilyData::ProcessorFamilyAMDAthlonXP => 0xb6,
            ProcessorFamilyData::ProcessorFamilyAMDAthlonMP => 0xb7,
            ProcessorFamilyData::ProcessorFamilyIntelItanium2 => 0xb8,
            ProcessorFamilyData::ProcessorFamilyIntelPentiumM => 0xb9,
            ProcessorFamilyData::ProcessorFamilyIntelCeleronD => 0xba,
            ProcessorFamilyData::ProcessorFamilyIntelPentiumD => 0xbb,
            ProcessorFamilyData::ProcessorFamilyIntelPentiumEx => 0xbc,
            ProcessorFamilyData::ProcessorFamilyIntelCoreSolo => 0xbd,
            ProcessorFamilyData::ProcessorFamilyReserved => 0xbe,
            ProcessorFamilyData::ProcessorFamilyIntelCore2 => 0xbf,
            ProcessorFamilyData::ProcessorFamilyIntelCore2Solo => 0xc0,
            ProcessorFamilyData::ProcessorFamilyIntelCore2Extreme => 0xc1,
            ProcessorFamilyData::ProcessorFamilyIntelCore2Quad => 0xc2,
            ProcessorFamilyData::ProcessorFamilyIntelCore2ExtremeMobile => 0xc3,
            ProcessorFamilyData::ProcessorFamilyIntelCore2DuoMobile => 0xc4,
            ProcessorFamilyData::ProcessorFamilyIntelCore2SoloMobile => 0xc5,
            ProcessorFamilyData::ProcessorFamilyIntelCoreI7 => 0xc6,
            ProcessorFamilyData::ProcessorFamilyDualCoreIntelCeleron => 0xc7,
            ProcessorFamilyData::ProcessorFamilyIBM390 => 0xc8,
            ProcessorFamilyData::ProcessorFamilyi860 => 0xfa,
            ProcessorFamilyData::ProcessorFamilyi960 => 0xfb,
            ProcessorFamilyData::ProcessorFamilyIndicatorFamily2 => 0xfe,
            ProcessorFamilyData::ProcessorFamilyReserved1 => 0xff,
        }
    }
}

/// Processor Information2 - Processor Family2.
pub enum ProcessorFamily2Data {
    /// ARMv7 processor family
    ProcessorFamilyARMv7,
    /// ARMv8 processor family
    ProcessorFamilyARMv8,
    /// ARMv9 processor family
    ProcessorFamilyARMv9,
    /// SH3 processor family
    ProcessorFamilySH3,
    /// SH4 processor family
    ProcessorFamilySH4,
    /// ARM processor family
    ProcessorFamilyARM,
    /// StrongARM processor family
    ProcessorFamilyStrongARM,
    /// 6x86 processor family
    ProcessorFamily6x86,
    /// MediaGX processor family
    ProcessorFamilyMediaGX,
    /// MII processor family
    ProcessorFamilyMII,
    /// WinChip processor family
    ProcessorFamilyWinChip,
    /// DSP processor family
    ProcessorFamilyDSP,
    /// Video processor family
    ProcessorFamilyVideoProcessor,
    /// RISC-V RV32 processor family
    ProcessorFamilyRiscvRV32,
    /// RISC-V RV64 processor family
    ProcessorFamilyRiscVRV64,
    /// RISC-V RV128 processor family
    ProcessorFamilyRiscVRV128,
    /// LoongArch processor family
    ProcessorFamilyLoongArch,
    /// Loongson 1 processor family
    ProcessorFamilyLoongson1,
    /// Loongson 2 processor family
    ProcessorFamilyLoongson2,
    /// Loongson 3 processor family
    ProcessorFamilyLoongson3,
    /// Loongson 2K processor family
    ProcessorFamilyLoongson2K,
    /// Loongson 3A processor family
    ProcessorFamilyLoongson3A,
    /// Loongson 3B processor family
    ProcessorFamilyLoongson3B,
    /// Loongson 3C processor family
    ProcessorFamilyLoongson3C,
    /// Loongson 3D processor family
    ProcessorFamilyLoongson3D,
    /// Loongson 3E processor family
    ProcessorFamilyLoongson3E,
    /// Dual-core Loongson 2K processor family
    ProcessorFamilyDualCoreLoongson2K,
    /// Quad-core Loongson 3A processor family
    ProcessorFamilyQuadCoreLoongson3A,
    /// Multi-core Loongson 3A processor family
    ProcessorFamilyMultiCoreLoongson3A,
    /// Quad-core Loongson 3B processor family
    ProcessorFamilyQuadCoreLoongson3B,
    /// Multi-core Loongson 3B processor family
    ProcessorFamilyMultiCoreLoongson3B,
    /// Multi-core Loongson 3C processor family
    ProcessorFamilyMultiCoreLoongson3C,
    /// Multi-core Loongson 3D processor family
    ProcessorFamilyMultiCoreLoongson3D,
    /// Intel Core 3 processor family
    ProcessorFamilyIntelCore3,
    /// Intel Core 5 processor family
    ProcessorFamilyIntelCore5,
    /// Intel Core 7 processor family
    ProcessorFamilyIntelCore7,
    /// Intel Core 9 processor family
    ProcessorFamilyIntelCore9,
    /// Intel Core Ultra 3 processor family
    ProcessorFamilyIntelCoreUltra3,
    /// Intel Core Ultra 5 processor family
    ProcessorFamilyIntelCoreUltra5,
    /// Intel Core Ultra 7 processor family
    ProcessorFamilyIntelCoreUltra7,
    /// Intel Core Ultra 9 processor family
    ProcessorFamilyIntelCoreUltra9,
}

impl ProcessorFamily2Data {
    /// The number of the variant in the SMBIOS specification.
    pub open spec fn spec_value(&self) -> u16 {
        match self {
            ProcessorFamily2Data::ProcessorFamilyARMv7 => 0x100,
            ProcessorFamily2Data::ProcessorFamilyARMv8 => 0x101,
            ProcessorFamily2Data::ProcessorFamilyARMv9 => 0x102,
            ProcessorFamily2Data::ProcessorFamilySH3 => 0x104,
            ProcessorFamily2Data::ProcessorFamilySH4 => 0x105,
            ProcessorFamily2Data::ProcessorFamilyARM => 0x118,
            ProcessorFamily2Data::ProcessorFamilyStrongARM => 0x119,
            ProcessorFamily2Data::ProcessorFamily6x86 => 0x12c,
            ProcessorFamily2Data::ProcessorFamilyMediaGX => 0x12d,
            ProcessorFamily2Data::ProcessorFamilyMII => 0x12e,
            ProcessorFamily2Data::ProcessorFamilyWinChip => 0x140,
            ProcessorFamily2Data::ProcessorFamilyDSP => 0x15e,
            ProcessorFamily2Data::ProcessorFamilyVideoProcessor => 0x1f4,
            ProcessorFamily2Data::ProcessorFamilyRiscvRV32 => 0x200,
            ProcessorFamily2Data::ProcessorFamilyRiscVRV64 => 0x201,
            ProcessorFamily2Data::ProcessorFamilyRiscVRV128 => 0x202,
            ProcessorFamily2Data::ProcessorFamilyLoongArch => 0x258,
            ProcessorFamily2Data::ProcessorFamilyLoongson1 => 0x259,
            ProcessorFamily2Data::ProcessorFamilyLoongson2 => 0x25a,
            ProcessorFamily2Data::ProcessorFamilyLoongson3 => 0x25b,
            ProcessorFamily2Data::ProcessorFamilyLoongson2K => 0x25c,
            ProcessorFamily2Data::ProcessorFamilyLoongson3A => 0x25d,
            ProcessorFamily2Data::ProcessorFamilyLoongson3B => 0x25e,
            ProcessorFamily2Data::ProcessorFamilyLoongson3C => 0x25f,
            ProcessorFamily2Data::ProcessorFamilyLoongson3D => 0x260,
            ProcessorFamily2Data::ProcessorFamilyLoongson3E => 0x261,
            ProcessorFamily2Data::ProcessorFamilyDualCoreLoongson2K => 0x262,
            ProcessorFamily2Data::ProcessorFamilyQuadCoreLoongson3A => 0x26c,
            ProcessorFamily2Data::ProcessorFamilyMultiCoreLoongson3A => 0x26d,
            ProcessorFamily2Data::ProcessorFamilyQuadCoreLoongson3B => 0x26e,
            ProcessorFamily2Data::ProcessorFamilyMultiCoreLoongson3B => 0x26f,
            ProcessorFamily2Data::ProcessorFamilyMultiCoreLoongson3C => 0x270,
            ProcessorFamily2Data::ProcessorFamilyMultiCoreLoongson3D => 0x271,
            ProcessorFamily2Data::ProcessorFamilyIntelCore3 => 0x300,
            ProcessorFamily2Data::ProcessorFamilyIntelCore5 => 0x301,
            ProcessorFamily2Data::ProcessorFamilyIntelCore7 => 0x302,
            ProcessorFamily2Data::ProcessorFamilyIntelCore9 => 0x303,
            ProcessorFamily2Data::ProcessorFamilyIntelCoreUltra3 => 0x304,
            ProcessorFamily2Data::ProcessorFamilyIntelCoreUltra5 => 0x305,
            ProcessorFamily2Data::ProcessorFamilyIntelCoreUltra7 => 0x306,
            ProcessorFamily2Data::ProcessorFamilyIntelCoreUltra9 => 0x307,
        }
    }

    /// The number of the variant in the SMBIOS specification.
    pub fn value(&self) -> (r: u16)
        ensures
            r == self.spec_value(),
    {
        match self {
            ProcessorFamily2Data::ProcessorFamilyARMv7 => 0x100,
            ProcessorFamily2Data::ProcessorFamilyARMv8 => 0x101,
            ProcessorFamily2Data::ProcessorFamilyARMv9 => 0x102,
            ProcessorFamily2Data::ProcessorFamilySH3 => 0x104,
            ProcessorFamily2Data::ProcessorFamilySH4 => 0x105,
            ProcessorFamily2Data::ProcessorFamilyARM => 0x118,
            ProcessorFamily2Data::ProcessorFamilyStrongARM => 0x119,
            ProcessorFamily2Data::ProcessorFamily6x86 => 0x12c,
            ProcessorFamily2Data::ProcessorFamilyMediaGX => 0x12d,
            ProcessorFamily2Data::ProcessorFamilyMII => 0x12e,
            ProcessorFamily2Data::ProcessorFamilyWinChip => 0x140,
            ProcessorFamily2Data::ProcessorFamilyDSP => 0x15e,
            ProcessorFamily2Data::ProcessorFamilyVideoProcessor => 0x1f4,
            ProcessorFamily2Data::ProcessorFamilyRiscvRV32 => 0x200,
            ProcessorFamily2Data::ProcessorFamilyRiscVRV64 => 0x201,
            ProcessorFamily2Data::ProcessorFamilyRiscVRV128 => 0x202,
            ProcessorFamily2Data::ProcessorFamilyLoongArch => 0x258,
            ProcessorFamily2Data::ProcessorFamilyLoongson1 => 0x259,
            ProcessorFamily2Data::ProcessorFamilyLoongson2 => 0x25a,
            ProcessorFamily2Data::ProcessorFamilyLoongson3 => 0x25b,
            ProcessorFamily2Data::ProcessorFamilyLoongson2K => 0x25c,
            ProcessorFamily2Data::ProcessorFamilyLoongson3A => 0x25d,
            ProcessorFamily2Data::ProcessorFamilyLoongson3B => 0x25e,
            ProcessorFamily2Data::ProcessorFamilyLoongson3C => 0x25f,
            ProcessorFamily2Data::ProcessorFamilyLoongson3D => 0x260,
            ProcessorFamily2Data::ProcessorFamilyLoongson3E => 0x261,
            ProcessorFamily2Data::ProcessorFamilyDualCoreLoongson2K => 0x262,
            ProcessorFamily2Data::ProcessorFamilyQuadCoreLoongson3A => 0x26c,
            ProcessorFamily2Data::ProcessorFamilyMultiCoreLoongson3A => 0x26d,
            ProcessorFamily2Data::ProcessorFamilyQuadCoreLoongson3B => 0x26e,
            ProcessorFamily2Data::ProcessorFamilyMultiCoreLoongson3B => 0x26f,
            ProcessorFamily2Data::ProcessorFamilyMultiCoreLoongson3C => 0x270,
            ProcessorFamily2Data::ProcessorFamilyMultiCoreLoongson3D => 0x271,
            ProcessorFamily2Data::ProcessorFamilyIntelCore3 => 0x300,
            ProcessorFamily2Data::ProcessorFamilyIntelCore5 => 0x301,
            ProcessorFamily2Data::ProcessorFamilyIntelCore7 => 0x302,
            ProcessorFamily2Data::ProcessorFamilyIntelCore9 => 0x303,
            ProcessorFamily2Data::ProcessorFamilyIntelCoreUltra3 => 0x304,
            ProcessorFamily2Data::ProcessorFamilyIntelCoreUltra5 => 0x305,
            ProcessorFamily2Data::ProcessorFamilyIntelCoreUltra7 => 0x306,
            ProcessorFamily2Data::ProcessorFamilyIntelCoreUltra9 => 0x307,
        }
    }
}

/// Processor Information - Voltage.
///
/// Bitfield for processor voltage
#[derive(Debug, Clone, Copy)]
pub struct ProcessorVoltage(pub u8);

impl ProcessorVoltage {
    /// Gets the processor voltage capability 5V bit
    pub fn processor_voltage_capability_5v(&self) -> (r: bool)
        ensures
            r == ((self.0 >> 0u32) & 1 == 1),
    {
        (self.0 >> 0u32) & 1 == 1
    }

    /// Gets the processor voltage capability 3.3V bit
    pub fn processor_voltage_capability_3_3v(&self) -> (r: bool)
        ensures
            r == ((self.0 >> 1u32) & 1 == 1),
    {
        (self.0 >> 1u32) & 1 == 1
    }

    /// Gets the processor voltage capability 2.9V bit
    pub fn processor_voltage_capability_2_9v(&self) -> (r: bool)
        ensures
            r == ((self.0 >> 2u32) & 1 == 1),
    {
        (self.0 >> 2u32) & 1 == 1
    }

    /// Gets the processor voltage capability reserved bit
    pub fn processor_voltage_capability_reserved(&self) -> (r: bool)
        ensures
            r == ((self.0 >> 3u32) & 1 == 1),
    {
        (self.0 >> 3u32) & 1 == 1
    }

    /// Gets the processor voltage reserved bits
    pub fn processor_voltage_reserved(&self) -> (r: u8)
        ensures
            r == ((self.0 >> 4u32) & 0x7),
    {
        ((self.0 >> 4u32) & 0x7)
    }

    /// Indicates legacy processor voltage
    pub fn processor_voltage_indicate_legacy(&self) -> (r: bool)
        ensures
            r == ((self.0 >> 7u32) & 1 == 1),
    {
        (self.0 >> 7u32) & 1 == 1
    }
}

/// Processor Information - Processor Upgrade.
pub enum ProcessorUpgrade {
    /// Other processor upgrade
    Other,
    /// Unknown processor upgrade
    Unknown,
    /// Daughter board processor upgrade
    DaughterBoard,
    /// ZIF socket processor upgrade
    ZIFSocket,
    /// PiggyBack processor upgrade (replaceable)
    PiggyBack,
    /// No processor upgrade
    NoUpgrade,
    /// LIF socket processor upgrade
    LIFSocket,
    /// Slot 1 processor upgrade
    Slot1,
    /// Slot 2 processor upgrade
    Slot2,
    /// Pin 370 socket processor upgrade
    Pin370Socket,
    /// Slot A processor upgrade
    SlotA,
    /// Slot M processor upgrade
    SlotM,
    /// Socket 423 processor upgrade
    Socket423,
    /// Socket A processor upgrade (Socket 462)
    SocketA,
    /// Socket 478 processor upgrade
    Socket478,
    /// Socket 754 processor upgrade
    Socket754,
    /// Socket 940 processor upgrade
    Socket940,
    /// Socket 939 processor upgrade
    Socket939,
    /// Socket mPGA604 processor upgrade
    SocketmPGA604,
    /// Socket LGA771 processor upgrade
    SocketLGA771,
    /// Socket LGA775 processor upgrade
    SocketLGA775,
    /// Socket S1 processor upgrade
    SocketS1,
    /// AM2 processor upgrade
    AM2,
    /// F1207 processor upgrade
    F1207,
    /// Socket LGA1366 processor upgrade
    SocketLGA1366,
    /// Socket G34 processor upgrade
    SocketG34,
    /// Socket AM3 processor upgrade
    SocketAM3,
    /// Socket C32 processor upgrade
    SocketC32,
    /// Socket LGA1156 processor upgrade
    SocketLGA1156,
    /// Socket LGA1567 processor upgrade
    SocketLGA1567,
    /// Socket PGA988A processor upgrade
    SocketPGA988A,
    /// Socket BGA1288 processor upgrade
    SocketBGA1288,
    /// Socket rPGA988B processor upgrade
    SocketrPGA988B,
    /// Socket BGA1023 processor upgrade
    SocketBGA1023,
    /// Socket BGA1224 processor upgrade
    SocketBGA1224,
    /// Socket LGA1155 processor upgrade (SMBIOS spec 2.8.0 updated the name)
    SocketLGA1155,
    /// Socket LGA1356 processor upgrade
    SocketLGA1356,
    /// Socket LGA2011 processor upgrade
    SocketLGA2011,
    /// Socket FS1 processor upgrade
    SocketFS1,
    /// Socket FS2 processor upgrade
    SocketFS2,
    /// Socket FM1 processor upgrade
    SocketFM1,
    /// Socket FM2 processor upgrade
    SocketFM2,
    /// Socket LGA2011-3 processor upgrade
    SocketLGA2011_3,
    /// Socket LGA1356-3 processor upgrade
    SocketLGA1356_3,
    /// Socket LGA1150 processor upgrade
    SocketLGA1150,
    /// Socket BGA1168 processor upgrade
    SocketBGA1168,
    /// Socket BGA1234 processor upgrade
    SocketBGA1234,
    /// Socket BGA1364 processor upgrade
    SocketBGA1364,
    /// Socket AM4 processor upgrade
    SocketAM4,
    /// Socket LGA1151 processor upgrade
    SocketLGA1151,
    /// Socket BGA1356 processor upgrade
    SocketBGA1356,
    /// Socket BGA1440 processor upgrade
    SocketBGA1440,
    /// Socket BGA1515 processor upgrade
    SocketBGA1515,
    /// Socket LGA3647-1 processor upgrade
    SocketLGA3647_1,
    /// Socket SP3 processor upgrade
    SocketSP3,
    /// Socket SP3r2 processor upgrade
    SocketSP3r2,
    /// Socket LGA2066 processor upgrade
    SocketLGA2066,
    /// Socket BGA1392 processor upgrade
    SocketBGA1392,
    /// Socket BGA1510 processor upgrade
    SocketBGA1510,
    /// Socket BGA1528 processor upgrade
    SocketBGA1528,
    /// Socket LGA4189 processor upgrade
    SocketLGA4189,
    /// Socket LGA1200 processor upgrade
    SocketLGA1200,
    /// Socket LGA4677 processor upgrade
    SocketLGA4677,
    /// Socket LGA1700 processor upgrade
    SocketLGA1700,
    /// Socket BGA1744 processor upgrade
    SocketBGA1744,
    /// Socket BGA1781 processor upgrade
    SocketBGA1781,
    /// Socket BGA1211 processor upgrade
    SocketBGA1211,
    /// Socket BGA2422 processor upgrade
    SocketBGA2422,
    /// Socket LGA1211 processor upgrade
    SocketLGA1211,
    /// Socket LGA2422 processor upgrade
    SocketLGA2422,
    /// Socket LGA5773 processor upgrade
    SocketLGA5773,
    /// Socket BGA5773 processor upgrade
    SocketBGA5773,
    /// Socket AM5 processor upgrade
    SocketAM5,
    /// Socket SP5 processor upgrade
    SocketSP5,
    /// Socket SP6 processor upgrade
    SocketSP6,
    /// Socket BGA883 processor upgrade
    SocketBGA883,
    /// Socket BGA1190 processor upgrade
    SocketBGA1190,
    /// Socket BGA4129 processor upgrade
    SocketBGA4129,
    /// Socket LGA4710 processor upgrade
    SocketLGA4710,
    /// Socket LGA7529 processor upgrade
    SocketLGA7529,
    /// Socket BGA1964 processor upgrade
    SocketBGA1964,
    /// Socket BGA1792 processor upgrade
    SocketBGA1792,
    /// Socket BGA2049 processor upgrade
    SocketBGA2049,
    /// Socket BGA2551 processor upgrade
    SocketBGA2551,
    /// Socket LGA1851 processor upgrade
    SocketLGA1851,
    /// Socket BGA2114 processor upgrade
    SocketBGA2114,
    /// Socket BGA2833 processor upgrade
    SocketBGA2833,
}

impl ProcessorUpgrade {
    /// The number of the variant in the SMBIOS specification.
    pub open spec fn spec_value(&self) -> u8 {
        match self {
            ProcessorUpgrade::Other => 1,
            ProcessorUpgrade::Unknown => 2,
            ProcessorUpgrade::DaughterBoard => 3,
            ProcessorUpgrade::ZIFSocket => 4,
            ProcessorUpgrade::PiggyBack => 5,
            ProcessorUpgrade::NoUpgrade => 6,
            ProcessorUpgrade::LIFSocket => 7,
            ProcessorUpgrade::Slot1 => 8,
            ProcessorUpgrade::Slot2 => 9,
            ProcessorUpgrade::Pin370Socket => 0xa,
            ProcessorUpgrade::SlotA => 0xb,
            ProcessorUpgrade::SlotM => 0xc,
            ProcessorUpgrade::Socket423 => 0xd,
            ProcessorUpgrade::SocketA => 0xe,
            ProcessorUpgrade::Socket478 => 0xf,
            ProcessorUpgrade::Socket754 => 0x10,
            ProcessorUpgrade::Socket940 => 0x11,
            ProcessorUpgrade::Socket939 => 0x12,
            ProcessorUpgrade::SocketmPGA604 => 0x13,
            ProcessorUpgrade::SocketLGA771 => 0x14,
            ProcessorUpgrade::SocketLGA775 => 0x15,
            ProcessorUpgrade::SocketS1 => 0x16,
            ProcessorUpgrade::AM2 => 0x17,
            ProcessorUpgrade::F1207 => 0x18,
            ProcessorUpgrade::SocketLGA1366 => 0x19,
            ProcessorUpgrade::SocketG34 => 0x1a,
            ProcessorUpgrade::SocketAM3 => 0x1b,
            ProcessorUpgrade::SocketC32 => 0x1c,
            ProcessorUpgrade::SocketLGA1156 => 0x1d,
            ProcessorUpgrade::SocketLGA1567 => 0x1e,
            ProcessorUpgrade::SocketPGA988A => 0x1f,
            ProcessorUpgrade::SocketBGA1288 => 0x20,
            ProcessorUpgrade::SocketrPGA988B => 0x21,
            ProcessorUpgrade::SocketBGA1023 => 0x22,
            ProcessorUpgrade::SocketBGA1224 => 0x23,
            ProcessorUpgrade::SocketLGA1155 => 0x24,
            ProcessorUpgrade::SocketLGA1356 => 0x25,
            ProcessorUpgrade::SocketLGA2011 => 0x26,
            ProcessorUpgrade::SocketFS1 => 0x27,
            ProcessorUpgrade::SocketFS2 => 0x28,
            ProcessorUpgrade::SocketFM1 => 0x29,
            ProcessorUpgrade::SocketFM2 => 0x2a,
            ProcessorUpgrade::SocketLGA2011_3 => 0x2b,
            ProcessorUpgrade::SocketLGA1356_3 => 0x2c,
            ProcessorUpgrade::SocketLGA1150 => 0x2d,
            ProcessorUpgrade::SocketBGA1168 => 0x2e,
            ProcessorUpgrade::SocketBGA1234 => 0x2f,
            ProcessorUpgrade::SocketBGA1364 => 0x30,
            ProcessorUpgrade::SocketAM4 => 0x31,
            ProcessorUpgrade::SocketLGA1151 => 0x32,
            ProcessorUpgrade::SocketBGA1356 => 0x33,
            ProcessorUpgrade::SocketBGA1440 => 0x34,
            ProcessorUpgrade::SocketBGA1515 => 0x35,
            ProcessorUpgrade::SocketLGA3647_1 => 0x36,
            ProcessorUpgrade::SocketSP3 => 0x37,
            ProcessorUpgrade::SocketSP3r2 => 0x38,
            ProcessorUpgrade::SocketLGA2066 => 0x39,
            ProcessorUpgrade::SocketBGA1392 => 0x3a,
            ProcessorUpgrade::SocketBGA1510 => 0x3b,
            ProcessorUpgrade::SocketBGA1528 => 0x3c,
            ProcessorUpgrade::SocketLGA4189 => 0x3d,
            ProcessorUpgrade::SocketLGA1200 => 0x3e,
            ProcessorUpgrade::SocketLGA4677 => 0x3f,
            ProcessorUpgrade::SocketLGA1700 => 0x40,
            ProcessorUpgrade::SocketBGA1744 => 0x41,
            ProcessorUpgrade::SocketBGA1781 => 0x42,
            ProcessorUpgrade::SocketBGA1211 => 0x43,
            ProcessorUpgrade::SocketBGA2422 => 0x44,
            ProcessorUpgrade::SocketLGA1211 => 0x45,
            ProcessorUpgrade::SocketLGA2422 => 0x46,
            ProcessorUpgrade::SocketLGA5773 => 0x47,
            ProcessorUpgrade::SocketBGA5773 => 0x48,
            ProcessorUpgrade::SocketAM5 => 0x49,
            ProcessorUpgrade::SocketSP5 => 0x4a,
            ProcessorUpgrade::SocketSP6 => 0x4b,
            ProcessorUpgrade::SocketBGA883 => 0x4c,
            ProcessorUpgrade::SocketBGA1190 => 0x4d,
            ProcessorUpgrade::SocketBGA4129 => 0x4e,
            ProcessorUpgrade::SocketLGA4710 => 0x4f,
            ProcessorUpgrade::SocketLGA7529 => 0x50,
            ProcessorUpgrade::SocketBGA1964 => 0x51,
            ProcessorUpgrade::SocketBGA1792 => 0x52,
            ProcessorUpgrade::SocketBGA2049 => 0x53,
            ProcessorUpgrade::SocketBGA2551 => 0x54,
            ProcessorUpgrade::SocketLGA1851 => 0x55,
            ProcessorUpgrade::SocketBGA2114 => 0x56,
            ProcessorUpgrade::SocketBGA2833 => 0x57,
        }
    }

    /// The number of the variant in the SMBIOS specification.
    pub fn value(&self) -> (r: u8)
        ensures
            r == self.spec_value(),
    {
        match self {
            ProcessorUpgrade::Other => 1,
            ProcessorUpgrade::Unknown => 2,
            ProcessorUpgrade::DaughterBoard => 3,
            ProcessorUpgrade::ZIFSocket => 4,
            ProcessorUpgrade::PiggyBack => 5,
            ProcessorUpgrade::NoUpgrade => 6,
            ProcessorUpgrade::LIFSocket => 7,
            ProcessorUpgrade::Slot1 => 8,
            ProcessorUpgrade::Slot2 => 9,
            ProcessorUpgrade::Pin370Socket => 0xa,
            ProcessorUpgrade::SlotA => 0xb,
            ProcessorUpgrade::SlotM => 0xc,
            ProcessorUpgrade::Socket423 => 0xd,
            ProcessorUpgrade::SocketA => 0xe,
            ProcessorUpgrade::Socket478 => 0xf,
            ProcessorUpgrade::Socket754 => 0x10,
            ProcessorUpgrade::Socket940 => 0x11,
            ProcessorUpgrade::Socket939 => 0x12,
            ProcessorUpgrade::SocketmPGA604 => 0x13,
            ProcessorUpgrade::SocketLGA771 => 0x14,
            ProcessorUpgrade::SocketLGA775 => 0x15,
            ProcessorUpgrade::SocketS1 => 0x16,
            ProcessorUpgrade::AM2 => 0x17,
            ProcessorUpgrade::F1207 => 0x18,
            ProcessorUpgrade::SocketLGA1366 => 0x19,
            ProcessorUpgrade::SocketG34 => 0x1a,
            ProcessorUpgrade::SocketAM3 => 0x1b,
            ProcessorUpgrade::SocketC32 => 0x1c,
            ProcessorUpgrade::SocketLGA1156 => 0x1d,
            ProcessorUpgrade::SocketLGA1567 => 0x1e,
            ProcessorUpgrade::SocketPGA988A => 0x1f,
            ProcessorUpgrade::SocketBGA1288 => 0x20,
            ProcessorUpgrade::SocketrPGA988B => 0x21,
            ProcessorUpgrade::SocketBGA1023 => 0x22,
            ProcessorUpgrade::SocketBGA1224 => 0x23,
            ProcessorUpgrade::SocketLGA1155 => 0x24,
            ProcessorUpgrade::SocketLGA1356 => 0x25,
            ProcessorUpgrade::SocketLGA2011 => 0x26,
            ProcessorUpgrade::SocketFS1 => 0x27,
            ProcessorUpgrade::SocketFS2 => 0x28,
            ProcessorUpgrade::SocketFM1 => 0x29,
            ProcessorUpgrade::SocketFM2 => 0x2a,
            ProcessorUpgrade::SocketLGA2011_3 => 0x2b,
            ProcessorUpgrade::SocketLGA1356_3 => 0x2c,
            ProcessorUpgrade::SocketLGA1150 => 0x2d,
            ProcessorUpgrade::SocketBGA1168 => 0x2e,
            ProcessorUpgrade::SocketBGA1234 => 0x2f,
            ProcessorUpgrade::SocketBGA1364 => 0x30,
            ProcessorUpgrade::SocketAM4 => 0x31,
            ProcessorUpgrade::SocketLGA1151 => 0x32,
            ProcessorUpgrade::SocketBGA1356 => 0x33,
            ProcessorUpgrade::SocketBGA1440 => 0x34,
            ProcessorUpgrade::SocketBGA1515 => 0x35,
            ProcessorUpgrade::SocketLGA3647_1 => 0x36,
            ProcessorUpgrade::SocketSP3 => 0x37,
            ProcessorUpgrade::SocketSP3r2 => 0x38,
            ProcessorUpgrade::SocketLGA2066 => 0x39,
            ProcessorUpgrade::SocketBGA1392 => 0x3a,
            ProcessorUpgrade::SocketBGA1510 => 0x3b,
            ProcessorUpgrade::SocketBGA1528 => 0x3c,
            ProcessorUpgrade::SocketLGA4189 => 0x3d,
            ProcessorUpgrade::SocketLGA1200 => 0x3e,
            ProcessorUpgrade::SocketLGA4677 => 0x3f,
            ProcessorUpgrade::SocketLGA1700 => 0x40,
            ProcessorUpgrade::SocketBGA1744 => 0x41,
            ProcessorUpgrade::SocketBGA1781 => 0x42,
            ProcessorUpgrade::SocketBGA1211 => 0x43,
            ProcessorUpgrade::SocketBGA2422 => 0x44,
            ProcessorUpgrade::SocketLGA1211 => 0x45,
            ProcessorUpgrade::SocketLGA2422 => 0x46,
            ProcessorUpgrade::SocketLGA5773 => 0x47,
            ProcessorUpgrade::SocketBGA5773 => 0x48,
            ProcessorUpgrade::SocketAM5 => 0x49,
            ProcessorUpgrade::SocketSP5 => 0x4a,
            ProcessorUpgrade::SocketSP6 => 0x4b,
            ProcessorUpgrade::SocketBGA883 => 0x4c,
            ProcessorUpgrade::SocketBGA1190 => 0x4d,
            ProcessorUpgrade::SocketBGA4129 => 0x4e,
            ProcessorUpgrade::SocketLGA4710 => 0x4f,
            ProcessorUpgrade::SocketLGA7529 => 0x50,
            ProcessorUpgrade::SocketBGA1964 => 0x51,
            ProcessorUpgrade::SocketBGA1792 => 0x52,
            ProcessorUpgrade::SocketBGA2049 => 0x53,
            ProcessorUpgrade::SocketBGA2551 => 0x54,
            ProcessorUpgrade::SocketLGA1851 => 0x55,
            ProcessorUpgrade::SocketBGA2114 => 0x56,
            ProcessorUpgrade::SocketBGA2833 => 0x57,
        }
    }
}

/// Processor ID Field Description
///
/// Bitfield for processor signature
#[derive(Debug, Clone, Copy)]
pub struct ProcessorSignature(pub u32);

impl ProcessorSignature {
    /// Processor stepping ID
    pub fn processor_stepping_id(&self) -> (r: u32)
        ensures
            r == ((self.0 >> 0u32) & 0xf),
    {
        ((self.0 >> 0u32) & 0xf)
    }

    /// Processor model
    pub fn processor_model(&self) -> (r: u32)
        ensures
            r == ((self.0 >> 4u32) & 0xf),
    {
        ((self.0 >> 4u32) & 0xf)
    }

    /// Processor family
    pub fn processor_family(&self) -> (r: u32)
        ensures
            r == ((self.0 >> 8u32) & 0xf),
    {
        ((self.0 >> 8u32) & 0xf)
    }

    /// Processor type
    pub fn processor_type(&self) -> (r: u32)
        ensures
            r == ((self.0 >> 12u32) & 0x3),
    {
        ((self.0 >> 12u32) & 0x3)
    }

    /// Reserved bits 1
    pub fn processor_reserved1(&self) -> (r: u32)
        ensures
            r == ((self.0 >> 14u32) & 0x3),
    {
        ((self.0 >> 14u32) & 0x3)
    }

    /// Extended processor model
    pub fn processor_x_model(&self) -> (r: u32)
        ensures
            r == ((self.0 >> 16u32) & 0xf),
    {
        ((self.0 >> 16u32) & 0xf)
    }

    /// Extended processor family
    pub fn processor_x_family(&self) -> (r: u32)
        ensures
            r == ((self.0 >> 20u32) & 0xff),
    {
        ((self.0 >> 20u32) & 0xff)
    }

    /// Reserved bits 2
    pub fn processor_reserved2(&self) -> (r: u32)
        ensures
            r == ((self.0 >> 28u32) & 0xf),
    {
        ((self.0 >> 28u32) & 0xf)
    }
}

/// Bitfield for processor feature flags
#[derive(Debug, Clone, Copy)]
pub struct ProcessorFeatureFlags(pub u32);

impl ProcessorFeatureFlags {
    /// Floating Point Unit (FPU) present
    pub fn processor_fpu(&self) -> (r: bool)
        ensures
            r == ((self.0 >> 0u32) & 1 == 1),
    {
        (self.0 >> 0u32) & 1 == 1
    }

    /// Virtual Mode Extensions (VME) present
    pub fn processor_vme(&self) -> (r: bool)
        ensures
            r == ((self.0 >> 1u32) & 1 == 1),
    {
        (self.0 >> 1u32) & 1 == 1
    }

    /// Debugging Extensions (DE) present
    pub fn processor_de(&self) -> (r: bool)
        ensures
            r == ((self.0 >> 2u32) & 1 == 1),
    {
        (self.0 >> 2u32) & 1 == 1
    }

    /// Page Size Extensions (PSE) present
    pub fn processor_pse(&self) -> (r: bool)
        ensures
            r == ((self.0 >> 3u32) & 1 == 1),
    {
        (self.0 >> 3u32) & 1 == 1
    }

    /// Time Stamp Counter (TSC) present
    pub fn processor_tsc(&self) -> (r: bool)
        ensures
            r == ((self.0 >> 4u32) & 1 == 1),
    {
        (self.0 >> 4u32) & 1 == 1
    }

    /// Model Specific Registers (MSR) present
    pub fn processor_msr(&self) -> (r: bool)
        ensures
            r == ((self.0 >> 5u32) & 1 == 1),
    {
        (self.0 >> 5u32) & 1 == 1
    }

    /// Physical Address Extension (PAE) present
    pub fn processor_pae(&self) -> (r: bool)
        ensures
            r == ((self.0 >> 6u32) & 1 == 1),
    {
        (self.0 >> 6u32) & 1 == 1
    }

    /// Machine Check Exception (MCE) present
    pub fn processor_mce(&self) -> (r: bool)
        ensures
            r == ((self.0 >> 7u32) & 1 == 1),
    {
        (self.0 >> 7u32) & 1 == 1
    }

    /// CMPXCHG8B instruction present
    pub fn processor_cx8(&self) -> (r: bool)
        ensures
            r == ((self.0 >> 8u32) & 1 == 1),
    {
        (self.0 >> 8u32) & 1 == 1
    }

    /// APIC present
    pub fn processor_apic(&self) -> (r: bool)
        ensures
            r == ((self.0 >> 9u32) & 1 == 1),
    {
        (self.0 >> 9u32) & 1 == 1
    }

    /// Reserved bits 1
    pub fn processor_reserved1(&self) -> (r: bool)
        ensures
            r == ((self.0 >> 10u32) & 1 == 1),
    {
        (self.0 >> 10u32) & 1 == 1
    }

    /// SYSENTER/SYSEXIT present
    pub fn processor_sep(&self) -> (r: bool)
        ensures
            r == ((self.0 >> 11u32) & 1 == 1),
    {
        (self.0 >> 11u32) & 1 == 1
    }

    /// Memory Type Range Registers (MTRR) present
    pub fn processor_mtrr(&self) -> (r: bool)
        ensures
            r == ((self.0 >> 12u32) & 1 == 1),
    {
        (self.0 >> 12u32) & 1 == 1
    }

    /// Page Global Enable (PGE) present
    pub fn processor_pge(&self) -> (r: bool)
        ensures
            r == ((self.0 >> 13u32) & 1 == 1),
    {
        (self.0 >> 13u32) & 1 == 1
    }

    /// Machine Check Architecture (MCA) present
    pub fn processor_mca(&self) -> (r: bool)
        ensures
            r == ((self.0 >> 14u32) & 1 == 1),
    {
        (self.0 >> 14u32) & 1 == 1
    }

    /// Conditional Move (CMOV) present
    pub fn processor_cmov(&self) -> (r: bool)
        ensures
            r == ((self.0 >> 15u32) & 1 == 1),
    {
        (self.0 >> 15u32) & 1 == 1
    }

    /// Page Attribute Table (PAT) present
    pub fn processor_pat(&self) -> (r: bool)
        ensures
            r == ((self.0 >> 16u32) & 1 == 1),
    {
        (self.0 >> 16u32) & 1 == 1
    }

    /// 36-bit Page Size Extension (PSE36) present
    pub fn processor_pse36(&self) -> (r: bool)
        ensures
            r == ((self.0 >> 17u32) & 1 == 1),
    {
        (self.0 >> 17u32) & 1 == 1
    }

    /// Processor Serial Number (PSN) present
    pub fn processor_psn(&self) -> (r: bool)
        ensures
            r == ((self.0 >> 18u32) & 1 == 1),
    {
        (self.0 >> 18u32) & 1 == 1
    }

    /// CLFLUSH instruction present
    pub fn processor_clfsh(&self) -> (r: bool)
        ensures
            r == ((self.0 >> 19u32) & 1 == 1),
    {
        (self.0 >> 19u32) & 1 == 1
    }

    /// Reserved bits 2
    pub fn processor_reserved2(&self) -> (r: bool)
        ensures
            r == ((self.0 >> 20u32) & 1 == 1),
    {
        (self.0 >> 20u32) & 1 == 1
    }

    /// Debug Store (DS) present
    pub fn processor_ds(&self) -> (r: bool)
        ensures
            r == ((self.0 >> 21u32) & 1 == 1),
    {
        (self.0 >> 21u32) & 1 == 1
    }

    /// ACPI present
    pub fn processor_acpi(&self) -> (r: bool)
        ensures
            r == ((self.0 >> 22u32) & 1 == 1),
    {
        (self.0 >> 22u32) & 1 == 1
    }

    /// MMX present
    pub fn processor_mmx(&self) -> (r: bool)
        ensures
            r == ((self.0 >> 23u32) & 1 == 1),
    {
        (self.0 >> 23u32) & 1 == 1
    }

    /// FXSAVE/FXRSTOR present
    pub fn processor_fxsr(&self) -> (r: bool)
        ensures
            r == ((self.0 >> 24u32) & 1 == 1),
    {
        (self.0 >> 24u32) & 1 == 1
    }

    /// SSE present
    pub fn processor_sse(&self) -> (r: bool)
        ensures
            r == ((self.0 >> 25u32) & 1 == 1),
    {
        (self.0 >> 25u32) & 1 == 1
    }

    /// SSE2 present
    pub fn processor_sse2(&self) -> (r: bool)
        ensures
            r == ((self.0 >> 26u32) & 1 == 1),
    {
        (self.0 >> 26u32) & 1 == 1
    }

    /// Self Snoop present
    pub fn processor_ss(&self) -> (r: bool)
        ensures
            r == ((self.0 >> 27u32) & 1 == 1),
    {
        (self.0 >> 27u32) & 1 == 1
    }

    /// Reserved bits 3
    pub fn processor_reserved3(&self) -> (r: bool)
        ensures
            r == ((self.0 >> 28u32) & 1 == 1),
    {
        (self.0 >> 28u32) & 1 == 1
    }

    /// Thermal Monitor (TM) present
    pub fn processor_tm(&self) -> (r: bool)
        ensures
            r == ((self.0 >> 29u32) & 1 == 1),
    {
        (self.0 >> 29u32) & 1 == 1
    }

    /// Reserved bits 4
    pub fn processor_reserved4(&self) -> (r: u32)
        ensures
            r == ((self.0 >> 30u32) & 0x3),
    {
        ((self.0 >> 30u32) & 0x3)
    }
}

/// Bitfield for processor characteristic flags
#[derive(Debug, Clone, Copy)]
pub struct ProcessorCharacteristics(pub u16);

impl ProcessorCharacteristics {
    /// Returns true if the processor is 64-bit capable
    pub fn is_64_bit_capable(&self) -> (r: bool)
        ensures
            r == ((self.0 >> 0u32) & 1 == 1),
    {
        (self.0 >> 0u32) & 1 == 1
    }

    /// Returns true if the processor is multi-core
    pub fn is_multi_core(&self) -> (r: bool)
        ensures
            r == ((self.0 >> 1u32) & 1 == 1),
    {
        (self.0 >> 1u32) & 1 == 1
    }

    /// Returns true if the processor supports hardware threads
    pub fn is_hardware_thread(&self) -> (r: bool)
        ensures
            r == ((self.0 >> 2u32) & 1 == 1),
    {
        (self.0 >> 2u32) & 1 == 1
    }

    /// Returns true if the processor supports execute protection
    pub fn is_execute_protection(&self) -> (r: bool)
        ensures
            r == ((self.0 >> 3u32) & 1 == 1),
    {
        (self.0 >> 3u32) & 1 == 1
    }

    /// Returns true if the processor supports enhanced virtualization
    pub fn is_enhanced_virtualization(&self) -> (r: bool)
        ensures
            r == ((self.0 >> 4u32) & 1 == 1),
    {
        (self.0 >> 4u32) & 1 == 1
    }

    /// Returns true if the processor supports power/performance control
    pub fn is_power_performance_control(&self) -> (r: bool)
        ensures
            r == ((self.0 >> 5u32) & 1 == 1),
    {
        (self.0 >> 5u32) & 1 == 1
    }
}

/// Bitfield for processor status bits
#[derive(Copy, Clone, Debug)]
pub struct ProcessorStatusBits(pub u8);

impl ProcessorStatusBits {
    /// Indicates the status of the processor
    pub fn cpu_status(&self) -> (r: u8)
        ensures
            r == ((self.0 >> 0u32) & 0x7),
    {
        ((self.0 >> 0u32) & 0x7)
    }

    /// Reserved for future use. Must be set to zero
    pub fn reserved1(&self) -> (r: u8)
        ensures
            r == ((self.0 >> 3u32) & 0x7),
    {
        ((self.0 >> 3u32) & 0x7)
    }

    /// Indicates if the processor socket is populated or not
    pub fn socket_populated(&self) -> (r: bool)
        ensures
            r == ((self.0 >> 6u32) & 1 == 1),
    {
        (self.0 >> 6u32) & 1 == 1
    }

    /// Reserved for future use. Must be set to zero
    pub fn reserved2(&self) -> (r: bool)
        ensures
            r == ((self.0 >> 7u32) & 1 == 1),
    {
        (self.0 >> 7u32) & 1 == 1
    }
}

/// Structure for processor ID data
pub struct ProcessorIdData {
    /// Processor signature
    pub signature: ProcessorSignature,
    /// Processor feature flags
    pub feature_flags: ProcessorFeatureFlags,
}

/// Processor Information (Type 4).
///
/// The information in this structure defines the attributes of a single processor;
/// a separate structure instance is provided for each system processor socket/slot.
/// For example, a system with an IntelDX2 processor would have a single
/// structure instance, while a system with an IntelSX2 processor would have a structure
/// to describe the main CPU, and a second structure to describe the 80487 co-processor.
///
/// Processor Information (Type 4)
pub struct SmbiosTableType4 {
    /// Structure header
    pub hdr: SmbiosStructure,
    /// Processor socket string
    pub socket: SmbiosTableString,
    /// Processor type (enum value from PROCESSOR_TYPE_DATA)
    pub processor_type: u8,
    /// Processor family (enum value from PROCESSOR_FAMILY_DATA)
    pub processor_family: u8,
    /// Processor manufacturer string
    pub processor_manufacturer: SmbiosTableString,
    /// Processor ID data
    pub processor_id: ProcessorIdData,
    /// Processor version string
    pub processor_version: SmbiosTableString,
    /// Processor voltage
    pub voltage: ProcessorVoltage,
    /// External clock speed (MHz)
    pub external_clock: u16,
    /// Maximum processor speed (MHz)
    pub max_speed: u16,
    /// Current processor speed (MHz)
    pub current_speed: u16,
    /// Processor status
    pub status: u8,
    /// Processor upgrade type (enum value from PROCESSOR_UPGRADE)
    pub processor_upgrade: u8,
    /// L1 cache handle
    pub l1_cache_handle: u16,
    /// L2 cache handle
    pub l2_cache_handle: u16,
    /// L3 cache handle
    pub l3_cache_handle: u16,
    /// Processor serial number string
    pub serial_number: SmbiosTableString,
    /// Processor asset tag string
    pub asset_tag: SmbiosTableString,
    /// Processor part number string
    pub part_number: SmbiosTableString,
    /// Number of processor cores
    pub core_count: u8,
    /// Number of enabled processor cores
    pub enabled_core_count: u8,
    /// Number of processor threads
    pub thread_count: u8,
    /// Processor characteristics
    pub processor_characteristics: u16,
    /// Processor family 2
    pub processor_family2: u16,
    /// Number of processor cores (SMBIOS 3.0)
    pub core_count2: u16,
    /// Number of enabled processor cores (SMBIOS 3.0)
    pub enabled_core_count2: u16,
    /// Number of processor threads (SMBIOS 3.0)
    pub thread_count2: u16,
    /// Number of enabled threads (SMBIOS 3.6)
    pub thread_enabled: u16,
    /// Socket type string (SMBIOS 3.8)
    pub socket_type: SmbiosTableString,
}

/// Memory Controller Information (Type 5)
pub struct SmbiosTableType5 {
    /// Structure header
    pub hdr: SmbiosStructure,
}

/// Memory Module Information (Type 6)
pub struct SmbiosTableType6 {
    /// Structure header
    pub hdr: SmbiosStructure,
}

/// On Board Devices Information (Type 10)
pub struct SmbiosTableType10 {
    /// Structure header
    pub hdr: SmbiosStructure,
}

/// Memory Controller Error Detecting Method.
///
/// Memory Controller Error Detecting Method
pub enum MemoryErrorDetectMethod {
    /// Other error detect method
    Other,
    /// Unknown error detect method
    Unknown,
    /// No error detect method
    NoDetection,
    /// Parity error detect method
    Parity,
    /// ECC 32 error detect method
    Ecc32,
    /// ECC 64 error detect method
    Ecc64,
    /// ECC 128 error detect method
    Ecc128,
    /// CRC error detect method
    Crc,
}

impl MemoryErrorDetectMethod {
    /// The number of the variant in the SMBIOS specification.
    pub open spec fn spec_value(&self) -> u8 {
        match self {
            MemoryErrorDetectMethod::Other => 1,
            MemoryErrorDetectMethod::Unknown => 2,
            MemoryErrorDetectMethod::NoDetection => 3,
            MemoryErrorDetectMethod::Parity => 4,
            MemoryErrorDetectMethod::Ecc32 => 5,
            MemoryErrorDetectMethod::Ecc64 => 6,
            MemoryErrorDetectMethod::Ecc128 => 7,
            MemoryErrorDetectMethod::Crc => 8,
        }
    }

    /// The number of the variant in the SMBIOS specification.
    pub fn value(&self) -> (r: u8)
        ensures
            r == self.spec_value(),
    {
        match self {
            MemoryErrorDetectMethod::Other => 1,
            MemoryErrorDetectMethod::Unknown => 2,
            MemoryErrorDetectMethod::NoDetection => 3,
            MemoryErrorDetectMethod::Parity => 4,
            MemoryErrorDetectMethod::Ecc32 => 5,
            MemoryErrorDetectMethod::Ecc64 => 6,
            MemoryErrorDetectMethod::Ecc128 => 7,
            MemoryErrorDetectMethod::Crc => 8,
        }
    }
}

/// Memory Controller Error Correcting Capability.
///
/// Memory Controller Error Correcting Capability bitfield
/// Bitfield for error correcting capability
#[derive(Debug, Clone, Copy)]
pub struct MemoryErrorCorrectCapability(pub u8);

impl MemoryErrorCorrectCapability {
    /// Other error correct capability
    pub fn other(&self) -> (r: bool)
        ensures
            r == ((self.0 >> 0u32) & 1 == 1),
    {
        (self.0 >> 0u32) & 1 == 1
    }

    /// Unknown error correct capability
    pub fn unknown(&self) -> (r: bool)
        ensures
            r == ((self.0 >> 1u32) & 1 == 1),
    {
        (self.0 >> 1u32) & 1 == 1
    }

    /// No error correct capability
    pub fn none(&self) -> (r: bool)
        ensures
            r == ((self.0 >> 2u32) & 1 == 1),
    {
        (self.0 >> 2u32) & 1 == 1
    }

    /// Single-bit error correct capability
    pub fn single_bit_error_correct(&self) -> (r: bool)
        ensures
            r == ((self.0 >> 3u32) & 1 == 1),
    {
        (self.0 >> 3u32) & 1 == 1
    }

    /// Double-bit error correct capability
    pub fn double_bit_error_correct(&self) -> (r: bool)
        ensures
            r == ((self.0 >> 4u32) & 1 == 1),
    {
        (self.0 >> 4u32) & 1 == 1
    }

    /// Error scrubbing capability
    pub fn error_scrubbing(&self) -> (r: bool)
        ensures
            r == ((self.0 >> 5u32) & 1 == 1),
    {
        (self.0 >> 5u32) & 1 == 1
    }

    /// Reserved bits
    pub fn reserved(&self) -> (r: u8)
        ensures
            r == ((self.0 >> 6u32) & 0x3),
    {
        ((self.0 >> 6u32) & 0x3)
    }
}

/// Memory Controller Information - Interleave Support.
pub enum MemorySupportInterleaveType {
    /// Other memory interleave
    MemoryInterleaveOther,
    /// Unknown memory interleave
    MemoryInterleaveUnknown,
    /// One-way interleave
    MemoryInterleaveOneWay,
    /// Two-way interleave
    MemoryInterleaveTwoWay,
    /// Four-way interleave
    MemoryInterleaveFourWay,
    /// Eight-way interleave
    MemoryInterleaveEightWay,
    /// Sixteen-way interleave
    MemoryInterleaveSixteenWay,
}

impl MemorySupportInterleaveType {
    /// The number of the variant in the SMBIOS specification.
    pub open spec fn spec_value(&self) -> u8 {
        match self {
            MemorySupportInterleaveType::MemoryInterleaveOther => 1,
            MemorySupportInterleaveType::MemoryInterleaveUnknown => 2,
            MemorySupportInterleaveType::MemoryInterleaveOneWay => 3,
            MemorySupportInterleaveType::MemoryInterleaveTwoWay => 4,
            MemorySupportInterleaveType::MemoryInterleaveFourWay => 5,
            MemorySupportInterleaveType::MemoryInterleaveEightWay => 6,
            MemorySupportInterleaveType::MemoryInterleaveSixteenWay => 7,
        }
    }

    /// The number of the variant in the SMBIOS specification.
    pub fn value(&self) -> (r: u8)
        ensures
            r == self.spec_value(),
    {
        match self {
            MemorySupportInterleaveType::MemoryInterleaveOther => 1,
            MemorySupportInterleaveType::MemoryInterleaveUnknown => 2,
            MemorySupportInterleaveType::MemoryInterleaveOneWay => 3,
            MemorySupportInterleaveType::MemoryInterleaveTwoWay => 4,
            MemorySupportInterleaveType::MemoryInterleaveFourWay => 5,
            MemorySupportInterleaveType::MemoryInterleaveEightWay => 6,
            MemorySupportInterleaveType::MemoryInterleaveSixteenWay => 7,
        }
    }
}

/// Memory Controller Information - Memory Speeds.
///
/// Memory speed type bitfield
#[derive(Debug, Clone, Copy)]
pub struct MemorySpeedType(pub u16);

impl MemorySpeedType {
    /// Other
    pub fn other(&self) -> (r: bool)
        ensures
            r == ((self.0 >> 0u32) & 1 == 1),
    {
        (self.0 >> 0u32) & 1 == 1
    }

    /// Unknown
    pub fn unknown(&self) -> (r: bool)
        ensures
            r == ((self.0 >> 1u32) & 1 == 1),
    {
        (self.0 >> 1u32) & 1 == 1
    }

    /// 70ns
    pub fn seventy_ns(&self) -> (r: bool)
        ensures
            r == ((self.0 >> 2u32) & 1 == 1),
    {
        (self.0 >> 2u32) & 1 == 1
    }

    /// 60ns
    pub fn sixty_ns(&self) -> (r: bool)
        ensures
            r == ((self.0 >> 3u32) & 1 == 1),
    {
        (self.0 >> 3u32) & 1 == 1
    }

    /// 50ns
    pub fn fifty_ns(&self) -> (r: bool)
        ensures
            r == ((self.0 >> 4u32) & 1 == 1),
    {
        (self.0 >> 4u32) & 1 == 1
    }

    /// Reserved
    pub fn reserved(&self) -> (r: u16)
        ensures
            r == ((self.0 >> 5u32) & 0x7ff),
    {
        ((self.0 >> 5u32) & 0x7ff)
    }
}

/// Memory Module Information - Memory Types
///
/// Memory current type bitfield
#[derive(Debug, Clone, Copy)]
pub struct MemoryCurrentType(pub u16);

impl MemoryCurrentType {
    /// Other
    pub fn other(&self) -> (r: bool)
        ensures
            r == ((self.0 >> 0u32) & 1 == 1),
    {
        (self.0 >> 0u32) & 1 == 1
    }

    /// Unknown
    pub fn unknown(&self) -> (r: bool)
        ensures
            r == ((self.0 >> 1u32) & 1 == 1),
    {
        (self.0 >> 1u32) & 1 == 1
    }

    /// Standard
    pub fn standard(&self) -> (r: bool)
        ensures
            r == ((self.0 >> 2u32) & 1 == 1),
    {
        (self.0 >> 2u32) & 1 == 1
    }

    /// Fast page mode
    pub fn fast_page_mode(&self) -> (r: bool)
        ensures
            r == ((self.0 >> 3u32) & 1 == 1),
    {
        (self.0 >> 3u32) & 1 == 1
    }

    /// EDO
    pub fn edo(&self) -> (r: bool)
        ensures
            r == ((self.0 >> 4u32) & 1 == 1),
    {
        (self.0 >> 4u32) & 1 == 1
    }

    /// Parity
    pub fn parity(&self) -> (r: bool)
        ensures
            r == ((self.0 >> 5u32) & 1 == 1),
    {
        (self.0 >> 5u32) & 1 == 1
    }

    /// ECC
    pub fn ecc(&self) -> (r: bool)
        ensures
            r == ((self.0 >> 6u32) & 1 == 1),
    {
        (self.0 >> 6u32) & 1 == 1
    }

    /// SIMM
    pub fn simm(&self) -> (r: bool)
        ensures
            r == ((self.0 >> 7u32) & 1 == 1),
    {
        (self.0 >> 7u32) & 1 == 1
    }

    /// DIMM
    pub fn dimm(&self) -> (r: bool)
        ensures
            r == ((self.0 >> 8u32) & 1 == 1),
    {
        (self.0 >> 8u32) & 1 == 1
    }

    /// Burst EDO
    pub fn burst_edo(&self) -> (r: bool)
        ensures
            r == ((self.0 >> 9u32) & 1 == 1),
    {
        (self.0 >> 9u32) & 1 == 1
    }

    /// SDRAM
    pub fn sdram(&self) -> (r: bool)
        ensures
            r == ((self.0 >> 10u32) & 1 == 1),
    {
        (self.0 >> 10u32) & 1 == 1
    }

    /// Reserved
    pub fn reserved(&self) -> (r: u16)
        ensures
            r == ((self.0 >> 11u32) & 0x1f),
    {
        ((self.0 >> 11u32) & 0x1f)
    }
}

/// Memory Module Information - Memory Size.
///
/// Memory installed/enabled size bitfield
#[derive(Debug, Clone, Copy)]
pub struct MemoryInstalledEnabledSize(pub u8);

impl MemoryInstalledEnabledSize {
    /// Single or double bank
    pub fn single_or_double_bank(&self) -> (r: bool)
        ensures
            r == ((self.0 >> 7u32) & 1 == 1),
    {
        (self.0 >> 7u32) & 1 == 1
    }
}

/// Cache Information - SRAM Type.
///
/// Cache SRAM type bitfield
#[derive(Debug, Clone, Copy)]
pub struct CacheSramTypeData(pub u16);

impl CacheSramTypeData {
    /// Other
    pub fn other(&self) -> (r: bool)
        ensures
            r == ((self.0 >> 0u32) & 1 == 1),
    {
        (self.0 >> 0u32) & 1 == 1
    }

    /// Unknown
    pub fn unknown(&self) -> (r: bool)
        ensures
            r == ((self.0 >> 1u32) & 1 == 1),
    {
        (self.0 >> 1u32) & 1 == 1
    }

    /// Non-burst
    pub fn non_burst(&self) -> (r: bool)
        ensures
            r == ((self.0 >> 2u32) & 1 == 1),
    {
        (self.0 >> 2u32) & 1 == 1
    }

    /// Burst
    pub fn burst(&self) -> (r: bool)
        ensures
            r == ((self.0 >> 3u32) & 1 == 1),
    {
        (self.0 >> 3u32) & 1 == 1
    }

    /// Pipeline burst
    pub fn pipeline_burst(&self) -> (r: bool)
        ensures
            r == ((self.0 >> 4u32) & 1 == 1),
    {
        (self.0 >> 4u32) & 1 == 1
    }

    /// Synchronous
    pub fn synchronous(&self) -> (r: bool)
        ensures
            r == ((self.0 >> 5u32) & 1 == 1),
    {
        (self.0 >> 5u32) & 1 == 1
    }

    /// Asynchronous
    pub fn asynchronous(&self) -> (r: bool)
        ensures
            r == ((self.0 >> 6u32) & 1 == 1),
    {
        (self.0 >> 6u32) & 1 == 1
    }

    /// Reserved
    pub fn reserved(&self) -> (r: u16)
        ensures
            r == ((self.0 >> 7u32) & 0x1ff),
    {
        ((self.0 >> 7u32) & 0x1ff)
    }
}

/// Cache Information - Error Correction Type.
pub enum CacheErrorTypeData {
    /// Other cache error
    CacheErrorOther,
    /// Unknown cache error
    CacheErrorUnknown,
    /// No cache error
    CacheErrorNone,
    /// Parity error
    CacheErrorParity,
    /// Single-bit ECC error
    CacheErrorSingleBit,
    /// Multi-bit ECC error
    CacheErrorMultiBit,
}

impl CacheErrorTypeData {
    /// The number of the variant in the SMBIOS specification.
    pub open spec fn spec_value(&self) -> u8 {
        match self {
            CacheErrorTypeData::CacheErrorOther => 1,
            CacheErrorTypeData::CacheErrorUnknown => 2,
            CacheErrorTypeData::CacheErrorNone => 3,
            CacheErrorTypeData::CacheErrorParity => 4,
            CacheErrorTypeData::CacheErrorSingleBit => 5,
            CacheErrorTypeData::CacheErrorMultiBit => 6,
        }
    }

    /// The number of the variant in the SMBIOS specification.
    pub fn value(&self) -> (r: u8)
        ensures
            r == self.spec_value(),
    {
        match self {
            CacheErrorTypeData::CacheErrorOther => 1,
            CacheErrorTypeData::CacheErrorUnknown => 2,
            CacheErrorTypeData::CacheErrorNone => 3,
            CacheErrorTypeData::CacheErrorParity => 4,
            CacheErrorTypeData::CacheErrorSingleBit => 5,
            CacheErrorTypeData::CacheErrorMultiBit => 6,
        }
    }
}

/// Cache Information - System Cache Type.
pub enum CacheTypeData {
    /// Other cache type
    CacheTypeOther,
    /// Unknown cache type
    CacheTypeUnknown,
    /// Instruction cache
    CacheTypeInstruction,
    /// Data cache
    CacheTypeData,
    /// Unified cache
    CacheTypeUnified,
}

impl CacheTypeData {
    /// The number of the variant in the SMBIOS specification.
    pub open spec fn spec_value(&self) -> u8 {
        match self {
            CacheTypeData::CacheTypeOther => 1,
            CacheTypeData::CacheTypeUnknown => 2,
            CacheTypeData::CacheTypeInstruction => 3,
            CacheTypeData::CacheTypeData => 4,
            CacheTypeData::CacheTypeUnified => 5,
        }
    }

    /// The number of the variant in the SMBIOS specification.
    pub fn value(&self) -> (r: u8)
        ensures
            r == self.spec_value(),
    {
        match self {
            CacheTypeData::CacheTypeOther => 1,
            CacheTypeData::CacheTypeUnknown => 2,
            CacheTypeData::CacheTypeInstruction => 3,
            CacheTypeData::CacheTypeData => 4,
            CacheTypeData::CacheTypeUnified => 5,
        }
    }
}

/// Cache Information - Associativity.
pub enum CacheAssociativityData {
    /// Other associativity
    CacheAssociativityOther,
    /// Unknown associativity
    CacheAssociativityUnknown,
    /// Direct mapped
    CacheAssociativityDirectMapped,
    /// 2-way associativity
    CacheAssociativityWay2,
    /// 4-way associativity
    CacheAssociativityWay4,
    /// Fully associative
    CacheAssociativityFully,
    /// 8-way associativity
    CacheAssociativityWay8,
    /// 16-way associativity
    CacheAssociativityWay16,
    /// 12-way associativity
    CacheAssociativityWay12,
    /// 24-way associativity
    CacheAssociativityWay24,
    /// 32-way associativity
    CacheAssociativityWay32,
    /// 48-way associativity
    CacheAssociativityWay48,
    /// 64-way associativity
    CacheAssociativityWay64,
    /// 20-way associativity
    CacheAssociativityWay20,
}

impl CacheAssociativityData {
    /// The number of the variant in the SMBIOS specification.
    pub open spec fn spec_value(&self) -> u8 {
        match self {
            CacheAssociativityData::CacheAssociativityOther => 1,
            CacheAssociativityData::CacheAssociativityUnknown => 2,
            CacheAssociativityData::CacheAssociativityDirectMapped => 3,
            CacheAssociativityData::CacheAssociativityWay2 => 4,
            CacheAssociativityData::CacheAssociativityWay4 => 5,
            CacheAssociativityData::CacheAssociativityFully => 6,
            CacheAssociativityData::CacheAssociativityWay8 => 7,
            CacheAssociativityData::CacheAssociativityWay16 => 8,
            CacheAssociativityData::CacheAssociativityWay12 => 9,
            CacheAssociativityData::CacheAssociativityWay24 => 0xa,
            CacheAssociativityData::CacheAssociativityWay32 => 0xb,
            CacheAssociativityData::CacheAssociativityWay48 => 0xc,
            CacheAssociativityData::CacheAssociativityWay64 => 0xd,
            CacheAssociativityData::CacheAssociativityWay20 => 0xe,
        }
    }

    /// The number of the variant in the SMBIOS specification.
    pub fn value(&self) -> (r: u8)
        ensures
            r == self.spec_value(),
    {
        match self {
            CacheAssociativityData::CacheAssociativityOther => 1,
            CacheAssociativityData::CacheAssociativityUnknown => 2,
            CacheAssociativityData::CacheAssociativityDirectMapped => 3,
            CacheAssociativityData::CacheAssociativityWay2 => 4,
            CacheAssociativityData::CacheAssociativityWay4 => 5,
            CacheAssociativityData::CacheAssociativityFully => 6,
            CacheAssociativityData::CacheAssociativityWay8 => 7,
            CacheAssociativityData::CacheAssociativityWay16 => 8,
            CacheAssociativityData::CacheAssociativityWay12 => 9,
            CacheAssociativityData::CacheAssociativityWay24 => 0xa,
            CacheAssociativityData::CacheAssociativityWay32 => 0xb,
            CacheAssociativityData::CacheAssociativityWay48 => 0xc,
            CacheAssociativityData::CacheAssociativityWay64 => 0xd,
            CacheAssociativityData::CacheAssociativityWay20 => 0xe,
        }
    }
}

/// Cache Information (Type 7).
///
/// The information in this structure defines the attributes of CPU cache device in the system.
/// One structure is specified for each such device, whether the device is internal to
/// or external to the CPU module.  Cache modules can be associated with a processor structure
/// in one or two ways, depending on the SMBIOS version.
pub struct SmbiosTableType7 {
    /// Structure header
    pub hdr: SmbiosStructure,
    /// Socket designation string
    pub socket_designation: SmbiosTableString,
    /// Cache configuration
    pub cache_configuration: u16,
    /// Maximum cache size
    pub maximum_cache_size: u16,
    /// Installed cache size
    pub installed_size: u16,
    /// Supported SRAM type
    pub supported_sram_type: CacheSramTypeData,
    /// Current SRAM type
    pub current_sram_type: CacheSramTypeData,
    /// Cache speed
    pub cache_speed: u8,
    /// Error correction type (CACHE_ERROR_TYPE_DATA)
    pub error_correction_type: u8,
    /// System cache type (CACHE_TYPE_DATA)
    pub system_cache_type: u8,
    /// Associativity (CACHE_ASSOCIATIVITY_DATA)
    pub associativity: u8,
    /// Maximum cache size 2
    pub maximum_cache_size2: u32,
    /// Installed cache size 2
    pub installed_size2: u32,
}

/// Port Connector Information - Connector Types.
pub enum MiscPortConnectorType {
    /// None
    PortConnectorTypeNone,
    /// Centronics
    PortConnectorTypeCentronics,
    /// Mini Centronics
    PortConnectorTypeMiniCentronics,
    /// Proprietary
    PortConnectorTypeProprietar,
    /// DB25 Male
    PortConnectorTypeDB25Male,
    /// DB25 Female
    PortConnectorTypeDB25Female,
    /// DB15 Male
    PortConnectorTypeDB15Male,
    /// DB15 Female
    PortConnectorTypeDB15Female,
    /// DB9 Male
    PortConnectorTypeDB9Male,
    /// DB9 Female
    PortConnectorTypeDB9Female,
    /// RJ11
    PortConnectorTypeRJ11,
    /// RJ45
    PortConnectorTypeRJ45,
    /// 50-pin Mini SCSI
    PortConnectorType50PinMiniScsi,
    /// Mini DIN
    PortConnectorTypeMiniDin,
    /// Micro DIN
    PortConnectorTypeMicroDin,
    /// PS/2
    PortConnectorTypePS2,
    /// Infrared
    PortConnectorTypeInfrared,
    /// HP-HIL
    PortConnectorTypeHpHil,
    /// USB
    PortConnectorTypeUsb,
    /// SSA SCSI
    PortConnectorTypeSsaScsi,
    /// Circular DIN 8 Male
    PortConnectorTypeCircularDin8Male,
    /// Circular DIN 8 Female
    PortConnectorTypeCircularDin8Female,
    /// Onboard IDE
    PortConnectorTypeOnboardIde,
    /// Onboard Floppy
    PortConnectorTypeOnboardFloppy,
    /// 9-pin Dual Inline
    PortConnectorType9PinDualInline,
    /// 25-pin Dual Inline
    PortConnectorType25PinDualInline,
    /// 50-pin Dual Inline
    PortConnectorType50PinDualInline,
    /// 68-pin Dual Inline
    PortConnectorType68PinDualInline,
    /// Onboard sound input
    PortConnectorTypeOnboardSoundInput,
    /// Mini Centronics Type 14
    PortConnectorTypeMiniCentronicsType14,
    /// Mini Centronics Type 26
    PortConnectorTypeMiniCentronicsType26,
    /// Headphone mini jack
    PortConnectorTypeHeadPhoneMiniJack,
    /// BNC
    PortConnectorTypeBNC,
    /// IEEE 1394 (FireWire)
    PortConnectorType1394,
    /// SAS/SATA
    PortConnectorTypeSasSata,
    /// USB Type-C
    PortConnectorTypeUsbTypeC,
    /// PC98
    PortConnectorTypePC98,
    /// PC98 Hireso
    PortConnectorTypePC98Hireso,
    /// PCH98
    PortConnectorTypePCH98,
    /// PC98 Note
    PortConnectorTypePC98Note,
    /// PC98 Full
    PortConnectorTypePC98Full,
    /// Other
    PortConnectorTypeOther,
}

impl MiscPortConnectorType {
    /// The number of the variant in the SMBIOS specification.
    pub open spec fn spec_value(&self) -> u8 {
        match self {
            MiscPortConnectorType::PortConnectorTypeNone => 0,
            MiscPortConnectorType::PortConnectorTypeCentronics => 1,
            MiscPortConnectorType::PortConnectorTypeMiniCentronics => 2,
            MiscPortConnectorType::PortConnectorTypeProprietar => 3,
            MiscPortConnectorType::PortConnectorTypeDB25Male => 4,
            MiscPortConnectorType::PortConnectorTypeDB25Female => 5,
            MiscPortConnectorType::PortConnectorTypeDB15Male => 6,
            MiscPortConnectorType::PortConnectorTypeDB15Female => 7,
            MiscPortConnectorType::PortConnectorTypeDB9Male => 8,
            MiscPortConnectorType::PortConnectorTypeDB9Female => 9,
            MiscPortConnectorType::PortConnectorTypeRJ11 => 0xa,
            MiscPortConnectorType::PortConnectorTypeRJ45 => 0xb,
            MiscPortConnectorType::PortConnectorType50PinMiniScsi => 0xc,
            MiscPortConnectorType::PortConnectorTypeMiniDin => 0xd,
            MiscPortConnectorType::PortConnectorTypeMicroDin => 0xe,
            MiscPortConnectorType::PortConnectorTypePS2 => 0xf,
            MiscPortConnectorType::PortConnectorTypeInfrared => 0x10,
            MiscPortConnectorType::PortConnectorTypeHpHil => 0x11,
            MiscPortConnectorType::PortConnectorTypeUsb => 0x12,
            MiscPortConnectorType::PortConnectorTypeSsaScsi => 0x13,
            MiscPortConnectorType::PortConnectorTypeCircularDin8Male => 0x14,
            MiscPortConnectorType::PortConnectorTypeCircularDin8Female => 0x15,
            MiscPortConnectorType::PortConnectorTypeOnboardIde => 0x16,
            MiscPortConnectorType::PortConnectorTypeOnboardFloppy => 0x17,
            MiscPortConnectorType::PortConnectorType9PinDualInline => 0x18,
            MiscPortConnectorType::PortConnectorType25PinDualInline => 0x19,
            MiscPortConnectorType::PortConnectorType50PinDualInline => 0x1a,
            MiscPortConnectorType::PortConnectorType68PinDualInline => 0x1b,
            MiscPortConnectorType::PortConnectorTypeOnboardSoundInput => 0x1c,
            MiscPortConnectorType::PortConnectorTypeMiniCentronicsType14 => 0x1d,
            MiscPortConnectorType::PortConnectorTypeMiniCentronicsType26 => 0x1e,
            MiscPortConnectorType::PortConnectorTypeHeadPhoneMiniJack => 0x1f,
            MiscPortConnectorType::PortConnectorTypeBNC => 0x20,
            MiscPortConnectorType::PortConnectorType1394 => 0x21,
            MiscPortConnectorType::PortConnectorTypeSasSata => 0x22,
            MiscPortConnectorType::PortConnectorTypeUsbTypeC => 0x23,
            MiscPortConnectorType::PortConnectorTypePC98 => 0xa0,
            MiscPortConnectorType::PortConnectorTypePC98Hireso => 0xa1,
            MiscPortConnectorType::PortConnectorTypePCH98 => 0xa2,
            MiscPortConnectorType::PortConnectorTypePC98Note => 0xa3,
            MiscPortConnectorType::PortConnectorTypePC98Full => 0xa4,
            MiscPortConnectorType::PortConnectorTypeOther => 0xff,
        }
    }

    /// The number of the variant in the SMBIOS specification.
    pub fn value(&self) -> (r: u8)
        ensures
            r == self.spec_value(),
    {
        match self {
            MiscPortConnectorType::PortConnectorTypeNone => 0,
            MiscPortConnectorType::PortConnectorTypeCentronics => 1,
            MiscPortConnectorType::PortConnectorTypeMiniCentronics => 2,
            MiscPortConnectorType::PortConnectorTypeProprietar => 3,
            MiscPortConnectorType::PortConnectorTypeDB25Male => 4,
            MiscPortConnectorType::PortConnectorTypeDB25Female => 5,
            MiscPortConnectorType::PortConnectorTypeDB15Male => 6,
            MiscPortConnectorType::PortConnectorTypeDB15Female => 7,
            MiscPortConnectorType::PortConnectorTypeDB9Male => 8,
            MiscPortConnectorType::PortConnectorTypeDB9Female => 9,
            MiscPortConnectorType::PortConnectorTypeRJ11 => 0xa,
            MiscPortConnectorType::PortConnectorTypeRJ45 => 0xb,
            MiscPortConnectorType::PortConnectorType50PinMiniScsi => 0xc,
            MiscPortConnectorType::PortConnectorTypeMiniDin => 0xd,
            MiscPortConnectorType::PortConnectorTypeMicroDin => 0xe,
            MiscPortConnectorType::PortConnectorTypePS2 => 0xf,
            MiscPortConnectorType::PortConnectorTypeInfrared => 0x10,
            MiscPortConnectorType::PortConnectorTypeHpHil => 0x11,
            MiscPortConnectorType::PortConnectorTypeUsb => 0x12,
            MiscPortConnectorType::PortConnectorTypeSsaScsi => 0x13,
            MiscPortConnectorType::PortConnectorTypeCircularDin8Male => 0x14,
            MiscPortConnectorType::PortConnectorTypeCircularDin8Female => 0x15,
            MiscPortConnectorType::PortConnectorTypeOnboardIde => 0x16,
            MiscPortConnectorType::PortConnectorTypeOnboardFloppy => 0x17,
            MiscPortConnectorType::PortConnectorType9PinDualInline => 0x18,
            MiscPortConnectorType::PortConnectorType25PinDualInline => 0x19,
            MiscPortConnectorType::PortConnectorType50PinDualInline => 0x1a,
            MiscPortConnectorType::PortConnectorType68PinDualInline => 0x1b,
            MiscPortConnectorType::PortConnectorTypeOnboardSoundInput => 0x1c,
            MiscPortConnectorType::PortConnectorTypeMiniCentronicsType14 => 0x1d,
            MiscPortConnectorType::PortConnectorTypeMiniCentronicsType26 => 0x1e,
            MiscPortConnectorType::PortConnectorTypeHeadPhoneMiniJack => 0x1f,
            MiscPortConnectorType::PortConnectorTypeBNC => 0x20,
            MiscPortConnectorType::PortConnectorType1394 => 0x21,
            MiscPortConnectorType::PortConnectorTypeSasSata => 0x22,
            MiscPortConnectorType::PortConnectorTypeUsbTypeC => 0x23,
            MiscPortConnectorType::PortConnectorTypePC98 => 0xa0,
            MiscPortConnectorType::PortConnectorTypePC98Hireso => 0xa1,
            MiscPortConnectorType::PortConnectorTypePCH98 => 0xa2,
            MiscPortConnectorType::PortConnectorTypePC98Note => 0xa3,
            MiscPortConnectorType::PortConnectorTypePC98Full => 0xa4,
            MiscPortConnectorType::PortConnectorTypeOther => 0xff,
        }
    }
}

/// Port Connector Information - Port Types
pub enum MiscPortType {
    /// None
    NoPort,
    /// Parallel XT/AT compatible port
    ParallelXtAtCompatible,
    /// Parallel port PS/2
    ParallelPortPs2,
    /// Parallel port ECP
    ParallelPortEcp,
    /// Parallel port EPP
    ParallelPortEpp,
    /// Parallel port ECP/EPP
    ParallelPortEcpEpp,
    /// Serial XT/AT compatible port
    SerialXtAtCompatible,
    /// Serial 16450 compatible port
    Serial16450Compatible,
    /// Serial 16550 compatible port
    Serial16550Compatible,
    /// Serial 16550A compatible port
    Serial16550ACompatible,
    /// SCSI port
    Scsi,
    /// MIDI port
    Midi,
    /// Joystick port
    JoyStick,
    /// Keyboard port
    Keyboard,
    /// Mouse port
    Mouse,
    /// SSA SCSI port
    SsaScsi,
    /// USB port
    Usb,
    /// FireWire port
    FireWire,
    /// PCMCIA Type I port
    PcmciaTypeI,
    /// PCMCIA Type II port
    PcmciaTypeII,
    /// PCMCIA Type III port
    PcmciaTypeIII,
    /// CardBus
    CardBus,
    /// Access Bus Port
    AccessBusPort,
    /// SCSI II
    ScsiII,
    /// SCSI Wide
    ScsiWide,
    /// PC98
    Pc98,
    /// PC98 Hireso
    Pc98Hireso,
    /// PCH98
    Pch98,
    /// Video port
    VideoPort,
    /// Audio port
    AudioPort,
    /// Modem port
    ModemPort,
    /// Network port
    NetworkPort,
    /// SATA
    Sata,
    /// SAS
    Sas,
    /// Multi-Function Display Port
    Mfdp,
    /// Thunderbolt
    Thunderbolt,
    /// Compatible 8251
    Compatible8251,
    /// Compatible 8251 FIFO
    Compatible8251Fifo,
    /// Other
    Other,
}

impl MiscPortType {
    /// The number of the variant in the SMBIOS specification.
    pub open spec fn spec_value(&self) -> u8 {
        match self {
            MiscPortType::NoPort => 0,
            MiscPortType::ParallelXtAtCompatible => 1,
            MiscPortType::ParallelPortPs2 => 2,
            MiscPortType::ParallelPortEcp => 3,
            MiscPortType::ParallelPortEpp => 4,
            MiscPortType::ParallelPortEcpEpp => 5,
            MiscPortType::SerialXtAtCompatible => 6,
            MiscPortType::Serial16450Compatible => 7,
            MiscPortType::Serial16550Compatible => 8,
            MiscPortType::Serial16550ACompatible => 9,
            MiscPortType::Scsi => 0xa,
            MiscPortType::Midi => 0xb,
            MiscPortType::JoyStick => 0xc,
            MiscPortType::Keyboard => 0xd,
            MiscPortType::Mouse => 0xe,
            MiscPortType::SsaScsi => 0xf,
            MiscPortType::Usb => 0x10,
            MiscPortType::FireWire => 0x11,
            MiscPortType::PcmciaTypeI => 0x12,
            MiscPortType::PcmciaTypeII => 0x13,
            MiscPortType::PcmciaTypeIII => 0x14,
            MiscPortType::CardBus => 0x15,
            MiscPortType::AccessBusPort => 0x16,
            MiscPortType::ScsiII => 0x17,
            MiscPortType::ScsiWide => 0x18,
            MiscPortType::Pc98 => 0x19,
            MiscPortType::Pc98Hireso => 0x1a,
            MiscPortType::Pch98 => 0x1b,
            MiscPortType::VideoPort => 0x1c,
            MiscPortType::AudioPort => 0x1d,
            MiscPortType::ModemPort => 0x1e,
            MiscPortType::NetworkPort => 0x1f,
            MiscPortType::Sata => 0x20,
            MiscPortType::Sas => 0x21,
            MiscPortType::Mfdp => 0x22,
            MiscPortType::Thunderbolt => 0x23,
            MiscPortType::Compatible8251 => 0xa0,
            MiscPortType::Compatible8251Fifo => 0xa1,
            MiscPortType::Other => 0xff,
        }
    }

    /// The number of the variant in the SMBIOS specification.
    pub fn value(&self) -> (r: u8)
        ensures
            r == self.spec_value(),
    {
        match self {
            MiscPortType::NoPort => 0,
            MiscPortType::ParallelXtAtCompatible => 1,
            MiscPortType::ParallelPortPs2 => 2,
            MiscPortType::ParallelPortEcp => 3,
            MiscPortType::ParallelPortEpp => 4,
            MiscPortType::ParallelPortEcpEpp => 5,
            MiscPortType::SerialXtAtCompatible => 6,
            MiscPortType::Serial16450Compatible => 7,
            MiscPortType::Serial16550Compatible => 8,
            MiscPortType::Serial16550ACompatible => 9,
            MiscPortType::Scsi => 0xa,
            MiscPortType::Midi => 0xb,
            MiscPortType::JoyStick => 0xc,
            MiscPortType::Keyboard => 0xd,
            MiscPortType::Mouse => 0xe,
            MiscPortType::SsaScsi => 0xf,
            MiscPortType::Usb => 0x10,
            MiscPortType::FireWire => 0x11,
            MiscPortType::PcmciaTypeI => 0x12,
            MiscPortType::PcmciaTypeII => 0x13,
            MiscPortType::PcmciaTypeIII => 0x14,
            MiscPortType::CardBus => 0x15,
            MiscPortType::AccessBusPort => 0x16,
            MiscPortType::ScsiII => 0x17,
            MiscPortType::ScsiWide => 0x18,
            MiscPortType::Pc98 => 0x19,
            MiscPortType::Pc98Hireso => 0x1a,
            MiscPortType::Pch98 => 0x1b,
            MiscPortType::VideoPort => 0x1c,
            MiscPortType::AudioPort => 0x1d,
            MiscPortType::ModemPort => 0x1e,
            MiscPortType::NetworkPort => 0x1f,
            MiscPortType::Sata => 0x20,
            MiscPortType::Sas => 0x21,
            MiscPortType::Mfdp => 0x22,
            MiscPortType::Thunderbolt => 0x23,
            MiscPortType::Compatible8251 => 0xa0,
            MiscPortType::Compatible8251Fifo => 0xa1,
            MiscPortType::Other => 0xff,
        }
    }
}

/// Port Connector Information (Type 8).
///
/// The information in this structure defines the attributes of a system port connector,
/// e.g. parallel, serial, keyboard, or mouse ports.  The port's type and connector information
/// are provided. One structure is present for each port provided by the system.
pub struct SmbiosTableType8 {
    /// Structure header
    pub hdr: SmbiosStructure,
    /// Internal reference designator string
    pub internal_reference_designator: SmbiosTableString,
    /// Internal connector type (MISC_PORT_CONNECTOR_TYPE)
    pub internal_connector_type: u8,
    /// External reference designator string
    pub external_reference_designator: SmbiosTableString,
    /// External connector type (MISC_PORT_CONNECTOR_TYPE)
    pub external_connector_type: u8,
    /// Port type (MISC_PORT_TYPE)
    pub port_type: u8,
}

/// System Slots - Slot Type
pub enum MiscSlotType {
    /// Other slot type
    Other,
    /// Unknown slot type
    Unknown,
    /// ISA slot
    Isa,
    /// MCA slot
    Mca,
    /// EISA slot
    Eisa,
    /// PCI slot
    Pci,
    /// PCMCIA slot
    Pcmcia,
    /// VL-VESA slot
    VlVesa,
    /// Proprietary slot
    Proprietary,
    /// Processor card slot
    ProcessorCardSlot,
    /// Proprietary memory card slot
    ProprietaryMemoryCardSlot,
    /// IO riser card slot
    IORiserCardSlot,
    /// NuBus slot
    NuBus,
    /// PCI 66MHz capable slot
    Pci66MhzCapable,
    /// AGP slot
    Agp,
    /// APG 2X slot
    Apg2X,
    /// AGP 4X slot
    Agp4X,
    /// PCI-X slot
    PciX,
    /// AGP 8X slot
    Agp8X,
    /// M.2 Socket 1 DP slot
    M2Socket1Dp,
    /// M.2 Socket 1 SD slot
    M2Socket1Sd,
    /// M.2 Socket 2 slot
    M2Socket2,
    /// M.2 Socket 3 slot
    M2Socket3,
    /// MXM Type I slot
    MxmTypeI,
    /// MXM Type II slot
    MxmTypeII,
    /// MXM Type III Standard slot
    MxmTypeIIIStandard,
    /// MXM Type III HE slot
    MxmTypeIIIHe,
    /// MXM Type IV slot
    MxmTypeIV,
    /// MXM 3.0 Type A slot
    Mxm30TypeA,
    /// MXM 3.0 Type B slot
    Mxm30TypeB,
    /// PCI Express Gen2 SFF-8639 slot
    PciExpressGen2Sff8639,
    /// PCI Express Gen3 SFF-8639 slot
    PciExpressGen3Sff8639,
    /// PCI Express Mini 52-pin with BSKO slot
    PciExpressMini52pinWithBsko,
    /// PCI Express Mini 52-pin without BSKO slot
    PciExpressMini52pinWithoutBsko,
    /// PCI Express Mini 76-pin slot
    PciExpressMini76pin,
    /// PCI Express Gen4 SFF-8639 slot
    PciExpressGen4Sff8639,
    /// PCI Express Gen5 SFF-8639 slot
    PciExpressGen5Sff8639,
    /// OCP NIC 3.0 small form factor slot
    OcpNic30SmallFormFactor,
    /// OCP NIC 3.0 large form factor slot
    OcpNic30LargeFormFactor,
    /// OCP NIC prior to 3.0 slot
    OcpNicPriorto30,
    /// CXL Flexbus 1.0 slot
    CxlFlexbus10,
    /// PC98 C20 slot
    Pc98C20,
    /// PC98 C24 slot
    Pc98C24,
    /// PC98 E slot
    Pc98E,
    /// PC98 local bus slot
    Pc98LocalBus,
    /// PC98 card slot
    Pc98Card,
    /// PCI Express slot
    PciExpress,
    /// PCI Express x1 slot
    PciExpressX1,
    /// PCI Express x2 slot
    PciExpressX2,
    /// PCI Express x4 slot
    PciExpressX4,
    /// PCI Express x8 slot
    PciExpressX8,
    /// PCI Express x16 slot
    PciExpressX16,
    /// PCI Express Gen2 slot
    PciExpressGen2,
    /// PCI Express Gen2 x1 slot
    PciExpressGen2X1,
    /// PCI Express Gen2 x2 slot
    PciExpressGen2X2,
    /// PCI Express Gen2 x4 slot
    PciExpressGen2X4,
    /// PCI Express Gen2 x8 slot
    PciExpressGen2X8,
    /// PCI Express Gen2 x16 slot
    PciExpressGen2X16,
    /// PCI Express Gen3 slot
    PciExpressGen3,
    /// PCI Express Gen3 x1 slot
    PciExpressGen3X1,
    /// PCI Express Gen3 x2 slot
    PciExpressGen3X2,
    /// PCI Express Gen3 x4 slot
    PciExpressGen3X4,
    /// PCI Express Gen3 x8 slot
    PciExpressGen3X8,
    /// PCI Express Gen3 x16 slot
    PciExpressGen3X16,
    /// PCI Express Gen4 slot
    PciExpressGen4,
    /// PCI Express Gen4 x1 slot
    PciExpressGen4X1,
    /// PCI Express Gen4 x2 slot
    PciExpressGen4X2,
    /// PCI Express Gen4 x4 slot
    PciExpressGen4X4,
    /// PCI Express Gen4 x8 slot
    PciExpressGen4X8,
    /// PCI Express Gen4 x16 slot
    PciExpressGen4X16,
    /// PCI Express Gen5 slot
    PciExpressGen5,
    /// PCI Express Gen5 x1 slot
    PciExpressGen5X1,
    /// PCI Express Gen5 x2 slot
    PciExpressGen5X2,
    /// PCI Express Gen5 x4 slot
    PciExpressGen5X4,
    /// PCI Express Gen5 x8 slot
    PciExpressGen5X8,
    /// PCI Express Gen5 x16 slot
    PciExpressGen5X16,
    /// PCI Express Gen6 and beyond slot
    PciExpressGen6andBeyond,
    /// Enterprise and Datacenter 1U E1 Form Factor slot
    EnterpriseandDatacenter1UE1FormFactorSlot,
    /// Enterprise and Datacenter 3E3 Form Factor slot
    EnterpriseandDatacenter3E3FormFactorSlot,
}

impl MiscSlotType {
    /// The number of the variant in the SMBIOS specification.
    pub open spec fn spec_value(&self) -> u8 {
        match self {
            MiscSlotType::Other => 1,
            MiscSlotType::Unknown => 2,
            MiscSlotType::Isa => 3,
            MiscSlotType::Mca => 4,
            MiscSlotType::Eisa => 5,
            MiscSlotType::Pci => 6,
            MiscSlotType::Pcmcia => 7,
            MiscSlotType::VlVesa => 8,
            MiscSlotType::Proprietary => 9,
            MiscSlotType::ProcessorCardSlot => 0xa,
            MiscSlotType::ProprietaryMemoryCardSlot => 0xb,
            MiscSlotType::IORiserCardSlot => 0xc,
            MiscSlotType::NuBus => 0xd,
            MiscSlotType::Pci66MhzCapable => 0xe,
            MiscSlotType::Agp => 0xf,
            MiscSlotType::Apg2X => 0x10,
            MiscSlotType::Agp4X => 0x11,
            MiscSlotType::PciX => 0x12,
            MiscSlotType::Agp8X => 0x13,
            MiscSlotType::M2Socket1Dp => 0x14,
            MiscSlotType::M2Socket1Sd => 0x15,
            MiscSlotType::M2Socket2 => 0x16,
            MiscSlotType::M2Socket3 => 0x17,
            MiscSlotType::MxmTypeI => 0x18,
            MiscSlotType::MxmTypeII => 0x19,
            MiscSlotType::MxmTypeIIIStandard => 0x1a,
            MiscSlotType::MxmTypeIIIHe => 0x1b,
            MiscSlotType::MxmTypeIV => 0x1c,
            MiscSlotType::Mxm30TypeA => 0x1d,
            MiscSlotType::Mxm30TypeB => 0x1e,
            MiscSlotType::PciExpressGen2Sff8639 => 0x1f,
            MiscSlotType::PciExpressGen3Sff8639 => 0x20,
            MiscSlotType::PciExpressMini52pinWithBsko => 0x21,
            MiscSlotType::PciExpressMini52pinWithoutBsko => 0x22,
            MiscSlotType::PciExpressMini76pin => 0x23,
            MiscSlotType::PciExpressGen4Sff8639 => 0x24,
            MiscSlotType::PciExpressGen5Sff8639 => 0x25,
            MiscSlotType::OcpNic30SmallFormFactor => 0x26,
            MiscSlotType::OcpNic30LargeFormFactor => 0x27,
            MiscSlotType::OcpNicPriorto30 => 0x28,
            MiscSlotType::CxlFlexbus10 => 0x30,
            MiscSlotType::Pc98C20 => 0xa0,
            MiscSlotType::Pc98C24 => 0xa1,
            MiscSlotType::Pc98E => 0xa2,
            MiscSlotType::Pc98LocalBus => 0xa3,
            MiscSlotType::Pc98Card => 0xa4,
            MiscSlotType::PciExpress => 0xa5,
            MiscSlotType::PciExpressX1 => 0xa6,
            MiscSlotType::PciExpressX2 => 0xa7,
            MiscSlotType::PciExpressX4 => 0xa8,
            MiscSlotType::PciExpressX8 => 0xa9,
            MiscSlotType::PciExpressX16 => 0xaa,
            MiscSlotType::PciExpressGen2 => 0xab,
            MiscSlotType::PciExpressGen2X1 => 0xac,
            MiscSlotType::PciExpressGen2X2 => 0xad,
            MiscSlotType::PciExpressGen2X4 => 0xae,
            MiscSlotType::PciExpressGen2X8 => 0xaf,
            MiscSlotType::PciExpressGen2X16 => 0xb0,
            MiscSlotType::PciExpressGen3 => 0xb1,
            MiscSlotType::PciExpressGen3X1 => 0xb2,
            MiscSlotType::PciExpressGen3X2 => 0xb3,
            MiscSlotType::PciExpressGen3X4 => 0xb4,
            MiscSlotType::PciExpressGen3X8 => 0xb5,
            MiscSlotType::PciExpressGen3X16 => 0xb6,
            MiscSlotType::PciExpressGen4 => 0xb8,
            MiscSlotType::PciExpressGen4X1 => 0xb9,
            MiscSlotType::PciExpressGen4X2 => 0xba,
            MiscSlotType::PciExpressGen4X4 => 0xbb,
            MiscSlotType::PciExpressGen4X8 => 0xbc,
            MiscSlotType::PciExpressGen4X16 => 0xbd,
            MiscSlotType::PciExpressGen5 => 0xbe,
            MiscSlotType::PciExpressGen5X1 => 0xbf,
            MiscSlotType::PciExpressGen5X2 => 0xc0,
            MiscSlotType::PciExpressGen5X4 => 0xc1,
            MiscSlotType::PciExpressGen5X8 => 0xc2,
            MiscSlotType::PciExpressGen5X16 => 0xc3,
            MiscSlotType::PciExpressGen6andBeyond => 0xc4,
            MiscSlotType::EnterpriseandDatacenter1UE1FormFactorSlot => 0xc5,
            MiscSlotType::EnterpriseandDatacenter3E3FormFactorSlot => 0xc6,
        }
    }

    /// The number of the variant in the SMBIOS specification.
    pub fn value(&self) -> (r: u8)
        ensures
            r == self.spec_value(),
    {
        match self {
            MiscSlotType::Other => 1,
            MiscSlotType::Unknown => 2,
            MiscSlotType::Isa => 3,
            MiscSlotType::Mca => 4,
            MiscSlotType::Eisa => 5,
            MiscSlotType::Pci => 6,
            MiscSlotType::Pcmcia => 7,
            MiscSlotType::VlVesa => 8,
            MiscSlotType::Proprietary => 9,
            MiscSlotType::ProcessorCardSlot => 0xa,
            MiscSlotType::ProprietaryMemoryCardSlot => 0xb,
            MiscSlotType::IORiserCardSlot => 0xc,
            MiscSlotType::NuBus => 0xd,
            MiscSlotType::Pci66MhzCapable => 0xe,
            MiscSlotType::Agp => 0xf,
            MiscSlotType::Apg2X => 0x10,
            MiscSlotType::Agp4X => 0x11,
            MiscSlotType::PciX => 0x12,
            MiscSlotType::Agp8X => 0x13,
            MiscSlotType::M2Socket1Dp => 0x14,
            MiscSlotType::M2Socket1Sd => 0x15,
            MiscSlotType::M2Socket2 => 0x16,
            MiscSlotType::M2Socket3 => 0x17,
            MiscSlotType::MxmTypeI => 0x18,
            MiscSlotType::MxmTypeII => 0x19,
            MiscSlotType::MxmTypeIIIStandard => 0x1a,
            MiscSlotType::MxmTypeIIIHe => 0x1b,
            MiscSlotType::MxmTypeIV => 0x1c,
            MiscSlotType::Mxm30TypeA => 0x1d,
            MiscSlotType::Mxm30TypeB => 0x1e,
            MiscSlotType::PciExpressGen2Sff8639 => 0x1f,
            MiscSlotType::PciExpressGen3Sff8639 => 0x20,
            MiscSlotType::PciExpressMini52pinWithBsko => 0x21,
            MiscSlotType::PciExpressMini52pinWithoutBsko => 0x22,
            MiscSlotType::PciExpressMini76pin => 0x23,
            MiscSlotType::PciExpressGen4Sff8639 => 0x24,
            MiscSlotType::PciExpressGen5Sff8639 => 0x25,
            MiscSlotType::OcpNic30SmallFormFactor => 0x26,
            MiscSlotType::OcpNic30LargeFormFactor => 0x27,
            MiscSlotType::OcpNicPriorto30 => 0x28,
            MiscSlotType::CxlFlexbus10 => 0x30,
            MiscSlotType::Pc98C20 => 0xa0,
            MiscSlotType::Pc98C24 => 0xa1,
            MiscSlotType::Pc98E => 0xa2,
            MiscSlotType::Pc98LocalBus => 0xa3,
            MiscSlotType::Pc98Card => 0xa4,
            MiscSlotType::PciExpress => 0xa5,
            MiscSlotType::PciExpressX1 => 0xa6,
            MiscSlotType::PciExpressX2 => 0xa7,
            MiscSlotType::PciExpressX4 => 0xa8,
            MiscSlotType::PciExpressX8 => 0xa9,
            MiscSlotType::PciExpressX16 => 0xaa,
            MiscSlotType::PciExpressGen2 => 0xab,
            MiscSlotType::PciExpressGen2X1 => 0xac,
            MiscSlotType::PciExpressGen2X2 => 0xad,
            MiscSlotType::PciExpressGen2X4 => 0xae,
            MiscSlotType::PciExpressGen2X8 => 0xaf,
            MiscSlotType::PciExpressGen2X16 => 0xb0,
            MiscSlotType::PciExpressGen3 => 0xb1,
            MiscSlotType::PciExpressGen3X1 => 0xb2,
            MiscSlotType::PciExpressGen3X2 => 0xb3,
            MiscSlotType::PciExpressGen3X4 => 0xb4,
            MiscSlotType::PciExpressGen3X8 => 0xb5,
            MiscSlotType::PciExpressGen3X16 => 0xb6,
            MiscSlotType::PciExpressGen4 => 0xb8,
            MiscSlotType::PciExpressGen4X1 => 0xb9,
            MiscSlotType::PciExpressGen4X2 => 0xba,
            MiscSlotType::PciExpressGen4X4 => 0xbb,
            MiscSlotType::PciExpressGen4X8 => 0xbc,
            MiscSlotType::PciExpressGen4X16 => 0xbd,
            MiscSlotType::PciExpressGen5 => 0xbe,
            MiscSlotType::PciExpressGen5X1 => 0xbf,
            MiscSlotType::PciExpressGen5X2 => 0xc0,
            MiscSlotType::PciExpressGen5X4 => 0xc1,
            MiscSlotType::PciExpressGen5X8 => 0xc2,
            MiscSlotType::PciExpressGen5X16 => 0xc3,
            MiscSlotType::PciExpressGen6andBeyond => 0xc4,
            MiscSlotType::EnterpriseandDatacenter1UE1FormFactorSlot => 0xc5,
            MiscSlotType::EnterpriseandDatacenter3E3FormFactorSlot => 0xc6,
        }
    }
}

/// System Slots - Slot Data Bus Width.
pub enum MiscSlotDataBusWidth {
    /// Other data bus width
    Other,
    /// Unknown data bus width
    Unknown,
    /// 8-bit width
    Width8Bit,
    /// 16-bit width
    Width16Bit,
    /// 32-bit width
    Width32Bit,
    /// 64-bit width
    Width64Bit,
    /// 128-bit width
    Width128Bit,
    /// x1 width
    Width1X,
    /// x2 width
    Width2X,
    /// x4 width
    Width4X,
    /// x8 width
    Width8X,
    /// x12 width
    Width12X,
    /// x16 width
    Width16X,
    /// x32 width
    Width32X,
}

impl MiscSlotDataBusWidth {
    /// The number of the variant in the SMBIOS specification.
    pub open spec fn spec_value(&self) -> u8 {
        match self {
            MiscSlotDataBusWidth::Other => 1,
            MiscSlotDataBusWidth::Unknown => 2,
            MiscSlotDataBusWidth::Width8Bit => 3,
            MiscSlotDataBusWidth::Width16Bit => 4,
            MiscSlotDataBusWidth::Width32Bit => 5,
            MiscSlotDataBusWidth::Width64Bit => 6,
            MiscSlotDataBusWidth::Width128Bit => 7,
            MiscSlotDataBusWidth::Width1X => 8,
            MiscSlotDataBusWidth::Width2X => 9,
            MiscSlotDataBusWidth::Width4X => 0xa,
            MiscSlotDataBusWidth::Width8X => 0xb,
            MiscSlotDataBusWidth::Width12X => 0xc,
            MiscSlotDataBusWidth::Width16X => 0xd,
            MiscSlotDataBusWidth::Width32X => 0xe,
        }
    }

    /// The number of the variant in the SMBIOS specification.
    pub fn value(&self) -> (r: u8)
        ensures
            r == self.spec_value(),
    {
        match self {
            MiscSlotDataBusWidth::Other => 1,
            MiscSlotDataBusWidth::Unknown => 2,
            MiscSlotDataBusWidth::Width8Bit => 3,
            MiscSlotDataBusWidth::Width16Bit => 4,
            MiscSlotDataBusWidth::Width32Bit => 5,
            MiscSlotDataBusWidth::Width64Bit => 6,
            MiscSlotDataBusWidth::Width128Bit => 7,
            MiscSlotDataBusWidth::Width1X => 8,
            MiscSlotDataBusWidth::Width2X => 9,
            MiscSlotDataBusWidth::Width4X => 0xa,
            MiscSlotDataBusWidth::Width8X => 0xb,
            MiscSlotDataBusWidth::Width12X => 0xc,
            MiscSlotDataBusWidth::Width16X => 0xd,
            MiscSlotDataBusWidth::Width32X => 0xe,
        }
    }
}

/// System Slots - Slot Physical Width.
pub enum MiscSlotPhysicalWidth {
    /// Other physical width
    Other,
    /// Unknown physical width
    Unknown,
    /// 8-bit width
    Width8Bit,
    /// 16-bit width
    Width16Bit,
    /// 32-bit width
    Width32Bit,
    /// 64-bit width
    Width64Bit,
    /// 128-bit width
    Width128Bit,
    /// x1 width
    Width1X,
    /// x2 width
    Width2X,
    /// x4 width
    Width4X,
    /// x8 width
    Width8X,
    /// x12 width
    Width12X,
    /// x16 width
    Width16X,
    /// x32 width
    Width32X,
}

impl MiscSlotPhysicalWidth {
    /// The number of the variant in the SMBIOS specification.
    pub open spec fn spec_value(&self) -> u8 {
        match self {
            MiscSlotPhysicalWidth::Other => 1,
            MiscSlotPhysicalWidth::Unknown => 2,
            MiscSlotPhysicalWidth::Width8Bit => 3,
            MiscSlotPhysicalWidth::Width16Bit => 4,
            MiscSlotPhysicalWidth::Width32Bit => 5,
            MiscSlotPhysicalWidth::Width64Bit => 6,
            MiscSlotPhysicalWidth::Width128Bit => 7,
            MiscSlotPhysicalWidth::Width1X => 8,
            MiscSlotPhysicalWidth::Width2X => 9,
            MiscSlotPhysicalWidth::Width4X => 0xa,
            MiscSlotPhysicalWidth::Width8X => 0xb,
            MiscSlotPhysicalWidth::Width12X => 0xc,
            MiscSlotPhysicalWidth::Width16X => 0xd,
            MiscSlotPhysicalWidth::Width32X => 0xe,
        }
    }

    /// The number of the variant in the SMBIOS specification.
    pub fn value(&self) -> (r: u8)
        ensures
            r == self.spec_value(),
    {
        match self {
            MiscSlotPhysicalWidth::Other => 1,
            MiscSlotPhysicalWidth::Unknown => 2,
            MiscSlotPhysicalWidth::Width8Bit => 3,
            MiscSlotPhysicalWidth::Width16Bit => 4,
            MiscSlotPhysicalWidth::Width32Bit => 5,
            MiscSlotPhysicalWidth::Width64Bit => 6,
            MiscSlotPhysicalWidth::Width128Bit => 7,
            MiscSlotPhysicalWidth::Width1X => 8,
            MiscSlotPhysicalWidth::Width2X => 9,
            MiscSlotPhysicalWidth::Width4X => 0xa,
            MiscSlotPhysicalWidth::Width8X => 0xb,
            MiscSlotPhysicalWidth::Width12X => 0xc,
            MiscSlotPhysicalWidth::Width16X => 0xd,
            MiscSlotPhysicalWidth::Width32X => 0xe,
        }
    }
}

/// System Slots - Slot Information.
pub enum MiscSlotInformation {
    /// Other slot information
    Others,
    /// Generation 1
    Gen1,
    /// Generation 2
    Gen2,
    /// Generation 3
    Gen3,
    /// Generation 4
    Gen4,
    /// Generation 5
    Gen5,
    /// Generation 6
    Gen6,
}

impl MiscSlotInformation {
    /// The number of the variant in the SMBIOS specification.
    pub open spec fn spec_value(&self) -> u8 {
        match self {
            MiscSlotInformation::Others => 0,
            MiscSlotInformation::Gen1 => 1,
            MiscSlotInformation::Gen2 => 2,
            MiscSlotInformation::Gen3 => 3,
            MiscSlotInformation::Gen4 => 4,
            MiscSlotInformation::Gen5 => 5,
            MiscSlotInformation::Gen6 => 6,
        }
    }

    /// The number of the variant in the SMBIOS specification.
    pub fn value(&self) -> (r: u8)
        ensures
            r == self.spec_value(),
    {
        match self {
            MiscSlotInformation::Others => 0,
            MiscSlotInformation::Gen1 => 1,
            MiscSlotInformation::Gen2 => 2,
            MiscSlotInformation::Gen3 => 3,
            MiscSlotInformation::Gen4 => 4,
            MiscSlotInformation::Gen5 => 5,
            MiscSlotInformation::Gen6 => 6,
        }
    }
}

/// System Slots - Current Usage.
pub enum MiscSlotUsage {
    /// Other usage
    Other,
    /// Unknown usage
    Unknown,
    /// Available
    Available,
    /// In use
    InUse,
    /// Unavailable
    Unavailable,
}

impl MiscSlotUsage {
    /// The number of the variant in the SMBIOS specification.
    pub open spec fn spec_value(&self) -> u8 {
        match self {
            MiscSlotUsage::Other => 1,
            MiscSlotUsage::Unknown => 2,
            MiscSlotUsage::Available => 3,
            MiscSlotUsage::InUse => 4,
            MiscSlotUsage::Unavailable => 5,
        }
    }

    /// The number of the variant in the SMBIOS specification.
    pub fn value(&self) -> (r: u8)
        ensures
            r == self.spec_value(),
    {
        match self {
            MiscSlotUsage::Other => 1,
            MiscSlotUsage::Unknown => 2,
            MiscSlotUsage::Available => 3,
            MiscSlotUsage::InUse => 4,
            MiscSlotUsage::Unavailable => 5,
        }
    }
}

/// System Slots - Slot Length.
pub enum MiscSlotLength {
    /// Other length
    Other,
    /// Unknown length
    Unknown,
    /// Short
    Short,
    /// Long
    Long,
}

impl MiscSlotLength {
    /// The number of the variant in the SMBIOS specification.
    pub open spec fn spec_value(&self) -> u8 {
        match self {
            MiscSlotLength::Other => 1,
            MiscSlotLength::Unknown => 2,
            MiscSlotLength::Short => 3,
            MiscSlotLength::Long => 4,
        }
    }

    /// The number of the variant in the SMBIOS specification.
    pub fn value(&self) -> (r: u8)
        ensures
            r == self.spec_value(),
    {
        match self {
            MiscSlotLength::Other => 1,
            MiscSlotLength::Unknown => 2,
            MiscSlotLength::Short => 3,
            MiscSlotLength::Long => 4,
        }
    }
}

/// System Slots - Slot Characteristics 1.
///
/// System slot characteristics 1 bitfield
#[derive(Debug, Clone, Copy)]
pub struct MiscSlotCharacteristics1(pub u8);

impl MiscSlotCharacteristics1 {
    /// Characteristics unknown
    pub fn characteristics_unknown(&self) -> (r: bool)
        ensures
            r == ((self.0 >> 0u32) & 1 == 1),
    {
        (self.0 >> 0u32) & 1 == 1
    }

    /// Provides 5.0 volts
    pub fn provides_50_volts(&self) -> (r: bool)
        ensures
            r == ((self.0 >> 1u32) & 1 == 1),
    {
        (self.0 >> 1u32) & 1 == 1
    }

    /// Provides 3.3 volts
    pub fn provides_33_volts(&self) -> (r: bool)
        ensures
            r == ((self.0 >> 2u32) & 1 == 1),
    {
        (self.0 >> 2u32) & 1 == 1
    }

    /// Shared slot
    pub fn shared_slot(&self) -> (r: bool)
        ensures
            r == ((self.0 >> 3u32) & 1 == 1),
    {
        (self.0 >> 3u32) & 1 == 1
    }

    /// PC Card 16 supported
    pub fn pc_card_16_supported(&self) -> (r: bool)
        ensures
            r == ((self.0 >> 4u32) & 1 == 1),
    {
        (self.0 >> 4u32) & 1 == 1
    }

    /// CardBus supported
    pub fn card_bus_supported(&self) -> (r: bool)
        ensures
            r == ((self.0 >> 5u32) & 1 == 1),
    {
        (self.0 >> 5u32) & 1 == 1
    }

    /// Zoom video supported
    pub fn zoom_video_supported(&self) -> (r: bool)
        ensures
            r == ((self.0 >> 6u32) & 1 == 1),
    {
        (self.0 >> 6u32) & 1 == 1
    }

    /// Modem ring resume supported
    pub fn modem_ring_resume_supported(&self) -> (r: bool)
        ensures
            r == ((self.0 >> 7u32) & 1 == 1),
    {
        (self.0 >> 7u32) & 1 == 1
    }
}

/// System Slots - Slot Characteristics 2.
///
/// System slot characteristics 2 bitfield
#[derive(Debug, Clone, Copy)]
pub struct MiscSlotCharacteristics2(pub u8);

impl MiscSlotCharacteristics2 {
    /// PME signal supported
    pub fn pme_signal_supported(&self) -> (r: bool)
        ensures
            r == ((self.0 >> 0u32) & 1 == 1),
    {
        (self.0 >> 0u32) & 1 == 1
    }

    /// Hot plug devices supported
    pub fn hot_plug_devices_supported(&self) -> (r: bool)
        ensures
            r == ((self.0 >> 1u32) & 1 == 1),
    {
        (self.0 >> 1u32) & 1 == 1
    }

    /// SMBus signal supported
    pub fn smbus_signal_supported(&self) -> (r: bool)
        ensures
            r == ((self.0 >> 2u32) & 1 == 1),
    {
        (self.0 >> 2u32) & 1 == 1
    }

    /// Bifurcation supported
    pub fn bifurcation_supported(&self) -> (r: bool)
        ensures
            r == ((self.0 >> 3u32) & 1 == 1),
    {
        (self.0 >> 3u32) & 1 == 1
    }

    /// Asynchronous surprise removal
    pub fn async_surprise_removal(&self) -> (r: bool)
        ensures
            r == ((self.0 >> 4u32) & 1 == 1),
    {
        (self.0 >> 4u32) & 1 == 1
    }

    /// Flexbus slot CXL 1.0 capable
    pub fn flexbus_slot_cxl_10_capable(&self) -> (r: bool)
        ensures
            r == ((self.0 >> 5u32) & 1 == 1),
    {
        (self.0 >> 5u32) & 1 == 1
    }

    /// Flexbus slot CXL 2.0 capable
    pub fn flexbus_slot_cxl_20_capable(&self) -> (r: bool)
        ensures
            r == ((self.0 >> 6u32) & 1 == 1),
    {
        (self.0 >> 6u32) & 1 == 1
    }

    /// Flexbus slot CXL 3.0 capable
    pub fn flexbus_slot_cxl_30_capable(&self) -> (r: bool)
        ensures
            r == ((self.0 >> 7u32) & 1 == 1),
    {
        (self.0 >> 7u32) & 1 == 1
    }
}

/// System Slots - Slot Height
pub enum MiscSlotHeight {
    /// No slot height
    NoHeight,
    /// Other slot height
    Other,
    /// Unknown slot height
    Unknown,
    /// Full height
    FullHeight,
    /// Low profile
    LowProfile,
}

impl MiscSlotHeight {
    /// The number of the variant in the SMBIOS specification.
    pub open spec fn spec_value(&self) -> u8 {
        match self {
            MiscSlotHeight::NoHeight => 0,
            MiscSlotHeight::Other => 1,
            MiscSlotHeight::Unknown => 2,
            MiscSlotHeight::FullHeight => 3,
            MiscSlotHeight::LowProfile => 4,
        }
    }

    /// The number of the variant in the SMBIOS specification.
    pub fn value(&self) -> (r: u8)
        ensures
            r == self.spec_value(),
    {
        match self {
            MiscSlotHeight::NoHeight => 0,
            MiscSlotHeight::Other => 1,
            MiscSlotHeight::Unknown => 2,
            MiscSlotHeight::FullHeight => 3,
            MiscSlotHeight::LowProfile => 4,
        }
    }
}

/// System Slots - Peer Segment/Bus/Device/Function/Width Groups
pub struct MiscSlotPeerGroup {
    /// Segment group number
    pub segment_group_num: u16,
    /// Bus number
    pub bus_num: u8,
    /// Device/function number
    pub dev_func_num: u8,
    /// Data bus width
    pub data_bus_width: u8,
}

/// System Slots (Type 9)
///
/// The information in this structure defines the attributes of a system slot.
/// One structure is provided for each slot in the system.
pub struct SmbiosTableType9 {
    /// Structure header
    pub hdr: SmbiosStructure,
    /// Slot designation string
    pub slot_designation: SmbiosTableString,
    /// Slot type (MISC_SLOT_TYPE)
    pub slot_type: u8,
    /// Slot data bus width (MISC_SLOT_DATA_BUS_WIDTH)
    pub slot_data_bus_width: u8,
    /// Current usage (MISC_SLOT_USAGE)
    pub current_usage: u8,
    /// Slot length (MISC_SLOT_LENGTH)
    pub slot_length: u8,
    /// Slot ID
    pub slot_id: u16,
    /// Slot characteristics 1
    pub slot_characteristics1: MiscSlotCharacteristics1,
    /// Slot characteristics 2
    pub slot_characteristics2: MiscSlotCharacteristics2,
    /// Segment group number
    pub segment_group_num: u16,
    /// Bus number
    pub bus_num: u8,
    /// Device/function number
    pub dev_func_num: u8,
    /// Data bus width
    pub data_bus_width: u8,
    /// Peer grouping count
    pub peer_grouping_count: u8,
    /// Peer groups (variable-length array)
    pub peer_groups: [MiscSlotPeerGroup; 0],
}

/// Extended structure for System Slots (Type 9)
pub struct SmbiosTableType9Extended {
    /// Slot information
    pub slot_information: u8,
    /// Slot physical width
    pub slot_physical_width: u8,
    /// Slot pitch
    pub slot_pitch: u16,
    /// Slot height (enumeration value from MISC_SLOT_HEIGHT)
    pub slot_height: u8,
}

/// On Board Devices Information - Device Types.
pub enum MiscOnboardDeviceType {
    /// Other device type
    Other,
    /// Unknown device type
    Unknown,
    /// Video device type
    Video,
    /// SCSI controller device type
    ScsiController,
    /// Ethernet device type
    Ethernet,
    /// Token Ring device type
    TokenRing,
    /// Sound device type
    Sound,
    /// PATA controller device type
    PataController,
    /// SATA controller device type
    SataController,
    /// SAS controller device type
    SasController,
}

impl MiscOnboardDeviceType {
    /// The number of the variant in the SMBIOS specification.
    pub open spec fn spec_value(&self) -> u8 {
        match self {
            MiscOnboardDeviceType::Other => 1,
            MiscOnboardDeviceType::Unknown => 2,
            MiscOnboardDeviceType::Video => 3,
            MiscOnboardDeviceType::ScsiController => 4,
            MiscOnboardDeviceType::Ethernet => 5,
            MiscOnboardDeviceType::TokenRing => 6,
            MiscOnboardDeviceType::Sound => 7,
            MiscOnboardDeviceType::PataController => 8,
            MiscOnboardDeviceType::SataController => 9,
            MiscOnboardDeviceType::SasController => 0xa,
        }
    }

    /// The number of the variant in the SMBIOS specification.
    pub fn value(&self) -> (r: u8)
        ensures
            r == self.spec_value(),
    {
        match self {
            MiscOnboardDeviceType::Other => 1,
            MiscOnboardDeviceType::Unknown => 2,
            MiscOnboardDeviceType::Video => 3,
            MiscOnboardDeviceType::ScsiController => 4,
            MiscOnboardDeviceType::Ethernet => 5,
            MiscOnboardDeviceType::TokenRing => 6,
            MiscOnboardDeviceType::Sound => 7,
            MiscOnboardDeviceType::PataController => 8,
            MiscOnboardDeviceType::SataController => 9,
            MiscOnboardDeviceType::SasController => 0xa,
        }
    }
}

/// Device Item Entry
pub struct DeviceStruct {
    /// Device type (bit \[6:0\] - enumeration type from MISC_ONBOARD_DEVICE_TYPE)
    pub device_type: u8,
    /// Device description string
    pub description_string: SmbiosTableString,
}

/// OEM Strings (Type 11).
/// This structure contains free form strings defined by the OEM. Examples of this are:
/// Part Numbers for Reference Documents for the system, contact information for the manufacturer, etc.
///
/// OEM Strings (Type 11)
pub struct SmbiosTableType11 {
    /// Structure header
    pub hdr: SmbiosStructure,
    /// Number of strings
    pub string_count: u8,
}

/// System Configuration Options (Type 12).
///
/// This structure contains information required to configure the base board's Jumpers and Switches.
///
/// System Configuration Options (Type 12)
pub struct SmbiosTableType12 {
    /// Structure header
    pub hdr: SmbiosStructure,
    /// Number of strings
    pub string_count: u8,
}

/// BIOS Language Information (Type 13).
///
/// The information in this structure defines the installable language attributes of the BIOS.
///
/// BIOS Language Information (Type 13)
pub struct SmbiosTableType13 {
    /// Structure header
    pub hdr: SmbiosStructure,
    /// Number of installable languages
    pub installable_languages: u8,
    /// Flags
    pub flags: u8,
    /// Reserved bytes
    pub reserved: [u8; 15],
    /// Current language string
    pub current_languages: SmbiosTableString,
}

/// Group Item Entry
///
/// Group Item Entry
pub struct GroupStruct {
    /// Item type
    pub item_type: u8,
    /// Item handle
    pub item_handle: u16,
}

/// Group Associations (Type 14).
///
/// The Group Associations structure is provided for OEMs who want to specify
/// the arrangement or hierarchy of certain components (including other Group Associations)
/// within the system.
///
/// Group Associations (Type 14)
pub struct SmbiosTableType14 {
    /// Structure header
    pub hdr: SmbiosStructure,
    /// Group name string
    pub group_name: SmbiosTableString,
    /// Group array
    pub group: [GroupStruct; 1],
}

/// System Event Log - Event Log Types.
pub enum EventLogTypeData {
    /// Reserved event log type
    Reserved,
    /// Single-bit ECC event log type
    SingleBitEcc,
    /// Multi-bit ECC event log type
    MultiBitEcc,
    /// Parity memory error event log type
    ParityMemErr,
    /// Bus timeout event log type
    BusTimeOut,
    /// IO channel check event log type
    IoChannelCheck,
    /// Software NMI event log type
    SoftwareNmi,
    /// POST memory resize event log type
    PostMemResize,
    /// POST error event log type
    PostErr,
    /// PCI parity error event log type
    PciParityErr,
    /// PCI system error event log type
    PciSystemErr,
    /// CPU failure event log type
    CpuFailure,
    /// EISA timeout event log type
    EisaTimeOut,
    /// Memory log disabled event log type
    MemLogDisabled,
    /// Logging disabled event log type
    LoggingDisabled,
    /// System limit exceeded event log type
    SysLimitExce,
    /// Asynchronous hardware timer event log type
    AsyncHwTimer,
    /// System configuration info event log type
    SysConfigInfo,
    /// Hard drive info event log type
    HdInfo,
    /// System reconfiguration event log type
    SysReconfig,
    /// Uncorrectable CPU error event log type
    UncorrectableCpuErr,
    /// Area reset and clear event log type
    AreaResetAndClr,
    /// System boot event log type
    SystemBoot,
    /// Unused event log type (0x18 - 0x7F)
    Unused,
    /// Available for system event log type (0x80 - 0xFE)
    AvailForSys,
    /// End of log event log type
    EndOfLog,
}

impl EventLogTypeData {
    /// The number of the variant in the SMBIOS specification.
    pub open spec fn spec_value(&self) -> u8 {
        match self {
            EventLogTypeData::Reserved => 0,
            EventLogTypeData::SingleBitEcc => 1,
            EventLogTypeData::MultiBitEcc => 2,
            EventLogTypeData::ParityMemErr => 3,
            EventLogTypeData::BusTimeOut => 4,
            EventLogTypeData::IoChannelCheck => 5,
            EventLogTypeData::SoftwareNmi => 6,
            EventLogTypeData::PostMemResize => 7,
            EventLogTypeData::PostErr => 8,
            EventLogTypeData::PciParityErr => 9,
            EventLogTypeData::PciSystemErr => 0xa,
            EventLogTypeData::CpuFailure => 0xb,
            EventLogTypeData::EisaTimeOut => 0xc,
            EventLogTypeData::MemLogDisabled => 0xd,
            EventLogTypeData::LoggingDisabled => 0xe,
            EventLogTypeData::SysLimitExce => 0x10,
            EventLogTypeData::AsyncHwTimer => 0x11,
            EventLogTypeData::SysConfigInfo => 0x12,
            EventLogTypeData::HdInfo => 0x13,
            EventLogTypeData::SysReconfig => 0x14,
            EventLogTypeData::UncorrectableCpuErr => 0x15,
            EventLogTypeData::AreaResetAndClr => 0x16,
            EventLogTypeData::SystemBoot => 0x17,
            EventLogTypeData::Unused => 0x18,
            EventLogTypeData::AvailForSys => 0x80,
            EventLogTypeData::EndOfLog => 0xff,
        }
    }

    /// The number of the variant in the SMBIOS specification.
    pub fn value(&self) -> (r: u8)
        ensures
            r == self.spec_value(),
    {
        match self {
            EventLogTypeData::Reserved => 0,
            EventLogTypeData::SingleBitEcc => 1,
            EventLogTypeData::MultiBitEcc => 2,
            EventLogTypeData::ParityMemErr => 3,
            EventLogTypeData::BusTimeOut => 4,
            EventLogTypeData::IoChannelCheck => 5,
            EventLogTypeData::SoftwareNmi => 6,
            EventLogTypeData::PostMemResize => 7,
            EventLogTypeData::PostErr => 8,
            EventLogTypeData::PciParityErr => 9,
            EventLogTypeData::PciSystemErr => 0xa,
            EventLogTypeData::CpuFailure => 0xb,
            EventLogTypeData::EisaTimeOut => 0xc,
            EventLogTypeData::MemLogDisabled => 0xd,
            EventLogTypeData::LoggingDisabled => 0xe,
            EventLogTypeData::SysLimitExce => 0x10,
            EventLogTypeData::AsyncHwTimer => 0x11,
            EventLogTypeData::SysConfigInfo => 0x12,
            EventLogTypeData::HdInfo => 0x13,
            EventLogTypeData::SysReconfig => 0x14,
            EventLogTypeData::UncorrectableCpuErr => 0x15,
            EventLogTypeData::AreaResetAndClr => 0x16,
            EventLogTypeData::SystemBoot => 0x17,
            EventLogTypeData::Unused => 0x18,
            EventLogTypeData::AvailForSys => 0x80,
            EventLogTypeData::EndOfLog => 0xff,
        }
    }
}

/// System Event Log - Variable Data Format Types.
pub enum EventLogVariableData {
    /// No variable data
    NoData,
    /// Handle variable data
    Handle,
    /// Multi-event variable data
    MutilEvent,
    /// Multi-event handle variable data
    MutilEventHandle,
    /// POST result bitmap variable data
    PostResultBitmap,
    /// System management type variable data
    SysManagementType,
    /// Multi-event system management type variable data
    MutliEventSysManagementType,
    /// Unused variable data
    Unused,
    /// OEM assigned variable data
    OemAssigned,
}

impl EventLogVariableData {
    /// The number of the variant in the SMBIOS specification.
    pub open spec fn spec_value(&self) -> u8 {
        match self {
            EventLogVariableData::NoData => 0,
            EventLogVariableData::Handle => 1,
            EventLogVariableData::MutilEvent => 2,
            EventLogVariableData::MutilEventHandle => 3,
            EventLogVariableData::PostResultBitmap => 4,
            EventLogVariableData::SysManagementType => 5,
            EventLogVariableData::MutliEventSysManagementType => 6,
            EventLogVariableData::Unused => 7,
            EventLogVariableData::OemAssigned => 0x80,
        }
    }

    /// The number of the variant in the SMBIOS specification.
    pub fn value(&self) -> (r: u8)
        ensures
            r == self.spec_value(),
    {
        match self {
            EventLogVariableData::NoData => 0,
            EventLogVariableData::Handle => 1,
            EventLogVariableData::MutilEvent => 2,
            EventLogVariableData::MutilEventHandle => 3,
            EventLogVariableData::PostResultBitmap => 4,
            EventLogVariableData::SysManagementType => 5,
            EventLogVariableData::MutliEventSysManagementType => 6,
            EventLogVariableData::Unused => 7,
            EventLogVariableData::OemAssigned => 0x80,
        }
    }
}

/// Event Log Type Descriptors
pub struct EventLogType {
    /// Log type (enumeration value from EVENT_LOG_TYPE_DATA)
    pub log_type: u8,
    /// Data format type
    pub data_format_type: u8,
}

/// System Event Log (Type 15).
///
/// The presence of this structure within the SMBIOS data returned for a system indicates
/// that the system supports an event log.  An event log is a fixed-length area within a
/// non-volatile storage element, starting with a fixed-length (and vendor-specific) header
/// record, followed by one or more variable-length log records.
pub struct SmbiosTableType15 {
    /// Structure header
    pub hdr: SmbiosStructure,
    /// Log area length
    pub log_area_length: u16,
    /// Log header start offset
    pub log_header_start_offset: u16,
    /// Log data start offset
    pub log_data_start_offset: u16,
    /// Access method
    pub access_method: u8,
    /// Log status
    pub log_status: u8,
    /// Log change token
    pub log_change_token: u32,
    /// Access method address
    pub access_method_address: u32,
    /// Log header format
    pub log_header_format: u8,
    /// Number of supported log type descriptors
    pub number_of_supported_log_type_descriptors: u8,
    /// Length of log type descriptor
    pub length_of_log_type_descriptor: u8,
    /// Event log type descriptors
    pub event_log_type_descriptors: [EventLogType; 1],
}

/// Physical Memory Array - Location.
pub enum MemoryArrayLocation {
    /// Other location
    Other,
    /// Unknown location
    Unknown,
    /// System board
    SystemBoard,
    /// ISA add-on card
    IsaAddonCard,
    /// EISA add-on card
    EisaAddonCard,
    /// PCI add-on card
    PciAddonCard,
    /// MCA add-on card
    McaAddonCard,
    /// PCMCIA add-on card
    PcmciaAddonCard,
    /// Proprietary add-on card
    ProprietaryAddonCard,
    /// NuBus
    NuBus,
    /// PC98 C20 add-on card
    Pc98C20AddonCard,
    /// PC98 C24 add-on card
    Pc98C24AddonCard,
    /// PC98 E add-on card
    Pc98EAddonCard,
    /// PC98 local bus add-on card
    Pc98LocalBusAddonCard,
    /// CXL add-on card
    CxlAddonCard,
}

impl MemoryArrayLocation {
    /// The number of the variant in the SMBIOS specification.
    pub open spec fn spec_value(&self) -> u8 {
        match self {
            MemoryArrayLocation::Other => 1,
            MemoryArrayLocation::Unknown => 2,
            MemoryArrayLocation::SystemBoard => 3,
            MemoryArrayLocation::IsaAddonCard => 4,
            MemoryArrayLocation::EisaAddonCard => 5,
            MemoryArrayLocation::PciAddonCard => 6,
            MemoryArrayLocation::McaAddonCard => 7,
            MemoryArrayLocation::PcmciaAddonCard => 8,
            MemoryArrayLocation::ProprietaryAddonCard => 9,
            MemoryArrayLocation::NuBus => 0xa,
            MemoryArrayLocation::Pc98C20AddonCard => 0xa0,
            MemoryArrayLocation::Pc98C24AddonCard => 0xa1,
            MemoryArrayLocation::Pc98EAddonCard => 0xa2,
            MemoryArrayLocation::Pc98LocalBusAddonCard => 0xa3,
            MemoryArrayLocation::CxlAddonCard => 0xa4,
        }
    }

    /// The number of the variant in the SMBIOS specification.
    pub fn value(&self) -> (r: u8)
        ensures
            r == self.spec_value(),
    {
        match self {
            MemoryArrayLocation::Other => 1,
            MemoryArrayLocation::Unknown => 2,
            MemoryArrayLocation::SystemBoard => 3,
            MemoryArrayLocation::IsaAddonCard => 4,
            MemoryArrayLocation::EisaAddonCard => 5,
            MemoryArrayLocation::PciAddonCard => 6,
            MemoryArrayLocation::McaAddonCard => 7,
            MemoryArrayLocation::PcmciaAddonCard => 8,
            MemoryArrayLocation::ProprietaryAddonCard => 9,
            MemoryArrayLocation::NuBus => 0xa,
            MemoryArrayLocation::Pc98C20AddonCard => 0xa0,
            MemoryArrayLocation::Pc98C24AddonCard => 0xa1,
            MemoryArrayLocation::Pc98EAddonCard => 0xa2,
            MemoryArrayLocation::Pc98LocalBusAddonCard => 0xa3,
            MemoryArrayLocation::CxlAddonCard => 0xa4,
        }
    }
}

/// Physical Memory Array - Use.
pub enum MemoryArrayUse {
    /// Other use
    Other,
    /// Unknown use
    Unknown,
    /// System memory
    SystemMemory,
    /// Video memory
    VideoMemory,
    /// Flash memory
    FlashMemory,
    /// Non-volatile RAM
    NonVolatileRam,
    /// Cache memory
    CacheMemory,
}

impl MemoryArrayUse {
    /// The number of the variant in the SMBIOS specification.
    pub open spec fn spec_value(&self) -> u8 {
        match self {
            MemoryArrayUse::Other => 1,
            MemoryArrayUse::Unknown => 2,
            MemoryArrayUse::SystemMemory => 3,
            MemoryArrayUse::VideoMemory => 4,
            MemoryArrayUse::FlashMemory => 5,
            MemoryArrayUse::NonVolatileRam => 6,
            MemoryArrayUse::CacheMemory => 7,
        }
    }

    /// The number of the variant in the SMBIOS specification.
    pub fn value(&self) -> (r: u8)
        ensures
            r == self.spec_value(),
    {
        match self {
            MemoryArrayUse::Other => 1,
            MemoryArrayUse::Unknown => 2,
            MemoryArrayUse::SystemMemory => 3,
            MemoryArrayUse::VideoMemory => 4,
            MemoryArrayUse::FlashMemory => 5,
            MemoryArrayUse::NonVolatileRam => 6,
            MemoryArrayUse::CacheMemory => 7,
        }
    }
}

/// Physical Memory Array - Error Correction Types.
pub enum MemoryErrorCorrection {
    /// Other error correction
    Other,
    /// Unknown error correction
    Unknown,
    /// No error correction
    NoCorrection,
    /// Parity
    Parity,
    /// Single-bit ECC
    SingleBitEcc,
    /// Multi-bit ECC
    MultiBitEcc,
    /// CRC
    Crc,
}

impl MemoryErrorCorrection {
    /// The number of the variant in the SMBIOS specification.
    pub open spec fn spec_value(&self) -> u8 {
        match self {
            MemoryErrorCorrection::Other => 1,
            MemoryErrorCorrection::Unknown => 2,
            MemoryErrorCorrection::NoCorrection => 3,
            MemoryErrorCorrection::Parity => 4,
            MemoryErrorCorrection::SingleBitEcc => 5,
            MemoryErrorCorrection::MultiBitEcc => 6,
            MemoryErrorCorrection::Crc => 7,
        }
    }

    /// The number of the variant in the SMBIOS specification.
    pub fn value(&self) -> (r: u8)
        ensures
            r == self.spec_value(),
    {
        match self {
            MemoryErrorCorrection::Other => 1,
            MemoryErrorCorrection::Unknown => 2,
            MemoryErrorCorrection::NoCorrection => 3,
            MemoryErrorCorrection::Parity => 4,
            MemoryErrorCorrection::SingleBitEcc => 5,
            MemoryErrorCorrection::MultiBitEcc => 6,
            MemoryErrorCorrection::Crc => 7,
        }
    }
}

/// Physical Memory Array (Type 16).
///
/// This structure describes a collection of memory devices that operate
/// together to form a memory address space.
pub struct SmbiosTableType16 {
    /// Structure header
    pub hdr: SmbiosStructure,
    /// Location (MEMORY_ARRAY_LOCATION)
    pub location: u8,
    /// Use (MEMORY_ARRAY_USE)
    pub use_: u8,
    /// Error correction (MEMORY_ERROR_CORRECTION)
    pub memory_error_correction: u8,
    /// Maximum capacity
    pub maximum_capacity: u32,
    /// Memory error information handle
    pub memory_error_information_handle: u16,
    /// Number of memory devices
    pub number_of_memory_devices: u16,
    /// Extended maximum capacity
    pub extended_maximum_capacity: u64,
}

/// Memory Device - Form Factor.
pub enum MemoryFormFactor {
    /// Other form factor
    Other,
    /// Unknown form factor
    Unknown,
    /// SIMM
    Simm,
    /// SIP
    Sip,
    /// Chip
    Chip,
    /// DIP
    Dip,
    /// ZIP
    Zip,
    /// Proprietary card
    ProprietaryCard,
    /// DIMM
    Dimm,
    /// TSOP
    Tsop,
    /// Row of chips
    RowOfChips,
    /// RIMM
    Rimm,
    /// SODIMM
    Sodimm,
    /// SRIMM
    Srimm,
    /// FBDIMM
    FbDimm,
    /// Die
    Die,
}

impl MemoryFormFactor {
    /// The number of the variant in the SMBIOS specification.
    pub open spec fn spec_value(&self) -> u8 {
        match self {
            MemoryFormFactor::Other => 1,
            MemoryFormFactor::Unknown => 2,
            MemoryFormFactor::Simm => 3,
            MemoryFormFactor::Sip => 4,
            MemoryFormFactor::Chip => 5,
            MemoryFormFactor::Dip => 6,
            MemoryFormFactor::Zip => 7,
            MemoryFormFactor::ProprietaryCard => 8,
            MemoryFormFactor::Dimm => 9,
            MemoryFormFactor::Tsop => 0xa,
            MemoryFormFactor::RowOfChips => 0xb,
            MemoryFormFactor::Rimm => 0xc,
            MemoryFormFactor::Sodimm => 0xd,
            MemoryFormFactor::Srimm => 0xe,
            MemoryFormFactor::FbDimm => 0xf,
            MemoryFormFactor::Die => 0x10,
        }
    }

    /// The number of the variant in the SMBIOS specification.
    pub fn value(&self) -> (r: u8)
        ensures
            r == self.spec_value(),
    {
        match self {
            MemoryFormFactor::Other => 1,
            MemoryFormFactor::Unknown => 2,
            MemoryFormFactor::Simm => 3,
            MemoryFormFactor::Sip => 4,
            MemoryFormFactor::Chip => 5,
            MemoryFormFactor::Dip => 6,
            MemoryFormFactor::Zip => 7,
            MemoryFormFactor::ProprietaryCard => 8,
            MemoryFormFactor::Dimm => 9,
            MemoryFormFactor::Tsop => 0xa,
            MemoryFormFactor::RowOfChips => 0xb,
            MemoryFormFactor::Rimm => 0xc,
            MemoryFormFactor::Sodimm => 0xd,
            MemoryFormFactor::Srimm => 0xe,
            MemoryFormFactor::FbDimm => 0xf,
            MemoryFormFactor::Die => 0x10,
        }
    }
}

/// Memory Device - Type
pub enum MemoryDeviceType {
    /// Other device type
    Other,
    /// Unknown device type
    Unknown,
    /// DRAM
    Dram,
    /// EDRAM
    Edram,
    /// VRAM
    Vram,
    /// SRAM
    Sram,
    /// RAM
    Ram,
    /// ROM
    Rom,
    /// Flash
    Flash,
    /// EEPROM
    Eeprom,
    /// FEPROM
    Feprom,
    /// EPROM
    Eprom,
    /// CDRAM
    Cdram,
    /// 3DRAM
    ThreeDram,
    /// SDRAM
    Sdram,
    /// SGRAM
    Sgram,
    /// RDRAM
    Rdram,
    /// DDR
    Ddr,
    /// DDR2
    Ddr2,
    /// DDR2 FBDIMM
    Ddr2FbDimm,
    /// DDR3
    Ddr3,
    /// FBD2
    Fbd2,
    /// DDR4
    Ddr4,
    /// LPDDR
    Lpddr,
    /// LPDDR2
    Lpddr2,
    /// LPDDR3
    Lpddr3,
    /// LPDDR4
    Lpddr4,
    /// Logical non-volatile device
    LogicalNonVolatileDevice,
    /// HBM
    Hbm,
    /// HBM2
    Hbm2,
    /// DDR5
    Ddr5,
    /// LPDDR5
    Lpddr5,
    /// HBM3
    Hbm3,
}

impl MemoryDeviceType {
    /// The number of the variant in the SMBIOS specification.
    pub open spec fn spec_value(&self) -> u8 {
        match self {
            MemoryDeviceType::Other => 1,
            MemoryDeviceType::Unknown => 2,
            MemoryDeviceType::Dram => 3,
            MemoryDeviceType::Edram => 4,
            MemoryDeviceType::Vram => 5,
            MemoryDeviceType::Sram => 6,
            MemoryDeviceType::Ram => 7,
            MemoryDeviceType::Rom => 8,
            MemoryDeviceType::Flash => 9,
            MemoryDeviceType::Eeprom => 0xa,
            MemoryDeviceType::Feprom => 0xb,
            MemoryDeviceType::Eprom => 0xc,
            MemoryDeviceType::Cdram => 0xd,
            MemoryDeviceType::ThreeDram => 0xe,
            MemoryDeviceType::Sdram => 0xf,
            MemoryDeviceType::Sgram => 0x10,
            MemoryDeviceType::Rdram => 0x11,
            MemoryDeviceType::Ddr => 0x12,
            MemoryDeviceType::Ddr2 => 0x13,
            MemoryDeviceType::Ddr2FbDimm => 0x14,
            MemoryDeviceType::Ddr3 => 0x18,
            MemoryDeviceType::Fbd2 => 0x19,
            MemoryDeviceType::Ddr4 => 0x1a,
            MemoryDeviceType::Lpddr => 0x1b,
            MemoryDeviceType::Lpddr2 => 0x1c,
            MemoryDeviceType::Lpddr3 => 0x1d,
            MemoryDeviceType::Lpddr4 => 0x1e,
            MemoryDeviceType::LogicalNonVolatileDevice => 0x1f,
            MemoryDeviceType::Hbm => 0x20,
            MemoryDeviceType::Hbm2 => 0x21,
            MemoryDeviceType::Ddr5 => 0x22,
            MemoryDeviceType::Lpddr5 => 0x23,
            MemoryDeviceType::Hbm3 => 0x24,
        }
    }

    /// The number of the variant in the SMBIOS specification.
    pub fn value(&self) -> (r: u8)
        ensures
            r == self.spec_value(),
    {
        match self {
            MemoryDeviceType::Other => 1,
            MemoryDeviceType::Unknown => 2,
            MemoryDeviceType::Dram => 3,
            MemoryDeviceType::Edram => 4,
            MemoryDeviceType::Vram => 5,
            MemoryDeviceType::Sram => 6,
            MemoryDeviceType::Ram => 7,
            MemoryDeviceType::Rom => 8,
            MemoryDeviceType::Flash => 9,
            MemoryDeviceType::Eeprom => 0xa,
            MemoryDeviceType::Feprom => 0xb,
            MemoryDeviceType::Eprom => 0xc,
            MemoryDeviceType::Cdram => 0xd,
            MemoryDeviceType::ThreeDram => 0xe,
            MemoryDeviceType::Sdram => 0xf,
            MemoryDeviceType::Sgram => 0x10,
            MemoryDeviceType::Rdram => 0x11,
            MemoryDeviceType::Ddr => 0x12,
            MemoryDeviceType::Ddr2 => 0x13,
            MemoryDeviceType::Ddr2FbDimm => 0x14,
            MemoryDeviceType::Ddr3 => 0x18,
            MemoryDeviceType::Fbd2 => 0x19,
            MemoryDeviceType::Ddr4 => 0x1a,
            MemoryDeviceType::Lpddr => 0x1b,
            MemoryDeviceType::Lpddr2 => 0x1c,
            MemoryDeviceType::Lpddr3 => 0x1d,
            MemoryDeviceType::Lpddr4 => 0x1e,
            MemoryDeviceType::LogicalNonVolatileDevice => 0x1f,
            MemoryDeviceType::Hbm => 0x20,
            MemoryDeviceType::Hbm2 => 0x21,
            MemoryDeviceType::Ddr5 => 0x22,
            MemoryDeviceType::Lpddr5 => 0x23,
            MemoryDeviceType::Hbm3 => 0x24,
        }
    }
}

/// Memory Device - Type Detail
///
/// Memory device type details bitfield
#[derive(Debug, Clone, Copy)]
pub struct MemoryDeviceTypeDetails(pub u16);

impl MemoryDeviceTypeDetails {
    /// Reserved bit
    pub fn reserved(&self) -> (r: bool)
        ensures
            r == ((self.0 >> 0u32) & 1 == 1),
    {
        (self.0 >> 0u32) & 1 == 1
    }

    /// Other
    pub fn other(&self) -> (r: bool)
        ensures
            r == ((self.0 >> 1u32) & 1 == 1),
    {
        (self.0 >> 1u32) & 1 == 1
    }

    /// Unknown
    pub fn unknown(&self) -> (r: bool)
        ensures
            r == ((self.0 >> 2u32) & 1 == 1),
    {
        (self.0 >> 2u32) & 1 == 1
    }

    /// Fast-paged
    pub fn fast_paged(&self) -> (r: bool)
        ensures
            r == ((self.0 >> 3u32) & 1 == 1),
    {
        (self.0 >> 3u32) & 1 == 1
    }

    /// Static column
    pub fn static_column(&self) -> (r: bool)
        ensures
            r == ((self.0 >> 4u32) & 1 == 1),
    {
        (self.0 >> 4u32) & 1 == 1
    }

    /// Pseudo-static
    pub fn pseudo_static(&self) -> (r: bool)
        ensures
            r == ((self.0 >> 5u32) & 1 == 1),
    {
        (self.0 >> 5u32) & 1 == 1
    }

    /// Rambus
    pub fn rambus(&self) -> (r: bool)
        ensures
            r == ((self.0 >> 6u32) & 1 == 1),
    {
        (self.0 >> 6u32) & 1 == 1
    }

    /// Synchronous
    pub fn synchronous(&self) -> (r: bool)
        ensures
            r == ((self.0 >> 7u32) & 1 == 1),
    {
        (self.0 >> 7u32) & 1 == 1
    }

    /// CMOS
    pub fn cmos(&self) -> (r: bool)
        ensures
            r == ((self.0 >> 8u32) & 1 == 1),
    {
        (self.0 >> 8u32) & 1 == 1
    }

    /// EDO
    pub fn edo(&self) -> (r: bool)
        ensures
            r == ((self.0 >> 9u32) & 1 == 1),
    {
        (self.0 >> 9u32) & 1 == 1
    }

    /// Window DRAM
    pub fn window_dram(&self) -> (r: bool)
        ensures
            r == ((self.0 >> 10u32) & 1 == 1),
    {
        (self.0 >> 10u32) & 1 == 1
    }

    /// Cache DRAM
    pub fn cache_dram(&self) -> (r: bool)
        ensures
            r == ((self.0 >> 11u32) & 1 == 1),
    {
        (self.0 >> 11u32) & 1 == 1
    }

    /// Nonvolatile
    pub fn nonvolatile(&self) -> (r: bool)
        ensures
            r == ((self.0 >> 12u32) & 1 == 1),
    {
        (self.0 >> 12u32) & 1 == 1
    }

    /// Registered
    pub fn registered(&self) -> (r: bool)
        ensures
            r == ((self.0 >> 13u32) & 1 == 1),
    {
        (self.0 >> 13u32) & 1 == 1
    }

    /// Unbuffered
    pub fn unbuffered(&self) -> (r: bool)
        ensures
            r == ((self.0 >> 14u32) & 1 == 1),
    {
        (self.0 >> 14u32) & 1 == 1
    }

    /// LR-DIMM
    pub fn lr_dimm(&self) -> (r: bool)
        ensures
            r == ((self.0 >> 15u32) & 1 == 1),
    {
        (self.0 >> 15u32) & 1 == 1
    }
}

/// Memory Device - Memory Technology
pub enum MemoryDeviceTechnology {
    /// Other technology
    Other,
    /// Unknown technology
    Unknown,
    /// DRAM technology
    Dram,
    /// NVDIMM-N technology
    NvdimmN,
    /// NVDIMM-F technology
    NvdimmF,
    /// NVDIMM-P technology
    NvdimmP,
    /// Intel Optane Persistent Memory
    IntelOptanePersistentMemory,
}

impl MemoryDeviceTechnology {
    /// The number of the variant in the SMBIOS specification.
    pub open spec fn spec_value(&self) -> u8 {
        match self {
            MemoryDeviceTechnology::Other => 1,
            MemoryDeviceTechnology::Unknown => 2,
            MemoryDeviceTechnology::Dram => 3,
            MemoryDeviceTechnology::NvdimmN => 4,
            MemoryDeviceTechnology::NvdimmF => 5,
            MemoryDeviceTechnology::NvdimmP => 6,
            MemoryDeviceTechnology::IntelOptanePersistentMemory => 7,
        }
    }

    /// The number of the variant in the SMBIOS specification.
    pub fn value(&self) -> (r: u8)
        ensures
            r == self.spec_value(),
    {
        match self {
            MemoryDeviceTechnology::Other => 1,
            MemoryDeviceTechnology::Unknown => 2,
            MemoryDeviceTechnology::Dram => 3,
            MemoryDeviceTechnology::NvdimmN => 4,
            MemoryDeviceTechnology::NvdimmF => 5,
            MemoryDeviceTechnology::NvdimmP => 6,
            MemoryDeviceTechnology::IntelOptanePersistentMemory => 7,
        }
    }
}

/// Memory Device - Memory Operating Mode Capability
///
/// Memory device operating mode capability bits
#[derive(Copy, Clone, Debug)]
pub struct MemoryDeviceOperatingModeCapabilityBits(pub u16);

impl MemoryDeviceOperatingModeCapabilityBits {
    /// Reserved bit
    pub fn reserved(&self) -> (r: bool)
        ensures
            r == ((self.0 >> 0u32) & 1 == 1),
    {
        (self.0 >> 0u32) & 1 == 1
    }

    /// Other capability
    pub fn other(&self) -> (r: bool)
        ensures
            r == ((self.0 >> 1u32) & 1 == 1),
    {
        (self.0 >> 1u32) & 1 == 1
    }

    /// Unknown capability
    pub fn unknown(&self) -> (r: bool)
        ensures
            r == ((self.0 >> 2u32) & 1 == 1),
    {
        (self.0 >> 2u32) & 1 == 1
    }

    /// Volatile memory capability
    pub fn volatile_memory(&self) -> (r: bool)
        ensures
            r == ((self.0 >> 3u32) & 1 == 1),
    {
        (self.0 >> 3u32) & 1 == 1
    }

    /// Byte-accessible persistent memory capability
    pub fn byte_accessible_persistent_memory(&self) -> (r: bool)
        ensures
            r == ((self.0 >> 4u32) & 1 == 1),
    {
        (self.0 >> 4u32) & 1 == 1
    }

    /// Block-accessible persistent memory capability
    pub fn block_accessible_persistent_memory(&self) -> (r: bool)
        ensures
            r == ((self.0 >> 5u32) & 1 == 1),
    {
        (self.0 >> 5u32) & 1 == 1
    }

    /// Reserved bits
    pub fn reserved2(&self) -> (r: u16)
        ensures
            r == ((self.0 >> 6u32) & 0x3ff),
    {
        ((self.0 >> 6u32) & 0x3ff)
    }
}

/// Memory Device (Type 17).
///
/// This structure describes a single memory device that is part of
/// a larger Physical Memory Array (Type 16).
/// Note:  If a system includes memory-device sockets, the SMBIOS implementation
/// includes a Memory Device structure instance for each slot, whether or not the
/// socket is currently populated.
pub struct SmbiosTableType17 {
    /// Structure header
    pub hdr: SmbiosStructure,
    /// Memory array handle
    pub memory_array_handle: u16,
    /// Memory error information handle
    pub memory_error_information_handle: u16,
    /// Total width
    pub total_width: u16,
    /// Data width
    pub data_width: u16,
    /// Size
    pub size: u16,
    /// Form factor (MEMORY_FORM_FACTOR)
    pub form_factor: u8,
    /// Device set
    pub device_set: u8,
    /// Device locator string
    pub device_locator: SmbiosTableString,
    /// Bank locator string
    pub bank_locator: SmbiosTableString,
    /// Memory type (MEMORY_DEVICE_TYPE)
    pub memory_type: u8,
    /// Type detail
    pub type_detail: MemoryDeviceTypeDetails,
    /// Speed
    pub speed: u16,
    /// Manufacturer string
    pub manufacturer: SmbiosTableString,
    /// Serial number string
    pub serial_number: SmbiosTableString,
    /// Asset tag string
    pub asset_tag: SmbiosTableString,
    /// Part number string
    pub part_number: SmbiosTableString,
    /// Attributes
    pub attributes: u8,
    /// Extended size
    pub extended_size: u32,
    /// Configured memory clock speed
    pub configured_memory_clock_speed: u16,
    /// Minimum voltage
    pub minimum_voltage: u16,
    /// Maximum voltage
    pub maximum_voltage: u16,
    /// Configured voltage
    pub configured_voltage: u16,
    /// Memory technology (MEMORY_DEVICE_TECHNOLOGY)
    pub memory_technology: u8,
    /// Memory operating mode capability
    pub memory_operating_mode_capability: MemoryDeviceOperatingModeCapabilityBits,
    /// Firmware version string
    pub firmware_version: SmbiosTableString,
    /// Module manufacturer ID
    pub module_manufacturer_id: u16,
    /// Module product ID
    pub module_product_id: u16,
    /// Memory subsystem controller manufacturer ID
    pub memory_subsystem_controller_manufacturer_id: u16,
    /// Memory subsystem controller product ID
    pub memory_subsystem_controller_product_id: u16,
    /// Non-volatile size
    pub non_volatile_size: u64,
    /// Volatile size
    pub volatile_size: u64,
    /// Cache size
    pub cache_size: u64,
    /// Logical size
    pub logical_size: u64,
    /// Extended speed
    pub extended_speed: u32,
    /// Extended configured memory speed
    pub extended_configured_memory_speed: u32,
    /// PMIC0 manufacturer ID
    pub pmic0_manufacturer_id: u16,
    /// PMIC0 revision number
    pub pmic0_revision_number: u16,
    /// RCD manufacturer ID
    pub rcd_manufacturer_id: u16,
    /// RCD revision number
    pub rcd_revision_number: u16,
}

/// 32-bit Memory Error Information - Error Type.
pub enum MemoryErrorType {
    /// Other error type
    Other,
    /// Unknown error type
    Unknown,
    /// OK
    NoError,
    /// Bad read
    BadRead,
    /// Parity error
    Parity,
    /// Single bit error
    SigleBit,
    /// Double bit error
    DoubleBit,
    /// Multi bit error
    MultiBit,
    /// Nibble error
    Nibble,
    /// Checksum error
    Checksum,
    /// CRC error
    Crc,
    /// Correct single bit error
    CorrectSingleBit,
    /// Corrected error
    Corrected,
    /// Uncorrectable error
    UnCorrectable,
}

impl MemoryErrorType {
    /// The number of the variant in the SMBIOS specification.
    pub open spec fn spec_value(&self) -> u8 {
        match self {
            MemoryErrorType::Other => 1,
            MemoryErrorType::Unknown => 2,
            MemoryErrorType::NoError => 3,
            MemoryErrorType::BadRead => 4,
            MemoryErrorType::Parity => 5,
            MemoryErrorType::SigleBit => 6,
            MemoryErrorType::DoubleBit => 7,
            MemoryErrorType::MultiBit => 8,
            MemoryErrorType::Nibble => 9,
            MemoryErrorType::Checksum => 0xa,
            MemoryErrorType::Crc => 0xb,
            MemoryErrorType::CorrectSingleBit => 0xc,
            MemoryErrorType::Corrected => 0xd,
            MemoryErrorType::UnCorrectable => 0xe,
        }
    }

    /// The number of the variant in the SMBIOS specification.
    pub fn value(&self) -> (r: u8)
        ensures
            r == self.spec_value(),
    {
        match self {
            MemoryErrorType::Other => 1,
            MemoryErrorType::Unknown => 2,
            MemoryErrorType::NoError => 3,
            MemoryErrorType::BadRead => 4,
            MemoryErrorType::Parity => 5,
            MemoryErrorType::SigleBit => 6,
            MemoryErrorType::DoubleBit => 7,
            MemoryErrorType::MultiBit => 8,
            MemoryErrorType::Nibble => 9,
            MemoryErrorType::Checksum => 0xa,
            MemoryErrorType::Crc => 0xb,
            MemoryErrorType::CorrectSingleBit => 0xc,
            MemoryErrorType::Corrected => 0xd,
            MemoryErrorType::UnCorrectable => 0xe,
        }
    }
}

/// 32-bit Memory Error Information - Error Granularity.
pub enum MemoryErrorGranularity {
    /// Other granularity
    Other,
    /// Other unknown granularity
    OtherUnknown,
    /// Device level granularity
    DeviceLevel,
    /// Memory partition level granularity
    MemPartitionLevel,
}

impl MemoryErrorGranularity {
    /// The number of the variant in the SMBIOS specification.
    pub open spec fn spec_value(&self) -> u8 {
        match self {
            MemoryErrorGranularity::Other => 1,
            MemoryErrorGranularity::OtherUnknown => 2,
            MemoryErrorGranularity::DeviceLevel => 3,
            MemoryErrorGranularity::MemPartitionLevel => 4,
        }
    }

    /// The number of the variant in the SMBIOS specification.
    pub fn value(&self) -> (r: u8)
        ensures
            r == self.spec_value(),
    {
        match self {
            MemoryErrorGranularity::Other => 1,
            MemoryErrorGranularity::OtherUnknown => 2,
            MemoryErrorGranularity::DeviceLevel => 3,
            MemoryErrorGranularity::MemPartitionLevel => 4,
        }
    }
}

/// 32-bit Memory Error Information - Error Operation.
pub enum MemoryErrorOperation {
    /// Other operation
    Other,
    /// Unknown operation
    Unknown,
    /// Read operation
    Read,
    /// Write operation
    Write,
    /// Partial write operation
    PartialWrite,
}

impl MemoryErrorOperation {
    /// The number of the variant in the SMBIOS specification.
    pub open spec fn spec_value(&self) -> u8 {
        match self {
            MemoryErrorOperation::Other => 1,
            MemoryErrorOperation::Unknown => 2,
            MemoryErrorOperation::Read => 3,
            MemoryErrorOperation::Write => 4,
            MemoryErrorOperation::PartialWrite => 5,
        }
    }

    /// The number of the variant in the SMBIOS specification.
    pub fn value(&self) -> (r: u8)
        ensures
            r == self.spec_value(),
    {
        match self {
            MemoryErrorOperation::Other => 1,
            MemoryErrorOperation::Unknown => 2,
            MemoryErrorOperation::Read => 3,
            MemoryErrorOperation::Write => 4,
            MemoryErrorOperation::PartialWrite => 5,
        }
    }
}

/// 32-bit Memory Error Information (Type 18).
///
/// This structure identifies the specifics of an error that might be detected
/// within a Physical Memory Array.
pub struct SmbiosTableType18 {
    /// Structure header
    pub hdr: SmbiosStructure,
    /// Error type (MEMORY_ERROR_TYPE)
    pub error_type: u8,
    /// Error granularity (MEMORY_ERROR_GRANULARITY)
    pub error_granularity: u8,
    /// Error operation (MEMORY_ERROR_OPERATION)
    pub error_operation: u8,
    /// Vendor syndrome
    pub vendor_syndrome: u32,
    /// Memory array error address
    pub memory_array_error_address: u32,
    /// Device error address
    pub device_error_address: u32,
    /// Error resolution
    pub error_resolution: u32,
}

/// Memory Array Mapped Address (Type 19).
///
/// This structure provides the address mapping for a Physical Memory Array.
/// One structure is present for each contiguous address range described.
pub struct SmbiosTableType19 {
    /// Structure header
    pub hdr: SmbiosStructure,
    /// Starting address
    pub starting_address: u32,
    /// Ending address
    pub ending_address: u32,
    /// Memory array handle
    pub memory_array_handle: u16,
    /// Partition width
    pub partition_width: u8,
    /// Extended starting address
    pub extended_starting_address: u64,
    /// Extended ending address
    pub extended_ending_address: u64,
}

/// Memory Device Mapped Address (Type 20).
///
/// This structure maps memory address space usually to a device-level granularity.
/// One structure is present for each contiguous address range described.
pub struct SmbiosTableType20 {
    /// Structure header
    pub hdr: SmbiosStructure,
    /// Starting address
    pub starting_address: u32,
    /// Ending address
    pub ending_address: u32,
    /// Memory device handle
    pub memory_device_handle: u16,
    /// Memory array mapped address handle
    pub memory_array_mapped_address_handle: u16,
    /// Partition row position
    pub partition_row_position: u8,
    /// Interleave position
    pub interleave_position: u8,
    /// Interleaved data depth
    pub interleaved_data_depth: u8,
    /// Extended starting address
    pub extended_starting_address: u64,
    /// Extended ending address
    pub extended_ending_address: u64,
}

/// Built-in Pointing Device - Type
pub enum BuiltinPointingDeviceType {
    /// Other device type
    Other,
    /// Unknown device type
    Unknown,
    /// Mouse
    Mouse,
    /// TrackBall
    TrackBall,
    /// TrackPoint
    TrackPoint,
    /// GlidePoint
    GlidePoint,
    /// TouchPad
    TouchPad,
    /// TouchScreen
    TouchScreen,
    /// Optical sensor
    OpticalSensor,
}

impl BuiltinPointingDeviceType {
    /// The number of the variant in the SMBIOS specification.
    pub open spec fn spec_value(&self) -> u8 {
        match self {
            BuiltinPointingDeviceType::Other => 1,
            BuiltinPointingDeviceType::Unknown => 2,
            BuiltinPointingDeviceType::Mouse => 3,
            BuiltinPointingDeviceType::TrackBall => 4,
            BuiltinPointingDeviceType::TrackPoint => 5,
            BuiltinPointingDeviceType::GlidePoint => 6,
            BuiltinPointingDeviceType::TouchPad => 7,
            BuiltinPointingDeviceType::TouchScreen => 8,
            BuiltinPointingDeviceType::OpticalSensor => 9,
        }
    }

    /// The number of the variant in the SMBIOS specification.
    pub fn value(&self) -> (r: u8)
        ensures
            r == self.spec_value(),
    {
        match self {
            BuiltinPointingDeviceType::Other => 1,
            BuiltinPointingDeviceType::Unknown => 2,
            BuiltinPointingDeviceType::Mouse => 3,
            BuiltinPointingDeviceType::TrackBall => 4,
            BuiltinPointingDeviceType::TrackPoint => 5,
            BuiltinPointingDeviceType::GlidePoint => 6,
            BuiltinPointingDeviceType::TouchPad => 7,
            BuiltinPointingDeviceType::TouchScreen => 8,
            BuiltinPointingDeviceType::OpticalSensor => 9,
        }
    }
}

/// Built-in Pointing Device - Interface.
pub enum BuiltinPointingDeviceInterface {
    /// Other interface
    Other,
    /// Unknown interface
    Unknown,
    /// Serial
    Serial,
    /// PS/2
    Ps2,
    /// Infrared
    Infrared,
    /// HP-HIL
    HpHil,
    /// Bus mouse
    BusMouse,
    /// ADB
    Adb,
    /// Bus mouse DB9
    BusMouseDb9,
    /// Bus mouse micro DIN
    BusMouseMicroDin,
    /// USB
    Usb,
    /// I2C
    I2c,
    /// SPI
    Spi,
}

impl BuiltinPointingDeviceInterface {
    /// The number of the variant in the SMBIOS specification.
    pub open spec fn spec_value(&self) -> u8 {
        match self {
            BuiltinPointingDeviceInterface::Other => 1,
            BuiltinPointingDeviceInterface::Unknown => 2,
            BuiltinPointingDeviceInterface::Serial => 3,
            BuiltinPointingDeviceInterface::Ps2 => 4,
            BuiltinPointingDeviceInterface::Infrared => 5,
            BuiltinPointingDeviceInterface::HpHil => 6,
            BuiltinPointingDeviceInterface::BusMouse => 7,
            BuiltinPointingDeviceInterface::Adb => 8,
            BuiltinPointingDeviceInterface::BusMouseDb9 => 0xa0,
            BuiltinPointingDeviceInterface::BusMouseMicroDin => 0xa1,
            BuiltinPointingDeviceInterface::Usb => 0xa2,
            BuiltinPointingDeviceInterface::I2c => 0xa3,
            BuiltinPointingDeviceInterface::Spi => 0xa4,
        }
    }

    /// The number of the variant in the SMBIOS specification.
    pub fn value(&self) -> (r: u8)
        ensures
            r == self.spec_value(),
    {
        match self {
            BuiltinPointingDeviceInterface::Other => 1,
            BuiltinPointingDeviceInterface::Unknown => 2,
            BuiltinPointingDeviceInterface::Serial => 3,
            BuiltinPointingDeviceInterface::Ps2 => 4,
            BuiltinPointingDeviceInterface::Infrared => 5,
            BuiltinPointingDeviceInterface::HpHil => 6,
            BuiltinPointingDeviceInterface::BusMouse => 7,
            BuiltinPointingDeviceInterface::Adb => 8,
            BuiltinPointingDeviceInterface::BusMouseDb9 => 0xa0,
            BuiltinPointingDeviceInterface::BusMouseMicroDin => 0xa1,
            BuiltinPointingDeviceInterface::Usb => 0xa2,
            BuiltinPointingDeviceInterface::I2c => 0xa3,
            BuiltinPointingDeviceInterface::Spi => 0xa4,
        }
    }
}

/// Built-in Pointing Device (Type 21).
///
/// This structure describes the attributes of the built-in pointing device for the
/// system. The presence of this structure does not imply that the built-in
/// pointing device is active for the system's use!
pub struct SmbiosTableType21 {
    /// Structure header
    pub hdr: SmbiosStructure,
    /// Device type (BUILTIN_POINTING_DEVICE_TYPE)
    pub type_: u8,
    /// Interface (BUILTIN_POINTING_DEVICE_INTERFACE)
    pub interface: u8,
    /// Number of buttons
    pub number_of_buttons: u8,
}

/// Portable Battery - Device Chemistry
pub enum PortableBatteryDeviceChemistry {
    /// Other chemistry
    Other,
    /// Unknown chemistry
    Unknown,
    /// Lead acid
    LeadAcid,
    /// Nickel cadmium
    NickelCadmium,
    /// Nickel metal hydride
    NickelMetalHydride,
    /// Lithium ion
    LithiumIon,
    /// Zinc air
    ZincAir,
    /// Lithium polymer
    LithiumPolymer,
}

impl PortableBatteryDeviceChemistry {
    /// The number of the variant in the SMBIOS specification.
    pub open spec fn spec_value(&self) -> u8 {
        match self {
            PortableBatteryDeviceChemistry::Other => 1,
            PortableBatteryDeviceChemistry::Unknown => 2,
            PortableBatteryDeviceChemistry::LeadAcid => 3,
            PortableBatteryDeviceChemistry::NickelCadmium => 4,
            PortableBatteryDeviceChemistry::NickelMetalHydride => 5,
            PortableBatteryDeviceChemistry::LithiumIon => 6,
            PortableBatteryDeviceChemistry::ZincAir => 7,
            PortableBatteryDeviceChemistry::LithiumPolymer => 8,
        }
    }

    /// The number of the variant in the SMBIOS specification.
    pub fn value(&self) -> (r: u8)
        ensures
            r == self.spec_value(),
    {
        match self {
            PortableBatteryDeviceChemistry::Other => 1,
            PortableBatteryDeviceChemistry::Unknown => 2,
            PortableBatteryDeviceChemistry::LeadAcid => 3,
            PortableBatteryDeviceChemistry::NickelCadmium => 4,
            PortableBatteryDeviceChemistry::NickelMetalHydride => 5,
            PortableBatteryDeviceChemistry::LithiumIon => 6,
            PortableBatteryDeviceChemistry::ZincAir => 7,
            PortableBatteryDeviceChemistry::LithiumPolymer => 8,
        }
    }
}

/// Portable Battery (Type 22).
///
/// This structure describes the attributes of the portable battery(s) for the system.
/// The structure contains the static attributes for the group.  Each structure describes
/// a single battery pack's attributes.
pub struct SmbiosTableType22 {
    /// Structure header
    pub hdr: SmbiosStructure,
    /// Location string
    pub location: SmbiosTableString,
    /// Manufacturer string
    pub manufacturer: SmbiosTableString,
    /// Manufacture date string
    pub manufacture_date: SmbiosTableString,
    /// Serial number string
    pub serial_number: SmbiosTableString,
    /// Device name string
    pub device_name: SmbiosTableString,
    /// Device chemistry (PORTABLE_BATTERY_DEVICE_CHEMISTRY)
    pub device_chemistry: u8,
    /// Device capacity
    pub device_capacity: u16,
    /// Design voltage
    pub design_voltage: u16,
    /// SBDS version number string
    pub sbds_version_number: SmbiosTableString,
    /// Maximum error in battery data
    pub maximum_error_in_battery_data: u8,
    /// SBDS serial number
    pub sbds_serial_number: u16,
    /// SBDS manufacture date
    pub sbds_manufacture_date: u16,
    /// SBDS device chemistry string
    pub sbds_device_chemistry: SmbiosTableString,
    /// Design capacity multiplier
    pub design_capacity_multiplier: u8,
    /// OEM specific
    pub oem_specific: u32,
}

/// System Reset (Type 23)
///
/// This structure describes whether Automatic System Reset functions enabled (Status).
/// If the system has a watchdog Timer and the timer is not reset (Timer Reset)
/// before the Interval elapses, an automatic system reset will occur. The system will re-boot
/// according to the Boot Option. This function may repeat until the Limit is reached, at which time
/// the system will re-boot according to the Boot Option at Limit.
pub struct SmbiosTableType23 {
    /// Structure header
    pub hdr: SmbiosStructure,
    /// Capabilities
    pub capabilities: u8,
    /// Reset count
    pub reset_count: u16,
    /// Reset limit
    pub reset_limit: u16,
    /// Timer interval
    pub timer_interval: u16,
    /// Timeout
    pub timeout: u16,
}

/// Hardware Security (Type 24).
///
/// This structure describes the system-wide hardware security settings.
pub struct SmbiosTableType24 {
    /// Structure header
    pub hdr: SmbiosStructure,
    /// Hardware security settings
    pub hardware_security_settings: u8,
}

/// System Power Controls (Type 25).
///
/// This structure describes the attributes for controlling the main power supply to the system.
/// Software that interprets this structure uses the month, day, hour, minute, and second values
/// to determine the number of seconds until the next power-on of the system.  The presence of
/// this structure implies that a timed power-on facility is available for the system.
pub struct SmbiosTableType25 {
    /// Structure header
    pub hdr: SmbiosStructure,
    /// Next scheduled power-on month
    pub next_scheduled_power_on_month: u8,
    /// Next scheduled power-on day of month
    pub next_scheduled_power_on_day_of_month: u8,
    /// Next scheduled power-on hour
    pub next_scheduled_power_on_hour: u8,
    /// Next scheduled power-on minute
    pub next_scheduled_power_on_minute: u8,
    /// Next scheduled power-on second
    pub next_scheduled_power_on_second: u8,
}

/// Voltage Probe - Location and Status.
pub struct MiscVoltageProbeLocation {
    /// Voltage probe site (5 bits)
    pub voltage_probe_site: u8,
    /// Voltage probe status (3 bits)
    pub voltage_probe_status: u8,
}

/// Voltage Probe (Type 26)
///
/// This describes the attributes for a voltage probe in the system.
/// Each structure describes a single voltage probe.
pub struct SmbiosTableType26 {
    /// Structure header
    pub hdr: SmbiosStructure,
    /// Description string
    pub description: SmbiosTableString,
    /// Location and status
    pub location_and_status: MiscVoltageProbeLocation,
    /// Maximum value
    pub maximum_value: u16,
    /// Minimum value
    pub minimum_value: u16,
    /// Resolution
    pub resolution: u16,
    /// Tolerance
    pub tolerance: u16,
    /// Accuracy
    pub accuracy: u16,
    /// OEM defined value
    pub oem_defined: u32,
    /// Nominal value
    pub nominal_value: u16,
}

/// Cooling Device - Device Type and Status.
pub struct MiscCoolingDeviceType {
    /// Cooling device (5 bits)
    pub cooling_device: u8,
    /// Cooling device status (3 bits)
    pub cooling_device_status: u8,
}

/// Cooling Device (Type 27)
///
/// This structure describes the attributes for a cooling device in the system.
/// Each structure describes a single cooling device.
pub struct SmbiosTableType27 {
    /// Structure header
    pub hdr: SmbiosStructure,
    /// Temperature probe handle
    pub temperature_probe_handle: u16,
    /// Device type and status
    pub device_type_and_status: MiscCoolingDeviceType,
    /// Cooling unit group
    pub cooling_unit_group: u8,
    /// OEM defined value
    pub oem_defined: u32,
    /// Nominal speed
    pub nominal_speed: u16,
    /// Description string
    pub description: SmbiosTableString,
}

/// Temperature Probe - Location and Status.
///
/// Temperature probe location bitfield
#[derive(Debug, Clone, Copy)]
pub struct MiscTemperatureProbeLocation(pub u8);

impl MiscTemperatureProbeLocation {
    /// Temperature probe site
    pub fn temperature_probe_site(&self) -> (r: u8)
        ensures
            r == ((self.0 >> 0u32) & 0x1f),
    {
        ((self.0 >> 0u32) & 0x1f)
    }

    /// Temperature probe status
    pub fn temperature_prove_status(&self) -> (r: u8)
        ensures
            r == ((self.0 >> 5u32) & 0x7),
    {
        ((self.0 >> 5u32) & 0x7)
    }
}

/// Temperature Probe (Type 28).
///
/// This structure describes the attributes for a temperature probe in the system.
/// Each structure describes a single temperature probe.
pub struct SmbiosTableType28 {
    /// Structure header
    pub hdr: SmbiosStructure,
    /// Description string
    pub description: SmbiosTableString,
    /// Location and status
    pub location_and_status: MiscTemperatureProbeLocation,
    /// Maximum value
    pub maximum_value: u16,
    /// Minimum value
    pub minimum_value: u16,
    /// Resolution
    pub resolution: u16,
    /// Tolerance
    pub tolerance: u16,
    /// Accuracy
    pub accuracy: u16,
    /// OEM defined value
    pub oem_defined: u32,
    /// Nominal value
    pub nominal_value: u16,
}

/// Electrical Current Probe - Location and Status.
///
/// Electrical current probe location bitfield
#[derive(Debug, Clone, Copy)]
pub struct MiscElectricalCurrentProbeLocation(pub u8);

impl MiscElectricalCurrentProbeLocation {
    /// Electrical current probe site
    pub fn electrical_current_probe_site(&self) -> (r: u8)
        ensures
            r == ((self.0 >> 0u32) & 0x1f),
    {
        ((self.0 >> 0u32) & 0x1f)
    }

    /// Electrical current probe status
    pub fn electrical_current_probe_status(&self) -> (r: u8)
        ensures
            r == ((self.0 >> 5u32) & 0x7),
    {
        ((self.0 >> 5u32) & 0x7)
    }
}

/// Electrical Current Probe (Type 29).
///
/// This structure describes the attributes for an electrical current probe in the system.
/// Each structure describes a single electrical current probe.
pub struct SmbiosTableType29 {
    /// Structure header
    pub hdr: SmbiosStructure,
    /// Description string
    pub description: SmbiosTableString,
    /// Location and status
    pub location_and_status: MiscElectricalCurrentProbeLocation,
    /// Maximum value
    pub maximum_value: u16,
    /// Minimum value
    pub minimum_value: u16,
    /// Resolution
    pub resolution: u16,
    /// Tolerance
    pub tolerance: u16,
    /// Accuracy
    pub accuracy: u16,
    /// OEM defined value
    pub oem_defined: u32,
    /// Nominal value
    pub nominal_value: u16,
}

/// Out-of-Band Remote Access (Type 30).
///
/// This structure describes the attributes and policy settings of a hardware facility
/// that may be used to gain remote access to a hardware system when the operating system
/// is not available due to power-down status, hardware failures, or boot failures.
pub struct SmbiosTableType30 {
    /// Structure header
    pub hdr: SmbiosStructure,
    /// Manufacturer name string
    pub manufacturer_name: SmbiosTableString,
    /// Number of connections
    pub connections: u8,
}

/// Boot Integrity Services (BIS) Entry Point (Type 31).
///
/// Structure type 31 (decimal) is reserved for use by the Boot Integrity Services (BIS).
pub struct SmbiosTableType31 {
    /// Structure header
    pub hdr: SmbiosStructure,
    /// Checksum
    pub checksum: u8,
    /// Reserved field 1
    pub reserved1: u8,
    /// Reserved field 2
    pub reserved2: u16,
    /// BIS entry 16
    pub bis_entry16: u32,
    /// BIS entry 32
    pub bis_entry32: u32,
    /// Reserved field 3
    pub reserved3: u64,
    /// Reserved field 4
    pub reserved4: u32,
}

/// System Boot Information - System Boot Status.
pub enum MiscBootInformationStatusDataType {
    /// No error
    NoError,
    /// No bootable media
    NoBootableMedia,
    /// Normal OS failed loading
    NormalOsFailedLoading,
    /// Firmware detected failure
    FirmwareDetectedFailure,
    /// OS detected failure
    OsDetectedFailure,
    /// User requested boot
    UserRequestedBoot,
    /// System security violation
    SystemSecurityViolation,
    /// Previous requested image
    PreviousRequestedImage,
    /// Watchdog timer expired
    WatchdogTimerExpired,
    /// Reserved
    StartReserved,
    /// OEM specific
    StartOemSpecific,
    /// Product specific
    StartProductSpecific,
}

impl MiscBootInformationStatusDataType {
    /// The number of the variant in the SMBIOS specification.
    pub open spec fn spec_value(&self) -> u8 {
        match self {
            MiscBootInformationStatusDataType::NoError => 0,
            MiscBootInformationStatusDataType::NoBootableMedia => 1,
            MiscBootInformationStatusDataType::NormalOsFailedLoading => 2,
            MiscBootInformationStatusDataType::FirmwareDetectedFailure => 3,
            MiscBootInformationStatusDataType::OsDetectedFailure => 4,
            MiscBootInformationStatusDataType::UserRequestedBoot => 5,
            MiscBootInformationStatusDataType::SystemSecurityViolation => 6,
            MiscBootInformationStatusDataType::PreviousRequestedImage => 7,
            MiscBootInformationStatusDataType::WatchdogTimerExpired => 8,
            MiscBootInformationStatusDataType::StartReserved => 9,
            MiscBootInformationStatusDataType::StartOemSpecific => 0x80,
            MiscBootInformationStatusDataType::StartProductSpecific => 0xc0,
        }
    }

    /// The number of the variant in the SMBIOS specification.
    pub fn value(&self) -> (r: u8)
        ensures
            r == self.spec_value(),
    {
        match self {
            MiscBootInformationStatusDataType::NoError => 0,
            MiscBootInformationStatusDataType::NoBootableMedia => 1,
            MiscBootInformationStatusDataType::NormalOsFailedLoading => 2,
            MiscBootInformationStatusDataType::FirmwareDetectedFailure => 3,
            MiscBootInformationStatusDataType::OsDetectedFailure => 4,
            MiscBootInformationStatusDataType::UserRequestedBoot => 5,
            MiscBootInformationStatusDataType::SystemSecurityViolation => 6,
            MiscBootInformationStatusDataType::PreviousRequestedImage => 7,
            MiscBootInformationStatusDataType::WatchdogTimerExpired => 8,
            MiscBootInformationStatusDataType::StartReserved => 9,
            MiscBootInformationStatusDataType::StartOemSpecific => 0x80,
            MiscBootInformationStatusDataType::StartProductSpecific => 0xc0,
        }
    }
}

/// System Boot Information (Type 32).
///
/// The client system firmware, e.g. BIOS, communicates the System Boot Status to the
/// client's Pre-boot Execution Environment (PXE) boot image or OS-present management
/// application via this structure. When used in the PXE environment, for example,
/// this code identifies the reason the PXE was initiated and can be used by boot-image
/// software to further automate an enterprise's PXE sessions.  For example, an enterprise
/// could choose to automatically download a hardware-diagnostic image to a client whose
/// reason code indicated either a firmware- or operating system-detected hardware failure.
pub struct SmbiosTableType32 {
    /// Structure header
    pub hdr: SmbiosStructure,
    /// Reserved bytes
    pub reserved: [u8; 6],
    /// Boot status (MISC_BOOT_INFORMATION_STATUS_DATA_TYPE)
    pub boot_status: u8,
}

/// 64-bit Memory Error Information (Type 33).
///
/// This structure describes an error within a Physical Memory Array,
/// when the error address is above 4G (0xFFFFFFFF).
pub struct SmbiosTableType33 {
    /// Structure header
    pub hdr: SmbiosStructure,
    /// Error type (MEMORY_ERROR_TYPE)
    pub error_type: u8,
    /// Error granularity (MEMORY_ERROR_GRANULARITY)
    pub error_granularity: u8,
    /// Error operation (MEMORY_ERROR_OPERATION)
    pub error_operation: u8,
    /// Vendor syndrome
    pub vendor_syndrome: u32,
    /// Memory array error address
    pub memory_array_error_address: u64,
    /// Device error address
    pub device_error_address: u64,
    /// Error resolution
    pub error_resolution: u32,
}

/// Management Device -  Type.
pub enum MiscManagementDeviceType {
    /// Other device
    Other,
    /// Unknown device
    Unknown,
    /// LM75 device
    Lm75,
    /// LM78 device
    Lm78,
    /// LM79 device
    Lm79,
    /// LM80 device
    Lm80,
    /// LM81 device
    Lm81,
    /// ADM9240 device
    Adm9240,
    /// DS1780 device
    Ds1780,
    /// Maxim1617 device
    Maxim1617,
    /// GL518SM device
    Gl518Sm,
    /// W83781D device
    W83781D,
    /// HT82H791 device
    Ht82H791,
}

impl MiscManagementDeviceType {
    /// The number of the variant in the SMBIOS specification.
    pub open spec fn spec_value(&self) -> u8 {
        match self {
            MiscManagementDeviceType::Other => 1,
            MiscManagementDeviceType::Unknown => 2,
            MiscManagementDeviceType::Lm75 => 3,
            MiscManagementDeviceType::Lm78 => 4,
            MiscManagementDeviceType::Lm79 => 5,
            MiscManagementDeviceType::Lm80 => 6,
            MiscManagementDeviceType::Lm81 => 7,
            MiscManagementDeviceType::Adm9240 => 8,
            MiscManagementDeviceType::Ds1780 => 9,
            MiscManagementDeviceType::Maxim1617 => 0xa,
            MiscManagementDeviceType::Gl518Sm => 0xb,
            MiscManagementDeviceType::W83781D => 0xc,
            MiscManagementDeviceType::Ht82H791 => 0xd,
        }
    }

    /// The number of the variant in the SMBIOS specification.
    pub fn value(&self) -> (r: u8)
        ensures
            r == self.spec_value(),
    {
        match self {
            MiscManagementDeviceType::Other => 1,
            MiscManagementDeviceType::Unknown => 2,
            MiscManagementDeviceType::Lm75 => 3,
            MiscManagementDeviceType::Lm78 => 4,
            MiscManagementDeviceType::Lm79 => 5,
            MiscManagementDeviceType::Lm80 => 6,
            MiscManagementDeviceType::Lm81 => 7,
            MiscManagementDeviceType::Adm9240 => 8,
            MiscManagementDeviceType::Ds1780 => 9,
            MiscManagementDeviceType::Maxim1617 => 0xa,
            MiscManagementDeviceType::Gl518Sm => 0xb,
            MiscManagementDeviceType::W83781D => 0xc,
            MiscManagementDeviceType::Ht82H791 => 0xd,
        }
    }
}

/// Management Device -  Address Type.
pub enum MiscManagementDeviceAddressType {
    /// Other address type
    Other,
    /// Unknown address type
    Unknown,
    /// I/O port address type
    IoPort,
    /// Memory address type
    Memory,
    /// SMBus address type
    Smbus,
}

impl MiscManagementDeviceAddressType {
    /// The number of the variant in the SMBIOS specification.
    pub open spec fn spec_value(&self) -> u8 {
        match self {
            MiscManagementDeviceAddressType::Other => 1,
            MiscManagementDeviceAddressType::Unknown => 2,
            MiscManagementDeviceAddressType::IoPort => 3,
            MiscManagementDeviceAddressType::Memory => 4,
            MiscManagementDeviceAddressType::Smbus => 5,
        }
    }

    /// The number of the variant in the SMBIOS specification.
    pub fn value(&self) -> (r: u8)
        ensures
            r == self.spec_value(),
    {
        match self {
            MiscManagementDeviceAddressType::Other => 1,
            MiscManagementDeviceAddressType::Unknown => 2,
            MiscManagementDeviceAddressType::IoPort => 3,
            MiscManagementDeviceAddressType::Memory => 4,
            MiscManagementDeviceAddressType::Smbus => 5,
        }
    }
}

/// Management Device (Type 34).
///
/// The information in this structure defines the attributes of a Management Device.
/// A Management Device might control one or more fans or voltage, current, or temperature
/// probes as defined by one or more Management Device Component structures.
pub struct SmbiosTableType34 {
    /// Structure header
    pub hdr: SmbiosStructure,
    /// Description string
    pub description: SmbiosTableString,
    /// Device type (MISC_MANAGEMENT_DEVICE_TYPE)
    pub type_: u8,
    /// Address
    pub address: u32,
    /// Address type (MISC_MANAGEMENT_DEVICE_ADDRESS_TYPE)
    pub address_type: u8,
}

/// Management Device Component (Type 35)
///
/// This structure associates a cooling device or environmental probe with structures
/// that define the controlling hardware device and (optionally) the component's thresholds.
pub struct SmbiosTableType35 {
    /// Structure header
    pub hdr: SmbiosStructure,
    /// Description string
    pub description: SmbiosTableString,
    /// Management device handle
    pub management_device_handle: u16,
    /// Component handle
    pub component_handle: u16,
    /// Threshold handle
    pub threshold_handle: u16,
}

/// Management Device Threshold Data (Type 36).
///
/// The information in this structure defines threshold information for
/// a component (probe or cooling-unit) contained within a Management Device.
pub struct SmbiosTableType36 {
    /// Structure header
    pub hdr: SmbiosStructure,
    /// Lower threshold non-critical
    pub lower_threshold_non_critical: u16,
    /// Upper threshold non-critical
    pub upper_threshold_non_critical: u16,
    /// Lower threshold critical
    pub lower_threshold_critical: u16,
    /// Upper threshold critical
    pub upper_threshold_critical: u16,
    /// Lower threshold non-recoverable
    pub lower_threshold_non_recoverable: u16,
    /// Upper threshold non-recoverable
    pub upper_threshold_non_recoverable: u16,
}

/// Memory Channel Entry.
pub struct MemoryDevice {
    /// Device load
    pub device_load: u8,
    /// Device handle
    pub device_handle: u16,
}

/// Memory Channel - Channel Type.
pub enum MemoryChannelType {
    /// Other channel type
    Other,
    /// Unknown channel type
    Unknown,
    /// Rambus channel type
    Rambus,
    /// SyncLink channel type
    SyncLink,
}

impl MemoryChannelType {
    /// The number of the variant in the SMBIOS specification.
    pub open spec fn spec_value(&self) -> u8 {
        match self {
            MemoryChannelType::Other => 1,
            MemoryChannelType::Unknown => 2,
            MemoryChannelType::Rambus => 3,
            MemoryChannelType::SyncLink => 4,
        }
    }

    /// The number of the variant in the SMBIOS specification.
    pub fn value(&self) -> (r: u8)
        ensures
            r == self.spec_value(),
    {
        match self {
            MemoryChannelType::Other => 1,
            MemoryChannelType::Unknown => 2,
            MemoryChannelType::Rambus => 3,
            MemoryChannelType::SyncLink => 4,
        }
    }
}

/// Memory Channel (Type 37)
///
/// The information in this structure provides the correlation between a Memory Channel
/// and its associated Memory Devices.  Each device presents one or more loads to the channel.
/// The sum of all device loads cannot exceed the channel's defined maximum.
pub struct SmbiosTableType37 {
    /// Structure header
    pub hdr: SmbiosStructure,
    /// Channel type
    pub channel_type: u8,
    /// Maximum channel load
    pub maximum_channel_load: u8,
    /// Memory device count
    pub memory_device_count: u8,
    /// Memory device array
    pub memory_device: [MemoryDevice; 1],
}

/// IPMI Device Information - BMC Interface Type
pub enum BmcInterfaceType {
    /// Unknown interface type
    Unknown,
    /// Keyboard Controller Style
    Kcs,
    /// Server Management Interface Chip
    Smic,
    /// Block Transfer
    Bt,
    /// SMBus System Interface
    Ssif,
}

impl BmcInterfaceType {
    /// The number of the variant in the SMBIOS specification.
    pub open spec fn spec_value(&self) -> u8 {
        match self {
            BmcInterfaceType::Unknown => 0,
            BmcInterfaceType::Kcs => 1,
            BmcInterfaceType::Smic => 2,
            BmcInterfaceType::Bt => 3,
            BmcInterfaceType::Ssif => 4,
        }
    }

    /// The number of the variant in the SMBIOS specification.
    pub fn value(&self) -> (r: u8)
        ensures
            r == self.spec_value(),
    {
        match self {
            BmcInterfaceType::Unknown => 0,
            BmcInterfaceType::Kcs => 1,
            BmcInterfaceType::Smic => 2,
            BmcInterfaceType::Bt => 3,
            BmcInterfaceType::Ssif => 4,
        }
    }
}

/// IPMI Device Information (Type 38).
///
/// The information in this structure defines the attributes of an
/// Intelligent Platform Management Interface (IPMI) Baseboard Management Controller (BMC).
///
/// The Type 42 structure can also be used to describe a physical management controller
/// host interface and one or more protocols that share that interface. If IPMI is not
/// shared with other protocols, either the Type 38 or Type 42 structures can be used.
/// Providing Type 38 is recommended for backward compatibility.
pub struct SmbiosTableType38 {
    hdr: SmbiosStructure,
    interface_type: u8,
    ipmi_specification_revision: u8,
    i2c_slave_address: u8,
    nv_storage_device_address: u8,
    base_address: u64,
    base_address_modifier_interrupt_info: u8,
    interrupt_number: u8,
}

/// System Power Supply - Power Supply Characteristics.
///
/// System power supply characteristics bitfield
#[derive(Debug, Clone, Copy)]
pub struct SysPowerSupplyCharacteristics(pub u16);

impl SysPowerSupplyCharacteristics {
    /// Power supply hot replaceable
    pub fn power_supply_hot_replaceable(&self) -> (r: bool)
        ensures
            r == ((self.0 >> 0u32) & 1 == 1),
    {
        (self.0 >> 0u32) & 1 == 1
    }

    /// Power supply present
    pub fn power_supply_present(&self) -> (r: bool)
        ensures
            r == ((self.0 >> 1u32) & 1 == 1),
    {
        (self.0 >> 1u32) & 1 == 1
    }

    /// Power supply unplugged
    pub fn power_supply_unplugged(&self) -> (r: bool)
        ensures
            r == ((self.0 >> 2u32) & 1 == 1),
    {
        (self.0 >> 2u32) & 1 == 1
    }

    /// Input voltage range switch
    pub fn input_voltage_range_switch(&self) -> (r: u16)
        ensures
            r == ((self.0 >> 3u32) & 0xf),
    {
        ((self.0 >> 3u32) & 0xf)
    }

    /// Power supply status
    pub fn power_supply_status(&self) -> (r: u16)
        ensures
            r == ((self.0 >> 7u32) & 0x7),
    {
        ((self.0 >> 7u32) & 0x7)
    }

    /// Power supply type
    pub fn power_supply_type(&self) -> (r: u16)
        ensures
            r == ((self.0 >> 10u32) & 0xf),
    {
        ((self.0 >> 10u32) & 0xf)
    }

    /// Reserved bits
    pub fn reserved(&self) -> (r: u16)
        ensures
            r == ((self.0 >> 14u32) & 0x3),
    {
        ((self.0 >> 14u32) & 0x3)
    }
}

/// System Power Supply (Type 39).
///
/// This structure identifies attributes of a system power supply. One instance
/// of this record is present for each possible power supply in a system.
pub struct SmbiosTableType39 {
    /// Structure header
    pub hdr: SmbiosStructure,
    /// Power unit group
    pub power_unit_group: u8,
    /// Location string
    pub location: SmbiosTableString,
    /// Device name string
    pub device_name: SmbiosTableString,
    /// Manufacturer string
    pub manufacturer: SmbiosTableString,
    /// Serial number string
    pub serial_number: SmbiosTableString,
    /// Asset tag number string
    pub asset_tag_number: SmbiosTableString,
    /// Model part number string
    pub model_part_number: SmbiosTableString,
    /// Revision level string
    pub revision_level: SmbiosTableString,
    /// Maximum power capacity
    pub max_power_capacity: u16,
    /// Power supply characteristics
    pub power_supply_characteristics: SysPowerSupplyCharacteristics,
    /// Input voltage probe handle
    pub input_voltage_probe_handle: u16,
    /// Cooling device handle
    pub cooling_device_handle: u16,
    /// Input current probe handle
    pub input_current_probe_handle: u16,
}

/// Additional Information Entry Format.
pub struct AdditionalInformationEntry {
    /// Entry length
    pub entry_length: u8,
    /// Referenced handle
    pub referenced_handle: u16,
    /// Referenced offset
    pub referenced_offset: u8,
    /// Entry string
    pub entry_string: SmbiosTableString,
    /// Value
    pub value: [u8; 1],
}

/// Additional Information (Type 40).
///
/// This structure is intended to provide additional information for handling unspecified
/// enumerated values and interim field updates in another structure.
pub struct SmbiosTableType40 {
    /// Structure header
    pub hdr: SmbiosStructure,
    /// Number of additional information entries
    pub number_of_additional_information_entries: u8,
    /// Additional information entries array
    pub additional_info_entries: [AdditionalInformationEntry; 1],
}

/// Onboard Devices Extended Information - Onboard Device Types.
pub enum OnboardDeviceExtendedInfoType {
    /// Other device type
    Other,
    /// Unknown device type
    Unknown,
    /// Video device type
    Video,
    /// SCSI controller device type
    ScsiController,
    /// Ethernet device type
    Ethernet,
    /// Token Ring device type
    TokenRing,
    /// Sound device type
    Sound,
    /// PATA controller device type
    PataController,
    /// SATA controller device type
    SataController,
    /// SAS controller device type
    SasController,
    /// Wireless LAN device type
    WirelessLan,
    /// Bluetooth device
    Bluetooth,
    /// WWAN device
    Wwan,
    /// eMMC device
    EMmc,
    /// NVMe device
    Nvme,
    /// UFC device
    Ufc,
}

impl OnboardDeviceExtendedInfoType {
    /// The number of the variant in the SMBIOS specification.
    pub open spec fn spec_value(&self) -> u8 {
        match self {
            OnboardDeviceExtendedInfoType::Other => 1,
            OnboardDeviceExtendedInfoType::Unknown => 2,
            OnboardDeviceExtendedInfoType::Video => 3,
            OnboardDeviceExtendedInfoType::ScsiController => 4,
            OnboardDeviceExtendedInfoType::Ethernet => 5,
            OnboardDeviceExtendedInfoType::TokenRing => 6,
            OnboardDeviceExtendedInfoType::Sound => 7,
            OnboardDeviceExtendedInfoType::PataController => 8,
            OnboardDeviceExtendedInfoType::SataController => 9,
            OnboardDeviceExtendedInfoType::SasController => 0xa,
            OnboardDeviceExtendedInfoType::WirelessLan => 0xb,
            OnboardDeviceExtendedInfoType::Bluetooth => 0xc,
            OnboardDeviceExtendedInfoType::Wwan => 0xd,
            OnboardDeviceExtendedInfoType::EMmc => 0xe,
            OnboardDeviceExtendedInfoType::Nvme => 0xf,
            OnboardDeviceExtendedInfoType::Ufc => 0x10,
        }
    }

    /// The number of the variant in the SMBIOS specification.
    pub fn value(&self) -> (r: u8)
        ensures
            r == self.spec_value(),
    {
        match self {
            OnboardDeviceExtendedInfoType::Other => 1,
            OnboardDeviceExtendedInfoType::Unknown => 2,
            OnboardDeviceExtendedInfoType::Video => 3,
            OnboardDeviceExtendedInfoType::ScsiController => 4,
            OnboardDeviceExtendedInfoType::Ethernet => 5,
            OnboardDeviceExtendedInfoType::TokenRing => 6,
            OnboardDeviceExtendedInfoType::Sound => 7,
            OnboardDeviceExtendedInfoType::PataController => 8,
            OnboardDeviceExtendedInfoType::SataController => 9,
            OnboardDeviceExtendedInfoType::SasController => 0xa,
            OnboardDeviceExtendedInfoType::WirelessLan => 0xb,
            OnboardDeviceExtendedInfoType::Bluetooth => 0xc,
            OnboardDeviceExtendedInfoType::Wwan => 0xd,
            OnboardDeviceExtendedInfoType::EMmc => 0xe,
            OnboardDeviceExtendedInfoType::Nvme => 0xf,
            OnboardDeviceExtendedInfoType::Ufc => 0x10,
        }
    }
}

/// Onboard Devices Extended Information (Type 41).
///
/// The information in this structure defines the attributes of devices that
/// are onboard (soldered onto) a system element, usually the baseboard.
/// In general, an entry in this table implies that the BIOS has some level of
/// control over the enabling of the associated device for use by the system.
pub struct SmbiosTableType41 {
    /// Structure header
    pub hdr: SmbiosStructure,
    /// Reference designation string
    pub reference_designation: SmbiosTableString,
    /// Device type (ONBOARD_DEVICE_EXTENDED_INFO_TYPE)
    pub device_type: u8,
    /// Device type instance
    pub device_type_instance: u8,
    /// Segment group number
    pub segment_group_num: u16,
    /// Bus number
    pub bus_num: u8,
    /// Device/function number
    pub dev_func_num: u8,
}

///  Management Controller Host Interface - Protocol Record Data Format.
pub struct McHostInterfaceProtocolRecord {
    /// Protocol type
    pub protocol_type: u8,
    /// Protocol type data length
    pub protocol_type_data_len: u8,
    /// Protocol type data
    pub protocol_type_data: [u8; 1],
}

/// Management Controller Host Interface - Interface Types.
/// 00h - 3Fh: MCTP Host Interfaces
pub enum McHostInterfaceType {
    /// Network Host Interface
    NetworkHostInterface,
    /// OEM Defined
    OemDefined,
}

impl McHostInterfaceType {
    /// The number of the variant in the SMBIOS specification.
    pub open spec fn spec_value(&self) -> u8 {
        match self {
            McHostInterfaceType::NetworkHostInterface => 0x40,
            McHostInterfaceType::OemDefined => 0xf0,
        }
    }

    /// The number of the variant in the SMBIOS specification.
    pub fn value(&self) -> (r: u8)
        ensures
            r == self.spec_value(),
    {
        match self {
            McHostInterfaceType::NetworkHostInterface => 0x40,
            McHostInterfaceType::OemDefined => 0xf0,
        }
    }
}

/// Management Controller Host Interface - Protocol Types.
pub enum McHostInterfaceProtocolType {
    /// IPMI protocol
    Ipmi,
    /// MCTP protocol
    Mctp,
    /// Redfish over IP protocol
    RedfishOverIp,
    /// OEM Defined protocol
    OemDefined,
}

impl McHostInterfaceProtocolType {
    /// The number of the variant in the SMBIOS specification.
    pub open spec fn spec_value(&self) -> u8 {
        match self {
            McHostInterfaceProtocolType::Ipmi => 2,
            McHostInterfaceProtocolType::Mctp => 3,
            McHostInterfaceProtocolType::RedfishOverIp => 4,
            McHostInterfaceProtocolType::OemDefined => 0xf0,
        }
    }

    /// The number of the variant in the SMBIOS specification.
    pub fn value(&self) -> (r: u8)
        ensures
            r == self.spec_value(),
    {
        match self {
            McHostInterfaceProtocolType::Ipmi => 2,
            McHostInterfaceProtocolType::Mctp => 3,
            McHostInterfaceProtocolType::RedfishOverIp => 4,
            McHostInterfaceProtocolType::OemDefined => 0xf0,
        }
    }
}

/// Management Controller Host Interface (Type 42).
///
/// The information in this structure defines the attributes of a Management
/// Controller Host Interface that is not discoverable by "Plug and Play" mechanisms.
///
/// Type 42 should be used for management controller host interfaces that use protocols
/// other than IPMI or that use multiple protocols on a single host interface type.
///
/// This structure should also be provided if IPMI is shared with other protocols
/// over the same interface hardware. If IPMI is not shared with other protocols,
/// either the Type 38 or Type 42 structures can be used. Providing Type 38 is
/// recommended for backward compatibility. The structures are not required to
/// be mutually exclusive. Type 38 and Type 42 structures may be implemented
/// simultaneously to provide backward compatibility with IPMI applications or drivers
/// that do not yet recognize the Type 42 structure.
pub struct SmbiosTableType42 {
    /// Structure header
    pub hdr: SmbiosStructure,
    /// Interface type (MC_HOST_INTERFACE_TYPE)
    pub interface_type: u8,
    /// Interface type specific data length
    pub interface_type_specific_data_length: u8,
    /// Interface type specific data (minimum 4 bytes)
    pub interface_type_specific_data: [u8; 4],
}

/// Processor Specific Block - Processor Architecture Type
pub enum ProcessorSpecificBlockArchType {
    /// Reserved architecture
    Reserved,
    /// IA-32 architecture
    Ia32,
    /// x64 architecture
    X64,
    /// Itanium architecture
    Itanium,
    /// AArch32 architecture
    Aarch32,
    /// AArch64 architecture
    Aarch64,
    /// RISC-V RV32 architecture
    RiscVRv32,
    /// RISC-V RV64 architecture
    RiscVRv64,
    /// RISC-V RV128 architecture
    RiscVRv128,
    /// LoongArch32 architecture
    LoongArch32,
    /// LoongArch64 architecture
    LoongArch64,
}

impl ProcessorSpecificBlockArchType {
    /// The number of the variant in the SMBIOS specification.
    pub open spec fn spec_value(&self) -> u8 {
        match self {
            ProcessorSpecificBlockArchType::Reserved => 0,
            ProcessorSpecificBlockArchType::Ia32 => 1,
            ProcessorSpecificBlockArchType::X64 => 2,
            ProcessorSpecificBlockArchType::Itanium => 3,
            ProcessorSpecificBlockArchType::Aarch32 => 4,
            ProcessorSpecificBlockArchType::Aarch64 => 5,
            ProcessorSpecificBlockArchType::RiscVRv32 => 6,
            ProcessorSpecificBlockArchType::RiscVRv64 => 7,
            ProcessorSpecificBlockArchType::RiscVRv128 => 8,
            ProcessorSpecificBlockArchType::LoongArch32 => 9,
            ProcessorSpecificBlockArchType::LoongArch64 => 0xa,
        }
    }

    /// The number of the variant in the SMBIOS specification.
    pub fn value(&self) -> (r: u8)
        ensures
            r == self.spec_value(),
    {
        match self {
            ProcessorSpecificBlockArchType::Reserved => 0,
            ProcessorSpecificBlockArchType::Ia32 => 1,
            ProcessorSpecificBlockArchType::X64 => 2,
            ProcessorSpecificBlockArchType::Itanium => 3,
            ProcessorSpecificBlockArchType::Aarch32 => 4,
            ProcessorSpecificBlockArchType::Aarch64 => 5,
            ProcessorSpecificBlockArchType::RiscVRv32 => 6,
            ProcessorSpecificBlockArchType::RiscVRv64 => 7,
            ProcessorSpecificBlockArchType::RiscVRv128 => 8,
            ProcessorSpecificBlockArchType::LoongArch32 => 9,
            ProcessorSpecificBlockArchType::LoongArch64 => 0xa,
        }
    }
}

/// Processor Specific Block is the standard container of processor-specific data.
pub struct ProcessorSpecificBlock {
    /// Length of block
    pub length: u8,
    /// Processor architecture type
    pub processor_arch_type: u8,
}

/// Processor Additional Information(Type 44).
///
/// The information in this structure defines the processor additional information in case
/// SMBIOS type 4 is not sufficient to describe processor characteristics.
/// The SMBIOS type 44 structure has a reference handle field to link back to the related
/// SMBIOS type 4 structure. There may be multiple SMBIOS type 44 structures linked to the
/// same SMBIOS type 4 structure. For example, when cores are not identical in a processor,
/// SMBIOS type 44 structures describe different core-specific information.
///
/// SMBIOS type 44 defines the standard header for the processor-specific block, while the
/// contents of processor-specific data are maintained by processor
/// architecture workgroups or vendors in separate documents.
pub struct SmbiosTableType44 {
    /// Structure header
    pub hdr: SmbiosStructure,
    /// Reference handle to associated SMBIOS type 4
    pub ref_handle: SmbiosHandle,
    /// Processor-specific block
    pub processor_specific_block: ProcessorSpecificBlock,
}

/// TPM Device (Type 43).
pub struct SmbiosTableType43 {
    /// Structure header
    pub hdr: SmbiosStructure,
    /// Vendor ID
    pub vendor_id: [u8; 4],
    /// Major specification version
    pub major_spec_version: u8,
    /// Minor specification version
    pub minor_spec_version: u8,
    /// Firmware version 1
    pub firmware_version1: u32,
    /// Firmware version 2
    pub firmware_version2: u32,
    /// Description string
    pub description: SmbiosTableString,
    /// Characteristics
    pub characteristics: u64,
    /// OEM defined value
    pub oem_defined: u32,
}

/// Firmware Inventory Version Format Type (Type 45).
pub enum FirmwareInventoryVersionFormatType {
    /// Free form version
    FreeForm,
    /// Major/minor version
    MajorMinor,
    /// 32-bit hex version
    ThirtyTwoBitHex,
    /// 64-bit hex version
    SixtyFourBitHex,
    /// Reserved
    Reserved,
    /// OEM-specific version
    Oem,
}

impl FirmwareInventoryVersionFormatType {
    /// The number of the variant in the SMBIOS specification.
    pub open spec fn spec_value(&self) -> u8 {
        match self {
            FirmwareInventoryVersionFormatType::FreeForm => 0,
            FirmwareInventoryVersionFormatType::MajorMinor => 1,
            FirmwareInventoryVersionFormatType::ThirtyTwoBitHex => 2,
            FirmwareInventoryVersionFormatType::SixtyFourBitHex => 3,
            FirmwareInventoryVersionFormatType::Reserved => 4,
            FirmwareInventoryVersionFormatType::Oem => 0x80,
        }
    }

    /// The number of the variant in the SMBIOS specification.
    pub fn value(&self) -> (r: u8)
        ensures
            r == self.spec_value(),
    {
        match self {
            FirmwareInventoryVersionFormatType::FreeForm => 0,
            FirmwareInventoryVersionFormatType::MajorMinor => 1,
            FirmwareInventoryVersionFormatType::ThirtyTwoBitHex => 2,
            FirmwareInventoryVersionFormatType::SixtyFourBitHex => 3,
            FirmwareInventoryVersionFormatType::Reserved => 4,
            FirmwareInventoryVersionFormatType::Oem => 0x80,
        }
    }
}

/// Firmware Inventory Firmware Id Format Type (Type 45).
pub enum FirmwareInventoryFirmwareIdFormatType {
    /// Free form ID
    FreeForm,
    /// UUID ID
    Uuid,
    /// Reserved
    Reserved,
    /// OEM-specific ID
    Oem,
}

impl FirmwareInventoryFirmwareIdFormatType {
    /// The number of the variant in the SMBIOS specification.
    pub open spec fn spec_value(&self) -> u8 {
        match self {
            FirmwareInventoryFirmwareIdFormatType::FreeForm => 0,
            FirmwareInventoryFirmwareIdFormatType::Uuid => 1,
            FirmwareInventoryFirmwareIdFormatType::Reserved => 4,
            FirmwareInventoryFirmwareIdFormatType::Oem => 0x80,
        }
    }

    /// The number of the variant in the SMBIOS specification.
    pub fn value(&self) -> (r: u8)
        ensures
            r == self.spec_value(),
    {
        match self {
            FirmwareInventoryFirmwareIdFormatType::FreeForm => 0,
            FirmwareInventoryFirmwareIdFormatType::Uuid => 1,
            FirmwareInventoryFirmwareIdFormatType::Reserved => 4,
            FirmwareInventoryFirmwareIdFormatType::Oem => 0x80,
        }
    }
}

/// Firmware Inventory Firmware Characteristics (Type 45).
///
/// Firmware characteristics bitfield
#[derive(Debug, Clone, Copy)]
pub struct FirmwareCharacteristics(pub u16);

impl FirmwareCharacteristics {
    /// Updatable flag
    pub fn updatable(&self) -> (r: bool)
        ensures
            r == ((self.0 >> 0u32) & 1 == 1),
    {
        (self.0 >> 0u32) & 1 == 1
    }

    /// Write protected flag
    pub fn write_protected(&self) -> (r: bool)
        ensures
            r == ((self.0 >> 1u32) & 1 == 1),
    {
        (self.0 >> 1u32) & 1 == 1
    }

    /// Reserved bits
    pub fn reserved(&self) -> (r: u16)
        ensures
            r == ((self.0 >> 3u32) & 0x1fff),
    {
        ((self.0 >> 3u32) & 0x1fff)
    }
}

/// Firmware Inventory State Information (Type 45).
pub enum FirmwareInventoryState {
    /// Other state
    Other,
    /// Unknown state
    Unknown,
    /// Disabled state
    Disabled,
    /// Enabled state
    Enabled,
    /// Absent state
    Absent,
    /// Standby offline state
    StandbyOffline,
    /// Standby spare state
    StandbySpare,
    /// Unavailable offline state
    UnavailableOffline,
}

impl FirmwareInventoryState {
    /// The number of the variant in the SMBIOS specification.
    pub open spec fn spec_value(&self) -> u8 {
        match self {
            FirmwareInventoryState::Other => 1,
            FirmwareInventoryState::Unknown => 2,
            FirmwareInventoryState::Disabled => 3,
            FirmwareInventoryState::Enabled => 4,
            FirmwareInventoryState::Absent => 5,
            FirmwareInventoryState::StandbyOffline => 6,
            FirmwareInventoryState::StandbySpare => 7,
            FirmwareInventoryState::UnavailableOffline => 8,
        }
    }

    /// The number of the variant in the SMBIOS specification.
    pub fn value(&self) -> (r: u8)
        ensures
            r == self.spec_value(),
    {
        match self {
            FirmwareInventoryState::Other => 1,
            FirmwareInventoryState::Unknown => 2,
            FirmwareInventoryState::Disabled => 3,
            FirmwareInventoryState::Enabled => 4,
            FirmwareInventoryState::Absent => 5,
            FirmwareInventoryState::StandbyOffline => 6,
            FirmwareInventoryState::StandbySpare => 7,
            FirmwareInventoryState::UnavailableOffline => 8,
        }
    }
}

/// Firmware Inventory Information (Type 45)
///
/// The information in this structure defines an inventory of firmware
/// components in the system. This can include firmware components such as
/// BIOS, BMC, as well as firmware for other devices in the system.
/// The information can be used by software to display the firmware inventory
/// in a uniform manner. It can also be used by a management controller,
/// such as a BMC, for remote system management.
/// This structure is not intended to replace other standard programmatic
/// interfaces for firmware updates.
/// One Type 45 structure is provided for each firmware component.
pub struct SmbiosTableType45 {
    /// Structure header
    pub hdr: SmbiosStructure,
    /// Firmware component name
    pub firmware_component_name: SmbiosTableString,
    /// Firmware version string
    pub firmware_version: SmbiosTableString,
    /// Firmware version format (FIRMWARE_INVENTORY_VERSION_FORMAT_TYPE)
    pub firmware_version_format: u8,
    /// Firmware ID string
    pub firmware_id: SmbiosTableString,
    /// Firmware ID format (FIRMWARE_INVENTORY_FIRMWARE_ID_FORMAT_TYPE)
    pub firmware_id_format: u8,
    /// Release date string
    pub release_date: SmbiosTableString,
    /// Manufacturer string
    pub manufacturer: SmbiosTableString,
    /// Lowest supported version string
    pub lowest_supported_version: SmbiosTableString,
    /// Image size
    pub image_size: u64,
    /// Firmware characteristics
    pub characteristics: FirmwareCharacteristics,
    /// State (FIRMWARE_INVENTORY_STATE)
    pub state: u8,
    /// Associated component count
    pub associated_component_count: u8,
}

/// String Property IDs (Type 46).
pub enum StringPropertyId {
    /// No property
    NoProperty,
    /// Device path property
    DevicePath,
    /// Reserved property
    Reserved,
    /// BIOS vendor property
    BiosVendor,
    /// OEM property
    Oem,
}

impl StringPropertyId {
    /// The number of the variant in the SMBIOS specification.
    pub open spec fn spec_value(&self) -> u16 {
        match self {
            StringPropertyId::NoProperty => 0,
            StringPropertyId::DevicePath => 1,
            StringPropertyId::Reserved => 2,
            StringPropertyId::BiosVendor => 0x8000,
            StringPropertyId::Oem => 0xc000,
        }
    }

    /// The number of the variant in the SMBIOS specification.
    pub fn value(&self) -> (r: u16)
        ensures
            r == self.spec_value(),
    {
        match self {
            StringPropertyId::NoProperty => 0,
            StringPropertyId::DevicePath => 1,
            StringPropertyId::Reserved => 2,
            StringPropertyId::BiosVendor => 0x8000,
            StringPropertyId::Oem => 0xc000,
        }
    }
}

/// This structure defines a string property for another structure.
/// This allows adding string properties that are common to several structures
/// without having to modify the definitions of these structures.
/// Multiple type 46 structures can add string properties to the same
/// parent structure.
pub struct SmbiosTableType46 {
    /// Structure header
    pub hdr: SmbiosStructure,
    /// String property ID (STRING_PROPERTY_ID)
    pub string_property_id: u16,
    /// String property value
    pub string_property_value: SmbiosTableString,
    /// Parent handle
    pub parent_handle: SmbiosHandle,
}

/// Inactive (Type 126)
pub struct SmbiosTableType126 {
    /// Structure header
    pub hdr: SmbiosStructure,
}

/// End-of-Table (Type 127)
pub struct SmbiosTableType127 {
    /// Structure header
    pub hdr: SmbiosStructure,
}

/// Union of all the possible SMBIOS record types.
pub enum SmbiosStructurePointer {
    /// Pointer to SmbiosStructure
    Hdr(usize),
    /// Pointer to Type 0 structure
    Type0(usize),
    /// Pointer to Type 1 structure
    Type1(usize),
    /// Pointer to Type 2 structure
    Type2(usize),
    /// Pointer to Type 3 structure
    Type3(usize),
    /// Pointer to Type 4 structure
    Type4(usize),
    /// Pointer to Type 5 structure
    Type5(usize),
    /// Pointer to Type 6 structure
    Type6(usize),
    /// Pointer to Type 7 structure
    Type7(usize),
    /// Pointer to Type 8 structure
    Type8(usize),
    /// Pointer to Type 9 structure
    Type9(usize),
    /// Pointer to Type 10 structure
    Type10(usize),
    /// Pointer to Type 11 structure
    Type11(usize),
    /// Pointer to Type 12 structure
    Type12(usize),
    /// Pointer to Type 13 structure
    Type13(usize),
    /// Pointer to Type 14 structure
    Type14(usize),
    /// Pointer to Type 15 structure
    Type15(usize),
    /// Pointer to Type 16 structure
    Type16(usize),
    /// Pointer to Type 17 structure
    Type17(usize),
    /// Pointer to Type 18 structure
    Type18(usize),
    /// Pointer to Type 19 structure
    Type19(usize),
    /// Pointer to Type 20 structure
    Type20(usize),
    /// Pointer to Type 21 structure
    Type21(usize),
    /// Pointer to Type 22 structure
    Type22(usize),
    /// Pointer to Type 23 structure
    Type23(usize),
    /// Pointer to Type 24 structure
    Type24(usize),
    /// Pointer to Type 25 structure
    Type25(usize),
    /// Pointer to Type 26 structure
    Type26(usize),
    /// Pointer to Type 27 structure
    Type27(usize),
    /// Pointer to Type 28 structure
    Type28(usize),
    /// Pointer to Type 29 structure
    Type29(usize),
    /// Pointer to Type 30 structure
    Type30(usize),
    /// Pointer to Type 31 structure
    Type31(usize),
    /// Pointer to Type 32 structure
    Type32(usize),
    /// Pointer to Type 33 structure
    Type33(usize),
    /// Pointer to Type 34 structure
    Type34(usize),
    /// Pointer to Type 35 structure
    Type35(usize),
    /// Pointer to Type 36 structure
    Type36(usize),
    /// Pointer to Type 37 structure
    Type37(usize),
    /// Pointer to Type 38 structure
    Type38(usize),
    /// Pointer to Type 39 structure
    Type39(usize),
    /// Pointer to Type 40 structure
    Type40(usize),
    /// Pointer to Type 41 structure
    Type41(usize),
    /// Pointer to Type 42 structure
    Type42(usize),
    /// Pointer to Type 43 structure
    Type43(usize),
    /// Pointer to Type 44 structure
    Type44(usize),
    /// Pointer to Type 45 structure
    Type45(usize),
    /// Pointer to Type 46 structure
    Type46(usize),
    /// Pointer to Type 126 structure
    Type126(usize),
    /// Pointer to Type 127 structure
    Type127(usize),
    /// Pointer to raw data
    Raw(usize),
}

/// Unsigned integer type for SMBIOS
pub type UIntn = usize;

/// SMBIOS record Header
///
/// An SMBIOS internal Record is an EFI_SMBIOS_RECORD_HEADER followed by
/// (RecordSize - HeaderSize) bytes of data. The format of the data is
/// defined by the SMBIOS spec.
///
/// If they are only intended for Rust usage, consider making safer by avoiding types with header
/// plus untyped/unconstrained data after them and using e.g. a slice (or a Vec) and accessor routines.
/// If they are intended for use in FFI, then this is probably fine to match the C style approach.
pub struct EfiSmbiosRecordHeader {
    /// Record version
    pub version: u16,
    /// Header size
    pub header_size: u16,
    /// Record size
    pub record_size: UIntn,
    /// Producer handle
    pub producer_handle: usize,
    /// Number of strings
    pub number_of_strings: UIntn,
}

/// EFI SMBIOS Table End Structure
pub struct EfiSmbiosTableEndStructure {
    /// Table end header
    pub header: EfiSmbiosTableHeader,
    /// Tailing bytes
    pub tailing: [u8; 2],
}

} // verus!
