//! ACPI table layouts, for ACPI 2.0 and later. Fields that belong to ACPI
//! 1.0 are named with a leading underscore and are not used.

use crate::le_bytes::{le32, push_bytes, push_le32};
use vstd::prelude::*;

verus! {

/// An ACPI address space (EFI_ACPI_3_0_GENERIC_ADDRESS_STRUCTURE).
#[derive(Debug, Clone, Copy, Default, PartialEq, Eq, Structural)]
pub struct GenericAddressStructure {
    /// Address space: 0 for system memory, 1 for system I/O.
    pub address_space_id: u8,
    /// Size of the register in bits.
    pub register_bit_width: u8,
    /// Bit offset of the register.
    pub register_bit_offset: u8,
    /// Access size.
    pub access_size: u8,
    /// Address of the register.
    pub address: u64,
}

/// The body of the FADT, after its standard header.
#[derive(Debug, Clone, Copy, Default)]
pub struct FadtData {
    pub _firmware_ctrl: u32,
    pub _dsdt: u32,
    pub _reserved0: u8,
    pub preferred_pm_profile: u8,
    pub sci_int: u16,
    pub smi_cmd: u32,
    pub acpi_enable: u8,
    pub acpi_disable: u8,
    pub s4bios_req: u8,
    pub pstate_cnt: u8,
    pub pm1a_evt_blk: u32,
    pub pm1b_evt_blk: u32,
    pub pm1a_cnt_blk: u32,
    pub pm1b_cnt_blk: u32,
    pub pm2_cnt_blk: u32,
    pub pm_tmr_blk: u32,
    pub gpe0_blk: u32,
    pub gpe1_blk: u32,
    pub pm1_evt_len: u8,
    pub pm1_cnt_len: u8,
    pub pm2_cnt_len: u8,
    pub pm_tmr_len: u8,
    pub gpe0_blk_len: u8,
    pub gpe1_blk_len: u8,
    pub gpe1_base: u8,
    pub cst_cnt: u8,
    pub p_lvl2_lat: u16,
    pub p_lvl3_lat: u16,
    pub flush_size: u16,
    pub flush_stride: u16,
    pub duty_offset: u8,
    pub duty_width: u8,
    pub day_alrm: u8,
    pub mon_alrm: u8,
    pub century: u8,
    pub ia_pc_boot_arch: u16,
    pub reserved1: u8,
    pub flags: u32,
    pub reset_reg: GenericAddressStructure,
    pub reset_value: u8,
    pub reserved2: [u8; 3],
    /// 64-bit address of the FACS.
    pub x_firmware_ctrl: u64,
    /// 64-bit address of the DSDT.
    pub x_dsdt: u64,
    pub x_pm1a_evt_blk: GenericAddressStructure,
    pub x_pm1b_evt_blk: GenericAddressStructure,
    pub x_pm1a_cnt_blk: GenericAddressStructure,
    pub x_pm1b_cnt_blk: GenericAddressStructure,
    pub x_pm2_cnt_blk: GenericAddressStructure,
    /// Address space information of the ACPI PM timer.
    pub x_pm_tmr_blk: GenericAddressStructure,
    pub x_gpe0_blk: GenericAddressStructure,
    pub x_gpe1_blk: GenericAddressStructure,
}

/// The FADT (EFI_ACPI_3_0_FIXED_ACPI_DESCRIPTION_TABLE).
#[derive(Debug, Clone, Copy, Default)]
pub struct AcpiFadt {
    /// Standard ACPI header.
    pub header: AcpiTableHeader,
    /// The fields that follow the header.
    pub inner: FadtData,
}

/// Whether every field of an address space is zero.
pub open spec fn gas_is_zero(g: GenericAddressStructure) -> bool {
    g.address_space_id == 0 && g.register_bit_width == 0 && g.register_bit_offset == 0 && g.access_size == 0
        && g.address == 0
}

impl AcpiFadt {
    /// The `X_PM_TMR_BLK` field, which locates the ACPI PM timer; `None`
    /// when all its fields are zero (no PM timer).
    pub fn x_pm_timer_blk(&self) -> (r: Option<GenericAddressStructure>)
        ensures
            r == (if gas_is_zero(self.inner.x_pm_tmr_blk) {
                None
            } else {
                Some(self.inner.x_pm_tmr_blk)
            }),
    {
        let tmr_info = self.inner.x_pm_tmr_blk;
        let all_fields_zero = tmr_info.address_space_id == 0 && tmr_info.register_bit_width == 0
            && tmr_info.register_bit_offset == 0 && tmr_info.access_size == 0 && tmr_info.address == 0;
        if all_fields_zero {
            None
        } else {
            Some(tmr_info)
        }
    }
}

/// The FACS (EFI_ACPI_3_0_FIRMWARE_ACPI_CONTROL_STRUCTURE). It has no
/// standard header and is reached through the FADT's `x_firmware_ctrl`.
#[derive(Clone, Copy, Default)]
pub struct AcpiFacs {
    pub signature: u32,
    pub length: u32,
    pub hardware_signature: u32,
    pub _firmware_waking_vector: u32,
    pub global_lock: u32,
    pub flags: u32,
    pub x_firmware_waking_vector: u64,
    pub version: u8,
    pub reserved: [u8; 31],
}

/// The DSDT: a standard header followed by AML bytecode, reached through
/// the FADT's `x_dsdt`.
#[derive(Clone, Copy, Default)]
pub struct AcpiDsdt {
    /// Standard ACPI header.
    pub header: AcpiTableHeader,
}

/// The RSDP (EFI_ACPI_3_0_ROOT_SYSTEM_DESCRIPTION_POINTER). It has no
/// standard header.
#[derive(Default)]
pub struct AcpiRsdp {
    /// "RSD PTR ".
    pub signature: u64,
    pub checksum: u8,
    pub oem_id: [u8; 6],
    pub revision: u8,
    pub _rsdt_address: u32,
    pub length: u32,
    /// 64-bit address of the XSDT.
    pub xsdt_address: u64,
    pub extended_checksum: u8,
    pub reserved: [u8; 3],
}

impl AcpiRsdp {
    /// The address of the XSDT.
    pub fn xsdt_address(&self) -> (r: u64)
        ensures
            r == self.xsdt_address,
    {
        self.xsdt_address
    }
}

/// The XSDT: a standard header followed by the 64-bit addresses of the
/// installed tables.
#[derive(Clone, Copy, Default)]
pub struct AcpiXsdt {
    /// Standard ACPI header.
    pub header: AcpiTableHeader,
}

/// The standard ACPI header (EFI_ACPI_DESCRIPTION_HEADER).
#[derive(Debug, Clone, Copy, Default)]
pub struct AcpiTableHeader {
    pub signature: u32,
    pub length: u32,
    pub revision: u8,
    pub checksum: u8,
    pub oem_id: [u8; 6],
    pub oem_table_id: [u8; 8],
    pub oem_revision: u32,
    pub creator_id: u32,
    pub creator_revision: u32,
}

impl AcpiTableHeader {
    /// The 36 bytes of the header in ACPI layout, integers little-endian.
    pub open spec fn spec_bytes(&self) -> Seq<u8> {
        le32(self.signature) + le32(self.length) + seq![self.revision, self.checksum] + self.oem_id@
            + self.oem_table_id@ + le32(self.oem_revision) + le32(self.creator_id) + le32(
            self.creator_revision,
        )
    }

    /// Serializes the header in ACPI layout.
    pub fn hdr_to_bytes(&self) -> (r: Vec<u8>)
        ensures
            r@ == self.spec_bytes(),
            r@.len() == 36,
    {
        let mut buf: Vec<u8> = Vec::new();
        push_le32(&mut buf, self.signature);
        push_le32(&mut buf, self.length);
        buf.push(self.revision);
        buf.push(self.checksum);
        push_bytes(&mut buf, self.oem_id.as_slice());
        push_bytes(&mut buf, self.oem_table_id.as_slice());
        push_le32(&mut buf, self.oem_revision);
        push_le32(&mut buf, self.creator_id);
        push_le32(&mut buf, self.creator_revision);
        assert(buf@ =~= self.spec_bytes());
        buf
    }
}

} // verus!
