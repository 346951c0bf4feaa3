//! Access to the XSDT handed over by the HOB: reading its entries and
//! validating the RSDP that points to it.

use crate::acpi::acpi_table::{AcpiRsdp, AcpiTableHeader};
use crate::acpi::error::AcpiError;
use crate::acpi::signature::{ACPI_HEADER_LEN, ACPI_RSDP_TABLE, XSDT};
use crate::le_bytes::{from_le64, read_le64};
use vstd::prelude::*;

verus! {

/// Offset of XSDT entry `idx`: the entries follow the standard header, eight
/// bytes each.
pub open spec fn xsdt_entry_offset(idx: usize) -> int {
    ACPI_HEADER_LEN + idx * 8
}

/// The ACPI table provider.
pub struct StandardAcpiProvider {}

impl StandardAcpiProvider {
    /// Entry `idx` of the XSDT whose first `xsdt_len` bytes are the table
    /// (`xsdt` is the memory that holds it). Only entries that lie wholly
    /// within the table are read: fails with `InvalidXsdtEntry` when the
    /// entry ends past `xsdt_len`.
    pub fn get_xsdt_entry_from_hob(idx: usize, xsdt: &[u8], xsdt_len: usize) -> (r: Result<u64, AcpiError>)
        requires
            xsdt_entry_offset(idx) <= usize::MAX,
            xsdt_len <= xsdt@.len(),
        ensures
            xsdt_entry_offset(idx) + 8 > xsdt_len ==> r == Err::<u64, AcpiError>(AcpiError::InvalidXsdtEntry),
            xsdt_entry_offset(idx) + 8 <= xsdt_len ==> r == Ok::<u64, AcpiError>(
                from_le64(xsdt@.subrange(xsdt_entry_offset(idx), xsdt_entry_offset(idx) + 8)),
            ),
    {
        let offset = ACPI_HEADER_LEN + idx * 8;
        if offset >= xsdt_len || xsdt_len - offset < 8 {
            return Err(AcpiError::InvalidXsdtEntry);
        }
        Ok(read_le64(xsdt, offset))
    }

    /// The XSDT address held by the RSDP at `rsdp_address`, after checking
    /// that the address is not null, that `rsdp` (the structure at that
    /// address) has the RSDP signature and a non-null XSDT address, and that
    /// `xsdt_header` (the header at that XSDT address) has the XSDT
    /// signature and is at least a header long.
    pub fn get_xsdt_address_from_rsdp(rsdp_address: u64, rsdp: &AcpiRsdp, xsdt_header: &AcpiTableHeader) -> (r:
        Result<u64, AcpiError>)
        ensures
            r == (if rsdp_address == 0 {
                Err::<u64, AcpiError>(AcpiError::NullRsdpFromHob)
            } else if rsdp.signature != ACPI_RSDP_TABLE {
                Err(AcpiError::InvalidSignature)
            } else if rsdp.xsdt_address == 0 {
                Err(AcpiError::XsdtNotInitializedFromHob)
            } else if xsdt_header.signature != XSDT {
                Err(AcpiError::InvalidSignature)
            } else if xsdt_header.length < ACPI_HEADER_LEN {
                Err(AcpiError::XsdtInvalidLengthFromHob)
            } else {
                Ok(rsdp.xsdt_address)
            }),
    {
        if rsdp_address == 0 {
            return Err(AcpiError::NullRsdpFromHob);
        }
        if rsdp.signature != ACPI_RSDP_TABLE {
            return Err(AcpiError::InvalidSignature);
        }
        if rsdp.xsdt_address == 0 {
            return Err(AcpiError::XsdtNotInitializedFromHob);
        }
        if xsdt_header.signature != XSDT {
            return Err(AcpiError::InvalidSignature);
        }
        if xsdt_header.length < ACPI_HEADER_LEN as u32 {
            return Err(AcpiError::XsdtInvalidLengthFromHob);
        }
        Ok(rsdp.xsdt_address)
    }
}

} // verus!
