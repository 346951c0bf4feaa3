//! Errors of the ACPI table and AML services.

use vstd::prelude::*;

verus! {

/// Errors of the ACPI table service.
#[derive(Debug, Clone, Copy, PartialEq, Eq, Structural)]
pub enum AcpiError {
    /// The requested XSDT entry lies beyond the end of the XSDT.
    InvalidXsdtEntry,
    /// The RSDP address handed over by the HOB is null.
    NullRsdpFromHob,
    /// A table does not carry the expected signature.
    InvalidSignature,
    /// The RSDP does not point to an XSDT.
    XsdtNotInitializedFromHob,
    /// The XSDT is shorter than a standard ACPI header.
    XsdtInvalidLengthFromHob,
}

/// Errors of the AML parser.
#[derive(Debug, Clone, Copy, PartialEq, Eq, Structural)]
pub enum AmlError {
    /// The handle does not refer to an open table.
    InvalidHandle,
    /// The checksum of a table could not be updated when it was closed.
    CloseFailedChecksumUpdate,
    /// The table does not hold the requested AML stream.
    InvalidAcpiTable,
    /// A read would go past the end of the AML stream.
    OutOfBounds,
    /// The opcode is unknown or has an operand that cannot be sized.
    InvalidOpcode,
}

} // verus!
