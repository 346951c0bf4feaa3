//! Errors returned by SMBIOS operations.

use vstd::prelude::*;

verus! {

/// SMBIOS operation errors.
///
/// Covers string validation, record format, handle management, resource
/// allocation, manager state and version support.
#[derive(Debug, Clone, Copy, PartialEq, Eq, Structural)]
pub enum SmbiosError {
    /// String exceeds the maximum allowed length (64 bytes).
    StringTooLong,
    /// String contains a null byte (terminators are added during serialization).
    StringContainsNull,
    /// Empty string in a string pool (consecutive null bytes).
    EmptyStringInPool,
    /// Record buffer is too small to contain an SMBIOS header.
    RecordTooSmall,
    /// Record header is malformed.
    MalformedRecordHeader,
    /// String pool is missing the double-null termination.
    InvalidStringPoolTermination,
    /// String pool area is smaller than two bytes.
    StringPoolTooSmall,
    /// All handles are in use.
    HandleExhausted,
    /// No record carries the given handle.
    HandleNotFound,
    /// String index is out of range for the record.
    StringIndexOutOfRange,
    /// Memory for the table or entry point could not be allocated.
    AllocationFailed,
    /// No records are available to install.
    NoRecordsAvailable,
    /// The manager has already been initialized.
    AlreadyInitialized,
    /// The manager has not been initialized.
    NotInitialized,
    /// Only SMBIOS 3.0 and later are supported.
    UnsupportedVersion,
}

} // verus!
