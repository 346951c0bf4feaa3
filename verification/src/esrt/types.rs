//! ESRT entry types.

use vstd::prelude::*;

verus! {

/// An ESRT entry.
#[derive(Debug, Clone, Copy)]
pub struct SystemResourceEntry {
    /// Firmware class GUID, as its 16 bytes.
    pub fw_class: [u8; 16],
}

/// Type of a firmware resource.
#[derive(Debug, Clone, Copy, PartialEq, Eq, Structural)]
pub enum FirmwareType {
    /// Unknown firmware type.
    Unknown,
}

/// Status of the last update attempt.
#[derive(Debug, Clone, Copy, PartialEq, Eq, Structural)]
pub enum LastAttemptStatus {
    /// The last attempt succeeded.
    Success,
}

} // verus!
