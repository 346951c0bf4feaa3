//! Configuration of the SMBIOS component.

use vstd::prelude::*;

verus! {

/// SMBIOS version the table is published as.
#[derive(Debug, Clone, Copy, PartialEq, Eq, Structural)]
pub struct SmbiosConfiguration {
    /// SMBIOS major version (3 for SMBIOS 3.x).
    pub major_version: u8,
    /// SMBIOS minor version.
    pub minor_version: u8,
}

impl Default for SmbiosConfiguration {
    /// SMBIOS 3.9.
    fn default() -> (r: Self)
        ensures
            r.major_version == 3,
            r.minor_version == 9,
    {
        SmbiosConfiguration { major_version: 3, minor_version: 9 }
    }
}

} // verus!
