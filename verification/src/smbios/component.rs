//! The SMBIOS provider component.

use vstd::prelude::*;

verus! {

/// Initializes and exposes the SMBIOS service.
#[derive(Debug, Clone, Copy)]
pub struct SmbiosProvider;

impl SmbiosProvider {
    /// Creates the provider.
    pub fn new() -> (r: Self)
        ensures
            r == SmbiosProvider,
    {
        Self {}
    }
}

impl Default for SmbiosProvider {
    fn default() -> (r: Self)
        ensures
            r == SmbiosProvider,
    {
        Self::new()
    }
}

} // verus!
