//! Configuration of the ESRT component.

use vstd::prelude::*;

verus! {

/// Configuration of the ESRT component.
#[derive(Debug, Clone, Copy, PartialEq, Eq, Structural)]
pub struct EsrtConfig {
    /// Maximum number of FMP entries.
    pub max_fmp_entries: u32,
}

impl Default for EsrtConfig {
    /// Room for 32 FMP entries.
    fn default() -> (r: Self)
        ensures
            r.max_fmp_entries == 32,
    {
        Self { max_fmp_entries: 32 }
    }
}

} // verus!
