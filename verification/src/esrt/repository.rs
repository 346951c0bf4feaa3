//! Storage of ESRT entries.

use vstd::prelude::*;

verus! {

/// Storage of ESRT entries.
#[derive(Debug, Clone, Copy, PartialEq, Eq, Structural)]
pub struct EsrtRepository;

impl EsrtRepository {
    /// A repository for entries from Firmware Management Protocol
    /// instances, of at most `max_entries` entries.
    pub fn new_fmp(max_entries: u32) -> (r: Self)
        ensures
            r == EsrtRepository,
    {
        Self
    }

    /// A repository for entries that do not come from the Firmware
    /// Management Protocol, of at most `max_entries` entries.
    pub fn new_non_fmp(max_entries: u32) -> (r: Self)
        ensures
            r == EsrtRepository,
    {
        Self
    }
}

} // verus!
