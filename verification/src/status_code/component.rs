//! The status code component.

use vstd::prelude::*;

verus! {

/// Initializes the report status code handler and exposes it as a service.
#[derive(Debug, Clone, Copy, Default)]
pub struct StatusCodeInit {}

impl StatusCodeInit {
    /// Creates the component.
    pub fn new() -> (r: Self)
        ensures
            r == (StatusCodeInit {}),
    {
        Self {}
    }
}

} // verus!
